use messyenv::init::{check_init_allowed, environment_template, init_message, init_plan};
use messyenv::paths::{
    environment_file, local_dir, package_workdir, root_candidate, script_path, scripts_dir,
    workdir_dir,
};
use messyenv::status::MessyError;

#[test]
fn root_is_fixed_name_subdirectory() {
    assert_eq!(root_candidate("/home/op/project"), "/home/op/project/.messyenv");
}

#[test]
fn fixed_children_paths() {
    let root = "/p/.messyenv";
    assert_eq!(scripts_dir(root), "/p/.messyenv/install-scripts");
    assert_eq!(local_dir(root), "/p/.messyenv/local");
    assert_eq!(workdir_dir(root), "/p/.messyenv/workdir");
    assert_eq!(environment_file(root), "/p/.messyenv/environment");
}

#[test]
fn per_package_paths() {
    let root = "/p/.messyenv";
    assert_eq!(script_path(root, "cmake"), "/p/.messyenv/install-scripts/cmake");
    assert_eq!(package_workdir(root, "cmake"), "/p/.messyenv/workdir/cmake");
}

#[test]
fn init_plan_creates_all_four_children() {
    let plan = init_plan("/home/op/project");
    assert_eq!(plan.root, "/home/op/project/.messyenv");
    assert_eq!(
        plan.subdirs,
        vec![
            String::from("/home/op/project/.messyenv/install-scripts"),
            String::from("/home/op/project/.messyenv/local"),
            String::from("/home/op/project/.messyenv/workdir"),
        ]
    );
    assert_eq!(plan.env_file, "/home/op/project/.messyenv/environment");
    assert_eq!(plan.env_content, environment_template());
}

#[test]
fn environment_template_is_the_fixed_text() {
    let expected = "# messyenv shell initialization\n\
                    if [ -f \"$HOME/.bashrc\" ]; then\n    \
                    . \"$HOME/.bashrc\"\n\
                    fi\n\
                    export PATH=\"$MESSYENVLOCAL/bin:$PATH\"\n\
                    PS1=\"(messyenv) $PS1\"\n";
    assert_eq!(environment_template(), expected);
    assert!(environment_template().contains("MESSYENVLOCAL"));
}

#[test]
fn init_against_fresh_directory_is_allowed() {
    assert!(check_init_allowed("/p/.messyenv", false).is_ok());
}

#[test]
fn second_init_is_refused() {
    let r = check_init_allowed("/p/.messyenv", true);
    match r {
        Err(MessyError::FilesystemError { message }) => {
            assert_eq!(message, "/p/.messyenv already exists");
        }
        _ => panic!("re-initialization must be refused"),
    }
}

#[test]
fn init_confirmation_names_the_root() {
    assert_eq!(
        init_message("/p/.messyenv"),
        "Initialized messy environment (/p/.messyenv)"
    );
}
