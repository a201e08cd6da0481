use tassl_build::artifacts::Artifacts;
use tassl_build::copy::{plan_copy, CopyStep, DirEntry};

fn entry(name: &str, is_dir: bool) -> DirEntry {
    DirEntry { name: name.to_string(), is_dir }
}

#[test]
fn copy_plan_skips_git_and_keeps_the_rest_in_order() {
    let entries = vec![
        entry(".git", true),
        entry("crypto", true),
        entry("README", false),
        entry("config", false),
    ];
    let plan = plan_copy(&entries);
    assert_eq!(plan.len(), 3);
    match &plan[0] {
        CopyStep::EnterDir { name } => assert_eq!(name, "crypto"),
        _ => panic!("a directory is entered"),
    }
    match &plan[1] {
        CopyStep::OverwriteFile { name } => assert_eq!(name, "README"),
        _ => panic!("a file is overwritten"),
    }
    match &plan[2] {
        CopyStep::OverwriteFile { name } => assert_eq!(name, "config"),
        _ => panic!("a file is overwritten"),
    }
}

#[test]
fn copy_plan_of_only_git_is_empty() {
    let entries = vec![entry(".git", true)];
    assert!(plan_copy(&entries).is_empty());
}

#[test]
fn a_file_named_like_git_but_not_exactly_is_kept() {
    let entries = vec![entry(".gitignore", false), entry(".git", false)];
    let plan = plan_copy(&entries);
    assert_eq!(plan.len(), 1);
    match &plan[0] {
        CopyStep::OverwriteFile { name } => assert_eq!(name, ".gitignore"),
        _ => panic!("a file is overwritten"),
    }
}

#[test]
fn metadata_lines_name_every_library_and_location() {
    let a = Artifacts::for_install_dir("/opt/out/install");
    let lines = a.cargo_metadata_lines();
    assert_eq!(
        lines,
        vec![
            "cargo:rustc-link-search=native=/opt/out/install/lib".to_string(),
            "cargo:rustc-link-lib=static=ssl".to_string(),
            "cargo:rustc-link-lib=static=crypto".to_string(),
            "cargo:include=/opt/out/install/include".to_string(),
            "cargo:lib=/opt/out/install/lib".to_string(),
        ],
    );
}
