use netwatch_core::project_content::{collects_file, descends_into, markdown_section, MAX_FILE_SIZE};

#[test]
fn skips_ignored_directories() {
    for name in ["node_modules", ".git", "target", "scripts", "assets"] {
        assert!(!descends_into(name), "{}", name);
    }
    assert!(descends_into("src"));
    assert!(descends_into("crates"));
}

#[test]
fn skips_ignored_and_large_files() {
    assert!(!collects_file("Cargo.lock", Some(10)));
    assert!(!collects_file("README.md", None));
    assert!(collects_file("main.rs", Some(MAX_FILE_SIZE)));
    assert!(!collects_file("main.rs", Some(MAX_FILE_SIZE + 1)));
    assert!(collects_file("main.rs", None));
    assert_eq!(MAX_FILE_SIZE, 1024 * 1024 * 2);
}

#[test]
fn formats_markdown_sections() {
    assert_eq!(
        markdown_section("src/lib.rs", "pub mod a;"),
        format!("{}\n```\n{}\n```\n-----\n", "src/lib.rs", "pub mod a;")
    );
}
