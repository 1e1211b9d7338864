use rust_ls::entry::File;
use rust_ls::render::{is_hidden_name, render_files, total_of};

fn file(name: &str, is_dir: bool, size: u64, nblocks: u64) -> File {
    File {
        name: name.to_string(),
        size,
        is_dir,
        user: "alice".to_string(),
        group: "staff".to_string(),
        permissions: if is_dir { "rwxr-xr-x" } else { "rw-r--r--" }.to_string(),
        date: "Jan  3 09:15".to_string(),
        nlink: if is_dir { 2 } else { 1 },
        nblocks,
    }
}

fn directory() -> Vec<File> {
    vec![
        file(".", true, 4096, 8),
        file("..", true, 4096, 8),
        file("a", false, 10, 1),
        file(".hidden", false, 20, 2),
        file("b", false, 30, 3),
    ]
}

#[test]
fn short_format_hides_dot_names() {
    assert_eq!(render_files(&directory(), false, false), "a b \n");
}

#[test]
fn short_format_shows_hidden_and_synthetic() {
    assert_eq!(render_files(&directory(), true, false), ". .. a .hidden b \n");
}

#[test]
fn long_format_rows() {
    let files = vec![file("docs", true, 4096, 8), file("a.txt", false, 12, 4)];
    let expected = "total 12\n\
        drwxr-xr-x 2 alice staff 4096 Jan  3 09:15 docs\n\
        -rw-r--r-- 1 alice staff 12 Jan  3 09:15 a.txt\n\
        \n";
    assert_eq!(render_files(&files, false, true), expected);
}

#[test]
fn long_total_counts_hidden_entries() {
    let files = directory();
    assert_eq!(total_of(&files), 22);
    let hidden_off = render_files(&files, false, true);
    let hidden_on = render_files(&files, true, true);
    assert!(hidden_off.starts_with("total 22\n"));
    assert!(hidden_on.starts_with("total 22\n"));
    assert_eq!(hidden_off.lines().count(), 4);
    assert_eq!(hidden_on.lines().count(), 7);
}

#[test]
fn empty_listing() {
    assert_eq!(render_files(&Vec::new(), false, false), "\n");
    assert_eq!(render_files(&Vec::new(), true, true), "total 0\n\n");
}

#[test]
fn total_does_not_overflow() {
    let files = vec![file("x", false, 1, u64::MAX), file("y", false, 1, u64::MAX)];
    assert_eq!(total_of(&files), 2 * (u64::MAX as u128));
    assert!(render_files(&files, false, true).starts_with("total 36893488147419103230\n"));
}

#[test]
fn listing_twice_is_identical() {
    let first = render_files(&directory(), true, true);
    let second = render_files(&directory(), true, true);
    assert_eq!(first, second);
}

#[test]
fn hidden_names() {
    assert!(is_hidden_name(&".git".to_string()));
    assert!(is_hidden_name(&".".to_string()));
    assert!(!is_hidden_name(&"a.b".to_string()));
    assert!(!is_hidden_name(&String::new()));
}

#[test]
fn short_format_lists_shown_in_order() {
    let files = vec![file("b", false, 1, 1), file(".x", false, 1, 1), file("a", true, 1, 1)];
    assert_eq!(render_files(&files, false, false), "b a \n");
    assert_eq!(render_files(&files, true, false), "b .x a \n");
}
