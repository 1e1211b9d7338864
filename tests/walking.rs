use rust_ls::entry::File;
use rust_ls::walk::Walker;

fn file(name: &str, is_dir: bool) -> File {
    File {
        name: name.to_string(),
        size: 0,
        is_dir,
        user: "u".to_string(),
        group: "g".to_string(),
        permissions: "rwxr-xr-x".to_string(),
        date: "Feb 10 12:00".to_string(),
        nlink: 1,
        nblocks: 0,
    }
}

fn walk<F: Fn(&str) -> Vec<File>>(walker: &mut Walker, tree: &F) -> (String, Vec<(String, bool)>) {
    let mut out = String::new();
    let mut visited = Vec::new();
    while let Some((dir, synthetic)) = walker.next_dir() {
        visited.push((dir.clone(), synthetic));
        let files = tree(&dir);
        out.push_str(&walker.visit(&dir, &files));
        assert!(visited.len() < 100, "walk does not end");
    }
    (out, visited)
}

#[test]
fn subdirectory_listed_after_parent() {
    let tree = |dir: &str| match dir {
        "root" => vec![file("sub", true), file("f.txt", false)],
        "root/sub" => vec![file("inner", false)],
        _ => panic!("unexpected directory {}", dir),
    };
    let mut walker = Walker::new("root".to_string(), false, false);
    let (out, visited) = walk(&mut walker, &tree);
    assert_eq!(out, "root:\nsub f.txt \n\nroot/sub:\ninner \n\n");
    assert_eq!(
        visited,
        vec![("root".to_string(), false), ("root/sub".to_string(), false)]
    );
}

#[test]
fn depth_first_pre_order() {
    let tree = |dir: &str| match dir {
        "r" => vec![file("x", true), file("y", true)],
        "r/x" => vec![file("z", true)],
        "r/x/z" | "r/y" => vec![],
        _ => panic!("unexpected directory {}", dir),
    };
    let mut walker = Walker::new("r".to_string(), false, false);
    let (_, visited) = walk(&mut walker, &tree);
    let order: Vec<&str> = visited.iter().map(|(d, _)| d.as_str()).collect();
    assert_eq!(order, vec!["r", "r/x", "r/x/z", "r/y"]);
}

#[test]
fn never_reenters_dot_entries() {
    let tree = |dir: &str| match dir {
        "top" => vec![file(".", true), file("..", true), file("a", false), file("sub", true)],
        "top/sub" => vec![file("b", false)],
        _ => panic!("unexpected directory {}", dir),
    };
    let mut walker = Walker::new("top".to_string(), true, false);
    let (out, visited) = walk(&mut walker, &tree);
    assert_eq!(
        visited,
        vec![("top".to_string(), true), ("top/sub".to_string(), false)]
    );
    assert_eq!(out, "top:\n. .. a sub \n\ntop/sub:\nb \n\n");
}

#[test]
fn hidden_directories_skipped_unless_shown() {
    let tree = |dir: &str| match dir {
        "h" => vec![file(".cache", true), file("v", true)],
        "h/.cache" | "h/v" => vec![],
        _ => panic!("unexpected directory {}", dir),
    };
    let mut hidden_off = Walker::new("h".to_string(), false, false);
    let (_, visited) = walk(&mut hidden_off, &tree);
    let order: Vec<&str> = visited.iter().map(|(d, _)| d.as_str()).collect();
    assert_eq!(order, vec!["h", "h/v"]);

    let mut hidden_on = Walker::new("h".to_string(), true, false);
    let (_, visited) = walk(&mut hidden_on, &tree);
    let order: Vec<&str> = visited.iter().map(|(d, _)| d.as_str()).collect();
    assert_eq!(order, vec!["h", "h/.cache", "h/v"]);
}

#[test]
fn long_recursive_section() {
    let tree = |dir: &str| match dir {
        "d" => vec![file("f", false)],
        _ => panic!("unexpected directory {}", dir),
    };
    let mut walker = Walker::new("d".to_string(), false, true);
    let (out, _) = walk(&mut walker, &tree);
    assert_eq!(out, "d:\ntotal 0\n-rwxr-xr-x 1 u g 0 Feb 10 12:00 f\n\n\n");
}

#[test]
fn unreadable_root_stops_walk() {
    let mut walker = Walker::new("gone".to_string(), false, false);
    let (dir, _) = walker.next_dir().unwrap();
    assert_eq!(dir, "gone");
    assert!(walker.skip_unreadable());
    assert!(walker.next_dir().is_none());
}

#[test]
fn unreadable_subdirectory_is_skipped() {
    let mut walker = Walker::new("r".to_string(), false, false);
    let (root, _) = walker.next_dir().unwrap();
    walker.visit(&root, &vec![file("locked", true), file("open", true)]);
    let (locked, _) = walker.next_dir().unwrap();
    assert_eq!(locked, "r/locked");
    assert!(!walker.skip_unreadable());
    let (open, synthetic) = walker.next_dir().unwrap();
    assert_eq!(open, "r/open");
    assert!(!synthetic);
}
