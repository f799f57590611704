use std::path::Path;

use shelterflex_contracts::module_tree_check::paths::{joined, parent_of};
use shelterflex_contracts::module_tree_check::scanner::{
    declared_mods, is_ident, strip_comments, tokenize,
};
use shelterflex_contracts::module_tree_check::text_set::{insert, Order};
use shelterflex_contracts::module_tree_check::{
    find_unreachable_in_crate, resolve_mod, Report, SourceFile, SourceTree,
};

fn file(path: &str, text: &str) -> SourceFile {
    SourceFile {
        path: path.to_string(),
        canonical: path.to_string(),
        is_file: true,
        listed: true,
        text: Some(text.to_string()),
    }
}

fn tree(files: Vec<SourceFile>) -> SourceTree {
    SourceTree { src_dir: "/c/src".to_string(), is_dir: true, files }
}

#[test]
fn detects_declared_mods_ignoring_inline_and_comments() {
    let src = r#"
            mod alpha;
            pub mod beta;
            #[cfg(test)]
            mod gamma;
            // mod commented_out;
            /* mod also_commented; */
            mod inline { mod nested_inline; }
            fn f() { let _ = "mod not_a_decl"; }
        "#;
    let mods = declared_mods(src);
    assert!(mods.contains(&"alpha".to_string()));
    assert!(mods.contains(&"beta".to_string()));
    assert!(mods.contains(&"gamma".to_string()));
    assert!(!mods.contains(&"commented_out".to_string()));
    assert!(!mods.contains(&"also_commented".to_string()));
    // `mod inline { ... }` has no semicolon after the name, so it is not a file ref.
    assert!(!mods.contains(&"inline".to_string()));
    assert_eq!(mods, vec!["alpha".to_string(), "beta".to_string(), "gamma".to_string()]);
}

#[test]
fn ident_validation() {
    assert!(is_ident("foo_bar"));
    assert!(is_ident("_x"));
    assert!(!is_ident("2fast"));
    assert!(!is_ident("a::b"));
    assert!(!is_ident(""));
}

/// A crate with one declared and one undeclared file: exactly the undeclared
/// one is flagged.
#[test]
fn detector_flags_an_undeclared_file_in_a_synthetic_crate() {
    let tree = tree(vec![
        file("/c/src/lib.rs", "pub mod declared;\n"),
        file("/c/src/declared.rs", "pub fn ok() {}\n"),
        file("/c/src/orphan.rs", "pub fn dead() {}\n"),
    ]);
    let report: Report = find_unreachable_in_crate(&tree);
    let flagged: Vec<String> = report
        .unreachable
        .iter()
        .map(|p| p.rsplit('/').next().unwrap().to_string())
        .collect();

    assert!(
        flagged.contains(&"orphan.rs".to_string()),
        "expected orphan.rs to be flagged, got {flagged:?}"
    );
    assert!(
        !flagged.contains(&"declared.rs".to_string()),
        "declared.rs must not be flagged"
    );
    assert!(
        !flagged.contains(&"lib.rs".to_string()),
        "the crate root must not be flagged"
    );
    assert!(!report.is_clean());
}

#[test]
fn comments_are_stripped() {
    assert_eq!(strip_comments("a // b\nc"), "a \nc");
    assert_eq!(strip_comments("a /* b\n */ c"), "a  c");
    assert_eq!(strip_comments("a / b"), "a / b");
    assert_eq!(strip_comments("/* // */x"), "x");
    assert_eq!(strip_comments("// /* \ny"), "\ny");
    assert_eq!(strip_comments("\u{2500}/*\u{2502}*/\u{2500}"), "\u{2500}\u{2500}");
}

#[test]
fn sources_split_into_tokens() {
    assert_eq!(tokenize("pub mod a_1;"), vec!["pub", "mod", "a_1", ";"]);
    assert_eq!(tokenize("x{y}z"), vec!["x", "{", "y", "}", "z"]);
    assert_eq!(tokenize(" #[a] "), vec!["a"]);
    assert!(tokenize("").is_empty());
}

#[test]
fn declarations_at_depth_or_cut_short_do_not_count() {
    assert!(declared_mods("mod a { mod b; }").is_empty());
    assert!(declared_mods("mod a").is_empty());
    assert!(declared_mods("mod 2a;").is_empty());
    // A stray closing brace takes the depth below zero.
    assert!(declared_mods("} mod a;").is_empty());
    assert_eq!(declared_mods("} { mod a;"), vec!["a"]);
    assert_eq!(declared_mods("mod a; mod a;"), vec!["a", "a"]);
}

#[test]
fn declarations_lead_to_flat_files_first() {
    let tree = tree(vec![
        file("/c/src/lib.rs", "mod a; mod b; mod gone;"),
        file("/c/src/a.rs", ""),
        file("/c/src/a/mod.rs", ""),
        file("/c/src/b/mod.rs", "mod inner;"),
        file("/c/src/b/inner.rs", ""),
    ]);
    assert_eq!(resolve_mod(&tree, 0, &"a".to_string()), Some(1));
    assert_eq!(resolve_mod(&tree, 0, &"b".to_string()), Some(3));
    assert_eq!(resolve_mod(&tree, 3, &"inner".to_string()), Some(4));
    assert_eq!(resolve_mod(&tree, 0, &"inner".to_string()), None);
    let report = find_unreachable_in_crate(&tree);
    assert_eq!(report.unreachable, vec!["/c/src/a/mod.rs"]);
    assert_eq!(report.unresolved, vec!["gone"]);
}

#[test]
fn reports_are_ordered() {
    let tree = tree(vec![
        file("/c/src/lib.rs", "mod z; mod y; mod z;"),
        file("/c/src/b.rs", ""),
        file("/c/src/b/x.rs", ""),
        file("/c/src/a.rs", ""),
    ]);
    let report = find_unreachable_in_crate(&tree);
    assert_eq!(report.unresolved, vec!["y", "z"]);
    assert_eq!(report.unreachable, vec!["/c/src/a.rs", "/c/src/b/x.rs", "/c/src/b.rs"]);
    let mut names: Vec<String> = Vec::new();
    for name in ["b/x", "b.y", "b/x"] {
        insert(Order::Names, &mut names, &name.to_string());
    }
    assert_eq!(names, vec!["b.y", "b/x"]);
}

#[test]
fn both_roots_count_and_cycles_end() {
    let tree = tree(vec![
        file("/c/src/main.rs", "mod a;"),
        file("/c/src/lib.rs", "mod b;"),
        file("/c/src/a.rs", "mod b;"),
        file("/c/src/b.rs", "mod a;"),
    ]);
    assert!(find_unreachable_in_crate(&tree).is_clean());
}

#[test]
fn a_file_under_two_paths_is_one_file() {
    let mut link = file("/c/src/link.rs", "");
    link.canonical = "/c/src/real.rs".to_string();
    let tree = tree(vec![
        file("/c/src/lib.rs", "mod link;"),
        link,
        file("/c/src/real.rs", ""),
    ]);
    assert!(find_unreachable_in_crate(&tree).is_clean());
}

#[test]
fn unreadable_files_and_missing_directories() {
    let mut a = file("/c/src/a.rs", "");
    a.text = None;
    let mut found = tree(vec![file("/c/src/lib.rs", "mod a;"), a, file("/c/src/b.rs", "")]);
    assert_eq!(find_unreachable_in_crate(&found).unreachable, vec!["/c/src/b.rs"]);
    found.is_dir = false;
    assert!(find_unreachable_in_crate(&found).is_clean());
    assert_eq!(find_unreachable_in_crate(&found), Report::default());
}

/// Every text of up to `len` characters out of slash, dot and a letter.
fn texts(len: usize) -> Vec<String> {
    let mut all = vec![String::new()];
    let mut longest = all.clone();
    for _ in 0..len {
        let mut next = Vec::new();
        for text in longest.iter() {
            for c in ['/', '.', 'a'] {
                next.push(format!("{text}{c}"));
            }
        }
        all.extend(next.iter().cloned());
        longest = next;
    }
    all
}

#[test]
fn parents_are_those_of_paths() {
    for text in texts(7) {
        let expected = Path::new(&text).parent().map(|p| p.to_str().unwrap().to_string());
        assert_eq!(parent_of(&text), expected, "parent of {text:?}");
    }
}

#[test]
fn joins_are_those_of_paths() {
    for dir in texts(4) {
        for rest in texts(3) {
            let expected = Path::new(&dir).join(&rest).to_str().unwrap().to_string();
            assert_eq!(joined(&dir, &rest), expected, "{dir:?} and {rest:?}");
        }
    }
}

#[test]
fn a_path_without_a_parent_leads_nowhere() {
    for path in ["/", "", "//", "/."] {
        let mut from = file("/c/src/x.rs", "mod a;");
        from.canonical = path.to_string();
        let tree = tree(vec![from, file("/a.rs", ""), file("a.rs", ""), file("//a.rs", "")]);
        assert_eq!(resolve_mod(&tree, 0, &"a".to_string()), None);
    }
    // A single name has the empty path as its parent, and doubled slashes are one.
    let mut beside = file("lib.rs", "mod a;");
    beside.canonical = "lib.rs".to_string();
    let found = tree(vec![beside, file("a.rs", "")]);
    assert_eq!(resolve_mod(&found, 0, &"a".to_string()), Some(1));
    let found = tree(vec![file("/c//src//lib.rs", "mod a;"), file("/c//src/a.rs", "")]);
    assert_eq!(resolve_mod(&found, 0, &"a".to_string()), Some(1));
}
