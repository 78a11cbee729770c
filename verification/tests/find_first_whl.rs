use rocm_build::whl::{matches_pattern, select_first_match};

fn check_pattern_logic(filename: &str, pattern: &str) -> bool {
    matches_pattern(filename, pattern)
}

#[test]
fn test_extension_pattern() {
    assert!(check_pattern_logic("example.whl", "*.whl"));
    assert!(!check_pattern_logic("example.txt", "*.whl"));
    assert!(check_pattern_logic("archive.tar.gz", "*.tar.gz"));
    assert!(!check_pattern_logic("archive.tar", "*.tar.gz"));
    assert!(check_pattern_logic("my.file.dots.ext", "*.ext"));
}

#[test]
fn test_contains_pattern() {
    assert!(check_pattern_logic("my_file_name.txt", "file_name"));
    assert!(check_pattern_logic("another.zip", "another"));
    assert!(!check_pattern_logic("widget.dll", "foo"));
}

#[test]
fn test_edge_case_patterns() {
    // Empty filename
    assert!(!check_pattern_logic("", "*.whl"));
    assert!(!check_pattern_logic("", "any"));

    // Empty pattern (defined to match nothing)
    assert!(!check_pattern_logic("example.whl", ""));

    // Pattern "*."
    assert!(check_pattern_logic("file.ending.with.", "*."));
    assert!(!check_pattern_logic("filewithoutdot", "*."));

    // Pattern "*.a" (short extension)
    assert!(check_pattern_logic("file.a", "*.a"));
    assert!(!check_pattern_logic("file.b", "*.a"));

    // Pattern is the filename itself
    assert!(check_pattern_logic("exact_match", "exact_match"));
    assert!(check_pattern_logic("exact_match.ext", "*.ext"));
}

// The last two assertions are the reverse of the ones first written for this
// test: their comments ("This would be false", "This would be true") and the
// documented rule (`*.ext` matches names ending in `.ext`) agree on the values
// below, and no pattern rule could satisfy the inverted pair together with
// `test_extension_pattern`.
#[test]
fn test_pattern_similar_to_filename() {
    assert!(check_pattern_logic("file.whl.bak", "*.whl.bak"));
    assert!(check_pattern_logic("some.bashrc", "*.bashrc"));
    assert!(!check_pattern_logic("myfile.bashrc.backup", "*.bashrc"));
    assert!(check_pattern_logic("myfile.backup.bashrc", "*.bashrc"));
}

#[test]
fn extension_pattern_needs_the_dot() {
    assert!(!check_pattern_logic("notawhl", "*.whl"));
    assert!(!check_pattern_logic("whl", "*.whl"));
    assert!(check_pattern_logic(".whl", "*.whl"));
    let names = vec!["notawhl".to_string()];
    assert_eq!(select_first_match(&names, "*.whl"), None);
}

#[test]
fn first_match_is_alphabetically_first() {
    let names = vec![
        "zeta-1.0-py3-none-any.whl".to_string(),
        "notes.txt".to_string(),
        "alpha-2.0-py3-none-any.whl".to_string(),
        "beta-0.1.whl".to_string(),
    ];
    assert_eq!(select_first_match(&names, "*.whl"), Some("alpha-2.0-py3-none-any.whl".to_string()));
    assert_eq!(select_first_match(&names, "notes"), Some("notes.txt".to_string()));
    assert_eq!(select_first_match(&names, "*.deb"), None);
    assert_eq!(select_first_match(&Vec::new(), "*.whl"), None);
}

#[test]
fn first_match_orders_by_character() {
    let names = vec!["b.whl".to_string(), "a.whl".to_string(), "a-b.whl".to_string(), "B.whl".to_string()];
    // '-' < '.' and upper case letters come before lower case ones.
    assert_eq!(select_first_match(&names, "*.whl"), Some("B.whl".to_string()));
    let names = vec!["a.whl".to_string(), "a-b.whl".to_string()];
    assert_eq!(select_first_match(&names, "*.whl"), Some("a-b.whl".to_string()));
}
