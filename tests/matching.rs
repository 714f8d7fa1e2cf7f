use vault_backup::exclusion::contains_any;
use vault_backup::text::{contains_str, str_eq, trim_end_slashes};

fn strings(v: &[&str]) -> Vec<String> {
    v.iter().map(|s| s.to_string()).collect()
}

#[test]
fn trimmed_entries_match_as_substrings() {
    let e = strings(&["  log ", "tmp"]);
    assert!(vault_backup::exclusion::matches("app.log", &e));
    assert!(vault_backup::exclusion::matches("x.tmp.bak", &e));
    assert!(!vault_backup::exclusion::matches("notes.txt", &e));
}

#[test]
fn matching_is_case_sensitive_and_literal() {
    assert!(!vault_backup::exclusion::matches("APP.LOG", &strings(&["log"])));
    assert!(!vault_backup::exclusion::matches("app.log", &strings(&["*.log"])));
}

#[test]
fn database_marker_is_always_excluded() {
    assert!(vault_backup::exclusion::matches("db.sqlite3", &Vec::new()));
    assert!(vault_backup::exclusion::matches("db.sqlite3-shm", &strings(&["unrelated"])));
    assert!(!vault_backup::exclusion::matches("db.sqlite", &Vec::new()));
}

#[test]
fn empty_entry_matches_everything() {
    assert!(vault_backup::exclusion::matches("anything", &strings(&["   "])));
    assert!(contains_any("anything", &strings(&[""])));
}

#[test]
fn untrimmed_needles_are_literal() {
    assert!(!contains_any("app.log", &strings(&[" log "])));
    assert!(contains_any("app.log", &strings(&["nope", ".lo"])));
    assert!(!contains_any("app.log", &Vec::new()));
}

#[test]
fn substring_search() {
    assert!(contains_str("abcabd", "abd"));
    assert!(!contains_str("abcab", "abd"));
    assert!(contains_str("", ""));
    assert!(!contains_str("ab", "abc"));
    assert!(contains_str("émoji ✓ ok", "✓ o"));
}

#[test]
fn text_helpers() {
    assert!(str_eq("mysql", "mysql"));
    assert!(!str_eq("mysql", "mysq"));
    assert_eq!(trim_end_slashes("/a/b///"), "/a/b");
    assert_eq!(trim_end_slashes("///"), "");
    assert_eq!(trim_end_slashes("/a/b"), "/a/b");
}
