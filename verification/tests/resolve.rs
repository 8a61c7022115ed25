use tilde_path::{join, resolve};

#[test]
fn absent_goes_home() {
    assert_eq!(resolve("/home/alice", None), "/home/alice");
}

#[test]
fn absent_with_root_default_home() {
    assert_eq!(resolve("/", None), "/");
}

#[test]
fn exact_tilde_goes_home() {
    assert_eq!(resolve("/home/alice", Some("~")), "/home/alice");
}

#[test]
fn tilde_slash_expands() {
    assert_eq!(
        resolve("/home/alice", Some("~/Documents/notes")),
        "/home/alice/Documents/notes"
    );
}

#[test]
fn relative_parent_is_literal() {
    assert_eq!(resolve("/home/alice", Some("..")), "..");
}

#[test]
fn absolute_input_is_literal() {
    assert_eq!(resolve("/home/alice", Some("/tmp")), "/tmp");
}

#[test]
fn empty_input_is_empty_relative_path() {
    assert_eq!(resolve("/home/alice", Some("")), "");
    assert_ne!(resolve("/home/alice", Some("")), resolve("/home/alice", None));
}

#[test]
fn tilde_user_is_literal() {
    assert_eq!(resolve("/home/alice", Some("~foo")), "~foo");
    assert_eq!(resolve("/home/alice", Some("~~")), "~~");
}

#[test]
fn home_ignored_for_plain_paths() {
    assert_eq!(
        resolve("/home/alice", Some("music")),
        resolve("/somewhere/else", Some("music"))
    );
}

#[test]
fn join_inserts_separator() {
    assert_eq!(join("/home/u", "Documents"), "/home/u/Documents");
}

#[test]
fn join_keeps_single_separator() {
    assert_eq!(join("/", "etc"), "/etc");
}

#[test]
fn join_with_empty_base() {
    assert_eq!(join("", "a"), "a");
}

#[test]
fn join_absolute_suffix_replaces_base() {
    assert_eq!(join("/home/u", "/tmp"), "/tmp");
    assert_eq!(resolve("/home/u", Some("~//tmp")), "/tmp");
}

#[test]
fn join_empty_suffix_adds_trailing_separator() {
    assert_eq!(join("/home/u", ""), "/home/u/");
    assert_eq!(resolve("/home/u", Some("~/")), "/home/u/");
}

#[test]
fn tilde_expansion_with_root_home() {
    assert_eq!(resolve("/", Some("~/x")), "/x");
}

#[test]
fn non_ascii_paths() {
    assert_eq!(resolve("/home/élise", Some("~/müsik")), "/home/élise/müsik");
}
