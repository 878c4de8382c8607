use cyberguardian::scope::{equals_ignore_ascii_case, in_scope};

fn list(items: &[&str]) -> Vec<String> {
    items.iter().map(|s| s.to_string()).collect()
}

#[test]
fn exact_match_ignores_ascii_case() {
    let allow = list(&["127.0.0.1/32", "localhost"]);
    assert!(in_scope("localhost", &allow));
    assert!(in_scope("LocalHost", &allow));
    assert!(!in_scope("localhost.", &allow));
}

#[test]
fn literal_ip_inside_listed_block() {
    let allow = list(&["127.0.0.1/32", "localhost"]);
    assert!(in_scope("127.0.0.1", &allow));
    assert!(!in_scope("10.0.0.5", &allow));
    let wide = list(&["10.0.0.0/8"]);
    assert!(in_scope("10.200.3.4", &wide));
    assert!(!in_scope("11.0.0.1", &wide));
}

#[test]
fn malformed_entries_are_skipped() {
    let allow = list(&["not-a-cidr", "10.0.0.0/33", "192.168.0.0/16"]);
    assert!(in_scope("192.168.4.4", &allow));
    assert!(!in_scope("10.0.0.1", &allow));
}

#[test]
fn hostnames_are_never_resolved() {
    let allow = list(&["127.0.0.0/8"]);
    assert!(!in_scope("localhost", &allow));
    assert!(!in_scope("", &allow));
    assert!(!in_scope("anything", &list(&[])));
}

#[test]
fn ipv6_blocks_and_families() {
    let allow = list(&["fd00::/8"]);
    assert!(in_scope("fd12::1", &allow));
    assert!(!in_scope("fe80::1", &allow));
    assert!(!in_scope("10.0.0.1", &list(&["::/0"])));
    assert!(in_scope("8.8.8.8", &list(&["0.0.0.0/0"])));
}

#[test]
fn case_folding_is_ascii_only() {
    assert!(equals_ignore_ascii_case("ABC", "abc"));
    assert!(!equals_ignore_ascii_case("É", "é"));
    assert!(!equals_ignore_ascii_case("ab", "abc"));
}
