use nest_cli::client::{resolve, Client};
use nest_cli::errors::CliError;
use nest_cli::strutil::{short_id, str_starts_with, trim};

#[test]
fn resolve_passes_qualified_names_through_verbatim() {
    let r: String = resolve("enterprises/p1/devices/d1", "p2");
    assert_eq!(r, "enterprises/p1/devices/d1");
}

#[test]
fn resolve_qualifies_short_ids_under_the_project() {
    let r: String = resolve("d1", "p2");
    assert_eq!(r, "enterprises/p2/devices/d1");
}

#[test]
fn client_builds_parent_and_resolves() {
    let client = Client::new(String::from("proj-9")).unwrap();
    assert_eq!(client.parent(), "enterprises/proj-9");
    assert_eq!(client.resolve_device_name("dev"), "enterprises/proj-9/devices/dev");
    assert_eq!(
        client.resolve_device_name("enterprises/other/devices/dev"),
        "enterprises/other/devices/dev"
    );
}

#[test]
fn client_rejects_empty_or_slashed_project_ids() {
    assert!(matches!(Client::new(String::new()), Err(CliError::NotAuthenticated)));
    assert!(matches!(
        Client::new(String::from("a/b")),
        Err(CliError::NotAuthenticated)
    ));
}

#[test]
fn prefix_test_matches_exact_prefixes_only() {
    assert!(str_starts_with("enterprises/p/devices/d", "enterprises/"));
    assert!(!str_starts_with("enterprise/p", "enterprises/"));
    assert!(!str_starts_with("e", "enterprises/"));
}

#[test]
fn short_id_takes_the_last_segment() {
    assert_eq!(short_id("enterprises/p/devices/abc"), "abc");
    assert_eq!(short_id("abc"), "abc");
    assert_eq!(short_id("abc/"), "");
}

#[test]
fn trim_strips_ascii_whitespace_on_both_ends() {
    assert_eq!(trim("  proj-1 \n"), "proj-1");
    assert_eq!(trim("proj-1"), "proj-1");
    assert_eq!(trim(" \t\r\n "), "");
}
