use nest_cli::authflow::{AccessDecision, Authenticator, TokenSet};
use nest_cli::errors::CliError;
use nest_cli::paths::{
    client_secret_path, config_dir, join_path, project_id_path, token_path, under_config_base,
};
use nest_cli::store::CredStore;

fn tokens(access: &str, refresh: &str, expires_at: i64) -> TokenSet {
    TokenSet {
        access_token: String::from(access),
        refresh_token: String::from(refresh),
        expires_at,
    }
}

#[test]
fn load_registration_before_any_login_is_not_authenticated() {
    let store = CredStore::new();
    assert!(matches!(store.load_registration(), Err(CliError::NotAuthenticated)));
    assert!(matches!(store.load_project_id(), Err(CliError::NotAuthenticated)));
}

#[test]
fn init_persists_registration_and_trimmed_project_id() {
    let mut store = CredStore::new();
    let r = store.init(Some(vec![1u8, 2, 3]), String::from(" proj-1 \n"), true);
    assert!(r.is_ok());
    assert_eq!(store.load_registration().unwrap(), vec![1u8, 2, 3]);
    assert_eq!(store.load_project_id().unwrap(), "proj-1");
}

#[test]
fn init_without_hardened_permissions_records_nothing() {
    let mut store = CredStore::new();
    let r = store.init(Some(vec![9u8]), String::from("p"), false);
    assert!(matches!(r, Err(CliError::PermissionError)));
    assert!(matches!(store.load_registration(), Err(CliError::NotAuthenticated)));
}

#[test]
fn init_with_unreadable_source_is_an_io_error() {
    let mut store = CredStore::new();
    let r = store.init(None, String::from("p"), true);
    assert!(matches!(r, Err(CliError::IoError)));
}

#[test]
fn fresh_tokens_are_used_without_refresh() {
    let mut auth = Authenticator::new(Some(tokens("acc", "ref", 1_000)));
    match auth.check_access(999) {
        AccessDecision::UseToken(t) => assert_eq!(t, "acc"),
        _ => panic!("a fresh token must be used as it is"),
    }
    let got = auth.get_authenticated_client(999, None).unwrap();
    assert_eq!(got, "acc");
}

#[test]
fn expired_tokens_refresh_once_and_update_the_persisted_set() {
    let mut auth = Authenticator::new(Some(tokens("old-acc", "ref", 1_000)));
    match auth.check_access(1_000) {
        AccessDecision::RefreshWith(r) => assert_eq!(r, "ref"),
        _ => panic!("an expired token must ask for a refresh"),
    }
    let got = auth
        .get_authenticated_client(1_000, Some(tokens("new-acc", "ref", 2_000)))
        .unwrap();
    assert_eq!(got, "new-acc");
    let persisted = auth.tokens.expect("the refreshed set must be persisted");
    assert_eq!(persisted.access_token, "new-acc");
    assert_eq!(persisted.expires_at, 2_000);
}

#[test]
fn a_revoked_refresh_token_surfaces_as_not_authenticated() {
    let mut auth = Authenticator::new(Some(tokens("old-acc", "ref", 1_000)));
    let r = auth.get_authenticated_client(5_000, None);
    assert!(matches!(r, Err(CliError::NotAuthenticated)));
    let kept = auth.tokens.expect("a failed refresh must leave the old set");
    assert_eq!(kept.access_token, "old-acc");
}

#[test]
fn no_persisted_tokens_never_start_the_interactive_flow() {
    let mut auth = Authenticator::new(None);
    assert!(matches!(auth.check_access(0), AccessDecision::LoginRequired));
    let r = auth.get_authenticated_client(0, Some(tokens("x", "y", 9)));
    assert!(matches!(r, Err(CliError::NotAuthenticated)));
    assert!(auth.tokens.is_none());
}

#[test]
fn a_completed_login_persists_the_exchanged_tokens() {
    let mut auth = Authenticator::new(None);
    assert!(auth.complete_login(Some(tokens("acc", "ref", 10))).is_ok());
    assert_eq!(auth.tokens.as_ref().unwrap().refresh_token, "ref");
}

#[test]
fn an_abandoned_login_is_an_auth_flow_error() {
    let mut auth = Authenticator::new(None);
    let r = auth.complete_login(None);
    assert!(matches!(r, Err(CliError::AuthFlowError)));
    assert!(auth.tokens.is_none());
}

#[test]
fn path_joins_append_exactly() {
    assert_eq!(under_config_base("/home/u/.config"), "/home/u/.config/nest-cli");
    assert_eq!(under_config_base(""), "/nest-cli");
    assert_eq!(join_path("/home/u/.config/nest-cli", "tokens.json"),
        "/home/u/.config/nest-cli/tokens.json");
    assert_eq!(join_path("a", "b"), "a/b");
}

#[test]
fn credential_paths_sit_inside_the_config_directory() {
    if let Ok(dir) = config_dir() {
        assert!(dir.ends_with("/nest-cli"));
        assert!(token_path().unwrap().ends_with("/nest-cli/tokens.json"));
        assert!(client_secret_path().unwrap().ends_with("/nest-cli/client_secret.json"));
        assert!(project_id_path().unwrap().ends_with("/nest-cli/project_id"));
    }
}

#[test]
fn every_failure_has_a_user_facing_message() {
    assert_eq!(
        CliError::NotAuthenticated.message(),
        "Not logged in. Run `nest-cli auth login` first."
    );
    assert!(CliError::AmbiguousSetpoint.message().contains("HEATCOOL"));
    assert!(!CliError::NetworkError.message().is_empty());
    assert!(!CliError::DeviceNotFound.message().is_empty());
    assert!(!CliError::AuthFlowError.message().is_empty());
    assert!(!CliError::PermissionError.message().is_empty());
    assert!(!CliError::IoError.message().is_empty());
}
