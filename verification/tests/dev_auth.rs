use tikeo::dev_auth::{
    current_principal, login, require_admin, AuthFailure, DevAdminAccount, ADMIN_ROLE,
    DEFAULT_ADMIN_PASSWORD, DEFAULT_ADMIN_TOKEN, DEFAULT_ADMIN_USERNAME,
};
use tikeo::management_api::LoginRequest;

fn default_account() -> DevAdminAccount {
    DevAdminAccount::from_settings(None, None, None)
}

#[test]
fn account_defaults_and_overrides() {
    let account = default_account();
    assert_eq!(account.username, DEFAULT_ADMIN_USERNAME);
    assert_eq!(account.password, DEFAULT_ADMIN_PASSWORD);
    assert_eq!(account.token, DEFAULT_ADMIN_TOKEN);
    let custom = DevAdminAccount::from_settings(Some("ops".to_owned()), None, Some("t0k".to_owned()));
    assert_eq!(custom.username, "ops");
    assert_eq!(custom.password, "Scheduler@2026!");
    assert_eq!(custom.token, "t0k");
}

#[test]
fn require_admin_outcomes() {
    let account = default_account();
    assert_eq!(require_admin(Some(b"Bearer scheduler-init-token"), &account), Ok(()));
    assert_eq!(require_admin(None, &account), Err(AuthFailure::MissingBearerToken));
    assert_eq!(
        require_admin(Some(b"Bearer scheduler-init-token\x01"), &account),
        Err(AuthFailure::InvalidAuthorizationHeader)
    );
    assert_eq!(
        require_admin(Some("Bearer caf\u{e9}".as_bytes()), &account),
        Err(AuthFailure::InvalidAuthorizationHeader)
    );
    assert_eq!(
        require_admin(Some(b"Basic scheduler-init-token"), &account),
        Err(AuthFailure::WrongScheme)
    );
    assert_eq!(require_admin(Some(b"Bearer"), &account), Err(AuthFailure::WrongScheme));
    assert_eq!(
        require_admin(Some(b"bearer scheduler-init-token"), &account),
        Err(AuthFailure::WrongScheme)
    );
    assert_eq!(
        require_admin(Some(b"Bearer scheduler-init-token "), &account),
        Err(AuthFailure::InvalidBearerToken)
    );
    assert_eq!(require_admin(Some(b"Bearer "), &account), Err(AuthFailure::InvalidBearerToken));
    assert_eq!(
        require_admin(Some(b"Bearer\tscheduler-init-token"), &account),
        Err(AuthFailure::WrongScheme)
    );
}

#[test]
fn failure_messages() {
    assert_eq!(AuthFailure::MissingBearerToken.message(), "missing bearer token");
    assert_eq!(
        AuthFailure::InvalidAuthorizationHeader.message(),
        "invalid authorization header"
    );
    assert_eq!(AuthFailure::WrongScheme.message(), "authorization scheme must be Bearer");
    assert_eq!(AuthFailure::InvalidBearerToken.message(), "invalid bearer token");
    assert_eq!(AuthFailure::InvalidCredentials.message(), "invalid username or password");
}

#[test]
fn login_hands_out_a_token_that_authenticates() {
    let account = default_account();
    let request = LoginRequest {
        username: "scheduler_init".to_owned(),
        password: "Scheduler@2026!".to_owned(),
    };
    let session = login(&request, &account).expect("default credentials log in");
    assert_eq!(session.token, "scheduler-init-token");
    assert_eq!(session.username, "scheduler_init");
    assert_eq!(session.roles, vec![ADMIN_ROLE.to_owned()]);
    let header = format!("Bearer {}", session.token);
    let principal = current_principal(Some(header.as_bytes()), &account).expect("token accepted");
    assert_eq!(principal.username, "scheduler_init");
    assert_eq!(principal.roles, vec!["admin".to_owned()]);
}

#[test]
fn login_rejects_wrong_credentials() {
    let account = default_account();
    let request = LoginRequest {
        username: "scheduler_init".to_owned(),
        password: "wrong".to_owned(),
    };
    assert_eq!(login(&request, &account).err(), Some(AuthFailure::InvalidCredentials));
    let request = LoginRequest {
        username: "someone".to_owned(),
        password: "Scheduler@2026!".to_owned(),
    };
    assert_eq!(login(&request, &account).err(), Some(AuthFailure::InvalidCredentials));
}

#[test]
fn current_principal_refuses_other_tokens() {
    let account = default_account();
    assert_eq!(
        current_principal(Some(b"Bearer other"), &account).err(),
        Some(AuthFailure::InvalidBearerToken)
    );
    assert_eq!(current_principal(None, &account).err(), Some(AuthFailure::MissingBearerToken));
}
