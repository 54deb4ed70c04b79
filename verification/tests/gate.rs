use translator_backend::error::Error;
use translator_backend::gate::{AccessGate, Identity};
use translator_backend::role::Role;
use translator_backend::token::SessionTokenIssuer;
use translator_backend::user::User;

const RECORD: &str =
    "$rscrypt$0$BAIB$AAECAwQFBgcICQoLDA0ODw==$2pEoNQlp1s/lj/fb0zTPygXtlGAiJYyMltKqAoEClG8=$";

fn logged_in(name: &str, issuer: &SessionTokenIssuer) -> (User, String) {
    let mut user = User::from_record(name.to_string(), Role::User, RECORD.to_string(), 0);
    assert_eq!(user.login("correct-horse", issuer), Ok(true));
    let token = user.session_token.clone().unwrap();
    (user, token)
}

fn name_of(identity: &Identity) -> Option<String> {
    match identity {
        Identity::Anonymous => None,
        Identity::Known(user) => Some(user.username.clone()),
    }
}

fn known(name: &str, role: Role) -> Identity {
    Identity::Known(User::from_record(name.to_string(), role, "unused".to_string(), 0))
}

#[test]
fn an_admin_operation_refuses_a_user() {
    let outcome = AccessGate::authorize(&known("alice", Role::User), Some(Role::Admin));
    assert_eq!(outcome.err(), Some(Error::Forbidden));
}

#[test]
fn an_admin_operation_lets_an_admin_pass() {
    let clearance = AccessGate::authorize(&known("root", Role::Admin), Some(Role::Admin)).unwrap();
    assert_eq!(clearance.username(), Some("root"));
    assert_eq!(clearance.role(), Some(Role::Admin));
    assert_eq!(clearance.required_role(), Some(Role::Admin));
    assert!(clearance.is_admin());
}

#[test]
fn a_user_operation_lets_users_and_admins_pass() {
    let user = AccessGate::authorize(&known("alice", Role::User), Some(Role::User)).unwrap();
    assert_eq!(user.username(), Some("alice"));
    assert_eq!(user.role(), Some(Role::User));
    assert!(!user.is_admin());
    let admin = AccessGate::authorize(&known("root", Role::Admin), Some(Role::User)).unwrap();
    assert_eq!(admin.role(), Some(Role::Admin));
    assert_eq!(admin.required_role(), Some(Role::User));
}

#[test]
fn an_anonymous_caller_passes_only_where_no_role_is_required() {
    let open = AccessGate::authorize(&Identity::Anonymous, None).unwrap();
    assert_eq!(open.username(), None);
    assert_eq!(open.role(), None);
    assert_eq!(open.required_role(), None);
    assert!(!open.is_admin());
    assert_eq!(
        AccessGate::authorize(&Identity::Anonymous, Some(Role::User)).err(),
        Some(Error::Forbidden)
    );
    assert_eq!(
        AccessGate::authorize(&Identity::Anonymous, Some(Role::Admin)).err(),
        Some(Error::Forbidden)
    );
}

#[test]
fn an_open_operation_still_carries_the_identity() {
    let clearance = AccessGate::authorize(&known("alice", Role::User), None).unwrap();
    assert_eq!(clearance.username(), Some("alice"));
    assert_eq!(clearance.role(), Some(Role::User));
}

#[test]
fn a_stored_role_that_is_not_canonical_is_a_failure_of_its_own() {
    let mut user = User::from_record("mallory".to_string(), Role::User, "unused".to_string(), 0);
    user.role = "ADMIN".to_string();
    let identity = Identity::Known(user);
    for required in [None, Some(Role::User), Some(Role::Admin)] {
        assert_eq!(AccessGate::authorize(&identity, required).err(), Some(Error::InvalidRole));
    }
}

#[test]
fn allows_is_decided_by_role_alone() {
    assert!(AccessGate::allows(None, None));
    assert!(AccessGate::allows(Some(Role::User), None));
    assert!(AccessGate::allows(Some(Role::User), Some(Role::User)));
    assert!(AccessGate::allows(Some(Role::Admin), Some(Role::User)));
    assert!(AccessGate::allows(Some(Role::Admin), Some(Role::Admin)));
    assert!(!AccessGate::allows(Some(Role::User), Some(Role::Admin)));
    assert!(!AccessGate::allows(None, Some(Role::User)));
    assert!(!AccessGate::allows(None, Some(Role::Admin)));
}

#[test]
fn a_request_without_a_token_is_anonymous() {
    let issuer = SessionTokenIssuer::new("secret".to_string());
    let who = Identity::resolve(&issuer, None, None).unwrap();
    assert_eq!(name_of(&who), None);
    let (alice, _) = logged_in("alice", &issuer);
    let who = Identity::resolve(&issuer, None, Some(alice)).unwrap();
    assert_eq!(name_of(&who), None);
}

#[test]
fn a_live_token_resolves_to_its_user() {
    let issuer = SessionTokenIssuer::new("secret".to_string());
    let (alice, token) = logged_in("alice", &issuer);
    let who = Identity::resolve(&issuer, Some(&token), Some(alice)).unwrap();
    assert_eq!(name_of(&who), Some("alice".to_string()));
    let clearance = AccessGate::authorize(&who, Some(Role::User)).unwrap();
    assert_eq!(clearance.username(), Some("alice"));
    assert_eq!(AccessGate::authorize(&who, Some(Role::Admin)).err(), Some(Error::Forbidden));
}

#[test]
fn a_token_that_is_not_live_resolves_to_nobody() {
    let issuer = SessionTokenIssuer::new("secret".to_string());
    let (mut alice, token) = logged_in("alice", &issuer);
    // unknown to storage
    assert_eq!(Identity::resolve(&issuer, Some(&token), None).err(), Some(Error::AuthInvalidToken));
    // the record of another user
    let (bob, _) = logged_in("bob", &issuer);
    assert_eq!(
        Identity::resolve(&issuer, Some(&token), Some(bob)).err(),
        Some(Error::AuthInvalidToken)
    );
    // after logout
    alice.logout();
    assert_eq!(
        Identity::resolve(&issuer, Some(&token), Some(alice.clone())).err(),
        Some(Error::AuthInvalidToken)
    );
    // superseded by a login under a rotated secret
    let rotated = SessionTokenIssuer::new("rotated".to_string());
    assert_eq!(alice.login("correct-horse", &rotated), Ok(true));
    assert_eq!(
        Identity::resolve(&issuer, Some(&token), Some(alice.clone())).err(),
        Some(Error::AuthInvalidToken)
    );
    let current = alice.session_token.clone().unwrap();
    let who = Identity::resolve(&rotated, Some(&current), Some(alice)).unwrap();
    assert_eq!(name_of(&who), Some("alice".to_string()));
}

#[test]
fn a_token_that_does_not_verify_resolves_to_nobody() {
    let issuer = SessionTokenIssuer::new("secret".to_string());
    let (mut alice, _) = logged_in("alice", &issuer);
    alice.session_token = Some("a.b.c".to_string());
    assert_eq!(
        Identity::resolve(&issuer, Some("a.b.c"), Some(alice)).err(),
        Some(Error::AuthInvalidToken)
    );
}
