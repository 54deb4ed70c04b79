use translator_backend::error::Error;
use translator_backend::role::Role;

#[test]
fn canonical_tokens_are_lowercase_names() {
    assert_eq!(Role::User.to_str(), "user");
    assert_eq!(Role::Admin.to_str(), "admin");
}

#[test]
fn parsing_the_canonical_token_gives_the_role_back() {
    for role in [Role::User, Role::Admin] {
        assert_eq!(Role::from_str(role.to_str()), Ok(role));
    }
}

#[test]
fn parse_admin_and_reject_superuser() {
    assert_eq!(Role::from_str("admin"), Ok(Role::Admin));
    assert_eq!(Role::from_str("superuser"), Err(Error::InvalidRole));
}

#[test]
fn parse_is_exact() {
    for raw in ["", "User", "ADMIN", " user", "user ", "admin\n", "use", "admins", "root", "ａdmin"] {
        assert_eq!(Role::from_str(raw), Err(Error::InvalidRole), "{:?}", raw);
    }
    assert_eq!(Role::from_str("user"), Ok(Role::User));
}

#[test]
fn admin_satisfies_every_requirement_user_only_its_own() {
    assert!(Role::Admin.meets(Role::Admin));
    assert!(Role::Admin.meets(Role::User));
    assert!(Role::User.meets(Role::User));
    assert!(!Role::User.meets(Role::Admin));
}

#[test]
fn failures_show_as_opaque_codes() {
    assert_eq!(Error::InvalidRole.code(), "InvalidRole");
    assert_eq!(Error::AuthInvalidToken.code(), "AuthInvalidToken");
    assert_eq!(Error::Forbidden.code(), "Forbidden");
    assert_eq!(Error::TokenSigning.code(), "TokenSigning");
    assert_eq!(Error::Hashing.code(), "Hashing");
    assert_eq!(Error::StorageFailure.code(), "StorageFailure");
}
