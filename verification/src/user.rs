//! The identity record: who a user is, how they prove it, and the session
//! token they currently hold.

use vstd::prelude::*;
use vstd::string::StringExecFns;

use crate::clock::unix_now;
use crate::credentials::{accepts, carries_fixed_cost, framed_record, hash, verify};
use crate::error::Error;
use crate::role::Role;
use crate::text::same_text;
use crate::token::SessionTokenIssuer;

verus! {

/// One user, as stored.
#[derive(Debug, Clone)]
pub struct User {
    /// Stable identifier; never changes after creation.
    pub username: String,
    /// Canonical token of the user's role.
    pub role: String,
    /// Salted one-way hash of the password; only ever checked, never read.
    pub password_hash: String,
    /// Seconds since the start of 1970 at which the record was made.
    pub created_at: i64,
    /// The live session token, if the user is logged in.
    pub session_token: Option<String>,
}

impl User {
    /// Whether the record is sound: its role is one of the canonical tokens.
    pub open spec fn wf(self) -> bool {
        Role::parse(self.role@) is Some
    }

    /// Whether the stored hash accepts a password.
    pub open spec fn accepts(self, password: Seq<char>) -> bool {
        accepts(self.password_hash@, password)
    }

    /// Whether the live token, if there is one, asserts this user under the
    /// issuer's secret.
    pub open spec fn session_sound(self, issuer: SessionTokenIssuer) -> bool {
        self.session_token matches Some(token) ==> issuer.asserted(token@) == Some(
            (SessionTokenIssuer::service(), self.username@),
        )
    }

    /// Whether a token is the live one of this user.
    pub open spec fn is_live(self, token: Seq<char>) -> bool {
        self.session_token matches Some(live) && live@ == token
    }

    /// Whether two records differ in nothing but the live session token. Such
    /// records are sound together or not at all.
    pub open spec fn same_but_session(self, other: User) -> bool {
        &&& self.username == other.username
        &&& self.role == other.role
        &&& self.password_hash == other.password_hash
        &&& self.created_at == other.created_at
    }

    /// Hashes a password for storage, under a fresh salt and with the fixed
    /// cost parameters, which the record carries.
    pub fn hash_password(pw: &str) -> (record: Result<String, Error>)
        ensures
            record matches Ok(text) ==> accepts(text@, pw@),
            record matches Ok(text) ==> carries_fixed_cost(text@),
            record matches Err(failure) ==> failure == Error::Hashing,
    {
        hash(pw)
    }

    /// Takes what hashing a new password came to: a record takes the place
    /// of the stored hash and nothing else changes; a failure is handed on
    /// and the user stays as they were.
    pub fn store_hash(&mut self, made: Result<String, Error>) -> (changed: Result<(), Error>)
        ensures
            match made {
                Ok(record) => {
                    &&& changed is Ok
                    &&& final(self).password_hash == record
                    &&& final(self).username == old(self).username
                    &&& final(self).role == old(self).role
                    &&& final(self).created_at == old(self).created_at
                    &&& final(self).session_token == old(self).session_token
                },
                Err(failure) => changed == Err::<(), Error>(failure) && *final(self) == *old(self),
            },
    {
        match made {
            Ok(record) => {
                self.password_hash = record;
                Ok(())
            },
            Err(failure) => Err(failure),
        }
    }

    /// Replaces the stored hash by one of a new password. Where no hash can
    /// be made the record stays as it was.
    pub fn set_password(&mut self, pw: &str) -> (changed: Result<(), Error>)
        ensures
            changed is Ok ==> final(self).accepts(pw@),
            changed is Ok ==> carries_fixed_cost(final(self).password_hash@),
            final(self).username == old(self).username,
            final(self).role == old(self).role,
            final(self).created_at == old(self).created_at,
            final(self).session_token == old(self).session_token,
            final(self).wf() == old(self).wf(),
            changed matches Err(failure) ==> failure == Error::Hashing && *final(self) == *old(self),
    {
        self.store_hash(User::hash_password(pw))
    }

    /// The record of a new user, given the hash of their password and the
    /// time of creation. The user is not logged in.
    pub fn from_record(username: String, role: Role, password_hash: String, created_at: i64) -> (user:
        User)
        ensures
            user.username == username,
            user.role@ == role.canonical(),
            user.password_hash == password_hash,
            user.created_at == created_at,
            user.session_token is None,
            user.wf(),
    {
        proof {
            crate::role::lemma_parse_inverts_canonical(role);
        }
        User {
            username,
            role: String::from_str(role.to_str()),
            password_hash,
            created_at,
            session_token: None,
        }
    }

    /// Registers a user: hashes the password and stamps the record with the
    /// current time. The user is not logged in.
    pub fn new(username: String, role: Role, password: String) -> (made: Result<User, Error>)
        ensures
            made matches Ok(user) ==> {
                &&& user.username == username
                &&& user.role@ == role.canonical()
                &&& user.accepts(password@)
                &&& carries_fixed_cost(user.password_hash@)
                &&& user.session_token is None
                &&& user.wf()
            },
            made matches Err(failure) ==> failure == Error::Hashing,
    {
        match User::hash_password(password.as_str()) {
            Ok(record) => Ok(User::from_record(username, role, record, unix_now())),
            Err(failure) => Err(failure),
        }
    }

    /// Checks a password against the stored hash. A hash that cannot be read
    /// gives `false`, as a wrong password does.
    pub fn verify_password(&self, pw: &str) -> (ok: bool)
        ensures
            ok == self.accepts(pw@),
            !framed_record(self.password_hash@) ==> !ok,
    {
        verify(pw, self.password_hash.as_str())
    }

    /// The user's role, read from its stored token.
    pub fn role(&self) -> (role: Result<Role, Error>)
        ensures
            role == match Role::parse(self.role@) {
                Some(tag) => Ok::<Role, Error>(tag),
                None => Err(Error::InvalidRole),
            },
            self.wf() ==> role is Ok,
    {
        Role::from_str(self.role.as_str())
    }

    /// Signs a session token that asserts this user. Signing succeeds for
    /// every user, and the token decodes, under the issuer's secret, to the
    /// user's name. The record is not changed.
    pub fn build_session_token(&self, issuer: &SessionTokenIssuer) -> (token: Result<String, Error>)
        ensures
            token matches Ok(t) && issuer.token_for(self.username@) == Some(t@) && issuer.asserted(
                t@,
            ) == Some((SessionTokenIssuer::service(), self.username@)),
    {
        issuer.issue(self)
    }

    /// What a login comes to, given what signing the new token came to: a
    /// token takes the place of the live one; a failure is handed on and
    /// the user stays as they were.
    pub fn store_session(&mut self, signed: Result<String, Error>) -> (entered: Result<bool, Error>)
        ensures
            final(self).same_but_session(*old(self)),
            match signed {
                Ok(token) => entered == Ok::<bool, Error>(true) && final(self).session_token
                    == Some(token),
                Err(failure) => entered == Err::<bool, Error>(failure) && *final(self) == *old(
                    self,
                ),
            },
    {
        match signed {
            Ok(token) => {
                self.session_token = Some(token);
                Ok(true)
            },
            Err(failure) => Err(failure),
        }
    }

    /// Logs the user in: where the password is accepted, a new token is
    /// signed and takes the place of the live one. A wrong password gives
    /// `Ok(false)` and leaves the record as it was.
    pub fn login(&mut self, password: &str, issuer: &SessionTokenIssuer) -> (entered: Result<
        bool,
        Error,
    >)
        ensures
            final(self).same_but_session(*old(self)),
            entered == Ok::<bool, Error>(old(self).accepts(password@)),
            !old(self).accepts(password@) ==> *final(self) == *old(self),
            old(self).accepts(password@) ==> {
                &&& final(self).session_token matches Some(t)
                &&& issuer.token_for(old(self).username@) == Some(t@)
                &&& final(self).session_sound(*issuer)
            },
    {
        if !self.verify_password(password) {
            return Ok(false);
        }
        let signed = self.build_session_token(issuer);
        self.store_session(signed)
    }

    /// Logs the user out: the live token, if any, is dropped.
    pub fn logout(&mut self)
        ensures
            final(self).same_but_session(*old(self)),
            final(self).session_token is None,
    {
        self.session_token = None;
    }

    /// Whether a presented token is the live one of this user. A token that
    /// was superseded or dropped is not.
    pub fn holds_live(&self, token: &str) -> (live: bool)
        ensures
            live == self.is_live(token@),
    {
        match &self.session_token {
            Some(held) => same_text(held.as_str(), token),
            None => false,
        }
    }
}

} // verus!
