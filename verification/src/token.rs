//! Signed session tokens: a claim set naming the issuer and the user, signed
//! with HMAC-SHA-256 under a configured secret, as the `jwt` crate provides
//! them.

use vstd::prelude::*;
use vstd::string::StringExecFns;

use crate::error::Error;
use crate::text::{occurrences, same_text};
use crate::user::User;

verus! {

/// The claims of a token: pairs of name and value.
pub type Claims = Seq<(Seq<char>, Seq<char>)>;

/// Whether `a` comes strictly before `b` when texts are ordered character by
/// character, a proper prefix before its extensions. This is the order of
/// `String`.
pub open spec fn text_before(a: Seq<char>, b: Seq<char>) -> bool
    decreases a.len(),
{
    if b.len() == 0 {
        false
    } else if a.len() == 0 {
        true
    } else if a[0] != b[0] {
        (a[0] as u32) < (b[0] as u32)
    } else {
        text_before(a.drop_first(), b.drop_first())
    }
}

/// Whether the names of the claims strictly ascend.
pub open spec fn names_ascend(claims: Claims) -> bool {
    forall|i: int, j: int| 0 <= i < j < claims.len() ==> text_before(claims[i].0, claims[j].0)
}

/// The token that signing the claims under the secret gives. Nothing but
/// the claims and the secret goes into a token: no time, no nonce.
pub uninterp spec fn signed_token(claims: Claims, secret: Seq<char>) -> Option<Seq<char>>;

/// The claims that a token holds, in the order of their names, if its
/// structure is sound and its signature holds under the secret.
pub uninterp spec fn verified_claims(token: Seq<char>, secret: Seq<char>) -> Option<Claims>;

/// Makes an HMAC-SHA-256 key of the secret with `Hmac::new_from_slice`, puts
/// the claims into a `BTreeMap` and signs that with `jwt::SignWithKey::sign_with_key`.
/// The names of the claims strictly ascend, so the map holds them one for
/// one and in the order given. A token always comes back: an HMAC key takes
/// a secret of any length, and a map of texts can always be written as JSON.
/// The token is named by `signed_token`, and verifying it under the same
/// secret gives the same claims back.
#[verifier::external_body]
fn sign_claims(claims: &Vec<(String, String)>, secret: &str) -> (token: Option<String>)
    requires
        names_ascend(claims.deep_view()),
    ensures
        token is Some,
        token.deep_view() == signed_token(claims.deep_view(), secret@),
        token matches Some(text) ==> verified_claims(text@, secret@) == Some(claims.deep_view()),
{
    let key: hmac::Hmac<sha2::Sha256> = hmac::Mac::new_from_slice(secret.as_bytes()).ok()?;
    let fields: std::collections::BTreeMap<&str, &str> = claims.iter().map(
        |pair| (pair.0.as_str(), pair.1.as_str()),
    ).collect();
    jwt::SignWithKey::sign_with_key(fields, &key).ok()
}

/// Makes an HMAC-SHA-256 key of the secret with `Hmac::new_from_slice` and
/// verifies the token with `jwt::VerifyWithKey::verify_with_key`, reading its
/// claims as a `BTreeMap` of texts. Gives the claims in the map's order, or
/// nothing where the token is refused for any reason. The call splits the
/// token at every `.` and refuses it unless there are three parts.
#[verifier::external_body]
fn verify_token(token: &str, secret: &str) -> (claims: Option<Vec<(String, String)>>)
    ensures
        claims.deep_view() == verified_claims(token@, secret@),
        claims is Some ==> three_parts(token@),
{
    let key: hmac::Hmac<sha2::Sha256> = hmac::Mac::new_from_slice(secret.as_bytes()).ok()?;
    let fields: std::collections::BTreeMap<String, String> = jwt::VerifyWithKey::verify_with_key(
        token,
        &key,
    ).ok()?;
    Some(fields.into_iter().collect())
}

/// Whether a token has the three parts of header, claims and signature, set
/// apart by two dots.
pub open spec fn three_parts(token: Seq<char>) -> bool {
    occurrences(token, '.') == 2
}

/// The value of the first claim of a given name.
pub open spec fn field(claims: Claims, name: Seq<char>) -> Option<Seq<char>>
    decreases claims.len(),
{
    if claims.len() == 0 {
        None
    } else if claims[0].0 == name {
        Some(claims[0].1)
    } else {
        field(claims.drop_first(), name)
    }
}

/// The identity that a token asserts.
#[derive(Debug, Clone, PartialEq, Eq)]
pub struct Claim {
    pub issuer: String,
    pub username: String,
}

impl Claim {
    /// The claim as a pair of issuer and user name.
    pub open spec fn parts(self) -> (Seq<char>, Seq<char>) {
        (self.issuer@, self.username@)
    }

    /// The claim set that asserts `username` in the name of `issuer`.
    pub open spec fn fields_of(issuer: Seq<char>, username: Seq<char>) -> Claims {
        seq![("iss"@, issuer), ("username"@, username)]
    }

    /// What a verified claim set asserts: issuer and user name, where both
    /// are there.
    pub open spec fn read(claims: Claims) -> Option<(Seq<char>, Seq<char>)> {
        match (field(claims, "iss"@), field(claims, "username"@)) {
            (Some(issuer), Some(username)) => Some((issuer, username)),
            _ => None,
        }
    }

    /// Reads a verified claim set. A set without issuer or user name is not
    /// trusted in part: it gives nothing.
    pub fn from_fields(claims: &Vec<(String, String)>) -> (claim: Option<Claim>)
        ensures
            match Claim::read(claims.deep_view()) {
                Some(parts) => claim matches Some(c) && c.parts() == parts,
                None => claim is None,
            },
    {
        let issuer = find_field(claims, "iss");
        let username = find_field(claims, "username");
        match (issuer, username) {
            (Some(issuer), Some(username)) => Some(Claim { issuer, username }),
            _ => None,
        }
    }

    /// Writes the claim set that asserts `username` in the name of `issuer`.
    pub fn to_fields(issuer: &str, username: &str) -> (claims: Vec<(String, String)>)
        ensures
            claims.deep_view() == Claim::fields_of(issuer@, username@),
    {
        let mut claims: Vec<(String, String)> = Vec::new();
        claims.push((String::from_str("iss"), String::from_str(issuer)));
        claims.push((String::from_str("username"), String::from_str(username)));
        assert(claims.deep_view() =~= Claim::fields_of(issuer@, username@));
        claims
    }
}

/// Finds the value of the first claim of a given name.
fn find_field(claims: &Vec<(String, String)>, name: &str) -> (value: Option<String>)
    ensures
        value.deep_view() == field(claims.deep_view(), name@),
{
    let ghost all = claims.deep_view();
    let mut i: usize = 0;
    assert(all.skip(0) =~= all);
    while i < claims.len()
        invariant
            all == claims.deep_view(),
            0 <= i <= claims.len(),
            field(all, name@) == field(all.skip(i as int), name@),
        decreases claims.len() - i,
    {
        let ghost rest = all.skip(i as int);
        assert(rest[0] == all[i as int]);
        assert(rest.drop_first() =~= all.skip(i + 1));
        if same_text(claims[i].0.as_str(), name) {
            return Some(claims[i].1.clone());
        }
        i += 1;
    }
    None
}

/// Whoever signs session tokens: holds the secret they are signed with.
pub struct SessionTokenIssuer {
    secret: String,
}

impl SessionTokenIssuer {
    /// The service name under which every token is issued.
    pub open spec fn service() -> Seq<char> {
        "translator"@
    }

    /// The secret that tokens are signed with.
    pub closed spec fn secret_text(self) -> Seq<char> {
        self.secret@
    }

    /// What a token asserts under this issuer's secret: issuer and user
    /// name, where the token verifies and names both.
    pub open spec fn asserted(self, token: Seq<char>) -> Option<(Seq<char>, Seq<char>)> {
        match verified_claims(token, self.secret_text()) {
            Some(claims) => Claim::read(claims),
            None => None,
        }
    }

    /// The token for a user name under this issuer's secret, if signing
    /// gives one.
    pub open spec fn token_for(self, username: Seq<char>) -> Option<Seq<char>> {
        signed_token(Claim::fields_of(SessionTokenIssuer::service(), username), self.secret_text())
    }

    /// An issuer that signs with the given secret.
    pub fn new(secret: String) -> (issuer: SessionTokenIssuer)
        ensures
            issuer.secret_text() == secret@,
    {
        SessionTokenIssuer { secret }
    }

    /// What issuing comes to, given what the signer handed back: the token,
    /// or the failure to sign.
    pub fn token_or_failure(signed: Option<String>) -> (token: Result<String, Error>)
        ensures
            token == match signed {
                Some(text) => Ok::<String, Error>(text),
                None => Err(Error::TokenSigning),
            },
    {
        match signed {
            Some(text) => Ok(text),
            None => Err(Error::TokenSigning),
        }
    }

    /// Signs a token that asserts `username` in the name of the service.
    /// Signing succeeds for every user name, and the token decodes, under
    /// the same secret, to that user name.
    pub fn issue_for(&self, username: &str) -> (token: Result<String, Error>)
        ensures
            token matches Ok(t) && self.token_for(username@) == Some(t@) && self.asserted(t@)
                == Some((SessionTokenIssuer::service(), username@)),
    {
        let claims = Claim::to_fields("translator", username);
        proof {
            lemma_claim_fields(SessionTokenIssuer::service(), username@);
        }
        SessionTokenIssuer::token_or_failure(sign_claims(&claims, self.secret.as_str()))
    }

    /// Signs a token that asserts the user in the name of the service.
    /// Signing succeeds for every user, and the token decodes, under the
    /// same secret, to the user's name. The user's record is not changed.
    pub fn issue(&self, user: &User) -> (token: Result<String, Error>)
        ensures
            token matches Ok(t) && self.token_for(user.username@) == Some(t@) && self.asserted(t@)
                == Some((SessionTokenIssuer::service(), user.username@)),
    {
        self.issue_for(user.username.as_str())
    }

    /// What decoding comes to, given what verification handed back.
    pub fn claim_or_failure(verified: Option<Vec<(String, String)>>) -> (claim: Result<Claim, Error>)
        ensures
            match verified {
                Some(claims) => match Claim::read(claims.deep_view()) {
                    Some(parts) => claim matches Ok(c) && c.parts() == parts,
                    None => claim == Err::<Claim, Error>(Error::AuthInvalidToken),
                },
                None => claim == Err::<Claim, Error>(Error::AuthInvalidToken),
            },
    {
        match verified {
            Some(claims) => match Claim::from_fields(&claims) {
                Some(claim) => Ok(claim),
                None => Err(Error::AuthInvalidToken),
            },
            None => Err(Error::AuthInvalidToken),
        }
    }

    /// Checks a token against the secret and reads what it asserts. A token
    /// that does not verify, or that lacks issuer or user name, is refused
    /// whole; so is any text that does not have the three parts of a token.
    pub fn decode(&self, token: &str) -> (claim: Result<Claim, Error>)
        ensures
            match self.asserted(token@) {
                Some(parts) => claim matches Ok(c) && c.parts() == parts,
                None => claim == Err::<Claim, Error>(Error::AuthInvalidToken),
            },
            claim matches Err(failure) ==> failure == Error::AuthInvalidToken,
            !three_parts(token@) ==> claim is Err,
    {
        SessionTokenIssuer::claim_or_failure(verify_token(token, self.secret.as_str()))
    }
}

/// The claim set written for a user has ascending names and reads back as
/// the issuer and the user name it was written for.
pub proof fn lemma_claim_fields(issuer: Seq<char>, username: Seq<char>)
    ensures
        names_ascend(Claim::fields_of(issuer, username)),
        Claim::read(Claim::fields_of(issuer, username)) == Some((issuer, username)),
{
    reveal_strlit("iss");
    reveal_strlit("username");
    let claims = Claim::fields_of(issuer, username);
    assert("iss"@.len() == 3 && "username"@.len() == 8);
    assert("iss"@[0] == 'i' && "username"@[0] == 'u');
    assert(text_before("iss"@, "username"@));
    assert(claims.drop_first() =~= seq![("username"@, username)]);
    assert(field(claims.drop_first(), "username"@) == Some(username));
    assert(field(claims, "iss"@) == Some(issuer));
    assert(field(claims, "username"@) == Some(username));
}

} // verus!
