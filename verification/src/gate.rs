//! The access gate: the one place where a caller's identity is resolved and
//! held against what an operation requires. Whatever touches stored data asks
//! for the `Clearance` that only `AccessGate` hands out.

use vstd::prelude::*;

use crate::error::Error;
use crate::role::Role;
use crate::text::same_text;
use crate::token::SessionTokenIssuer;
use crate::user::User;

verus! {

/// Who is calling: nobody in particular, or a user found by their token.
#[derive(Debug, Clone)]
pub enum Identity {
    Anonymous,
    Known(User),
}

impl Identity {
    /// Who a request speaks for, given the token it presents and the record
    /// that storage holds under the name the token asserts. No token means
    /// an anonymous caller. A token counts only where it verifies, where
    /// storage knows the user it names, and where it is that user's live
    /// token.
    pub open spec fn resolved(
        issuer: SessionTokenIssuer,
        presented: Option<Seq<char>>,
        holder: Option<User>,
    ) -> Result<Identity, Error> {
        match presented {
            None => Ok(Identity::Anonymous),
            Some(token) => match (issuer.asserted(token), holder) {
                (Some(parts), Some(user)) => if user.username@ == parts.1 && user.is_live(token) {
                    Ok(Identity::Known(user))
                } else {
                    Err(Error::AuthInvalidToken)
                },
                _ => Err(Error::AuthInvalidToken),
            },
        }
    }

    /// Decides `resolved`. The caller looks the holder up under the name that
    /// `SessionTokenIssuer::decode` gives for the token.
    pub fn resolve(issuer: &SessionTokenIssuer, presented: Option<&str>, holder: Option<User>) -> (who:
        Result<Identity, Error>)
        ensures
            who == Identity::resolved(
                *issuer,
                match presented {
                    Some(token) => Some(token@),
                    None => None,
                },
                holder,
            ),
    {
        match presented {
            None => Ok(Identity::Anonymous),
            Some(token) => match (issuer.decode(token), holder) {
                (Ok(claim), Some(user)) => {
                    if same_text(user.username.as_str(), claim.username.as_str()) && user.holds_live(
                        token,
                    ) {
                        Ok(Identity::Known(user))
                    } else {
                        Err(Error::AuthInvalidToken)
                    }
                },
                _ => Err(Error::AuthInvalidToken),
            },
        }
    }
}

/// Whether a caller with `held` may run an operation that asks for
/// `required`. `None` stands for an anonymous caller on the one side and for
/// an operation open to everyone on the other.
pub open spec fn permits(held: Option<Role>, required: Option<Role>) -> bool {
    match required {
        None => true,
        Some(need) => match held {
            Some(have) => have.satisfies(need),
            None => false,
        },
    }
}

/// Proof that a caller was let through for an operation. It carries who the
/// caller is and what the operation asked for, and exists only where the
/// one satisfies the other.
#[derive(Debug)]
pub struct Clearance {
    username: Option<String>,
    role: Option<Role>,
    required: Option<Role>,
}

impl Clearance {
    #[verifier::type_invariant]
    spec fn sound(self) -> bool {
        &&& self.username is Some <==> self.role is Some
        &&& permits(self.role, self.required)
    }

    /// The caller's user name; `None` for an anonymous caller.
    pub closed spec fn caller(self) -> Option<Seq<char>> {
        match self.username {
            Some(name) => Some(name@),
            None => None,
        }
    }

    /// The caller's role; `None` for an anonymous caller.
    pub closed spec fn held(self) -> Option<Role> {
        self.role
    }

    /// What the operation asked for.
    pub closed spec fn required(self) -> Option<Role> {
        self.required
    }

    /// The caller's user name; `None` for an anonymous caller.
    pub fn username(&self) -> (name: Option<&str>)
        ensures
            match self.caller() {
                Some(text) => name matches Some(n) && n@ == text,
                None => name is None,
            },
    {
        match &self.username {
            Some(name) => Some(name.as_str()),
            None => None,
        }
    }

    /// The caller's role, which satisfies what the operation asked for.
    pub fn role(&self) -> (role: Option<Role>)
        ensures
            role == self.held(),
            permits(role, self.required()),
            role is Some <==> self.caller() is Some,
    {
        proof {
            use_type_invariant(self);
        }
        self.role
    }

    /// What the operation asked for.
    pub fn required_role(&self) -> (required: Option<Role>)
        ensures
            required == self.required(),
            permits(self.held(), required),
    {
        proof {
            use_type_invariant(self);
        }
        self.required
    }

    /// Whether the caller is an admin.
    pub fn is_admin(&self) -> (admin: bool)
        ensures
            admin == (self.held() == Some(Role::Admin)),
            self.required() == Some(Role::Admin) ==> admin,
    {
        proof {
            use_type_invariant(self);
        }
        match self.role {
            Some(Role::Admin) => true,
            _ => false,
        }
    }
}

/// The chokepoint itself. It holds no state: every decision rests on the identity
/// and the requirement handed to it.
pub struct AccessGate;

impl AccessGate {
    /// The role that an identity resolves to: none for an anonymous caller,
    /// the parsed role of a known user, or `InvalidRole` where the stored
    /// token is not canonical.
    pub open spec fn resolved(identity: Identity) -> Result<Option<Role>, Error> {
        match identity {
            Identity::Anonymous => Ok(None),
            Identity::Known(user) => match Role::parse(user.role@) {
                Some(role) => Ok(Some(role)),
                None => Err(Error::InvalidRole),
            },
        }
    }

    /// The decision: the caller's role where the caller may pass,
    /// the failure otherwise.
    pub open spec fn decision(identity: Identity, required: Option<Role>) -> Result<
        Option<Role>,
        Error,
    > {
        match AccessGate::resolved(identity) {
            Ok(held) => if permits(held, required) {
                Ok(held)
            } else {
                Err(Error::Forbidden)
            },
            Err(failure) => Err(failure),
        }
    }

    /// The user name of an identity; `None` for an anonymous caller.
    pub open spec fn name_of(identity: Identity) -> Option<Seq<char>> {
        match identity {
            Identity::Anonymous => None,
            Identity::Known(user) => Some(user.username@),
        }
    }

    /// Decides `permits`.
    pub fn allows(held: Option<Role>, required: Option<Role>) -> (ok: bool)
        ensures
            ok == permits(held, required),
    {
        match required {
            None => true,
            Some(need) => match held {
                Some(have) => have.meets(need),
                None => false,
            },
        }
    }

    /// Resolves the caller and holds their role against what the operation
    /// requires. `None` as requirement lets everyone pass, anonymous callers
    /// too; a required role lets pass the known users whose role satisfies
    /// it. The role is read through `Role::from_str` and nothing else.
    pub fn authorize(identity: &Identity, required: Option<Role>) -> (pass: Result<Clearance, Error>)
        ensures
            match AccessGate::decision(*identity, required) {
                Ok(held) => {
                    &&& pass matches Ok(clearance)
                    &&& clearance.held() == held
                    &&& clearance.required() == required
                    &&& clearance.caller() == AccessGate::name_of(*identity)
                },
                Err(failure) => pass matches Err(shown) && shown == failure,
            },
    {
        match identity {
            Identity::Anonymous => {
                if AccessGate::allows(None, required) {
                    Ok(Clearance { username: None, role: None, required })
                } else {
                    Err(Error::Forbidden)
                }
            },
            Identity::Known(user) => match user.role() {
                Ok(role) => {
                    if AccessGate::allows(Some(role), required) {
                        Ok(
                            Clearance {
                                username: Some(user.username.clone()),
                                role: Some(role),
                                required,
                            },
                        )
                    } else {
                        Err(Error::Forbidden)
                    }
                },
                Err(failure) => Err(failure),
            },
        }
    }
}

/// Whoever a token resolves to is the user the token asserts, and holds the
/// token as their live one.
pub proof fn lemma_resolved_from_live_token(
    issuer: SessionTokenIssuer,
    token: Seq<char>,
    holder: Option<User>,
)
    ensures
        Identity::resolved(issuer, Some(token), holder) matches Ok(who) ==> {
            &&& who matches Identity::Known(user)
            &&& holder == Some(user)
            &&& user.is_live(token)
            &&& issuer.asserted(token) matches Some(parts)
            &&& parts.1 == user.username@
        },
{
}

/// An operation reserved to admins lets nobody pass but a known user whose
/// stored role is the admin token.
pub proof fn lemma_admin_only(identity: Identity)
    ensures
        AccessGate::decision(identity, Some(Role::Admin)) is Ok <==> (identity matches Identity::Known(
            user,
        ) && user.role@ == Role::Admin.canonical()),
{
    reveal_strlit("user");
    reveal_strlit("admin");
    assert("user"@.len() == 4 && "admin"@.len() == 5);
}

/// A known user with the plain user role is refused at an operation reserved
/// to admins, and an anonymous caller at every operation that requires a role.
pub proof fn lemma_forbidden(identity: Identity, required: Role)
    ensures
        identity is Anonymous ==> AccessGate::decision(identity, Some(required)) == Err::<
            Option<Role>,
            Error,
        >(Error::Forbidden),
        identity matches Identity::Known(user) && user.role@ == Role::User.canonical()
            ==> AccessGate::decision(identity, Some(Role::Admin)) == Err::<Option<Role>, Error>(
            Error::Forbidden,
        ),
{
    reveal_strlit("user");
    reveal_strlit("admin");
    assert("user"@.len() == 4 && "admin"@.len() == 5);
}

/// An operation open to everyone lets every caller pass whose identity
/// resolves.
pub proof fn lemma_open_to_all(identity: Identity)
    ensures
        AccessGate::decision(identity, None) == AccessGate::resolved(identity),
{
}

} // verus!
