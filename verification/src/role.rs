//! The two-valued permission tag and its canonical text form.

use vstd::prelude::*;

use crate::error::Error;
use crate::text::same_text;

verus! {

/// Permission tag carried by every user.
#[derive(Debug, Clone, Copy, PartialEq, Eq, Structural)]
pub enum Role {
    User,
    Admin,
}

impl Role {
    /// The canonical token of a role.
    pub open spec fn canonical(self) -> Seq<char> {
        match self {
            Role::User => "user"@,
            Role::Admin => "admin"@,
        }
    }

    /// The role that a piece of text names, if it names one. The match is
    /// exact: no trimming, no case folding.
    pub open spec fn parse(raw: Seq<char>) -> Option<Role> {
        if raw == "user"@ {
            Some(Role::User)
        } else if raw == "admin"@ {
            Some(Role::Admin)
        } else {
            None
        }
    }

    /// Whether a caller holding `self` may run an operation that asks for
    /// `required`: an admin may run anything, a user what asks for a user.
    pub open spec fn satisfies(self, required: Role) -> bool {
        self == Role::Admin || required == Role::User
    }

    pub fn to_str(&self) -> (s: &'static str)
        ensures
            s@ == self.canonical(),
    {
        match *self {
            Role::User => "user",
            Role::Admin => "admin",
        }
    }

    pub fn from_str(raw: &str) -> (parsed: Result<Role, Error>)
        ensures
            parsed == match Role::parse(raw@) {
                Some(role) => Ok::<Role, Error>(role),
                None => Err(Error::InvalidRole),
            },
    {
        if same_text(raw, "user") {
            Ok(Role::User)
        } else if same_text(raw, "admin") {
            Ok(Role::Admin)
        } else {
            Err(Error::InvalidRole)
        }
    }

    /// Decides `satisfies`.
    pub fn meets(&self, required: Role) -> (ok: bool)
        ensures
            ok == self.satisfies(required),
    {
        match (*self, required) {
            (Role::Admin, _) => true,
            (Role::User, Role::User) => true,
            (Role::User, Role::Admin) => false,
        }
    }
}

/// Parsing the canonical token of a role gives that role back.
pub proof fn lemma_parse_inverts_canonical(role: Role)
    ensures
        Role::parse(role.canonical()) == Some(role),
{
    reveal_strlit("user");
    reveal_strlit("admin");
    assert("user"@.len() == 4 && "admin"@.len() == 5);
}

/// The canonical token of whatever role a text parses to is that text: the
/// two directions are driven by one table.
pub proof fn lemma_canonical_inverts_parse(raw: Seq<char>)
    ensures
        Role::parse(raw) matches Some(role) ==> role.canonical() == raw,
{
}

/// Any text other than the two canonical tokens names no role.
pub proof fn lemma_parse_rejects_other_text(raw: Seq<char>)
    requires
        raw != "user"@,
        raw != "admin"@,
    ensures
        Role::parse(raw) is None,
{
}

} // verus!
