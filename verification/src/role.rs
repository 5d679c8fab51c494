//! The closed set of roles a user can hold, and per-route allow-lists.

use vstd::prelude::*;

use crate::text::same_text;

verus! {

/// A user's role. Privileges are granted only by explicit allow-lists:
/// no role implies another.
#[derive(Clone, Copy, Debug, PartialEq, Eq, Structural)]
pub enum UserRole {
    Admin,
    Moderator,
    User,
}

/// The text handed to [`UserRole::parse`] names no role.
#[derive(Clone, Copy, Debug, PartialEq, Eq, Structural)]
pub struct UnknownRole;

impl UserRole {
    /// The canonical text of a role, as stored and sent over the wire.
    pub open spec fn text(self) -> Seq<char> {
        match self {
            UserRole::Admin => "admin"@,
            UserRole::Moderator => "moderator"@,
            UserRole::User => "user"@,
        }
    }

    /// The role that a text names, if any. Matching is exact and
    /// case-sensitive.
    pub open spec fn named_by(text: Seq<char>) -> Option<UserRole> {
        if text == UserRole::Admin.text() {
            Some(UserRole::Admin)
        } else if text == UserRole::Moderator.text() {
            Some(UserRole::Moderator)
        } else if text == UserRole::User.text() {
            Some(UserRole::User)
        } else {
            None
        }
    }

    /// The place of a role in the order of privilege: a higher number is
    /// the more privileged role. The order ranks the roles and grants
    /// nothing: access goes by allow-lists alone.
    pub open spec fn rank(self) -> u8 {
        match self {
            UserRole::Admin => 2,
            UserRole::Moderator => 1,
            UserRole::User => 0,
        }
    }

    pub fn privilege(&self) -> (rank: u8)
        ensures
            rank == self.rank(),
    {
        match self {
            UserRole::Admin => 2,
            UserRole::Moderator => 1,
            UserRole::User => 0,
        }
    }

    pub fn to_str(&self) -> (s: &'static str)
        ensures
            s@ == self.text(),
    {
        match self {
            UserRole::Admin => "admin",
            UserRole::Moderator => "moderator",
            UserRole::User => "user",
        }
    }

    /// Decodes a role from its canonical text; any other text is an error.
    pub fn parse(text: &str) -> (res: Result<UserRole, UnknownRole>)
        ensures
            res == match UserRole::named_by(text@) {
                Some(role) => Ok::<UserRole, UnknownRole>(role),
                None => Err(UnknownRole),
            },
    {
        if same_text(text, "admin") {
            Ok(UserRole::Admin)
        } else if same_text(text, "moderator") {
            Ok(UserRole::Moderator)
        } else if same_text(text, "user") {
            Ok(UserRole::User)
        } else {
            Err(UnknownRole)
        }
    }
}

/// The roles that may invoke a route.
#[derive(Debug)]
pub struct AccessPolicy {
    pub allowed: Vec<UserRole>,
}

impl AccessPolicy {
    /// The set of roles that the policy lists.
    pub open spec fn roles(self) -> Set<UserRole> {
        self.allowed@.to_set()
    }

    /// Whether the policy lists `role`.
    pub open spec fn admits(self, role: UserRole) -> bool {
        self.allowed@.contains(role)
    }

    /// The policy that admits exactly the roles listed.
    pub fn allowed_roles(roles: Vec<UserRole>) -> (policy: AccessPolicy)
        ensures
            policy.allowed@ == roles@,
    {
        AccessPolicy { allowed: roles }
    }

    /// Tests `role` against the list.
    pub fn allows(&self, role: UserRole) -> (listed: bool)
        ensures
            listed == self.admits(role),
            listed == self.roles().contains(role),
    {
        let mut i: usize = 0;
        while i < self.allowed.len()
            invariant
                i <= self.allowed.len(),
                forall|k: int| 0 <= k < i ==> self.allowed@[k] != role,
            decreases self.allowed.len() - i,
        {
            if self.allowed[i] == role {
                return true;
            }
            i += 1;
        }
        false
    }
}

/// The routes of the service.
#[derive(Clone, Copy, Debug, PartialEq, Eq, Structural)]
pub enum Route {
    /// The liveness probe.
    HealthCheck,
    /// The list of all users.
    ListUsers,
    /// The record of the user who asks.
    CurrentUser,
}

impl Route {
    /// The roles that a route is declared to admit; `None` declares the
    /// route public.
    pub open spec fn declared(self) -> Option<Seq<UserRole>> {
        match self {
            Route::HealthCheck => None,
            Route::ListUsers => Some(seq![UserRole::Admin]),
            Route::CurrentUser => Some(seq![UserRole::Admin, UserRole::Moderator, UserRole::User]),
        }
    }

    /// The policy that guards the route, or `None` for a public route.
    pub fn policy(&self) -> (policy: Option<AccessPolicy>)
        ensures
            match policy {
                Some(p) => self.declared() == Some(p.allowed@),
                None => self.declared() is None,
            },
    {
        match self {
            Route::HealthCheck => None,
            Route::ListUsers => {
                let mut roles = Vec::new();
                roles.push(UserRole::Admin);
                assert(roles@ =~= seq![UserRole::Admin]);
                Some(AccessPolicy::allowed_roles(roles))
            },
            Route::CurrentUser => {
                let mut roles = Vec::new();
                roles.push(UserRole::Admin);
                roles.push(UserRole::Moderator);
                roles.push(UserRole::User);
                assert(roles@ =~= seq![UserRole::Admin, UserRole::Moderator, UserRole::User]);
                Some(AccessPolicy::allowed_roles(roles))
            },
        }
    }
}

/// The order of privilege is total: two roles of one rank are one role.
pub proof fn role_order_is_total(a: UserRole, b: UserRole)
    ensures
        a.rank() < b.rank() || b.rank() < a.rank() || a == b,
{
}

/// Distinct roles have distinct texts, so a text names at most one role and
/// decoding undoes encoding.
pub proof fn role_text_round_trip(role: UserRole)
    ensures
        UserRole::named_by(role.text()) == Some(role),
{
    reveal_strlit("admin");
    reveal_strlit("moderator");
    reveal_strlit("user");
    assert("admin"@.len() == 5);
    assert("moderator"@.len() == 9);
    assert("user"@.len() == 4);
}

/// A text that names a role is that role's canonical text.
pub proof fn role_named_only_by_its_text(text: Seq<char>, role: UserRole)
    requires
        UserRole::named_by(text) == Some(role),
    ensures
        text == role.text(),
{
}

} // verus!
