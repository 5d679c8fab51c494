//! The access guard: the decision that stands between a request and a
//! protected route.
//!
//! A request passes through the states of [`GuardState`] in order. The guard
//! decides; whoever drives it reads the request, the clock and the user
//! store, and hands the reading in as a [`GuardInput`].

use vstd::prelude::*;
use vstd::string::StrSliceExecFns;

use crate::error::AuthError;
use crate::role::AccessPolicy;
use crate::text::same_text;
use crate::token::{claims_outcome, decode_token_at, decoded_claims, text_of};
use crate::user::User;

verus! {

/// The length of the scheme and the space that precede a bearer token.
pub const SCHEME_LEN: usize = 7;

/// The token that an `Authorization` header carries: what follows the exact
/// prefix `Bearer `, provided something does.
pub open spec fn bearer_of(header: Option<Seq<char>>) -> Option<Seq<char>> {
    match header {
        Some(text) => if text.len() > SCHEME_LEN && text.subrange(0, SCHEME_LEN as int)
            == "Bearer "@ {
            Some(text.subrange(SCHEME_LEN as int, text.len() as int))
        } else {
            None
        },
        None => None,
    }
}

/// The view of a header that may be absent.
pub open spec fn header_text(header: Option<&str>) -> Option<Seq<char>> {
    match header {
        Some(text) => Some(text@),
        None => None,
    }
}

/// Extracts the bearer token from the value of the `Authorization` header.
/// A request without the header, with another scheme or with nothing after
/// the scheme supplies no token.
pub fn bearer_token(authorization: Option<&str>) -> (res: Result<String, AuthError>)
    ensures
        text_of(res) == match bearer_of(header_text(authorization)) {
            Some(token) => Ok::<Seq<char>, AuthError>(token),
            None => Err(AuthError::TokenNotProvided),
        },
{
    let text = match authorization {
        Some(text) => text,
        None => {
            return Err(AuthError::TokenNotProvided);
        },
    };
    let len = text.unicode_len();
    if len <= SCHEME_LEN {
        return Err(AuthError::TokenNotProvided);
    }
    if !same_text(text.substring_char(0, SCHEME_LEN), "Bearer ") {
        return Err(AuthError::TokenNotProvided);
    }
    Ok(text.substring_char(SCHEME_LEN, len).to_owned())
}

/// Resolves a verified subject to the user that the store found for it. A
/// subject that the store no longer knows is refused.
pub fn resolve(found: Option<User>) -> (res: Result<User, AuthError>)
    ensures
        res == match found {
            Some(user) => Ok::<User, AuthError>(user),
            None => Err(AuthError::UserNotFound),
        },
{
    match found {
        Some(user) => Ok(user),
        None => Err(AuthError::UserNotFound),
    }
}

/// Lets `identity` through if the policy lists its role.
pub fn check_role(identity: User, policy: &AccessPolicy) -> (res: Result<User, AuthError>)
    ensures
        res == if policy.admits(identity.role) {
            Ok::<User, AuthError>(identity)
        } else {
            Err(AuthError::PermissionDenied)
        },
{
    if policy.allows(identity.role) {
        Ok(identity)
    } else {
        Err(AuthError::PermissionDenied)
    }
}

/// How far a request has come.
#[derive(Debug)]
pub enum GuardState {
    Unauthenticated,
    CredentialExtracted { token: String },
    TokenVerified { subject: String },
    IdentityResolved { identity: User },
    /// Terminal: the request proceeds on behalf of `identity`.
    Authorized { identity: User },
    /// Terminal: the request ends with `error`.
    Denied { error: AuthError },
}

/// What the guard is handed to take a step.
#[derive(Debug)]
pub enum GuardInput {
    /// The value of the request's `Authorization` header, if it has one.
    Header(Option<String>),
    /// The time in seconds since the epoch.
    Clock(i64),
    /// The store's answer for the verified subject.
    Lookup(Option<User>),
    /// Nothing: the step needs no reading.
    Nothing,
}

/// What the guard needs before its next step.
#[derive(Clone, Copy, Debug, PartialEq, Eq, Structural)]
pub enum GuardNeed {
    Header,
    Clock,
    Lookup,
    Nothing,
    /// The state is terminal.
    Done,
}

/// The view of a header that was handed in.
pub open spec fn input_text(header: Option<String>) -> Option<Seq<char>> {
    match header {
        Some(text) => Some(text@),
        None => None,
    }
}

impl GuardState {
    pub open spec fn is_terminal(self) -> bool {
        self is Authorized || self is Denied
    }

    /// The reading that moves the state on.
    pub open spec fn need(self) -> GuardNeed {
        match self {
            GuardState::Unauthenticated => GuardNeed::Header,
            GuardState::CredentialExtracted { .. } => GuardNeed::Clock,
            GuardState::TokenVerified { .. } => GuardNeed::Lookup,
            GuardState::IdentityResolved { .. } => GuardNeed::Nothing,
            GuardState::Authorized { .. } => GuardNeed::Done,
            GuardState::Denied { .. } => GuardNeed::Done,
        }
    }

    pub fn needs(&self) -> (need: GuardNeed)
        ensures
            need == self.need(),
    {
        match self {
            GuardState::Unauthenticated => GuardNeed::Header,
            GuardState::CredentialExtracted { .. } => GuardNeed::Clock,
            GuardState::TokenVerified { .. } => GuardNeed::Lookup,
            GuardState::IdentityResolved { .. } => GuardNeed::Nothing,
            GuardState::Authorized { .. } => GuardNeed::Done,
            GuardState::Denied { .. } => GuardNeed::Done,
        }
    }
}

/// The guard of one route: the secret that tokens are verified under and the
/// roles that the route admits.
pub struct AccessGuard {
    pub secret: Vec<u8>,
    pub policy: AccessPolicy,
}

impl AccessGuard {
    /// The step relation: `next` is the state that follows `state` on
    /// `input`. Each state moves on the reading it needs, to the next state
    /// or to `Denied`; on any other reading, and in a terminal state, nothing
    /// changes.
    pub open spec fn follows(self, state: GuardState, input: GuardInput, next: GuardState) -> bool {
        match (state, input) {
            (GuardState::Unauthenticated, GuardInput::Header(header)) => match bearer_of(
                input_text(header),
            ) {
                Some(text) => next matches GuardState::CredentialExtracted { token } && token@
                    == text,
                None => next == (GuardState::Denied { error: AuthError::TokenNotProvided }),
            },
            (GuardState::CredentialExtracted { token }, GuardInput::Clock(now)) => match claims_outcome(
                decoded_claims(token@, self.secret@),
                now,
            ) {
                Ok(sub) => next matches GuardState::TokenVerified { subject } && subject@ == sub,
                Err(_) => next == (GuardState::Denied { error: AuthError::InvalidToken }),
            },
            (GuardState::TokenVerified { .. }, GuardInput::Lookup(found)) => match found {
                Some(user) => next == (GuardState::IdentityResolved { identity: user }),
                None => next == (GuardState::Denied { error: AuthError::UserNotFound }),
            },
            (GuardState::IdentityResolved { identity }, GuardInput::Nothing) => if self.policy.admits(
                identity.role,
            ) {
                next == (GuardState::Authorized { identity })
            } else {
                next == (GuardState::Denied { error: AuthError::PermissionDenied })
            },
            _ => next == state,
        }
    }

    pub fn new(secret: Vec<u8>, policy: AccessPolicy) -> (guard: AccessGuard)
        ensures
            guard.secret@ == secret@,
            guard.policy == policy,
    {
        AccessGuard { secret, policy }
    }

    /// Takes one step.
    pub fn step(&self, state: GuardState, input: GuardInput) -> (next: GuardState)
        ensures
            self.follows(state, input, next),
    {
        match (state, input) {
            (GuardState::Unauthenticated, GuardInput::Header(header)) => {
                let found = match &header {
                    Some(text) => bearer_token(Some(text.as_str())),
                    None => bearer_token(None),
                };
                match found {
                    Ok(token) => GuardState::CredentialExtracted { token },
                    Err(error) => GuardState::Denied { error },
                }
            },
            (GuardState::CredentialExtracted { token }, GuardInput::Clock(now)) => {
                match decode_token_at(token.as_str(), self.secret.as_slice(), now) {
                    Ok(subject) => GuardState::TokenVerified { subject },
                    Err(error) => GuardState::Denied { error },
                }
            },
            (GuardState::TokenVerified { subject }, GuardInput::Lookup(found)) => {
                match resolve(found) {
                    Ok(identity) => GuardState::IdentityResolved { identity },
                    Err(error) => GuardState::Denied { error },
                }
            },
            (GuardState::IdentityResolved { identity }, GuardInput::Nothing) => {
                match check_role(identity, &self.policy) {
                    Ok(identity) => GuardState::Authorized { identity },
                    Err(error) => GuardState::Denied { error },
                }
            },
            (state, _) => state,
        }
    }
}

impl AccessGuard {
    /// What the guard makes of a whole request: of its header, the time,
    /// and the store's answer, which is looked at only once the token has
    /// been accepted.
    pub open spec fn verdict(self, header: Option<Seq<char>>, now: i64, found: Option<User>) -> Result<
        User,
        AuthError,
    > {
        match bearer_of(header) {
            None => Err(AuthError::TokenNotProvided),
            Some(token) => match claims_outcome(decoded_claims(token, self.secret@), now) {
                Err(_) => Err(AuthError::InvalidToken),
                Ok(_) => match found {
                    None => Err(AuthError::UserNotFound),
                    Some(user) => if self.policy.admits(user.role) {
                        Ok(user)
                    } else {
                        Err(AuthError::PermissionDenied)
                    },
                },
            },
        }
    }

    /// The terminal state that stands for a verdict.
    pub open spec fn terminal_of(verdict: Result<User, AuthError>) -> GuardState {
        match verdict {
            Ok(identity) => GuardState::Authorized { identity },
            Err(error) => GuardState::Denied { error },
        }
    }

    /// A request without an `Authorization` header is denied at the first
    /// step, with status 401, and the denied state asks for no further
    /// reading: the user store is never consulted.
    pub proof fn missing_header_is_denied_at_once(self, next: GuardState)
        requires
            self.follows(GuardState::Unauthenticated, GuardInput::Header(None), next),
        ensures
            next == (GuardState::Denied { error: AuthError::TokenNotProvided }),
            AuthError::TokenNotProvided.status() == 401,
            next.need() == GuardNeed::Done,
    {
    }

    /// A terminal state never changes: there is no retry within a request.
    pub proof fn terminal_states_stay(self, state: GuardState, input: GuardInput, next: GuardState)
        requires
            state.is_terminal(),
            self.follows(state, input, next),
        ensures
            next == state,
    {
    }

    /// The store is asked for a user only after a token has been accepted:
    /// the state that needs a lookup is entered only from an extracted
    /// credential, on a reading of the clock at which the token verifies.
    pub proof fn lookup_only_after_verification(
        self,
        state: GuardState,
        input: GuardInput,
        next: GuardState,
    )
        requires
            self.follows(state, input, next),
            next.need() == GuardNeed::Lookup,
            state.need() != GuardNeed::Lookup,
        ensures
            state matches GuardState::CredentialExtracted { token } && input matches GuardInput::Clock(
                now,
            ) && claims_outcome(decoded_claims(token@, self.secret@), now) is Ok,
    {
    }

    /// A request is authorized only by the role check: the state before is
    /// a resolved identity whose role the policy lists, and that identity is
    /// the one attached.
    pub proof fn authorized_only_by_policy(
        self,
        state: GuardState,
        input: GuardInput,
        next: GuardState,
    )
        requires
            self.follows(state, input, next),
            next is Authorized,
            !(state is Authorized),
        ensures
            state matches GuardState::IdentityResolved { identity } && self.policy.admits(
                identity.role,
            ) && next == (GuardState::Authorized { identity }),
    {
    }

    /// A step denies with 403 exactly when it refuses a resolved identity
    /// for its role; every other denial is a 401.
    pub proof fn denial_status(self, state: GuardState, input: GuardInput, next: GuardState)
        requires
            self.follows(state, input, next),
            !(state is Denied),
        ensures
            next matches GuardState::Denied { error } ==> (error.status() == 401 || error.status()
                == 403) && (error.status() == 403 <==> state is IdentityResolved),
    {
    }

    /// Fed the header, the clock, the store's answer and nothing more, in
    /// that order, the guard ends in the terminal state of its verdict. The
    /// steps after a denial change nothing, so what is handed in after it
    /// does not matter.
    pub proof fn run_ends_in_verdict(
        self,
        header: Option<String>,
        now: i64,
        found: Option<User>,
        extracted: GuardState,
        verified: GuardState,
        resolved: GuardState,
        decided: GuardState,
    )
        requires
            self.follows(GuardState::Unauthenticated, GuardInput::Header(header), extracted),
            self.follows(extracted, GuardInput::Clock(now), verified),
            self.follows(verified, GuardInput::Lookup(found), resolved),
            self.follows(resolved, GuardInput::Nothing, decided),
        ensures
            decided == Self::terminal_of(self.verdict(input_text(header), now, found)),
            decided.is_terminal(),
    {
    }

    /// Once the token of a request verifies and the store knows its subject,
    /// the role alone decides: the identity is authorized if the policy
    /// lists its role, and refused with `PermissionDenied` if not.
    pub proof fn role_gates_the_verdict(self, header: Option<Seq<char>>, now: i64, user: User)
        requires
            bearer_of(header) matches Some(token) && claims_outcome(
                decoded_claims(token, self.secret@),
                now,
            ) is Ok,
        ensures
            self.verdict(header, now, Some(user)) == if self.policy.admits(user.role) {
                Ok::<User, AuthError>(user)
            } else {
                Err::<User, AuthError>(AuthError::PermissionDenied)
            },
    {
    }
}

} // verus!
