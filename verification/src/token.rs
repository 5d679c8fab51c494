//! Issuing and verifying signed session tokens.
//!
//! A token is a compact three-part string, `header.payload.signature`,
//! signed with HMAC-SHA256 under a shared secret. The payload carries the
//! subject and the issue and expiry times in seconds since the epoch.

use vstd::prelude::*;

use crate::error::{AuthError, HttpError};

verus! {

/// The error type of `jsonwebtoken`, carried through unopened: every fault
/// of the encoder or the decoder is mapped to an [`AuthError`].
#[verifier::external_type_specification]
#[verifier::external_body]
pub struct ExTokenFault(jsonwebtoken::errors::Error);

/// The payload of a token.
#[derive(Debug)]
pub struct TokenClaims {
    pub sub: String,
    pub iat: i64,
    pub exp: i64,
}

/// What a payload holds under the names `sub`, `iat` and `exp`, each `None`
/// where the payload has no such member or one of another JSON type.
pub type ClaimParts = (Option<String>, Option<i64>, Option<i64>);

/// The token that `jsonwebtoken::encode` returns for an HS256 header, the
/// claims `sub`, `iat`, `exp` and the secret as HMAC key; `None` where it
/// returns an error.
pub uninterp spec fn encoded_token(sub: Seq<char>, iat: i64, exp: i64, secret: Seq<u8>) -> Option<
    Seq<char>,
>;

/// What `jsonwebtoken::decode` reads out of a token whose algorithm is pinned
/// to HS256 and whose expiry it is told not to judge; `None` where it returns
/// an error.
pub uninterp spec fn decoded_claims(token: Seq<char>, secret: Seq<u8>) -> Option<
    (Option<Seq<char>>, Option<i64>, Option<i64>),
>;

/// The signature text that `jsonwebtoken::crypto::sign` computes for a
/// message with HS256 under the secret.
pub uninterp spec fn hs256_signature(message: Seq<char>, secret: Seq<u8>) -> Seq<char>;

/// `first` and `second` are the places of the only two dots of `token`.
pub open spec fn dots_at(token: Seq<char>, first: int, second: int) -> bool {
    &&& 0 <= first < second < token.len()
    &&& token[first] == '.'
    &&& token[second] == '.'
    &&& forall|k: int| 0 <= k < token.len() && token[k] == '.' ==> k == first || k == second
}

/// The token has three dot-free parts.
pub open spec fn three_parts(token: Seq<char>) -> bool {
    exists|first: int, second: int| dots_at(token, first, second)
}

/// `at` is the place of the last dot of `token`.
pub open spec fn is_last_dot(token: Seq<char>, at: int) -> bool {
    &&& 0 <= at < token.len()
    &&& token[at] == '.'
    &&& forall|k: int| at < k < token.len() ==> token[k] != '.'
}

/// The place of the last dot of a token that has one.
pub open spec fn last_dot(token: Seq<char>) -> int {
    choose|at: int| is_last_dot(token, at)
}

/// What the signature covers: the header and the payload with the dot
/// between them.
pub open spec fn signed_part(token: Seq<char>) -> Seq<char> {
    token.subrange(0, last_dot(token))
}

/// The third part of a token.
pub open spec fn signature_part(token: Seq<char>) -> Seq<char> {
    token.subrange(last_dot(token) + 1, token.len() as int)
}

/// The token has three parts, and the third is the HS256 signature of the
/// first two under `secret`.
pub open spec fn well_signed(token: Seq<char>, secret: Seq<u8>) -> bool {
    &&& three_parts(token)
    &&& signature_part(token) == hs256_signature(signed_part(token), secret)
}

/// The view of a result that carries a text.
pub open spec fn text_of(res: Result<String, AuthError>) -> Result<Seq<char>, AuthError> {
    match res {
        Ok(text) => Ok(text@),
        Err(e) => Err(e),
    }
}

/// The view of the claims read out of a token.
pub open spec fn parts_view(parts: ClaimParts) -> (Option<Seq<char>>, Option<i64>, Option<i64>) {
    (
        match parts.0 {
            Some(sub) => Some(sub@),
            None => None,
        },
        parts.1,
        parts.2,
    )
}

/// The view of claims that may not have been read.
pub open spec fn parts_of(read: Option<ClaimParts>) -> Option<
    (Option<Seq<char>>, Option<i64>, Option<i64>),
> {
    match read {
        Some(parts) => Some(parts_view(parts)),
        None => None,
    }
}

/// The view of what the decoder returned.
pub open spec fn decoded_view(res: Result<ClaimParts, jsonwebtoken::errors::Error>) -> Option<
    (Option<Seq<char>>, Option<i64>, Option<i64>),
> {
    match res {
        Ok(parts) => Some(parts_view(parts)),
        Err(_) => None,
    }
}

/// Signs the claims with `jsonwebtoken::encode`, under an HS256 header and
/// with `secret` as the HMAC key. The contract names the returned token and
/// claims of it what the encoder's source shows: with this header and a
/// secret for key the encoder has no failing path, and the token is the
/// header and the payload in base64url, a dot between them, then a dot and
/// the signature of that text.
#[verifier::external_body]
fn sign_claims(sub: &str, iat: i64, exp: i64, secret: &[u8]) -> (res: Result<
    String,
    jsonwebtoken::errors::Error,
>)
    ensures
        match res {
            Ok(token) => encoded_token(sub@, iat, exp, secret@) == Some(token@),
            Err(_) => encoded_token(sub@, iat, exp, secret@) is None,
        },
        res is Ok,
        res matches Ok(token) ==> three_parts(token@) && signature_part(token@)
            == hs256_signature(signed_part(token@), secret@),
{
    let mut claims = serde_json::Map::new();
    claims.insert("sub".to_owned(), serde_json::Value::from(sub));
    claims.insert("iat".to_owned(), serde_json::Value::from(iat));
    claims.insert("exp".to_owned(), serde_json::Value::from(exp));
    let header = jsonwebtoken::Header::new(jsonwebtoken::Algorithm::HS256);
    jsonwebtoken::encode(&header, &claims, &jsonwebtoken::EncodingKey::from_secret(secret))
}

/// Reads a token with `jsonwebtoken::decode`, which checks its framing, that
/// its header names HS256 and that its signature is the one computed under
/// `secret`. The decoder is told to leave the expiry alone: that is judged by
/// [`check_claims`], against the caller's clock. The contract names the
/// outcome and claims of it what the decoder's source shows: it accepts only
/// a three-part token that carries the signature of its first two parts, and
/// it gives back the claims of a token that the encoder made under the same
/// secret, provided the expiry is not negative (the decoder reads it as an
/// unsigned number).
#[verifier::external_body]
fn read_claims(token: &str, secret: &[u8]) -> (res: Result<ClaimParts, jsonwebtoken::errors::Error>)
    ensures
        decoded_view(res) == decoded_claims(token@, secret@),
        res is Ok ==> three_parts(token@) && signature_part(token@) == hs256_signature(
            signed_part(token@),
            secret@,
        ),
        forall|sub: Seq<char>, iat: i64, exp: i64|
            exp >= 0 && #[trigger] encoded_token(sub, iat, exp, secret@) == Some(token@)
                ==> decoded_view(res) == Some((Some(sub), Some(iat), Some(exp))),
{
    let key = jsonwebtoken::DecodingKey::from_secret(secret);
    let mut validation = jsonwebtoken::Validation::new(jsonwebtoken::Algorithm::HS256);
    validation.validate_exp = false;
    let data = jsonwebtoken::decode::<serde_json::Value>(token, &key, &validation)?;
    Ok(
        (
            data.claims["sub"].as_str().map(String::from),
            data.claims["iat"].as_i64(),
            data.claims["exp"].as_i64(),
        ),
    )
}

/// The last second that the clock can read: the end of the year 262142,
/// the last year of `chrono`'s calendar.
pub const LATEST_READING: i64 = 8_210_266_876_799;

/// The longest positive lifetime, in minutes, whose expiry fits in a
/// timestamp whatever the clock reads.
pub const LONGEST_SURE_LIFETIME: i64 = 153_722_730_443_131_650;

/// The system clock through `chrono::Utc::now`, in whole seconds since the
/// epoch. What is claimed of the reading is its range: `Utc::now` returns
/// only a time of `chrono`'s calendar that is not before the epoch, and
/// panics where the clock stands outside these.
#[verifier::external_body]
fn unix_now() -> (now: i64)
    ensures
        0 <= now <= LATEST_READING,
{
    chrono::Utc::now().timestamp()
}

/// The expiry of a token issued at `issued_at` for a number of minutes.
pub open spec fn expiry(issued_at: i64, minutes: i64) -> int {
    issued_at + 60 * minutes
}

impl TokenClaims {
    /// Claims as issuance makes them: a subject that is not empty, and an
    /// expiry later than the issue time.
    pub open spec fn well_formed(self) -> bool {
        &&& self.sub@.len() > 0
        &&& self.iat < self.exp
    }

    /// What [`TokenClaims::issue`] returns.
    pub open spec fn issued(subject: Seq<char>, issued_at: i64, minutes: i64) -> Result<
        (Seq<char>, i64, i64),
        AuthError,
    > {
        if subject.len() == 0 {
            Err(AuthError::InvalidSubject)
        } else if !(i64::MIN <= expiry(issued_at, minutes) <= i64::MAX) {
            Err(AuthError::ExpiryOutOfRange)
        } else {
            Ok((subject, issued_at, expiry(issued_at, minutes) as i64))
        }
    }

    pub open spec fn parts(self) -> (Seq<char>, i64, i64) {
        (self.sub@, self.iat, self.exp)
    }

    /// Builds the claims of a token for `subject`, issued at `issued_at` and
    /// valid for `minutes`. An empty subject is refused, and so is an expiry
    /// that no timestamp can hold.
    pub fn issue(subject: &str, issued_at: i64, minutes: i64) -> (res: Result<TokenClaims, AuthError>)
        ensures
            match res {
                Ok(claims) => TokenClaims::issued(subject@, issued_at, minutes) == Ok::<
                    (Seq<char>, i64, i64),
                    AuthError,
                >(claims.parts()),
                Err(e) => TokenClaims::issued(subject@, issued_at, minutes) == Err::<
                    (Seq<char>, i64, i64),
                    AuthError,
                >(e),
            },
            res matches Ok(claims) ==> (minutes > 0 ==> claims.well_formed()),
    {
        if subject.is_empty() {
            return Err(AuthError::InvalidSubject);
        }
        let exp: i128 = issued_at as i128 + 60 * (minutes as i128);
        if exp < i64::MIN as i128 || exp > i64::MAX as i128 {
            return Err(AuthError::ExpiryOutOfRange);
        }
        Ok(TokenClaims { sub: subject.to_owned(), iat: issued_at, exp: exp as i64 })
    }
}

/// What verification makes of the claims read out of a token, at the time
/// `now`: the subject while the token has not expired, and the one opaque
/// error otherwise.
pub open spec fn claims_outcome(
    parts: Option<(Option<Seq<char>>, Option<i64>, Option<i64>)>,
    now: i64,
) -> Result<Seq<char>, AuthError> {
    match parts {
        Some((Some(sub), Some(_), Some(exp))) => if now <= exp {
            Ok(sub)
        } else {
            Err(AuthError::InvalidToken)
        },
        _ => Err(AuthError::InvalidToken),
    }
}

/// The subject that verification accepts, if it accepts one.
pub open spec fn accepted_subject(
    parts: Option<(Option<Seq<char>>, Option<i64>, Option<i64>)>,
    now: i64,
) -> Option<Seq<char>> {
    match claims_outcome(parts, now) {
        Ok(sub) => Some(sub),
        Err(_) => None,
    }
}

/// The view of an HTTP-level verification: the subject, or the message and
/// the status of the error.
pub open spec fn http_view(res: Result<String, HttpError>) -> Result<Seq<char>, (Seq<char>, u16)> {
    match res {
        Ok(sub) => Ok(sub@),
        Err(e) => Err((e.message@, e.status)),
    }
}

/// An outcome as it is reported over HTTP: a failure by its message and
/// status.
pub open spec fn reported(outcome: Result<Seq<char>, AuthError>) -> Result<
    Seq<char>,
    (Seq<char>, u16),
> {
    match outcome {
        Ok(sub) => Ok(sub),
        Err(e) => Err((e.text(), e.status())),
    }
}

/// The subject that an HTTP-level verification returned, if any.
pub open spec fn subject_of(res: Result<String, HttpError>) -> Option<Seq<char>> {
    match res {
        Ok(sub) => Some(sub@),
        Err(_) => None,
    }
}

/// What [`create_token_at`] returns.
pub open spec fn issued_token(subject: Seq<char>, secret: Seq<u8>, minutes: i64, now: i64) -> Result<
    Seq<char>,
    AuthError,
> {
    match TokenClaims::issued(subject, now, minutes) {
        Err(e) => Err(e),
        Ok((sub, iat, exp)) => match encoded_token(sub, iat, exp, secret) {
            Some(token) => Ok(token),
            None => Err(AuthError::SigningFailed),
        },
    }
}

/// `altered` is `token` with another character at the place `at`, and the
/// same everywhere else.
pub open spec fn differs_only_at(token: Seq<char>, altered: Seq<char>, at: int) -> bool {
    &&& altered.len() == token.len()
    &&& 0 <= at < token.len()
    &&& altered[at] != token[at]
    &&& forall|k: int| 0 <= k < token.len() && k != at ==> altered[k] == token[k]
}

/// In a three-part token the second of the two dots is the last dot.
pub proof fn second_dot_is_last(token: Seq<char>, first: int, second: int)
    requires
        dots_at(token, first, second),
    ensures
        last_dot(token) == second,
        is_last_dot(token, second),
{
    assert(is_last_dot(token, second));
    let at = last_dot(token);
    assert(is_last_dot(token, at));
}

/// Changing one character of the signature of a well-signed token leaves a
/// text that is not well signed under the same secret.
pub proof fn altered_signature_is_not_well_signed(
    token: Seq<char>,
    altered: Seq<char>,
    at: int,
    secret: Seq<u8>,
)
    requires
        well_signed(token, secret),
        differs_only_at(token, altered, at),
        last_dot(token) < at,
    ensures
        !well_signed(altered, secret),
{
    let (a, b) = choose|a: int, b: int| dots_at(token, a, b);
    second_dot_is_last(token, a, b);
    assert(altered[a] == '.' && altered[b] == '.');
    if well_signed(altered, secret) {
        let (c, d) = choose|c: int, d: int| dots_at(altered, c, d);
        second_dot_is_last(altered, c, d);
        assert(a == c && b == d);
        assert(signed_part(altered) =~= signed_part(token));
        assert(signature_part(altered)[at - b - 1] == altered[at]);
        assert(signature_part(token)[at - b - 1] == token[at]);
        assert(false);
    }
}

/// Issues a token for `user_id`, valid for `expires_in_minutes` from `now`.
pub fn create_token_at(user_id: &str, secret: &[u8], expires_in_minutes: i64, now: i64) -> (res:
    Result<String, AuthError>)
    ensures
        text_of(res) == issued_token(user_id@, secret@, expires_in_minutes, now),
        user_id@.len() > 0 && i64::MIN <= expiry(now, expires_in_minutes) <= i64::MAX
            ==> res is Ok,
        res matches Ok(token) ==> well_signed(token@, secret@),
{
    let claims = match TokenClaims::issue(user_id, now, expires_in_minutes) {
        Ok(claims) => claims,
        Err(e) => {
            return Err(e);
        },
    };
    match sign_claims(claims.sub.as_str(), claims.iat, claims.exp, secret) {
        Ok(token) => Ok(token),
        Err(_) => Err(AuthError::SigningFailed),
    }
}

/// The lifetimes whose expiry fits in a timestamp whatever the clock
/// reads.
pub open spec fn fits_every_reading(minutes: i64) -> bool {
    i64::MIN <= expiry(0, minutes) && expiry(LATEST_READING, minutes) <= i64::MAX
}

/// Issues a token for `user_id`, valid for `expires_in_minutes` from the
/// present reading of the system clock.
///
/// An empty subject is refused. For any other subject a token is owed
/// wherever the lifetime fits every reading of the clock, which takes in
/// every positive lifetime up to [`LONGEST_SURE_LIFETIME`]; beyond that the
/// reading decides between a token and `ExpiryOutOfRange`.
pub fn create_token(user_id: &str, secret: &[u8], expires_in_minutes: i64) -> (res: Result<
    String,
    AuthError,
>)
    ensures
        user_id@.len() == 0 ==> res == Err::<String, AuthError>(AuthError::InvalidSubject),
        user_id@.len() > 0 && fits_every_reading(expires_in_minutes) ==> res is Ok,
        user_id@.len() > 0 && 0 < expires_in_minutes <= LONGEST_SURE_LIFETIME ==> res is Ok,
        exists|now: i64|
            0 <= now <= LATEST_READING && text_of(res) == #[trigger] issued_token(
                user_id@,
                secret@,
                expires_in_minutes,
                now,
            ),
        res matches Ok(token) ==> well_signed(token@, secret@),
{
    let now = unix_now();
    let res = create_token_at(user_id, secret, expires_in_minutes, now);
    assert(text_of(res) == issued_token(user_id@, secret@, expires_in_minutes, now));
    res
}

/// Judges the claims read out of a token at the time `now`; `None` stands
/// for a token that could not be read. Such a token, one that lacks one of
/// the three claims and one that has expired are refused with the same
/// error.
pub fn check_claims(read: Option<ClaimParts>, now: i64) -> (res: Result<String, AuthError>)
    ensures
        text_of(res) == claims_outcome(parts_of(read), now),
{
    match read {
        Some((Some(sub), Some(_), Some(exp))) => {
            if now <= exp {
                Ok(sub)
            } else {
                Err(AuthError::InvalidToken)
            }
        },
        _ => Err(AuthError::InvalidToken),
    }
}

/// What a token that issuance made owes at the time `now`: `outcome` is its
/// subject up to and including its expiry and nothing after it, for every
/// subject, lifetime and issue time for which `token` was issued under
/// `secret` with an expiry that is not negative.
pub open spec fn round_trip(
    token: Seq<char>,
    secret: Seq<u8>,
    now: i64,
    outcome: Option<Seq<char>>,
) -> bool {
    forall|subject: Seq<char>, minutes: i64, issued_at: i64|
        #[trigger] issued_token(subject, secret, minutes, issued_at) == Ok::<Seq<char>, AuthError>(
            token,
        ) && expiry(issued_at, minutes) >= 0 ==> outcome == (if now <= expiry(issued_at, minutes) {
            Some(subject)
        } else {
            None
        })
}

/// Verifies `token` under `secret` at the time `now` and returns its subject.
///
/// Beyond the outcome itself the contract states, in this order: that every
/// refusal is the same error; that only a well-signed token is accepted;
/// that a token which the encoder made under this secret, and so one that
/// [`create_token_at`] issued, yields its subject up to and including its
/// expiry and is refused after it, provided the expiry is not negative;
/// that a token which differs in one character of its signature from a
/// well-signed one is refused; and that a token signed under another secret
/// is refused wherever the two secrets sign its first two parts
/// differently.
pub fn decode_token_at(token: &str, secret: &[u8], now: i64) -> (res: Result<String, AuthError>)
    ensures
        text_of(res) == claims_outcome(decoded_claims(token@, secret@), now),
        res matches Err(e) ==> e == AuthError::InvalidToken,
        res is Ok ==> well_signed(token@, secret@),
        forall|sub: Seq<char>, iat: i64, exp: i64|
            exp >= 0 && #[trigger] encoded_token(sub, iat, exp, secret@) == Some(token@)
                ==> text_of(res) == (if now <= exp {
                Ok::<Seq<char>, AuthError>(sub)
            } else {
                Err::<Seq<char>, AuthError>(AuthError::InvalidToken)
            }),
        round_trip(token@, secret@, now, accepted_subject(decoded_claims(token@, secret@), now)),
        forall|genuine: Seq<char>, at: int|
            well_signed(genuine, secret@) && last_dot(genuine) < at && #[trigger] differs_only_at(
                genuine,
                token@,
                at,
            ) ==> res is Err,
        forall|other: Seq<u8>|
            well_signed(token@, other) && #[trigger] hs256_signature(signed_part(token@), other)
                != hs256_signature(signed_part(token@), secret@) ==> res is Err,
{
    let decoded = read_claims(token, secret);
    proof {
        assert forall|genuine: Seq<char>, at: int|
            well_signed(genuine, secret@) && last_dot(genuine) < at && #[trigger] differs_only_at(
                genuine,
                token@,
                at,
            ) implies decoded is Err by {
            altered_signature_is_not_well_signed(genuine, token@, at, secret@);
        }
    }
    let read = match decoded {
        Ok(parts) => Some(parts),
        Err(_) => None,
    };
    check_claims(read, now)
}

/// Verifies `token` under `secret` at the present reading of the system
/// clock and returns its subject. Every failure is reported as the same
/// error, with status 401.
///
/// A token that [`create_token`] issued for a positive lifetime comes back
/// as its subject while the clock has not passed its expiry: no reading is
/// negative, so such a token has no negative expiry.
pub fn decode_token(token: &str, secret: &[u8]) -> (res: Result<String, HttpError>)
    ensures
        exists|now: i64|
            0 <= now <= LATEST_READING && http_view(res) == reported(
                #[trigger] claims_outcome(decoded_claims(token@, secret@), now),
            ) && round_trip(token@, secret@, now, subject_of(res)),
        res matches Err(e) ==> e.status == 401 && e.message@ == AuthError::InvalidToken.text(),
        res is Ok ==> well_signed(token@, secret@),
{
    let now = unix_now();
    match decode_token_at(token, secret, now) {
        Ok(sub) => {
            let res = Ok(sub);
            assert(http_view(res) == reported(
                claims_outcome(decoded_claims(token@, secret@), now),
            ));
            res
        },
        Err(_) => {
            let res = Err(AuthError::InvalidToken.to_http());
            assert(http_view(res) == reported(
                claims_outcome(decoded_claims(token@, secret@), now),
            ));
            res
        },
    }
}

} // verus!
