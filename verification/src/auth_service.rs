//! The token codec and session operations.
//!
//! Signing embeds `{payload, exp}` into an HMAC-signed, self-describing
//! token under a named secret; verification checks the signature through the
//! token library and enforces the expiry in verified code, with a
//! zero-tolerance clock policy. Different token purposes (login bearers,
//! magic links) resolve different named secrets and lifetimes.

use vstd::prelude::*;
use vstd::string::*;

use crate::clock::now_seconds;
use crate::config::ConfigService;
use crate::errors::AuthError;
use crate::idgen::new_uuid;
use crate::session::{has_session, keep_other_sessions, keep_other_users};
use crate::session::{Session, SessionStore, SessionView};

verus! {

/// The claims envelope a token embeds: an opaque payload and its expiry in
/// epoch seconds. Created at sign time, consumed at verify time; never
/// persisted.
pub struct Claims {
    pub payload: String,
    pub exp: i64,
}

/// The token that signing `payload` with expiry `exp` under `secret` yields:
/// a fixed header, the serialized claims, and their HMAC, each base64-coded.
/// It is a function of the three arguments alone.
pub uninterp spec fn jwt_token_of(payload: Seq<char>, exp: int, secret: Seq<char>) -> Seq<char>;

/// The claims that checking `token`'s signature under `secret` yields:
/// `None` when the signature or structure is bad, the embedded
/// `(payload, exp)` otherwise. A function of the two arguments alone — the
/// clock plays no part, expiry is judged by verified code.
pub uninterp spec fn jwt_claims_of(token: Seq<char>, secret: Seq<char>) -> Option<
    (Seq<char>, int),
>;

/// Relies on `jsonwebtoken::encode` with an HS512 header and
/// `serde_json`-serialized claims `{exp, payload}`: the token is a
/// deterministic function of payload, expiry and secret, and decoding it
/// with the same secret recovers exactly the embedded claims. On this path
/// encoding cannot fail — HMAC signing accepts every key and the
/// string/integer claims object always serializes — so a (nonempty) token
/// always comes back.
#[verifier::external_body]
fn jwt_encode(payload: &String, exp: i64, secret: &String) -> (r: String)
    ensures
        r@ == jwt_token_of(payload@, exp as int, secret@),
        jwt_claims_of(r@, secret@) == Some((payload@, exp as int)),
        r@.len() > 0,
{
    let mut claims = serde_json::Map::new();
    claims.insert("payload".to_string(), serde_json::Value::String(payload.clone()));
    claims.insert("exp".to_string(), serde_json::Value::from(exp));
    let header = jsonwebtoken::Header::new(jsonwebtoken::Algorithm::HS512);
    let key = jsonwebtoken::EncodingKey::from_secret(secret.as_bytes());
    jsonwebtoken::encode(&header, &serde_json::Value::Object(claims), &key)
        .expect("HMAC encoding is infallible")
}

/// Relies on `jsonwebtoken::decode` with signature-only validation (expiry
/// checking disabled, no required claims, so no clock is consulted): the
/// outcome is a deterministic function of token and secret.
#[verifier::external_body]
fn jwt_decode(token: &String, secret: &String) -> (r: Option<Claims>)
    ensures
        match r {
            Some(c) => jwt_claims_of(token@, secret@) == Some((c.payload@, c.exp as int)),
            None => jwt_claims_of(token@, secret@) is None,
        },
{
    let mut validation = jsonwebtoken::Validation::new(jsonwebtoken::Algorithm::HS512);
    validation.validate_exp = false;
    validation.required_spec_claims = std::collections::HashSet::new();
    let key = jsonwebtoken::DecodingKey::from_secret(secret.as_bytes());
    let data = jsonwebtoken::decode::<serde_json::Value>(token, &key, &validation).ok()?;
    let payload = data.claims.get("payload")?.as_str()?.to_string();
    let exp = data.claims.get("exp")?.as_i64()?;
    Some(Claims { payload, exp })
}

/// The configuration key resolved when a caller names none.
pub open spec fn resolved_key(secret_key_var: Option<String>) -> Seq<char> {
    match secret_key_var {
        Some(k) => k@,
        None => "IAM_JWT_SECRET"@,
    }
}

/// What verification answers once the signature check produced `c` and the
/// clock read `now`: coarse failure for a bad token, expiry failure for a
/// passed `exp` — strictly, with no leniency — and the payload otherwise.
pub open spec fn verify_model(c: Option<(Seq<char>, int)>, now: int) -> Result<
    Seq<char>,
    AuthError,
> {
    match c {
        None => Err(AuthError::JWTVerificationError),
        Some((p, e)) => if e < now {
            Err(AuthError::JWTExpirationError)
        } else {
            Ok(p)
        },
    }
}

/// Round trip: a token carrying `payload` with an expiry not yet passed
/// verifies to exactly `payload` — in particular any token signed at
/// `sign_now` for a non-negative `duration` and verified at or before
/// `sign_now + duration`.
pub proof fn lemma_sign_verify_round_trip(
    payload: Seq<char>,
    secret: Seq<char>,
    token: Seq<char>,
    exp: int,
    verify_now: int,
)
    requires
        jwt_claims_of(token, secret) == Some((payload, exp)),
        verify_now <= exp,
    ensures
        verify_model(jwt_claims_of(token, secret), verify_now) == Ok::<Seq<char>, AuthError>(
            payload,
        ),
{
}

/// Expiry: a token whose embedded expiry has passed — as any token signed
/// with a negative duration has, once the clock reaches its signing instant —
/// verifies to `JWTExpirationError`, whatever its payload.
pub proof fn lemma_expired_token(
    payload: Seq<char>,
    secret: Seq<char>,
    token: Seq<char>,
    exp: int,
    verify_now: int,
)
    requires
        jwt_claims_of(token, secret) == Some((payload, exp)),
        exp < verify_now,
    ensures
        verify_model(jwt_claims_of(token, secret), verify_now) == Err::<Seq<char>, AuthError>(
            AuthError::JWTExpirationError,
        ),
{
}

/// Takes care of signing and verification of tokens, and owns the session
/// records that tie issued bearers to live logins.
pub struct AuthSerivce {
    config: ConfigService,
    sessions: SessionStore,
}

impl AuthSerivce {
    /// The named-secret configuration the codec resolves keys against.
    pub closed spec fn spec_config(self) -> ConfigService {
        self.config
    }

    /// The live session records.
    pub closed spec fn sessions_model(self) -> Seq<SessionView> {
        self.sessions.model()
    }

    /// The session store can take another record.
    pub closed spec fn sessions_at_capacity(self) -> bool {
        self.sessions.at_capacity()
    }

    pub closed spec fn wf(self) -> bool {
        self.sessions.wf() && self.config.wf()
    }

    /// A codec over the given named-secret configuration, with no live
    /// sessions yet.
    pub fn new(config: ConfigService) -> (r: AuthSerivce)
        requires
            config.wf(),
        ensures
            r.wf(),
            r.spec_config() == config,
            r.sessions_model() == Seq::<SessionView>::empty(),
    {
        AuthSerivce { config, sessions: SessionStore::new() }
    }

    /// Resolve the secret named by `secret_key_var` (or the default name).
    /// Absence is an error, never a silent fallback.
    fn resolve_secret(&self, secret_key_var: &Option<String>) -> (r: Option<&String>)
        ensures
            match r {
                Some(s) => self.spec_config().spec_get(resolved_key(*secret_key_var)) == Some(*s),
                None => self.spec_config().spec_get(resolved_key(*secret_key_var)) is None,
            },
    {
        match secret_key_var {
            Some(k) => self.config.get_env(k),
            None => {
                let default_key = String::from_str("IAM_JWT_SECRET");
                self.config.get_env(&default_key)
            },
        }
    }

    /// Create a token embedding `{payload, exp}` for `exp = now + duration`,
    /// for a caller that has already read the clock.
    ///
    /// Exactly when the named secret is missing, the result is
    /// `InternalServerError`; exactly when the expiry cannot be represented,
    /// `JWTDurationError`; otherwise a nonempty token is owed, and it
    /// carries exactly `(payload, now + duration)` under the resolved
    /// secret.
    pub fn sign_at(&self, payload: &String, duration: i64, now: i64, secret_key_var: Option<
        String,
    >) -> (r: Result<String, AuthError>)
        ensures
            match self.spec_config().spec_get(resolved_key(secret_key_var)) {
                None => r == Err::<String, AuthError>(AuthError::InternalServerError),
                Some(secret) => {
                    &&& (r is Ok <==> i64::MIN <= now + duration <= i64::MAX)
                    &&& (r is Err ==> r == Err::<String, AuthError>(AuthError::JWTDurationError))
                    &&& (r matches Ok(t) ==> t@ == jwt_token_of(
                        payload@,
                        now + duration,
                        secret@,
                    ) && jwt_claims_of(t@, secret@) == Some((payload@, now + duration))
                        && t@.len() > 0)
                },
            },
    {
        let secret = match self.resolve_secret(&secret_key_var) {
            Some(s) => s,
            None => {
                return Err(AuthError::InternalServerError);
            },
        };
        let wide: i128 = now as i128 + duration as i128;
        if wide > i64::MAX as i128 || wide < i64::MIN as i128 {
            return Err(AuthError::JWTDurationError);
        }
        let exp: i64 = wide as i64;
        Ok(jwt_encode(payload, exp, secret))
    }

    /// Create a token expiring `duration` seconds from now.
    ///
    /// The instant is read from the clock here; whatever it was, signing
    /// succeeds with a nonempty token unless the instant plus `duration`
    /// cannot be represented, and the token carries `payload` under the
    /// resolved secret, so a verifying party recovers `payload` unchanged
    /// until the token's expiry passes.
    pub fn sign(&self, payload: String, duration: i64, secret_key_var: Option<String>) -> (r:
        Result<String, AuthError>)
        ensures
            match self.spec_config().spec_get(resolved_key(secret_key_var)) {
                None => r == Err::<String, AuthError>(AuthError::InternalServerError),
                Some(secret) => {
                    &&& (r matches Ok(t) ==> (exists|e: int|
                        #[trigger] jwt_claims_of(t@, secret@) == Some((payload@, e)))
                        && t@.len() > 0)
                    &&& (r is Err ==> r == Err::<String, AuthError>(AuthError::JWTDurationError))
                },
            },
    {
        let now = now_seconds();
        self.sign_at(&payload, duration, now, secret_key_var)
    }

    /// Validate a token against the clock instant `now`, for a caller that
    /// has already read the clock: exactly the outcome of [`verify_model`]
    /// on the token's signature-checked claims.
    pub fn verify_at(&self, jwt: &String, now: i64, secret_key_var: Option<String>) -> (r: Result<
        String,
        AuthError,
    >)
        ensures
            match self.spec_config().spec_get(resolved_key(secret_key_var)) {
                None => r == Err::<String, AuthError>(AuthError::InternalServerError),
                Some(secret) => match verify_model(jwt_claims_of(jwt@, secret@), now as int) {
                    Ok(p) => r matches Ok(s) && s@ == p,
                    Err(e) => r == Err::<String, AuthError>(e),
                },
            },
    {
        let secret = match self.resolve_secret(&secret_key_var) {
            Some(s) => s,
            None => {
                return Err(AuthError::InternalServerError);
            },
        };
        match jwt_decode(jwt, secret) {
            None => Err(AuthError::JWTVerificationError),
            Some(c) => {
                if c.exp < now {
                    Err(AuthError::JWTExpirationError)
                } else {
                    Ok(c.payload)
                }
            },
        }
    }

    /// Validate a token and surface its payload. The clock is read here;
    /// failures never say more than the two coarse kinds: `JWTExpirationError`
    /// for a passed expiry, `JWTVerificationError` for anything else about
    /// the token.
    pub fn verify(&self, jwt: String, secret_key_var: Option<String>) -> (r: Result<
        String,
        AuthError,
    >)
        ensures
            match self.spec_config().spec_get(resolved_key(secret_key_var)) {
                None => r == Err::<String, AuthError>(AuthError::InternalServerError),
                Some(secret) => {
                    &&& (jwt_claims_of(jwt@, secret@) is None ==> r == Err::<String, AuthError>(
                        AuthError::JWTVerificationError,
                    ))
                    &&& (r matches Ok(p) ==> jwt_claims_of(jwt@, secret@) matches Some(c)
                        && c.0 == p@)
                    &&& (r is Err ==> r == Err::<String, AuthError>(AuthError::JWTVerificationError)
                        || r == Err::<String, AuthError>(AuthError::JWTExpirationError))
                    &&& (r == Err::<String, AuthError>(AuthError::JWTExpirationError)
                        ==> jwt_claims_of(jwt@, secret@) is Some)
                    &&& (r == Err::<String, AuthError>(AuthError::JWTVerificationError)
                        ==> jwt_claims_of(jwt@, secret@) is None)
                },
            },
    {
        let now = now_seconds();
        self.verify_at(&jwt, now, secret_key_var)
    }

    /// Whether the secret named by `secret_key_var` (or the default name)
    /// is configured.
    pub fn secret_present(&self, secret_key_var: &Option<String>) -> (r: bool)
        ensures
            r == (self.spec_config().spec_get(resolved_key(*secret_key_var)) is Some),
    {
        self.resolve_secret(secret_key_var).is_some()
    }

    /// Create a session for `user_id` under a freshly drawn identifier and
    /// insert it; the store refuses the (astronomically unlikely) identifier
    /// collision, so a returned session is unique in the store.
    pub fn create_session(&mut self, user_id: i32) -> (r: Result<Session, AuthError>)
        requires
            old(self).wf(),
        ensures
            final(self).wf(),
            final(self).spec_config() == old(self).spec_config(),
            match r {
                Ok(s) => {
                    &&& s@.user_id == user_id as int
                    &&& !has_session(old(self).sessions_model(), s@.session_id)
                    &&& final(self).sessions_model() == old(self).sessions_model().push(s@)
                },
                Err(e) => e == AuthError::InternalServerError && *final(self) == *old(self),
            },
    {
        let sid = new_uuid();
        let t = now_seconds();
        let now: u64 = if t < 0 {
            0
        } else {
            t as u64
        };
        self.sessions.create(sid, user_id, now)
    }

    /// Delete the single session carrying `session_id`; idempotent.
    pub fn delete_session(&mut self, session_id: &String) -> (r: Result<(), AuthError>)
        requires
            old(self).wf(),
        ensures
            final(self).wf(),
            final(self).spec_config() == old(self).spec_config(),
            r is Ok,
            final(self).sessions_model() == old(self).sessions_model().filter(
                keep_other_sessions(session_id@),
            ),
    {
        self.sessions.delete(session_id)
    }

    /// Delete every session belonging to `user_id` — log out everywhere.
    pub fn delete_all_sessions(&mut self, user_id: i32) -> (r: Result<(), AuthError>)
        requires
            old(self).wf(),
        ensures
            final(self).wf(),
            final(self).spec_config() == old(self).spec_config(),
            r is Ok,
            final(self).sessions_model() == old(self).sessions_model().filter(
                keep_other_users(user_id as int),
            ),
    {
        self.sessions.delete_all(user_id)
    }
}

} // verus!
