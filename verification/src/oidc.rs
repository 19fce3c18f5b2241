//! Decentralized access-token verification: claim, audience and temporal
//! checks, the issuer-trust check against the subject's trust document, and
//! the signature check against the issuer's published key set.
//!
//! The two document fetches (the subject's trust document and the issuer's
//! key set) are suspension points performed by the caller; the decision
//! logic here is pure and is verified for every fetched outcome.

use vstd::prelude::*;

verus! {

/// Why a bearer token was rejected.
#[derive(Clone, Copy, PartialEq, Eq, Structural, Debug)]
pub enum AuthError {
    /// The token's claims are malformed: the payload could not be parsed.
    InvalidToken,
    /// The token's audience set misses the protocol audience or the
    /// token's own authorized party.
    InvalidAudience,
    /// The token's issue time lies in the future.
    TokenIssuedInFuture,
    /// The token's expiry time has passed.
    TokenExpired,
    /// The token's not-before time lies in the future.
    TokenNotYetValid,
    /// The issuer's configuration document could not be retrieved.
    NoIssuerConfig,
    /// The issuer's configuration document could not be parsed.
    InvalidIssuerConfig,
    /// The issuer's configuration names no key-set location.
    NoJwksUri,
    /// The issuer's key set could not be retrieved.
    NoJwks,
    /// The issuer's key set could not be parsed.
    InvalidJwks,
    /// No key of the issuer's key set matches the token's key binding.
    NoMatchingJwk,
    /// The token's signature does not validate against the bound key.
    InvalidSignature,
    /// The token's issuer is absent from the subject's trust document.
    IssuerNotAllowed,
}

/// The claims of an access token, parsed before any of them is trusted.
/// Immutable once parsed; it lives for one verification call.
#[derive(Debug)]
pub struct AccessTokenClaims {
    /// The URI of the subject's trust document.
    pub webid: String,
    /// The issuer URI.
    pub iss: String,
    /// The subject.
    pub sub: String,
    /// The audience strings.
    pub aud: Vec<String>,
    /// The authorized party: the client the token was issued to.
    pub azp: String,
    /// Optional not-before instant (Unix timestamp).
    pub nbf: Option<i64>,
    /// Issue instant (Unix timestamp).
    pub iat: i64,
    /// Expiry instant (Unix timestamp).
    pub exp: i64,
    /// The thumbprint of the key that must have signed the token
    /// (the `cnf.jkt` proof-of-possession binding).
    pub jkt: String,
}

/// A subject's trust document: the issuers the subject delegates trust to,
/// fetched fresh from the subject's own origin per verification.
#[derive(Debug)]
pub struct WebIdDocument {
    /// The issuer URIs the subject trusts; order carries no meaning.
    pub issuers: Vec<String>,
}

/// The slice of an issuer's discovery metadata the verifier reads: where
/// the issuer publishes its signing keys.
#[derive(Debug)]
pub struct IssuerMetadata {
    /// The location of the issuer's key set.
    pub jwks_uri: String,
}

/// One signing key of an issuer's published key set: its thumbprint, by
/// which the token's key binding selects it, and its key material.
#[derive(Debug)]
pub struct Jwk {
    /// The key's thumbprint.
    pub jkt: String,
    /// The key material the signature is validated with.
    pub key: Vec<u8>,
}

/// Whether some string of `ss` reads `t`.
pub open spec fn seq_contains_str(ss: Seq<String>, t: Seq<char>) -> bool {
    exists|i: int| 0 <= i < ss.len() && #[trigger] ss[i]@ == t
}

/// The audience check: the audience set must contain the fixed protocol
/// audience literal and the token's own authorized party.
pub open spec fn audience_ok(c: AccessTokenClaims) -> bool {
    &&& seq_contains_str(c.aud@, "solid"@)
    &&& seq_contains_str(c.aud@, c.azp@)
}

/// A validity window admits `now` when the issue instant is not in the
/// future, the expiry instant has not passed, and the not-before instant,
/// if present, is not in the future.
pub open spec fn within_window(iat: i64, exp: i64, nbf: Option<i64>, now: i64) -> bool {
    &&& iat <= now
    &&& exp >= now
    &&& match nbf {
        Some(n) => n <= now,
        None => true,
    }
}

/// The temporal check of a token's claims at instant `now`.
pub open spec fn times_ok(c: AccessTokenClaims, now: i64) -> bool {
    within_window(c.iat, c.exp, c.nbf, now)
}

/// The outcome of the temporal check, with the first failing clause's
/// error: issue instant, then expiry, then not-before.
pub open spec fn times_decision(c: AccessTokenClaims, now: i64) -> Result<(), AuthError> {
    if c.iat > now {
        Err(AuthError::TokenIssuedInFuture)
    } else if c.exp < now {
        Err(AuthError::TokenExpired)
    } else if c.nbf matches Some(n) && n > now {
        Err(AuthError::TokenNotYetValid)
    } else {
        Ok(())
    }
}

/// The issuer-trust check: the token's issuer must appear in the subject's
/// trust document.
pub open spec fn issuer_trusted(c: AccessTokenClaims, doc: WebIdDocument) -> bool {
    seq_contains_str(doc.issuers@, c.iss@)
}

/// Whether some key of `keys` carries the thumbprint `jkt`.
pub open spec fn has_matching_jwk(keys: Seq<Jwk>, jkt: Seq<char>) -> bool {
    exists|i: int| 0 <= i < keys.len() && #[trigger] keys[i].jkt@ == jkt
}

/// Whether the signature of `token` validates against the first key of
/// `keys` whose thumbprint is `jkt`.
pub open spec fn first_match_sig_ok(token: Seq<char>, keys: Seq<Jwk>, jkt: Seq<char>) -> bool {
    exists|i: int|
        {
            &&& 0 <= i < keys.len()
            &&& #[trigger] keys[i].jkt@ == jkt
            &&& forall|j: int| 0 <= j < i ==> keys[j].jkt@ != jkt
            &&& hs256_sig_ok(token, keys[i].key@)
        }
}

/// The outcome of the signature branch: no matching key, or the signature's
/// validity against the first matching key.
pub open spec fn signature_decision(token: Seq<char>, keys: Seq<Jwk>, jkt: Seq<char>) -> Result<
    (),
    AuthError,
> {
    if !has_matching_jwk(keys, jkt) {
        Err(AuthError::NoMatchingJwk)
    } else if first_match_sig_ok(token, keys, jkt) {
        Ok(())
    } else {
        Err(AuthError::InvalidSignature)
    }
}

/// The verifier's full decision at instant `now`, given the fetched trust
/// document and key set: the checks run in the order audience, times,
/// issuer trust, signature, and the first failure is the reported error.
pub open spec fn token_decision(
    token: Seq<char>,
    c: AccessTokenClaims,
    doc: WebIdDocument,
    keys: Seq<Jwk>,
    now: i64,
) -> Result<(), AuthError> {
    if !audience_ok(c) {
        Err(AuthError::InvalidAudience)
    } else if times_decision(c, now) is Err {
        times_decision(c, now)
    } else if !issuer_trusted(c, doc) {
        Err(AuthError::IssuerNotAllowed)
    } else {
        signature_decision(token, keys, c.jkt@)
    }
}

/// How many characters of trailing `/` the text ends with.
pub open spec fn trailing_slashes(s: Seq<char>) -> int
    decreases s.len(),
{
    if s.len() == 0 || s.last() != '/' {
        0
    } else {
        1 + trailing_slashes(s.drop_last())
    }
}

/// The well-known location of an issuer's configuration document: the
/// issuer URI with its trailing slashes trimmed, then the fixed discovery
/// path suffix. A pure string-construction rule, not configuration.
pub open spec fn issuer_config_location(iss: Seq<char>) -> Seq<char> {
    iss.take(iss.len() - trailing_slashes(iss)) + "/.well-known/openid-configuration"@
}

proof fn lemma_trailing_slashes(s: Seq<char>, k: int)
    requires
        0 <= k <= s.len(),
        forall|j: int| k <= j < s.len() ==> s[j] == '/',
        k == 0 || s[k - 1] != '/',
    ensures
        trailing_slashes(s) == s.len() - k,
    decreases s.len(),
{
    if k == s.len() {
    } else {
        assert(s.last() == '/');
        lemma_trailing_slashes(s.drop_last(), k);
    }
}

/// Builds the well-known location of the issuer's configuration document
/// from the issuer URI.
pub fn issuer_config_url(iss: &String) -> (r: String)
    ensures
        r@ == issuer_config_location(iss@),
{
    let s = iss.as_str();
    let n = s.unicode_len();
    let mut k: usize = n;
    while k > 0 && s.get_char(k - 1) == '/'
        invariant
            k <= n,
            n == s@.len(),
            forall|j: int| k <= j < n ==> s@[j] == '/',
        decreases k,
    {
        k = k - 1;
    }
    proof {
        lemma_trailing_slashes(s@, k as int);
        assert(s@.take(k as int) =~= s@.subrange(0, k as int));
    }
    let trimmed = s.substring_char(0, k);
    let mut out = trimmed.to_owned();
    out.append("/.well-known/openid-configuration");
    out
}

/// Whether `token`, read as a compact JSON Web Signature, carries a valid
/// HMAC-SHA-256 signature under the key bytes `key`.
pub uninterp spec fn hs256_sig_ok(token: Seq<char>, key: Seq<u8>) -> bool;

/// Relies on jwt_compact's `Hs256` algorithm: validates the compact token's
/// HMAC-SHA-256 signature against the key bytes. The outcome is a function
/// of the token text and the key material alone.
#[verifier::external_body]
fn hs256_signature_valid(token: &str, key: &Vec<u8>) -> (r: bool)
    ensures
        r == hs256_sig_ok(token@, key@),
{
    let hs_key = jwt_compact::alg::Hs256Key::new(key.as_slice());
    match jwt_compact::UntrustedToken::new(token) {
        Ok(parsed) => jwt_compact::AlgorithmExt::validator::<serde_json::Value>(
            &jwt_compact::alg::Hs256,
            &hs_key,
        ).validate(&parsed).is_ok(),
        Err(_) => false,
    }
}

/// Relies on time's `OffsetDateTime::now_utc`: the wall clock, read as a
/// Unix timestamp. The reading depends on the clock and not on any
/// argument, so nothing is assumed of the returned instant.
#[verifier::external_body]
fn unix_now() -> (r: i64) {
    time::OffsetDateTime::now_utc().unix_timestamp()
}

/// Whether some string of `v` reads as `t`.
fn vec_contains_string(v: &Vec<String>, t: &String) -> (r: bool)
    ensures
        r == seq_contains_str(v@, t@),
{
    let n = v.len();
    let mut i: usize = 0;
    while i < n
        invariant
            i <= n,
            n == v@.len(),
            forall|j: int| 0 <= j < i ==> v@[j]@ != t@,
        decreases n - i,
    {
        if v[i] == *t {
            return true;
        }
        i = i + 1;
    }
    false
}

/// The audience check: rejects the token unless its audience set contains
/// the fixed protocol audience literal and the token's own authorized
/// party.
pub fn check_audience(c: &AccessTokenClaims) -> (r: Result<(), AuthError>)
    ensures
        r == if audience_ok(*c) {
            Result::<(), AuthError>::Ok(())
        } else {
            Result::<(), AuthError>::Err(AuthError::InvalidAudience)
        },
{
    let solid = String::from_str("solid");
    if !vec_contains_string(&c.aud, &solid) {
        return Err(AuthError::InvalidAudience);
    }
    if !vec_contains_string(&c.aud, &c.azp) {
        return Err(AuthError::InvalidAudience);
    }
    Ok(())
}

/// The temporal check at instant `now`: rejects a token issued in the
/// future, expired, or not yet valid, in that order.
pub fn verify_times(c: &AccessTokenClaims, now: i64) -> (r: Result<(), AuthError>)
    ensures
        r == times_decision(*c, now),
        r is Ok <==> times_ok(*c, now),
{
    if c.iat > now {
        return Err(AuthError::TokenIssuedInFuture);
    }
    if c.exp < now {
        return Err(AuthError::TokenExpired);
    }
    if let Some(n) = c.nbf {
        if n > now {
            return Err(AuthError::TokenNotYetValid);
        }
    }
    Ok(())
}

/// The trust branch's decision on a fetched trust document: rejects the
/// token when its issuer is absent from the document's issuer list.
pub fn check_issuer_trust(c: &AccessTokenClaims, doc: &WebIdDocument) -> (r: Result<(), AuthError>)
    ensures
        r == if issuer_trusted(*c, *doc) {
            Result::<(), AuthError>::Ok(())
        } else {
            Result::<(), AuthError>::Err(AuthError::IssuerNotAllowed)
        },
{
    if vec_contains_string(&doc.issuers, &c.iss) {
        Ok(())
    } else {
        Err(AuthError::IssuerNotAllowed)
    }
}

/// Selects the first key of `keys` whose thumbprint matches the token's key
/// binding `jkt`. Key selection goes by the proof-of-possession thumbprint
/// alone; a key id plays no part in it.
pub fn select_jwk(keys: &Vec<Jwk>, jkt: &String) -> (r: Result<usize, AuthError>)
    ensures
        match r {
            Ok(i) => {
                &&& i < keys@.len()
                &&& keys@[i as int].jkt@ == jkt@
                &&& forall|j: int| 0 <= j < i ==> keys@[j].jkt@ != jkt@
            },
            Err(e) => {
                &&& e == AuthError::NoMatchingJwk
                &&& !has_matching_jwk(keys@, jkt@)
            },
        },
{
    let n = keys.len();
    let mut i: usize = 0;
    while i < n
        invariant
            i <= n,
            n == keys@.len(),
            forall|j: int| 0 <= j < i ==> keys@[j].jkt@ != jkt@,
        decreases n - i,
    {
        if keys[i].jkt == *jkt {
            return Ok(i);
        }
        i = i + 1;
    }
    Err(AuthError::NoMatchingJwk)
}

/// The signature branch on a fetched key set: selects the key bound by the
/// token's `jkt` thumbprint and validates the token's signature against it.
pub fn verify_signature(token: &String, keys: &Vec<Jwk>, jkt: &String) -> (r: Result<
    (),
    AuthError,
>)
    ensures
        r == signature_decision(token@, keys@, jkt@),
{
    match select_jwk(keys, jkt) {
        Err(e) => Err(e),
        Ok(i) => {
            let ghost ii = i as int;
            if hs256_signature_valid(token.as_str(), &keys[i].key) {
                proof {
                    assert(first_match_sig_ok(token@, keys@, jkt@)) by {
                        assert(keys@[ii].jkt@ == jkt@ && (forall|j: int|
                            0 <= j < ii ==> keys@[j].jkt@ != jkt@) && hs256_sig_ok(
                            token@,
                            keys@[ii].key@,
                        ));
                    }
                }
                Ok(())
            } else {
                proof {
                    assert(!first_match_sig_ok(token@, keys@, jkt@)) by {
                        if first_match_sig_ok(token@, keys@, jkt@) {
                            let w = choose|w: int|
                                {
                                    &&& 0 <= w < keys@.len()
                                    &&& keys@[w].jkt@ == jkt@
                                    &&& forall|j: int| 0 <= j < w ==> keys@[j].jkt@ != jkt@
                                    &&& hs256_sig_ok(token@, keys@[w].key@)
                                };
                            assert(w == ii);
                        }
                    }
                }
                Err(AuthError::InvalidSignature)
            }
        },
    }
}

/// The full verification decision at instant `now`, given the already
/// fetched trust document and key set: audience, temporal, issuer-trust and
/// signature checks in order, failing fast on the first rejection.
pub fn verify_token_at(
    token: &String,
    claims: &AccessTokenClaims,
    doc: &WebIdDocument,
    keys: &Vec<Jwk>,
    now: i64,
) -> (r: Result<(), AuthError>)
    ensures
        r == token_decision(token@, *claims, *doc, keys@, now),
{
    match check_audience(claims) {
        Err(e) => return Err(e),
        Ok(_) => (),
    }
    match verify_times(claims, now) {
        Err(e) => return Err(e),
        Ok(_) => (),
    }
    match check_issuer_trust(claims, doc) {
        Err(e) => return Err(e),
        Ok(_) => (),
    }
    verify_signature(token, keys, &claims.jkt)
}

/// The full verification decision at the current wall-clock instant. The
/// clock is read once; the decision is the one [`verify_token_at`] takes at
/// the instant that was read.
pub fn verify_token(
    token: &String,
    claims: &AccessTokenClaims,
    doc: &WebIdDocument,
    keys: &Vec<Jwk>,
) -> (r: Result<(), AuthError>)
    ensures
        exists|now: i64| r == token_decision(token@, *claims, *doc, keys@, now),
{
    let now = unix_now();
    verify_token_at(token, claims, doc, keys, now)
}

/// Every valid token verifies: when the audience and temporal checks pass,
/// the subject's trust document lists the issuer, and the token's signature
/// validates against the first key matching its key binding, the decision
/// is success.
pub proof fn lemma_valid_token_verifies(
    token: Seq<char>,
    c: AccessTokenClaims,
    doc: WebIdDocument,
    keys: Seq<Jwk>,
    now: i64,
)
    requires
        audience_ok(c),
        times_ok(c, now),
        issuer_trusted(c, doc),
        first_match_sig_ok(token, keys, c.jkt@),
    ensures
        token_decision(token, c, doc, keys, now) == Result::<(), AuthError>::Ok(()),
{
    let w = choose|w: int|
        {
            &&& 0 <= w < keys.len()
            &&& keys[w].jkt@ == c.jkt@
            &&& forall|j: int| 0 <= j < w ==> keys[j].jkt@ != c.jkt@
            &&& hs256_sig_ok(token, keys[w].key@)
        };
    assert(has_matching_jwk(keys, c.jkt@));
}

/// An expired token is rejected as expired whatever its not-before claim,
/// its issuer's standing in the trust document, and its signature, once the
/// checks that precede the expiry test (audience, issue instant) pass.
pub proof fn lemma_expired_token_rejected(
    token: Seq<char>,
    c: AccessTokenClaims,
    doc: WebIdDocument,
    keys: Seq<Jwk>,
    now: i64,
)
    requires
        audience_ok(c),
        c.iat <= now,
        c.exp < now,
    ensures
        token_decision(token, c, doc, keys, now) == Result::<(), AuthError>::Err(
            AuthError::TokenExpired,
        ),
{
}

/// A token whose issuer the subject's trust document does not list is
/// rejected as not allowed even when its signature would validate, once the
/// audience and temporal checks pass.
pub proof fn lemma_untrusted_issuer_rejected(
    token: Seq<char>,
    c: AccessTokenClaims,
    doc: WebIdDocument,
    keys: Seq<Jwk>,
    now: i64,
)
    requires
        audience_ok(c),
        times_ok(c, now),
        !issuer_trusted(c, doc),
    ensures
        token_decision(token, c, doc, keys, now) == Result::<(), AuthError>::Err(
            AuthError::IssuerNotAllowed,
        ),
{
}

} // verus!
