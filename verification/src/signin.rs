//! Signing a request in, as a machine that names each step with the identity provider
//! for the caller to perform and decides the next one from what the step returned.
use jsonwebtoken::decode;
use jsonwebtoken::Algorithm;
use jsonwebtoken::DecodingKey;
use jsonwebtoken::Validation;
use vstd::prelude::*;
use crate::identity::bearer_of;
use crate::identity::bearer_token;
use crate::identity::decoded_by;
use crate::identity::default_member_name;
use crate::identity::lemma_decoding_outcome;
use crate::identity::discovery_url;
use crate::identity::discovery_url_text;
use crate::identity::identity_from_claims;
use crate::identity::jwt_header_kid;
use crate::identity::key_matches;
use crate::identity::keys_are_fresh;
use crate::identity::signing_key;
use crate::identity::Claims;
use crate::identity::Identity;
use crate::identity::JwkKey;
use crate::problem::Problem;

verus! {

/// The sign-in provider settings: directory tenant, application (audience) and subdomain.
#[derive(Clone, Debug, PartialEq, Eq)]
pub struct SignInSettings {
    pub tenant: String,
    pub client: String,
    pub subdomain: String,
}

/// Provider keys held from an earlier fetch, with their issuer and age in whole seconds.
#[derive(Clone, Debug, PartialEq, Eq)]
pub struct CachedKeys {
    pub issuer: String,
    pub keys: Vec<JwkKey>,
    pub age_secs: u64,
}

/// What the provider's OpenID discovery document says of its issuer and key set.
#[derive(Clone, Debug, PartialEq, Eq)]
pub struct DiscoveryDoc {
    pub issuer: String,
    pub jwks_uri: String,
}

/// How the token fared against the chosen key.
#[derive(Clone, Debug, PartialEq, Eq)]
pub enum Verification {
    /// The key's modulus and exponent do not make a usable RSA key.
    KeyUnusable,
    /// The signature, audience, issuer or validity period did not check out.
    Rejected,
    /// The token is valid; these are its claims.
    Accepted(Claims),
}

/// A claim of a token as its JSON payload gives it: absent or `null`, a string, a whole
/// number from 0 to `u64::MAX`, or anything else.
#[derive(Clone, Debug, PartialEq, Eq)]
pub enum ClaimValue {
    Null,
    Text(String),
    Whole(u64),
    Other,
}

/// The claims of a token that passed RS256 verification which the service reads or that
/// must have a given form: `oid`, `tid`, `iss`, `exp`, `nbf`, `name` and `email`.
#[derive(Clone, Debug, PartialEq, Eq)]
pub struct TokenClaims {
    pub oid: ClaimValue,
    pub tid: ClaimValue,
    pub iss: ClaimValue,
    pub exp: ClaimValue,
    pub nbf: ClaimValue,
    pub name: ClaimValue,
    pub email: ClaimValue,
}

#[verifier::external_type_specification]
#[verifier::external_body]
pub struct ExJsonValue(serde_json::Value);

/// Whether `jsonwebtoken::DecodingKey::from_rsa_components` accepts the Base64url modulus
/// `n` and exponent `e` (it decodes both, and fails where either is not Base64url).
pub uninterp spec fn rsa_key_usable(n: Seq<char>, e: Seq<char>) -> bool;

/// A JSON value read as a claim: `serde_json::Value::String` as text, a `Number` that
/// `as_u64` reads as a whole number, `Null` as null, anything else as other.
#[verifier::external_body]
fn claim_value(v: &serde_json::Value) -> (c: ClaimValue) {
    match v {
        serde_json::Value::Null => ClaimValue::Null,
        serde_json::Value::String(s) => ClaimValue::Text(s.clone()),
        serde_json::Value::Number(n) => n.as_u64().map_or(ClaimValue::Other, ClaimValue::Whole),
        _ => ClaimValue::Other,
    }
}

/// `jsonwebtoken::DecodingKey::from_rsa_components(n, e)`, then `jsonwebtoken::decode` of
/// `token` into a `serde_json::Value` with RS256, the audience and the issuer: none where the
/// key cannot be built, none inside where the token fails (its header, signature, audience,
/// issuer or expiry; the expiry is judged against the clock), else the claims read.
/// Decoding parses the token's header as `decode_header` does, so a token that passes has
/// a readable header. Which tokens pass is left open: it depends on the time.
#[verifier::external_body]
fn decode_rs256(token: &str, n: &str, e: &str, audience: &str, issuer: &str) -> (r: Option<
    Option<TokenClaims>,
>)
    ensures
        r is None <==> !rsa_key_usable(n@, e@),
        r matches Some(Some(_)) ==> jwt_header_kid(token@) is Some,
        decoded_by(token@, n@, e@, audience@, issuer@, r),
{
    let key = DecodingKey::from_rsa_components(n, e).ok()?;
    let mut validation = Validation::new(Algorithm::RS256);
    validation.set_audience(&[audience]);
    validation.set_issuer(&[issuer]);
    let Ok(data) = decode::<serde_json::Value>(token, &key, &validation) else {
        return Some(None);
    };
    let c = &data.claims;
    let (oid, tid, iss) = (claim_value(&c["oid"]), claim_value(&c["tid"]), claim_value(&c["iss"]));
    let (exp, nbf) = (claim_value(&c["exp"]), claim_value(&c["nbf"]));
    let (name, email) = (claim_value(&c["name"]), claim_value(&c["email"]));
    Some(Some(TokenClaims { oid, tid, iss, exp, nbf, name, email }))
}

/// Whether an optional text claim is absent, null or a string.
pub open spec fn optional_text(c: ClaimValue) -> bool {
    c is Null || c is Text
}

/// The optional text of a claim that is absent, null or a string.
pub open spec fn optional_text_view(c: ClaimValue) -> Option<Seq<char>> {
    match c {
        ClaimValue::Text(t) => Some(t@),
        _ => None,
    }
}

fn optional_text_of(c: ClaimValue) -> (r: Option<String>)
    ensures
        crate::finalize::opt_string_view(r) == optional_text_view(c),
{
    match c {
        ClaimValue::Text(t) => Some(t),
        _ => None,
    }
}

/// Whether the claims of a verified token have the form the service needs: `oid`, `tid`
/// and `iss` strings, `exp` a whole number, `nbf` absent, null or a whole number, and `name` and
/// `email` absent, null or strings.
pub open spec fn claims_shaped(t: TokenClaims) -> bool {
    &&& t.oid is Text
    &&& t.tid is Text
    &&& t.iss is Text
    &&& t.exp is Whole
    &&& (t.nbf is Null || t.nbf is Whole)
    &&& optional_text(t.name)
    &&& optional_text(t.email)
}

/// Whether `c` carries the claims `t` gives.
pub open spec fn claims_match(t: TokenClaims, c: Claims) -> bool {
    &&& t.oid matches ClaimValue::Text(o) && c.oid == o
    &&& t.tid matches ClaimValue::Text(d) && c.tid == d
    &&& crate::finalize::opt_string_view(c.name) == optional_text_view(t.name)
    &&& crate::finalize::opt_string_view(c.email) == optional_text_view(t.email)
}

/// The claims of a verified token where they have the form the service needs.
pub fn claims_of(t: TokenClaims) -> (r: Option<Claims>)
    ensures
        r is Some <==> claims_shaped(t),
        r matches Some(c) ==> claims_match(t, c),
{
    let shaped = matches!(t.iss, ClaimValue::Text(_)) && matches!(t.exp, ClaimValue::Whole(_)) && (matches!(t.nbf, ClaimValue::Null)
        || matches!(t.nbf, ClaimValue::Whole(_))) && (matches!(t.name, ClaimValue::Null)
        || matches!(t.name, ClaimValue::Text(_))) && (matches!(t.email, ClaimValue::Null)
        || matches!(t.email, ClaimValue::Text(_)));
    if !shaped {
        return None;
    }
    match (t.oid, t.tid) {
        (ClaimValue::Text(oid), ClaimValue::Text(tid)) => Some(
            Claims { oid, tid, name: optional_text_of(t.name), email: optional_text_of(t.email) },
        ),
        _ => None,
    }
}

/// Whether `v` is the verdict on the decoding outcome `d`: no usable key, a rejected token,
/// or the token's claims where they have the needed form.
pub open spec fn verdict_of(d: Option<Option<TokenClaims>>, v: Verification) -> bool {
    match d {
        None => v == Verification::KeyUnusable,
        Some(None) => v == Verification::Rejected,
        Some(Some(t)) => if claims_shaped(t) {
            v matches Verification::Accepted(c) && claims_match(t, c)
        } else {
            v == Verification::Rejected
        },
    }
}

/// How a decoding outcome is judged: no usable key, a rejected token, or the token's claims
/// where they have the needed form.
pub fn verification_of(decoded: Option<Option<TokenClaims>>) -> (v: Verification)
    ensures
        decoded is None ==> v == Verification::KeyUnusable,
        decoded == Some(None::<TokenClaims>) ==> v == Verification::Rejected,
        decoded matches Some(Some(t)) ==> if claims_shaped(t) {
            v matches Verification::Accepted(c) && claims_match(t, c)
        } else {
            v == Verification::Rejected
        },
        verdict_of(decoded, v),
{
    match decoded {
        None => Verification::KeyUnusable,
        Some(None) => Verification::Rejected,
        Some(Some(t)) => match claims_of(t) {
            Some(c) => Verification::Accepted(c),
            None => Verification::Rejected,
        },
    }
}

/// Whether `v` can be the verdict on `token` checked with `key`: the key is unusable exactly
/// where its components are, and an accepted token has a readable header.
pub open spec fn verified_with(token: Seq<char>, key: JwkKey, v: Verification) -> bool {
    &&& (v is KeyUnusable <==> !rsa_key_usable(key.n@, key.e@))
    &&& (v is Accepted ==> jwt_header_kid(token) is Some)
}

/// Whether `v` is the verdict on an RS256 decoding of `token` with `key`, for `audience`
/// and `issuer`.
pub open spec fn checked_as(
    token: Seq<char>,
    key: JwkKey,
    audience: Seq<char>,
    issuer: Seq<char>,
    v: Verification,
) -> bool {
    exists|d: Option<Option<TokenClaims>>|
        #![trigger decoded_by(token, key.n@, key.e@, audience, issuer, d)]
        decoded_by(token, key.n@, key.e@, audience, issuer, d) && verdict_of(d, v)
}

/// Checks the RS256 `token` against the provider `key`, the `audience` and the `issuer`:
/// the verdict is the one on what the decoding gave.
pub fn verify_rs256(token: &str, key: &JwkKey, audience: &str, issuer: &str) -> (v: Verification)
    ensures
        verified_with(token@, *key, v),
        checked_as(token@, *key, audience@, issuer@, v),
{
    let d = decode_rs256(token, key.n.as_str(), key.e.as_str(), audience, issuer);
    let v = verification_of(d);
    proof {
        lemma_decoding_outcome(token@, key.n@, key.e@, audience@, issuer@, d);
    }
    v
}

/// Where a sign-in stands.
#[derive(Clone, Debug, PartialEq, Eq)]
pub enum SignInState {
    Start,
    AwaitCache { token: String },
    AwaitDiscovery { token: String },
    AwaitKeys { token: String, issuer: String },
    Finished,
}

/// What the caller reports back after performing an action.
#[derive(Clone, Debug, PartialEq, Eq)]
pub enum SignInInput {
    /// The `Authorization` header, if present and readable as text.
    Begin { authorization: Option<String> },
    /// The cached provider keys, if any.
    Cache(Option<CachedKeys>),
    /// The discovery document, if it could be fetched and read.
    Discovery(Option<DiscoveryDoc>),
    /// The key set, if it could be fetched and read (and was then cached).
    Keys(Option<Vec<JwkKey>>),
}

/// What the caller is to do next.
#[derive(Debug, PartialEq, Eq)]
pub enum SignInAction {
    ReadCache,
    FetchDiscovery { url: String },
    /// Fetch the key set from `url`; once read, cache it with `issuer`.
    FetchKeys { url: String, issuer: String },
    Done(Result<Identity, Problem>),
}

/// Whether the machine has finished with the refusal `p`.
pub open spec fn refuses(next: SignInState, a: SignInAction, p: Problem) -> bool {
    next == SignInState::Finished && a == SignInAction::Done(Err(p))
}

/// The answer once the token has been checked: the identity its claims give where they
/// were issued for the configured tenant, else the matching refusal.
pub open spec fn answers(settings: SignInSettings, v: Verification, next: SignInState, a: SignInAction) -> bool {
    match v {
        Verification::KeyUnusable => refuses(next, a, Problem::KeyInvalid),
        Verification::Rejected => refuses(next, a, Problem::TokenRejected),
        Verification::Accepted(claims) => next == SignInState::Finished && if claims.tid@
            == settings.tenant@ {
            (a matches SignInAction::Done(Ok(id)) && id.oid == claims.oid && id.email
                == claims.email && id.name@ == (match claims.name {
                Some(n) => n@,
                None => default_member_name(),
            }))
        } else {
            a == SignInAction::Done(Err(Problem::ForeignTenant))
        },
    }
}

/// The outcome of choosing, among `keys`, the key that signed `token` and checking the
/// token with it: the answer to a verdict on the first RSA key with the header's key id,
/// or the refusal of a malformed token or an unknown key.
pub open spec fn chooses_key(
    settings: SignInSettings,
    token: String,
    issuer: String,
    keys: Seq<JwkKey>,
    next: SignInState,
    a: SignInAction,
) -> bool {
    match jwt_header_kid(token@) {
        None => refuses(next, a, Problem::TokenMalformed),
        Some(kid) => if exists|i: int| 0 <= i < keys.len() && key_matches(keys[i], kid) {
            exists|i: int, v: Verification|
                #![trigger verified_with(token@, keys[i], v)]
                0 <= i < keys.len() && key_matches(keys[i], kid) && (forall|j: int|
                    0 <= j < i ==> !key_matches(keys[j], kid)) && verified_with(token@, keys[i], v)
                    && checked_as(token@, keys[i], settings.client@, issuer@, v) && answers(
                    settings,
                    v,
                    next,
                    a,
                )
        } else {
            refuses(next, a, Problem::KeyNotRecognized)
        },
    }
}

/// One step of signing a request in.
pub open spec fn sign_in_transition(
    settings: SignInSettings,
    s: SignInState,
    i: SignInInput,
    next: SignInState,
    a: SignInAction,
) -> bool {
    match (s, i) {
        (SignInState::Start, SignInInput::Begin { authorization }) => match authorization {
            None => refuses(next, a, Problem::Unauthorized),
            Some(h) => match bearer_of(h@) {
                None => refuses(next, a, Problem::Unauthorized),
                Some(t) => (next matches SignInState::AwaitCache { token } && token@ == t) && (a
                    == SignInAction::ReadCache),
            },
        },
        (SignInState::AwaitCache { token }, SignInInput::Cache(cached)) => {
            let fetches = next == (SignInState::AwaitDiscovery { token }) && (
            a matches SignInAction::FetchDiscovery { url } && url@ == discovery_url_text(
                settings.subdomain@,
                settings.tenant@,
            ));
            match cached {
                Some(c) => if c.age_secs < 3600 {
                    chooses_key(settings, token, c.issuer, c.keys@, next, a)
                } else {
                    fetches
                },
                None => fetches,
            }
        },
        (SignInState::AwaitDiscovery { token }, SignInInput::Discovery(found)) => match found {
            None => refuses(next, a, Problem::IdentityUnavailable),
            Some(d) => (next matches SignInState::AwaitKeys { token: t, issuer } && t == token
                && issuer@ == d.issuer@) && (a matches SignInAction::FetchKeys { url, issuer }
                && url@ == d.jwks_uri@ && issuer@ == d.issuer@),
        },
        (SignInState::AwaitKeys { token, issuer }, SignInInput::Keys(found)) => match found {
            None => refuses(next, a, Problem::IdentityUnavailable),
            Some(keys) => chooses_key(settings, token, issuer, keys@, next, a),
        },
        _ => refuses(next, a, Problem::IdentityUnavailable),
    }
}

impl JwkKey {
    /// A copy of the key.
    pub fn duplicate(&self) -> (c: JwkKey)
        ensures
            c == *self,
    {
        JwkKey {
            kid: self.kid.clone(),
            n: self.n.clone(),
            e: self.e.clone(),
            kty: self.kty.clone(),
        }
    }
}

fn answer(settings: &SignInSettings, v: Verification) -> (r: (SignInState, SignInAction))
    ensures
        answers(*settings, v, r.0, r.1),
{
    match v {
        Verification::KeyUnusable => (SignInState::Finished, SignInAction::Done(Err(Problem::KeyInvalid))),
        Verification::Rejected => (SignInState::Finished, SignInAction::Done(Err(Problem::TokenRejected))),
        Verification::Accepted(claims) => (
            SignInState::Finished,
            SignInAction::Done(identity_from_claims(claims, settings.tenant.as_str())),
        ),
    }
}

fn choose_key(settings: &SignInSettings, token: String, issuer: String, keys: Vec<JwkKey>) -> (r: (
    SignInState,
    SignInAction,
))
    ensures
        chooses_key(*settings, token, issuer, keys@, r.0, r.1),
{
    match signing_key(token.as_str(), keys.as_slice()) {
        Err(p) => (SignInState::Finished, SignInAction::Done(Err(p))),
        Ok(i) => {
            let v = verify_rs256(token.as_str(), &keys[i], settings.client.as_str(), issuer.as_str());
            let r = answer(settings, v);
            assert(verified_with(token@, keys@[i as int], v));
            assert(checked_as(token@, keys@[i as int], settings.client@, issuer@, v));
            r
        },
    }
}

/// Takes one step of signing a request in.
pub fn sign_in_step(settings: &SignInSettings, state: SignInState, input: SignInInput) -> (r: (
    SignInState,
    SignInAction,
))
    ensures
        sign_in_transition(*settings, state, input, r.0, r.1),
{
    match (state, input) {
        (SignInState::Start, SignInInput::Begin { authorization }) => {
            let header = match &authorization {
                Some(h) => Some(h.as_str()),
                None => None,
            };
            match bearer_token(header) {
                Err(p) => (SignInState::Finished, SignInAction::Done(Err(p))),
                Ok(token) => (SignInState::AwaitCache { token }, SignInAction::ReadCache),
            }
        },
        (SignInState::AwaitCache { token }, SignInInput::Cache(cached)) => match cached {
            Some(c) => {
                if keys_are_fresh(c.age_secs) {
                    choose_key(settings, token, c.issuer, c.keys)
                } else {
                    let url = discovery_url(settings.subdomain.as_str(), settings.tenant.as_str());
                    (SignInState::AwaitDiscovery { token }, SignInAction::FetchDiscovery { url })
                }
            },
            None => {
                let url = discovery_url(settings.subdomain.as_str(), settings.tenant.as_str());
                (SignInState::AwaitDiscovery { token }, SignInAction::FetchDiscovery { url })
            },
        },
        (SignInState::AwaitDiscovery { token }, SignInInput::Discovery(found)) => match found {
            None => (SignInState::Finished, SignInAction::Done(Err(Problem::IdentityUnavailable))),
            Some(d) => {
                let issuer = d.issuer.clone();
                (
                    SignInState::AwaitKeys { token, issuer },
                    SignInAction::FetchKeys { url: d.jwks_uri, issuer: d.issuer },
                )
            },
        },
        (SignInState::AwaitKeys { token, issuer }, SignInInput::Keys(found)) => match found {
            None => (SignInState::Finished, SignInAction::Done(Err(Problem::IdentityUnavailable))),
            Some(keys) => choose_key(settings, token, issuer, keys),
        },
        _ => (SignInState::Finished, SignInAction::Done(Err(Problem::IdentityUnavailable))),
    }
}

/// The token a sign-in waiting on provider keys holds.
pub open spec fn pending_token(s: SignInState) -> Seq<char> {
    match s {
        SignInState::AwaitCache { token } => token@,
        SignInState::AwaitKeys { token, .. } => token@,
        _ => Seq::empty(),
    }
}

/// No request is signed in without a verified token of the configured tenant: an identity
/// comes only from the request's own bearer token, checked with a usable provider RSA key
/// whose key id the token's header names, accepted, and issued for that tenant; and it is
/// the user those claims name.
pub proof fn lemma_identity_needs_verified_claims(
    settings: SignInSettings,
    s: SignInState,
    i: SignInInput,
    next: SignInState,
    id: Identity,
)
    requires
        sign_in_transition(settings, s, i, next, SignInAction::Done(Ok(id))),
    ensures
        s is AwaitCache || s is AwaitKeys,
        jwt_header_kid(pending_token(s)) is Some,
        exists|key: JwkKey, c: Claims|
            #![trigger verified_with(pending_token(s), key, Verification::Accepted(c))]
            verified_with(pending_token(s), key, Verification::Accepted(c)) && key_matches(
                key,
                jwt_header_kid(pending_token(s))->0,
            ) && rsa_key_usable(key.n@, key.e@) && c.tid@ == settings.tenant@ && c.oid == id.oid,
{
}

/// The verdict on a token is the one its decoding gave: accepted only with the claims the
/// decoding read, all of them (email included) carried over, rejected only where the
/// decoding refused the token or read claims of the wrong form, and unusable exactly where
/// the key's components are.
pub proof fn law_verdict_follows_the_decoding(
    token: Seq<char>,
    key: JwkKey,
    audience: Seq<char>,
    issuer: Seq<char>,
    v: Verification,
)
    requires
        checked_as(token, key, audience, issuer, v),
    ensures
        v is KeyUnusable <==> !rsa_key_usable(key.n@, key.e@),
        v matches Verification::Accepted(c) ==> exists|t: TokenClaims|
            #![trigger decoded_by(token, key.n@, key.e@, audience, issuer, Some(Some(t)))]
            decoded_by(token, key.n@, key.e@, audience, issuer, Some(Some(t))) && claims_shaped(t)
                && claims_match(t, c),
        v is Rejected ==> exists|d: Option<Option<TokenClaims>>|
            #![trigger decoded_by(token, key.n@, key.e@, audience, issuer, d)]
            decoded_by(token, key.n@, key.e@, audience, issuer, d) && (d == Some(
                None::<TokenClaims>,
            ) || (d matches Some(Some(t)) && !claims_shaped(t))),
{
    let d = choose|d: Option<Option<TokenClaims>>|
        #![trigger decoded_by(token, key.n@, key.e@, audience, issuer, d)]
        decoded_by(token, key.n@, key.e@, audience, issuer, d) && verdict_of(d, v);
    lemma_decoding_outcome(token, key.n@, key.e@, audience, issuer, d);
    if let Some(Some(t)) = d {
        assert(decoded_by(token, key.n@, key.e@, audience, issuer, Some(Some(t))));
    }
}

/// A sign-in answers with the user a valid token names and with nothing else: an identity
/// is given only for a token whose decoding, with a provider key matching its header, for the
/// configured audience and the issuer in use, read claims of the right form issued for the
/// configured tenant, and the identity carries that token's `oid` and `email`; the token is
/// refused as rejected only where such a decoding refused it or read claims of the wrong form.
pub proof fn law_sign_in_answers_the_token_claims(
    settings: SignInSettings,
    token: String,
    issuer: String,
    keys: Seq<JwkKey>,
    next: SignInState,
    a: SignInAction,
)
    requires
        chooses_key(settings, token, issuer, keys, next, a),
    ensures
        a matches SignInAction::Done(Ok(id)) ==> exists|k: int, t: TokenClaims|
            #![trigger decoded_by(token@, keys[k].n@, keys[k].e@, settings.client@, issuer@, Some(Some(t)))]
            0 <= k < keys.len() && decoded_by(
                token@,
                keys[k].n@,
                keys[k].e@,
                settings.client@,
                issuer@,
                Some(Some(t)),
            ) && claims_shaped(t) && (t.oid matches ClaimValue::Text(o) && id.oid == o) && (
            t.tid matches ClaimValue::Text(d) && d@ == settings.tenant@)
                && crate::finalize::opt_string_view(id.email) == optional_text_view(t.email),
        a == SignInAction::Done(Err(Problem::TokenRejected)) ==> exists|
            k: int,
            d: Option<Option<TokenClaims>>,
        |
            #![trigger decoded_by(token@, keys[k].n@, keys[k].e@, settings.client@, issuer@, d)]
            0 <= k < keys.len() && decoded_by(
                token@,
                keys[k].n@,
                keys[k].e@,
                settings.client@,
                issuer@,
                d,
            ) && (d == Some(None::<TokenClaims>) || (d matches Some(Some(t)) && !claims_shaped(t))),
{
    if jwt_header_kid(token@) is Some {
        let kid = jwt_header_kid(token@)->0;
        if exists|i: int| 0 <= i < keys.len() && key_matches(keys[i], kid) {
            let (i, v) = choose|i: int, v: Verification|
                #![trigger verified_with(token@, keys[i], v)]
                0 <= i < keys.len() && key_matches(keys[i], kid) && (forall|j: int|
                    0 <= j < i ==> !key_matches(keys[j], kid)) && verified_with(token@, keys[i], v)
                    && checked_as(token@, keys[i], settings.client@, issuer@, v) && answers(
                    settings,
                    v,
                    next,
                    a,
                );
            law_verdict_follows_the_decoding(token@, keys[i], settings.client@, issuer@, v);
        }
    }
}

} // verus!
