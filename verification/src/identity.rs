//! Who is calling: the bearer token, the provider key that signed it, and the identity
//! that its claims give.
use vstd::prelude::*;
use vstd::string::StringExecFns;
use crate::problem::Problem;
use crate::signin::rsa_key_usable;
use crate::signin::TokenClaims;
use crate::text::chars_of;
use crate::text::has_prefix;
use crate::text::string_from_chars;
use crate::text::text_equals;
use crate::text::text_starts_with;

verus! {

/// The token that an `Authorization` header value carries after `Bearer `, if it does.
pub open spec fn bearer_of(header: Seq<char>) -> Option<Seq<char>> {
    if has_prefix(header, "Bearer "@) {
        Some(header.skip(7))
    } else {
        None
    }
}

/// The bearer token of the `Authorization` header; a request without one is refused.
pub fn bearer_token(authorization: Option<&str>) -> (r: Result<String, Problem>)
    ensures
        authorization is None ==> r == Err::<String, Problem>(Problem::Unauthorized),
        authorization matches Some(h) ==> match bearer_of(h@) {
            Some(t) => (r matches Ok(s) && s@ == t),
            None => r == Err::<String, Problem>(Problem::Unauthorized),
        },
{
    match authorization {
        None => Err(Problem::Unauthorized),
        Some(h) => {
            proof {
                reveal_strlit("Bearer ");
            }
            if text_starts_with(h, "Bearer ") {
                let chars = chars_of(h);
                let mut rest: Vec<char> = Vec::new();
                let mut i: usize = 7;
                while i < chars.len()
                    invariant
                        7 <= i <= chars@.len(),
                        rest@ == chars@.subrange(7, i as int),
                    decreases chars@.len() - i,
                {
                    rest.push(chars[i]);
                    assert(rest@ =~= chars@.subrange(7, i + 1));
                    i = i + 1;
                }
                assert(rest@ =~= h@.skip(7));
                Ok(string_from_chars(rest.as_slice()))
            } else {
                Err(Problem::Unauthorized)
            }
        },
    }
}

/// Whether cached provider keys fetched `age_secs` whole seconds ago are still used
/// (they are for under an hour).
pub fn keys_are_fresh(age_secs: u64) -> (r: bool)
    ensures
        r == (age_secs < 3600),
{
    age_secs < 3600
}

/// The OpenID discovery address of a tenant of the sign-in provider.
pub open spec fn discovery_url_text(subdomain: Seq<char>, tenant: Seq<char>) -> Seq<char> {
    "https://"@ + subdomain + ".ciamlogin.com/"@ + tenant + "/v2.0/.well-known/openid-configuration"@
}

/// The OpenID discovery address of a tenant of the sign-in provider.
pub fn discovery_url(subdomain: &str, tenant: &str) -> (u: String)
    ensures
        u@ == discovery_url_text(subdomain@, tenant@),
{
    let mut u = String::from_str("https://");
    u.append(subdomain);
    u.append(".ciamlogin.com/");
    u.append(tenant);
    u.append("/v2.0/.well-known/openid-configuration");
    u
}

/// A public key that the sign-in provider publishes.
#[derive(Clone, Debug, PartialEq, Eq)]
pub struct JwkKey {
    pub kid: String,
    pub n: String,
    pub e: String,
    pub kty: String,
}

/// Whether `key` is an RSA key with the key id `kid`.
pub open spec fn key_matches(key: JwkKey, kid: Option<Seq<char>>) -> bool {
    &&& kid is Some
    &&& key.kid@ == kid->0
    &&& key.kty@ == "RSA"@
}

/// The first key of `keys` that is an RSA key with the key id `kid`.
pub fn select_signing_key(keys: &[JwkKey], kid: Option<&str>) -> (r: Option<usize>)
    ensures
        r matches Some(i) ==> i < keys@.len() && key_matches(keys@[i as int], crate::audit::opt_view(kid))
            && forall|j: int| 0 <= j < i ==> !key_matches(keys@[j], crate::audit::opt_view(kid)),
        r is None ==> forall|j: int|
            0 <= j < keys@.len() ==> !key_matches(keys@[j], crate::audit::opt_view(kid)),
{
    let k = match kid {
        Some(k) => k,
        None => return None,
    };
    let mut i: usize = 0;
    while i < keys.len()
        invariant
            i <= keys@.len(),
            kid == Some(k),
            forall|j: int| 0 <= j < i ==> !key_matches(keys@[j], crate::audit::opt_view(kid)),
        decreases keys@.len() - i,
    {
        if text_equals(keys[i].kid.as_str(), k) && text_equals(keys[i].kty.as_str(), "RSA") {
            return Some(i);
        }
        i = i + 1;
    }
    None
}

/// The key id in the header of a JSON Web Token, as `jsonwebtoken::decode_header` reads it:
/// none where the header cannot be decoded, else the header's optional `kid`.
pub uninterp spec fn jwt_header_kid(token: Seq<char>) -> Option<Option<Seq<char>>>;

/// `jsonwebtoken::decode_header`, keeping the header's key id.
#[verifier::external_body]
fn token_key_id(token: &str) -> (r: Option<Option<String>>)
    ensures
        r is Some <==> jwt_header_kid(token@) is Some,
        r matches Some(k) ==> jwt_header_kid(token@) == Some(
            match k {
                Some(s) => Some(s@),
                None => None,
            },
        ),
{
    jsonwebtoken::decode_header(token).ok().map(|header| header.kid)
}

/// Picks the key that signed the token from the header's key id: a header that does not
/// decode is a malformed token, and a key id that no RSA key has is not recognized.
pub fn signing_key_for(header_kid: Option<Option<String>>, keys: &[JwkKey]) -> (r: Result<
    usize,
    Problem,
>)
    ensures
        header_kid is None ==> r == Err::<usize, Problem>(Problem::TokenMalformed),
        header_kid matches Some(kid) ==> {
            let k = match kid {
                Some(s) => Some(s@),
                None => None,
            };
            &&& r matches Ok(i) ==> i < keys@.len() && key_matches(keys@[i as int], k) && forall|
                j: int,
            | 0 <= j < i ==> !key_matches(keys@[j], k)
            &&& r matches Err(p) ==> p == Problem::KeyNotRecognized && forall|j: int|
                0 <= j < keys@.len() ==> !key_matches(keys@[j], k)
        },
{
    match header_kid {
        None => Err(Problem::TokenMalformed),
        Some(kid) => {
            let found = match &kid {
                Some(s) => select_signing_key(keys, Some(s.as_str())),
                None => select_signing_key(keys, None),
            };
            match found {
                Some(i) => Ok(i),
                None => Err(Problem::KeyNotRecognized),
            }
        },
    }
}

/// The key among `keys` that signed `token`, by the key id in the token's header.
pub fn signing_key(token: &str, keys: &[JwkKey]) -> (r: Result<usize, Problem>)
    ensures
        jwt_header_kid(token@) is None ==> r == Err::<usize, Problem>(Problem::TokenMalformed),
        jwt_header_kid(token@) matches Some(k) ==> {
            &&& r matches Ok(i) ==> i < keys@.len() && key_matches(keys@[i as int], k) && forall|
                j: int,
            | 0 <= j < i ==> !key_matches(keys@[j], k)
            &&& r matches Err(p) ==> p == Problem::KeyNotRecognized && forall|j: int|
                0 <= j < keys@.len() ==> !key_matches(keys@[j], k)
        },
{
    let kid = token_key_id(token);
    signing_key_for(kid, keys)
}

/// The claims of a validated sign-in token that the service reads.
#[derive(Clone, Debug, PartialEq, Eq)]
pub struct Claims {
    pub oid: String,
    pub tid: String,
    pub name: Option<String>,
    pub email: Option<String>,
}

/// A signed-in user.
#[derive(Clone, Debug, PartialEq, Eq)]
pub struct Identity {
    pub oid: String,
    pub name: String,
    pub email: Option<String>,
}

/// The display name given to a user whose token names nobody.
pub open spec fn default_member_name() -> Seq<char> {
    "Receiving team member"@
}

/// The identity that validated claims give: refused unless issued for `tenant`; the name
/// falls back to a generic team member.
pub fn identity_from_claims(claims: Claims, tenant: &str) -> (r: Result<Identity, Problem>)
    ensures
        claims.tid@ != tenant@ ==> r == Err::<Identity, Problem>(Problem::ForeignTenant),
        claims.tid@ == tenant@ ==> (r matches Ok(id) && id.oid == claims.oid && id.email
            == claims.email && id.name@ == (match claims.name {
            Some(n) => n@,
            None => default_member_name(),
        })),
{
    if !text_equals(claims.tid.as_str(), tenant) {
        return Err(Problem::ForeignTenant);
    }
    let name = match claims.name {
        Some(n) => n,
        None => String::from_str("Receiving team member"),
    };
    Ok(Identity { oid: claims.oid, name, email: claims.email })
}

/// Whether `d` is what an RS256 decoding of `token` with the key of modulus `n` and
/// exponent `e`, for `audience` and `issuer`, gave. What is known of a decoding is that it
/// fails to build the key exactly where the components are unusable, and that a token it
/// accepts has a readable header; the definition is closed, so that outside this module the
/// predicate holds only of outcomes that the decoding returned.
pub closed spec fn decoded_by(
    token: Seq<char>,
    n: Seq<char>,
    e: Seq<char>,
    audience: Seq<char>,
    issuer: Seq<char>,
    d: Option<Option<TokenClaims>>,
) -> bool {
    &&& (d is None <==> !rsa_key_usable(n, e))
    &&& (d matches Some(Some(_)) ==> jwt_header_kid(token) is Some)
}

/// What is known of the outcome of a decoding.
pub proof fn lemma_decoding_outcome(
    token: Seq<char>,
    n: Seq<char>,
    e: Seq<char>,
    audience: Seq<char>,
    issuer: Seq<char>,
    d: Option<Option<TokenClaims>>,
)
    requires
        decoded_by(token, n, e, audience, issuer, d),
    ensures
        d is None <==> !rsa_key_usable(n, e),
        d matches Some(Some(_)) ==> jwt_header_kid(token) is Some,
{
}

} // verus!
