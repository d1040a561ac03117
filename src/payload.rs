use vstd::prelude::*;

verus! {

/// A claim of a token payload seen as values: its name and its value.
pub type ClaimView = (Seq<char>, Seq<char>);

/// The compact HS512 JSON Web Token whose payload is the JSON object of the
/// given string claims (members written in order of name), signed with the
/// given secret.
pub uninterp spec fn hs512_token_of(claims: Seq<ClaimView>, secret: Seq<char>) -> Seq<char>;

#[verifier::external_type_specification]
#[verifier::external_body]
pub struct ExJwtError(jsonwebtoken::errors::Error);

/// The views of a list of claims, in order.
pub open spec fn claims_view(c: Seq<(String, String)>) -> Seq<ClaimView> {
    c.map_values(|x: (String, String)| (x.0@, x.1@))
}

/// No two claims share a name.
pub open spec fn distinct_names(c: Seq<ClaimView>) -> bool {
    forall|i: int, j: int| 0 <= i < j < c.len() ==> (#[trigger] c[i]).0 != (#[trigger] c[j]).0
}

/// Relies on `jsonwebtoken::encode` with `Header::new(Algorithm::HS512)` and
/// `EncodingKey::from_secret` over the secret's bytes. The key is an HMAC key,
/// which fits HS512; the header and a map of strings always serialize; HMAC
/// signing cannot fail. So the call succeeds, and its token depends on the
/// claims and the secret alone. The claims go in as a `BTreeMap`, one entry
/// per claim since the names are distinct, so the members come out in order
/// of name.
#[verifier::external_body]
fn encode_hs512(claims: &Vec<(String, String)>, secret: &str) -> (r: Result<
    String,
    jsonwebtoken::errors::Error,
>)
    requires
        distinct_names(claims_view(claims@)),
    ensures
        r is Ok,
        r->Ok_0@ == hs512_token_of(claims_view(claims@), secret@),
{
    let object: std::collections::BTreeMap<&str, &str> = claims.iter().map(
        |c| (c.0.as_str(), c.1.as_str()),
    ).collect();
    jsonwebtoken::encode(
        &jsonwebtoken::Header::new(jsonwebtoken::Algorithm::HS512),
        &object,
        &jsonwebtoken::EncodingKey::from_secret(secret.as_bytes()),
    )
}

/// Signs the claims into a compact HS512 token.
fn sign_claims(claims: &Vec<(String, String)>, secret: &str) -> (r: String)
    requires
        distinct_names(claims_view(claims@)),
    ensures
        r@ == hs512_token_of(claims_view(claims@), secret@),
{
    encode_hs512(claims, secret).unwrap()
}

/// Claims of a payload that binds no query.
pub open spec fn non_param_claims(access_key: Seq<char>, nonce: Seq<char>) -> Seq<ClaimView> {
    seq![("access_key"@, access_key), ("nonce"@, nonce)]
}

/// Claims of a payload that binds a query through its hash.
pub open spec fn param_claims(
    access_key: Seq<char>,
    nonce: Seq<char>,
    query_hash_alg: Seq<char>,
    query_hash: Seq<char>,
) -> Seq<ClaimView> {
    seq![
        ("access_key"@, access_key),
        ("nonce"@, nonce),
        ("query_hash_alg"@, query_hash_alg),
        ("query_hash"@, query_hash),
    ]
}

/// The four claim names differ from one another.
proof fn lemma_claim_names_distinct(a: Seq<char>, n: Seq<char>, g: Seq<char>, h: Seq<char>)
    ensures
        distinct_names(non_param_claims(a, n)),
        distinct_names(param_claims(a, n, g, h)),
{
    reveal_strlit("access_key");
    reveal_strlit("nonce");
    reveal_strlit("query_hash_alg");
    reveal_strlit("query_hash");
    assert("access_key"@[0] != "query_hash"@[0]);
    let c = param_claims(a, n, g, h);
    assert forall|i: int, j: int| 0 <= i < j < c.len() implies (#[trigger] c[i]).0 != (#[trigger] c[j]).0 by {
        assert(c[i].0.len() != c[j].0.len() || c[i].0[0] != c[j].0[0]);
    }
    let d = non_param_claims(a, n);
    assert forall|i: int, j: int| 0 <= i < j < d.len() implies (#[trigger] d[i]).0 != (#[trigger] d[j]).0 by {
        assert(d[i].0.len() != d[j].0.len());
    }
}

/// A token payload: a list of string claims signed with HS512.
pub trait Payload {
    /// The claims of this payload, in order.
    spec fn claims(&self) -> Seq<ClaimView>;

    /// The HS512 token of this payload, keyed by the bytes of `secret_key`.
    fn to_jwt(&self, secret_key: &str) -> (r: String)
        ensures
            r@ == hs512_token_of(self.claims(), secret_key@),
    ;
}

/// Payload of a request without query parameters.
pub struct NonParamPayload {
    pub access_key: String,
    pub nonce: String,
}

impl Payload for NonParamPayload {
    open spec fn claims(&self) -> Seq<ClaimView> {
        non_param_claims(self.access_key@, self.nonce@)
    }

    fn to_jwt(&self, secret_key: &str) -> (r: String) {
        let mut claims: Vec<(String, String)> = Vec::new();
        claims.push((String::from_str("access_key"), self.access_key.clone()));
        claims.push((String::from_str("nonce"), self.nonce.clone()));
        assert(claims_view(claims@) =~= self.claims());
        proof {
            lemma_claim_names_distinct(self.access_key@, self.nonce@, self.nonce@, self.nonce@);
        }
        sign_claims(&claims, secret_key)
    }
}

/// Payload of a request with query parameters, bound by their hash.
pub struct ParamPayload {
    pub access_key: String,
    pub nonce: String,
    pub query_hash_alg: String,
    pub query_hash: String,
}

impl Payload for ParamPayload {
    open spec fn claims(&self) -> Seq<ClaimView> {
        param_claims(self.access_key@, self.nonce@, self.query_hash_alg@, self.query_hash@)
    }

    fn to_jwt(&self, secret_key: &str) -> (r: String) {
        let mut claims: Vec<(String, String)> = Vec::new();
        claims.push((String::from_str("access_key"), self.access_key.clone()));
        claims.push((String::from_str("nonce"), self.nonce.clone()));
        claims.push((String::from_str("query_hash_alg"), self.query_hash_alg.clone()));
        claims.push((String::from_str("query_hash"), self.query_hash.clone()));
        assert(claims_view(claims@) =~= self.claims());
        proof {
            lemma_claim_names_distinct(
                self.access_key@,
                self.nonce@,
                self.query_hash_alg@,
                self.query_hash@,
            );
        }
        sign_claims(&claims, secret_key)
    }
}

} // verus!
