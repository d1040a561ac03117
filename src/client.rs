use vstd::prelude::*;

use crate::error::UpbitError;
use crate::payload::{hs512_token_of, non_param_claims, param_claims, NonParamPayload, ParamPayload, Payload};
use crate::query::{canonical_text, lemma_sorted_unique, query_map, sorted_keys, ParamView, Query};
use crate::util::{decimal, decimal_text, hash, hex_lower, sha512_of};
use vstd::utf8::encode_utf8;

verus! {

/// The base of every endpoint URL.
pub open spec fn api_base() -> Seq<char> {
    "https://api.upbit.com/v1"@
}

/// A lowercase hexadecimal digit.
pub open spec fn is_lower_hex(c: char) -> bool {
    ('0' <= c && c <= '9') || ('a' <= c && c <= 'f')
}

/// A version-4 UUID in hyphenated lowercase text form.
pub open spec fn is_uuid_v4_text(s: Seq<char>) -> bool {
    &&& s.len() == 36
    &&& s[8] == '-' && s[13] == '-' && s[18] == '-' && s[23] == '-'
    &&& forall|i: int|
        0 <= i < 36 && i != 8 && i != 13 && i != 18 && i != 23 ==> is_lower_hex(#[trigger] s[i])
    &&& s[14] == '4'
    &&& (s[19] == '8' || s[19] == '9' || s[19] == 'a' || s[19] == 'b')
}

/// Relies on uuid's `Uuid::new_v4` and its `Display`: a random version-4,
/// RFC 4122 variant UUID in hyphenated lowercase text.
#[verifier::external_body]
fn new_nonce() -> (r: String)
    ensures
        is_uuid_v4_text(r@),
{
    uuid::Uuid::new_v4().to_string()
}

/// Lowercase hexadecimal SHA-512 of the UTF-8 bytes of the canonical string.
pub open spec fn query_hash_of(p: Seq<ParamView>) -> Seq<char> {
    hex_lower(sha512_of(encode_utf8(canonical_text(p))))
}

/// The bearer token of a request: without a query, the access key and the
/// nonce; with one, also the name of the digest and the query's hash.
pub open spec fn token_text(
    access_key: Seq<char>,
    secret_key: Seq<char>,
    nonce: Seq<char>,
    query: Option<Seq<ParamView>>,
) -> Seq<char> {
    match query {
        None => hs512_token_of(non_param_claims(access_key, nonce), secret_key),
        Some(p) => hs512_token_of(
            param_claims(access_key, nonce, "SHA512"@, query_hash_of(p)),
            secret_key,
        ),
    }
}

/// The full URL of a request: the base, the path, and the canonical query
/// string after a `?` when there is a query.
pub open spec fn url_text(path: Seq<char>, query: Option<Seq<ParamView>>) -> Seq<char> {
    match query {
        None => api_base() + path,
        Some(p) => api_base() + path + seq!['?'] + canonical_text(p),
    }
}

/// The parameters of an optional borrowed query.
pub open spec fn query_view(q: Option<&Query>) -> Option<Seq<ParamView>> {
    match q {
        Some(q) => Some(q@),
        None => None,
    }
}

/// The parameters of an optional query.
pub open spec fn owned_query_view(q: Option<Query>) -> Option<Seq<ParamView>> {
    match q {
        Some(q) => Some(q@),
        None => None,
    }
}

/// The characters of an optional string.
pub open spec fn str_view(o: Option<&str>) -> Option<Seq<char>> {
    match o {
        Some(s) => Some(s@),
        None => None,
    }
}

/// An optional count as it is written in a query.
pub open spec fn count_view(o: Option<i32>) -> Option<Seq<char>> {
    match o {
        Some(n) => Some(decimal_text(n as int)),
        None => None,
    }
}

/// `m` with `key` set to the value, when there is one.
pub open spec fn put_opt(
    m: Map<Seq<char>, Seq<char>>,
    key: Seq<char>,
    value: Option<Seq<char>>,
) -> Map<Seq<char>, Seq<char>> {
    match value {
        Some(v) => m.insert(key, v),
        None => m,
    }
}

/// The HTTP method of an endpoint.
#[derive(Clone, Copy, Debug, PartialEq, Eq, Structural)]
pub enum HttpMethod {
    Get,
    Post,
    Delete,
}

/// An authenticated request, ready for a transport: the method, the full
/// URL with its query string, the query it carries, and the value of the
/// `Authorization` header.
pub struct ApiRequest {
    pub method: HttpMethod,
    pub url: String,
    pub query: Option<Query>,
    pub authorization: String,
}

/// Credentials of an exchange account.
pub struct Client {
    access_key: String,
    secret_key: String,
    fixed_nonce: Option<String>,
}

impl Client {
    #[verifier::type_invariant]
    spec fn inv(&self) -> bool {
        self.access_key@.len() > 0 && self.secret_key@.len() > 0
    }

    /// The access key, carried in every token.
    pub closed spec fn access(&self) -> Seq<char> {
        self.access_key@
    }

    /// The secret key, which signs every token.
    pub closed spec fn secret(&self) -> Seq<char> {
        self.secret_key@
    }

    /// The nonce that every token of this client carries, if it was fixed.
    pub closed spec fn fixed_nonce(&self) -> Option<Seq<char>> {
        match self.fixed_nonce {
            Some(n) => Some(n@),
            None => None,
        }
    }

    /// `n` can be the nonce of a token of this client: the fixed nonce if
    /// there is one, else any version-4 UUID text.
    pub open spec fn nonce_fits(&self, n: Seq<char>) -> bool {
        match self.fixed_nonce() {
            Some(f) => n == f,
            None => is_uuid_v4_text(n),
        }
    }

    /// `req` is `method` on `path`, carries `query` in its URL, and is
    /// authorized by a bearer token for that query under a nonce of this
    /// client.
    pub open spec fn issued_as(
        &self,
        req: ApiRequest,
        method: HttpMethod,
        path: Seq<char>,
        query: Option<Seq<ParamView>>,
    ) -> bool {
        &&& req.method == method
        &&& owned_query_view(req.query) == query
        &&& (query is Some ==> sorted_keys(query->Some_0))
        &&& req.url@ == url_text(path, query)
        &&& exists|n: Seq<char>|
            self.nonce_fits(n) && req.authorization@ == seq!['B', 'e', 'a', 'r', 'e', 'r', ' ']
                + #[trigger] token_text(self.access(), self.secret(), n, query)
    }

    /// `req` is `method` on `path` with the query parameters `params`
    /// (none at all when `params` is `None`).
    pub open spec fn issued(
        &self,
        req: ApiRequest,
        method: HttpMethod,
        path: Seq<char>,
        params: Option<Map<Seq<char>, Seq<char>>>,
    ) -> bool {
        match params {
            None => self.issued_as(req, method, path, None),
            Some(m) => {
                &&& req.query is Some
                &&& query_map(req.query->Some_0@) == m
                &&& self.issued_as(req, method, path, Some(req.query->Some_0@))
            },
        }
    }

    /// A client for the given keys; both must be non-empty.
    pub fn new(access_key: &str, secret_key: &str) -> (r: Result<Client, UpbitError>)
        ensures
            r is Ok <==> access_key@.len() > 0 && secret_key@.len() > 0,
            r is Ok ==> r->Ok_0.access() == access_key@ && r->Ok_0.secret() == secret_key@
                && r->Ok_0.fixed_nonce() is None,
            r is Err ==> r->Err_0 == UpbitError::Config,
    {
        if access_key.is_empty() || secret_key.is_empty() {
            return Err(UpbitError::Config);
        }
        Ok(
            Client {
                access_key: access_key.to_owned(),
                secret_key: secret_key.to_owned(),
                fixed_nonce: None,
            },
        )
    }

    /// A client whose every token carries `nonce` instead of a fresh one, so
    /// that its tokens can be reproduced; the keys must be non-empty. The
    /// exchange refuses a nonce that it has seen, so such a client serves
    /// for one request at most.
    pub fn with_nonce(access_key: &str, secret_key: &str, nonce: &str) -> (r: Result<
        Client,
        UpbitError,
    >)
        ensures
            r is Ok <==> access_key@.len() > 0 && secret_key@.len() > 0,
            r is Ok ==> r->Ok_0.access() == access_key@ && r->Ok_0.secret() == secret_key@
                && r->Ok_0.fixed_nonce() == Some(nonce@),
            r is Err ==> r->Err_0 == UpbitError::Config,
    {
        if access_key.is_empty() || secret_key.is_empty() {
            return Err(UpbitError::Config);
        }
        Ok(
            Client {
                access_key: access_key.to_owned(),
                secret_key: secret_key.to_owned(),
                fixed_nonce: Some(nonce.to_owned()),
            },
        )
    }

    /// The bearer token for `query` under the given nonce.
    pub fn generate_jwt_with_nonce(&self, query: Option<&Query>, nonce: &str) -> (r: String)
        ensures
            r@ == token_text(self.access(), self.secret(), nonce@, query_view(query)),
    {
        match query {
            None => {
                let payload = NonParamPayload {
                    access_key: self.access_key.clone(),
                    nonce: nonce.to_owned(),
                };
                payload.to_jwt(self.secret_key.as_str())
            },
            Some(q) => {
                let qs = q.canonical();
                let payload = ParamPayload {
                    access_key: self.access_key.clone(),
                    nonce: nonce.to_owned(),
                    query_hash_alg: String::from_str("SHA512"),
                    query_hash: hash(qs.as_str().as_bytes()),
                };
                payload.to_jwt(self.secret_key.as_str())
            },
        }
    }

    /// The bearer token for `query` under this client's nonce: the fixed
    /// one, or else a freshly drawn one.
    pub fn generate_jwt(&self, query: Option<&Query>) -> (r: String)
        ensures
            exists|n: Seq<char>|
                self.nonce_fits(n) && #[trigger] token_text(
                    self.access(),
                    self.secret(),
                    n,
                    query_view(query),
                ) == r@,
    {
        let nonce = match &self.fixed_nonce {
            Some(n) => n.clone(),
            None => new_nonce(),
        };
        let r = self.generate_jwt_with_nonce(query, nonce.as_str());
        assert(self.nonce_fits(nonce@));
        assert(token_text(self.access(), self.secret(), nonce@, query_view(query)) == r@);
        r
    }

    /// Signs `query` and lays out the request of `method` on `path`.
    fn dispatch(&self, method: HttpMethod, path: &str, query: Option<Query>) -> (r: ApiRequest)
        ensures
            self.issued_as(r, method, path@, owned_query_view(query)),
            r.query == query,
    {
        let token = match &query {
            Some(q) => self.generate_jwt(Some(q)),
            None => self.generate_jwt(None),
        };
        proof {
            reveal_strlit("?");
            reveal_strlit("Bearer ");
            assert("?"@ =~= seq!['?']);
            assert("Bearer "@ =~= seq!['B', 'e', 'a', 'r', 'e', 'r', ' ']);
        }
        let mut url = String::from_str("https://api.upbit.com/v1");
        url.append(path);
        match &query {
            Some(q) => {
                url.append("?");
                let qs = q.canonical();
                url.append(qs.as_str());
            },
            None => {},
        }
        let mut authorization = String::from_str("Bearer ");
        authorization.append(token.as_str());
        let ghost tq = owned_query_view(query);
        let req = ApiRequest { method, url, query, authorization };
        proof {
            let n = choose|n: Seq<char>|
                self.nonce_fits(n) && #[trigger] token_text(self.access(), self.secret(), n, tq)
                    == token@;
            assert(req.authorization@ == seq!['B', 'e', 'a', 'r', 'e', 'r', ' '] + token_text(
                self.access(),
                self.secret(),
                n,
                tq,
            ));
            assert(req.url@ =~= url_text(path@, tq));
        }
        req
    }

    /// All accounts of the key's owner: `GET /accounts`, without a query.
    pub fn get_account(&self) -> (r: ApiRequest)
        ensures
            self.issued(r, HttpMethod::Get, "/accounts"@, None),
    {
        self.dispatch(HttpMethod::Get, "/accounts", None)
    }

    /// The market codes: `GET /market/all` with `isDetails`.
    pub fn get_market_all(&self, is_details: bool) -> (r: ApiRequest)
        ensures
            self.issued(
                r,
                HttpMethod::Get,
                "/market/all"@,
                Some(map!["isDetails"@ => if is_details { "true"@ } else { "false"@ }]),
            ),
    {
        let mut query = Query::new();
        let flag = if is_details {
            String::from_str("true")
        } else {
            String::from_str("false")
        };
        query.insert("isDetails", flag);
        self.dispatch(HttpMethod::Get, "/market/all", Some(query))
    }

    /// What may be ordered on a market: `GET /orders/chance` with `market`.
    pub fn get_orders_chance(&self, market: &str) -> (r: ApiRequest)
        ensures
            self.issued(
                r,
                HttpMethod::Get,
                "/orders/chance"@,
                Some(map!["market"@ => market@]),
            ),
    {
        let mut query = Query::new();
        query.insert("market", market.to_owned());
        self.dispatch(HttpMethod::Get, "/orders/chance", Some(query))
    }

    /// Places an order: `POST /orders` with `market`, `side`, `volume`,
    /// `price`, `ord_type` and, when given, `identifier`.
    pub fn post_orders(
        &self,
        market: &str,
        side: &str,
        volume: &str,
        price: &str,
        ord_type: &str,
        identifier: Option<&str>,
    ) -> (r: ApiRequest)
        ensures
            self.issued(
                r,
                HttpMethod::Post,
                "/orders"@,
                Some(
                    put_opt(
                        map![
                            "market"@ => market@,
                            "side"@ => side@,
                            "volume"@ => volume@,
                            "price"@ => price@,
                            "ord_type"@ => ord_type@,
                        ],
                        "identifier"@,
                        str_view(identifier),
                    ),
                ),
            ),
    {
        let mut query = Query::new();
        query.insert("market", market.to_owned());
        query.insert("side", side.to_owned());
        query.insert("volume", volume.to_owned());
        query.insert("price", price.to_owned());
        query.insert("ord_type", ord_type.to_owned());
        match identifier {
            Some(id) => query.insert("identifier", id.to_owned()),
            None => {},
        }
        self.dispatch(HttpMethod::Post, "/orders", Some(query))
    }

    /// Cancels an order: `DELETE /order` with `uuid` and/or `identifier`.
    /// Without either, the call is refused before any token is made.
    pub fn delete_order(&self, uuid: Option<&str>, identifier: Option<&str>) -> (r: Result<
        ApiRequest,
        UpbitError,
    >)
        ensures
            r is Err <==> uuid is None && identifier is None,
            r is Err ==> r->Err_0 == UpbitError::Argument,
            r is Ok ==> self.issued(
                r->Ok_0,
                HttpMethod::Delete,
                "/order"@,
                Some(
                    put_opt(
                        put_opt(Map::empty(), "uuid"@, str_view(uuid)),
                        "identifier"@,
                        str_view(identifier),
                    ),
                ),
            ),
    {
        if uuid.is_none() && identifier.is_none() {
            return Err(UpbitError::Argument);
        }
        let mut query = Query::new();
        match uuid {
            Some(u) => query.insert("uuid", u.to_owned()),
            None => {},
        }
        match identifier {
            Some(id) => query.insert("identifier", id.to_owned()),
            None => {},
        }
        Ok(self.dispatch(HttpMethod::Delete, "/order", Some(query)))
    }

    /// Minute candles: `GET /candles/minutes/{unit}` with `market` and, when
    /// given, `to` and `count`.
    pub fn get_candles_minutes(
        &self,
        unit: i32,
        market: &str,
        to: Option<&str>,
        count: Option<i32>,
    ) -> (r: ApiRequest)
        ensures
            self.issued(
                r,
                HttpMethod::Get,
                "/candles/minutes/"@ + decimal_text(unit as int),
                Some(candle_params(market@, str_view(to), count_view(count))),
            ),
    {
        let query = candle_query(market, to, count);
        let mut path = String::from_str("/candles/minutes/");
        let digits = decimal(unit);
        path.append(digits.as_str());
        self.dispatch(HttpMethod::Get, path.as_str(), Some(query))
    }

    /// Day candles: `GET /candles/days` with `market` and, when given, `to`,
    /// `count` and `convertingPriceUnit`.
    pub fn get_candles_days(
        &self,
        market: &str,
        to: Option<&str>,
        count: Option<i32>,
        converting_price_unit: Option<&str>,
    ) -> (r: ApiRequest)
        ensures
            self.issued(
                r,
                HttpMethod::Get,
                "/candles/days"@,
                Some(
                    put_opt(
                        candle_params(market@, str_view(to), count_view(count)),
                        "convertingPriceUnit"@,
                        str_view(converting_price_unit),
                    ),
                ),
            ),
    {
        let mut query = candle_query(market, to, count);
        match converting_price_unit {
            Some(unit) => query.insert("convertingPriceUnit", unit.to_owned()),
            None => {},
        }
        self.dispatch(HttpMethod::Get, "/candles/days", Some(query))
    }

    /// Week candles: `GET /candles/weeks` with `market` and, when given,
    /// `to` and `count`.
    pub fn get_candles_weeks(&self, market: &str, to: Option<&str>, count: Option<i32>) -> (r: ApiRequest)
        ensures
            self.issued(
                r,
                HttpMethod::Get,
                "/candles/weeks"@,
                Some(candle_params(market@, str_view(to), count_view(count))),
            ),
    {
        let query = candle_query(market, to, count);
        self.dispatch(HttpMethod::Get, "/candles/weeks", Some(query))
    }

    /// Month candles: `GET /candles/months` with `market` and, when given,
    /// `to` and `count`.
    pub fn get_candles_months(&self, market: &str, to: Option<&str>, count: Option<i32>) -> (r: ApiRequest)
        ensures
            self.issued(
                r,
                HttpMethod::Get,
                "/candles/months"@,
                Some(candle_params(market@, str_view(to), count_view(count))),
            ),
    {
        let query = candle_query(market, to, count);
        self.dispatch(HttpMethod::Get, "/candles/months", Some(query))
    }
}

/// The parameters shared by the candle endpoints.
pub open spec fn candle_params(
    market: Seq<char>,
    to: Option<Seq<char>>,
    count: Option<Seq<char>>,
) -> Map<Seq<char>, Seq<char>> {
    put_opt(put_opt(map!["market"@ => market], "to"@, to), "count"@, count)
}

/// The query shared by the candle endpoints.
fn candle_query(market: &str, to: Option<&str>, count: Option<i32>) -> (r: Query)
    ensures
        query_map(r@) == candle_params(market@, str_view(to), count_view(count)),
{
    let mut query = Query::new();
    query.insert("market", market.to_owned());
    match to {
        Some(t) => query.insert("to", t.to_owned()),
        None => {},
    }
    match count {
        Some(n) => query.insert("count", decimal(n)),
        None => {},
    }
    query
}

/// For fixed keys and nonce, the token and the URL of a request depend on
/// its parameters as a map alone: two queries that hold the same names and
/// values, put in in whatever order, sign and send the same strings.
pub proof fn lemma_signing_deterministic(
    access_key: Seq<char>,
    secret_key: Seq<char>,
    nonce: Seq<char>,
    path: Seq<char>,
    left: Seq<ParamView>,
    right: Seq<ParamView>,
)
    requires
        sorted_keys(left),
        sorted_keys(right),
        query_map(left) == query_map(right),
    ensures
        token_text(access_key, secret_key, nonce, Some(left)) == token_text(
            access_key,
            secret_key,
            nonce,
            Some(right),
        ),
        url_text(path, Some(left)) == url_text(path, Some(right)),
{
    lemma_sorted_unique(left, right);
}

/// The token of a request with a query carries, under the label `SHA512`,
/// the lowercase hex SHA-512 of exactly the query string that its URL
/// carries after the `?`.
pub proof fn lemma_query_hash_binding(
    client: Client,
    req: ApiRequest,
    method: HttpMethod,
    path: Seq<char>,
    p: Seq<ParamView>,
)
    requires
        client.issued_as(req, method, path, Some(p)),
    ensures
        req.url@ == api_base() + path + seq!['?'] + canonical_text(p),
        exists|n: Seq<char>|
            client.nonce_fits(n) && req.authorization@ == seq![
                'B',
                'e',
                'a',
                'r',
                'e',
                'r',
                ' ',
            ] + hs512_token_of(
                #[trigger] param_claims(
                    client.access(),
                    n,
                    "SHA512"@,
                    hex_lower(sha512_of(encode_utf8(canonical_text(p)))),
                ),
                client.secret(),
            ),
{
    let n = choose|n: Seq<char>|
        client.nonce_fits(n) && req.authorization@ == seq!['B', 'e', 'a', 'r', 'e', 'r', ' ']
            + #[trigger] token_text(client.access(), client.secret(), n, Some(p));
    assert(client.nonce_fits(n));
}

} // verus!
