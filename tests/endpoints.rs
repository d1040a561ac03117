use jsonwebtoken::{decode, Algorithm, DecodingKey, Validation};
use sha2::{Digest, Sha512};
use upbit::{ApiRequest, Client, HttpMethod, UpbitError};

fn claims_of(token: &str) -> serde_json::Value {
    let mut validation = Validation::new(Algorithm::HS512);
    validation.required_spec_claims.clear();
    validation.validate_exp = false;
    decode::<serde_json::Value>(token, &DecodingKey::from_secret(b"s"), &validation)
        .expect("token verifies")
        .claims
}

fn bearer_claims(req: &ApiRequest) -> serde_json::Value {
    let token = req.authorization.strip_prefix("Bearer ").expect("bearer scheme");
    claims_of(token)
}

fn query_string(req: &ApiRequest) -> &str {
    req.url.split_once('?').map(|(_, q)| q).expect("a query string")
}

fn client() -> Client {
    Client::new("a", "s").unwrap()
}

fn assert_bound(req: &ApiRequest) {
    let qs = query_string(req);
    assert_eq!(req.query.as_ref().unwrap().canonical(), qs);
    let claims = bearer_claims(req);
    assert_eq!(claims["access_key"], "a");
    assert_eq!(claims["query_hash_alg"], "SHA512");
    assert_eq!(claims["query_hash"], hex::encode(Sha512::digest(qs.as_bytes())).as_str());
}

const ZERO_NONCE: &str = "00000000-0000-0000-0000-000000000000";

#[test]
fn get_account_with_fixed_nonce() {
    let c = Client::with_nonce("a", "s", ZERO_NONCE).unwrap();
    let req = c.get_account();
    assert_eq!(req.method, HttpMethod::Get);
    assert_eq!(req.url, "https://api.upbit.com/v1/accounts");
    assert!(req.query.is_none());
    let token = req.authorization.strip_prefix("Bearer ").unwrap();
    assert_eq!(token, c.generate_jwt(None));
    let claims = claims_of(token);
    assert_eq!(claims["nonce"], ZERO_NONCE);
    assert_eq!(claims.as_object().unwrap().len(), 2);
}

#[test]
fn post_orders_with_fixed_nonce() {
    let c = Client::with_nonce("a", "s", ZERO_NONCE).unwrap();
    let req = c.post_orders("KRW-BTC", "bid", "1", "6000", "limit", None);
    assert_eq!(req.method, HttpMethod::Post);
    assert_eq!(
        req.url,
        "https://api.upbit.com/v1/orders?market=KRW-BTC&ord_type=limit&price=6000&side=bid&volume=1"
    );
    let claims = bearer_claims(&req);
    assert_eq!(claims["nonce"], ZERO_NONCE);
    assert_eq!(
        claims["query_hash"],
        upbit::hash(b"market=KRW-BTC&ord_type=limit&price=6000&side=bid&volume=1").as_str()
    );
    let other = Client::with_nonce("a", "t", ZERO_NONCE).unwrap();
    let req2 = other.post_orders("KRW-BTC", "bid", "1", "6000", "limit", None);
    assert_eq!(req2.url, req.url);
    assert_ne!(req2.authorization, req.authorization);
}

#[test]
fn get_account_dispatch() {
    let req = client().get_account();
    assert_eq!(req.method, HttpMethod::Get);
    assert_eq!(req.url, "https://api.upbit.com/v1/accounts");
    assert!(req.query.is_none());
    let claims = bearer_claims(&req);
    assert_eq!(claims.as_object().unwrap().len(), 2);
    assert_eq!(claims["access_key"], "a");
}

#[test]
fn get_market_all_dispatch() {
    let req = client().get_market_all(true);
    assert_eq!(req.method, HttpMethod::Get);
    assert_eq!(req.url, "https://api.upbit.com/v1/market/all?isDetails=true");
    assert_bound(&req);
    let req = client().get_market_all(false);
    assert_eq!(req.url, "https://api.upbit.com/v1/market/all?isDetails=false");
}

#[test]
fn get_orders_chance_dispatch() {
    let req = client().get_orders_chance("KRW-BTC");
    assert_eq!(req.method, HttpMethod::Get);
    assert_eq!(req.url, "https://api.upbit.com/v1/orders/chance?market=KRW-BTC");
    assert_bound(&req);
}

#[test]
fn post_orders_dispatch() {
    let req = client().post_orders("KRW-BTC", "bid", "1", "6000", "limit", None);
    assert_eq!(req.method, HttpMethod::Post);
    assert_eq!(
        req.url,
        "https://api.upbit.com/v1/orders?market=KRW-BTC&ord_type=limit&price=6000&side=bid&volume=1"
    );
    assert_bound(&req);
    let qs = "market=KRW-BTC&ord_type=limit&price=6000&side=bid&volume=1";
    assert_eq!(bearer_claims(&req)["query_hash"], upbit::hash(qs.as_bytes()).as_str());
}

#[test]
fn post_orders_with_identifier() {
    let req = client().post_orders("KRW-BTC", "ask", "0.5", "7000", "limit", Some("my-1"));
    assert_eq!(
        req.url,
        "https://api.upbit.com/v1/orders?identifier=my-1&market=KRW-BTC&ord_type=limit&price=7000&side=ask&volume=0.5"
    );
    assert_bound(&req);
}

#[test]
fn delete_order_precondition() {
    assert!(matches!(client().delete_order(None, None), Err(UpbitError::Argument)));
}

#[test]
fn delete_order_dispatch() {
    let req = client().delete_order(Some("e2c04420-db90-4aab-a53a-46b0f2a8bd8a"), None).unwrap();
    assert_eq!(req.method, HttpMethod::Delete);
    assert_eq!(req.url, "https://api.upbit.com/v1/order?uuid=e2c04420-db90-4aab-a53a-46b0f2a8bd8a");
    assert_bound(&req);
    let req = client().delete_order(Some("u"), Some("i")).unwrap();
    assert_eq!(req.url, "https://api.upbit.com/v1/order?identifier=i&uuid=u");
    let req = client().delete_order(None, Some("i")).unwrap();
    assert_eq!(req.url, "https://api.upbit.com/v1/order?identifier=i");
}

#[test]
fn get_candles_minutes_dispatch() {
    let req = client().get_candles_minutes(5, "KRW-BTC", None, Some(10));
    assert_eq!(req.method, HttpMethod::Get);
    assert_eq!(req.url, "https://api.upbit.com/v1/candles/minutes/5?count=10&market=KRW-BTC");
    assert_bound(&req);
    let req = client().get_candles_minutes(240, "KRW-ETH", Some("2024-01-01T00:00:00"), None);
    assert_eq!(
        req.url,
        "https://api.upbit.com/v1/candles/minutes/240?market=KRW-ETH&to=2024-01-01T00:00:00"
    );
}

#[test]
fn get_candles_days_dispatch() {
    let req = client().get_candles_days("KRW-BTC", Some("2024-01-01"), Some(2), Some("KRW"));
    assert_eq!(
        req.url,
        "https://api.upbit.com/v1/candles/days?convertingPriceUnit=KRW&count=2&market=KRW-BTC&to=2024-01-01"
    );
    assert_bound(&req);
    let req = client().get_candles_days("KRW-BTC", None, None, None);
    assert_eq!(req.url, "https://api.upbit.com/v1/candles/days?market=KRW-BTC");
}

#[test]
fn get_candles_weeks_dispatch() {
    let req = client().get_candles_weeks("KRW-BTC", None, Some(-3));
    assert_eq!(req.url, "https://api.upbit.com/v1/candles/weeks?count=-3&market=KRW-BTC");
    assert_bound(&req);
}

#[test]
fn get_candles_months_dispatch() {
    let req = client().get_candles_months("KRW-BTC", Some("2024-06-01"), Some(i32::MAX));
    assert_eq!(
        req.url,
        "https://api.upbit.com/v1/candles/months?count=2147483647&market=KRW-BTC&to=2024-06-01"
    );
    assert_bound(&req);
}
