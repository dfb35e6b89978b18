//! The exchange's signed REST interface: the data it answers with, the
//! bodies of the three requests, and the signature that each request carries.
//!
//! A request is built and signed here and handed back as a value. Sending it
//! is not this library's part.

use crate::decimal::{Decimal, DecimalValue};
use crate::utils::{
    decimal_digits, get_unix_epoch_millis, hex_encode, lemma_decimal_digits_injective,
    lemma_hex_encode_injective, push_decimal, to_hex,
};
use vstd::prelude::*;
use vstd::string::StringExecFns;
use vstd::utf8::encode_utf8;

verus! {

/// The receive window, in milliseconds, that every request declares.
pub const RECV_WINDOW: &'static str = "5000";

/// The address of the query for the account's asset information.
pub const ASSET_INFO_URL: &'static str =
    "https://api.bybit.com/option/usdc/openapi/private/v1/query-asset-info";

/// The address that takes an order on a perpetual contract.
pub const PLACE_ORDER_URL: &'static str =
    "https://api.bybit.com/perpetual/usdc/openapi/private/v1/place-order";

/// The address of the query for an order's history.
pub const ORDER_HISTORY_URL: &'static str =
    "https://api.bybit.com/option/usdc/openapi/private/v1/query-order-history";

/// The Greeks, profit and margin of the positions in one coin, each a decimal
/// number in the exchange's own text.
#[derive(Debug, Clone)]
pub struct AssetInfo {
    pub base_coin: String,
    pub total_delta: String,
    pub total_gamma: String,
    pub total_vega: String,
    pub total_theta: String,
    pub total_rpl: String,
    pub session_upl: String,
    pub session_rpl: String,
    pub im: String,
    pub mm: String,
}

/// What the exchange says of an order that was just placed.
#[derive(Debug, Clone)]
pub struct OrderPlacingInfo {
    pub order_id: String,
    pub order_link_id: String,
    pub symbol: String,
    pub order_type: String,
    pub side: String,
    pub order_qty: String,
    pub order_price: String,
}

/// The state of an order at the time of a query.
#[derive(Debug, Clone)]
pub struct OrderInfo {
    pub order_id: String,
    pub order_link_id: String,
    pub symbol: String,
    pub order_type: String,
    pub side: String,
    pub order_status: String,
    pub price: String,
}

/// A list of results with the total that the exchange reports.
#[derive(Debug, Clone)]
pub struct List<T> {
    pub result_total_size: i32,
    pub data_list: Vec<T>,
}

/// The envelope of every answer. A `ret_code` of zero means success; nothing
/// here looks at it.
#[derive(Debug, Clone)]
pub struct Response<T> {
    pub ret_code: i32,
    pub ret_msg: String,
    pub result: T,
}

/// A request that is ready to be sent: where it goes, what it says, and what
/// its headers are made from.
#[derive(Debug, Clone)]
pub struct SignedRequest {
    pub url: String,
    pub api_key: String,
    pub signature: String,
    pub timestamp: u128,
    pub body: String,
}

/// The account's credentials. The secret only ever keys the signature.
pub struct Bybit {
    api_key: String,
    api_secret: String,
}

/// The name and value pairs of a list of owned pairs.
pub open spec fn pairs_view(pairs: Seq<(String, String)>) -> Seq<(Seq<char>, Seq<char>)> {
    Seq::new(pairs.len(), |i: int| (pairs[i].0@, pairs[i].1@))
}

/// The HMAC-SHA256 of `message` under `key`.
pub uninterp spec fn hmac_sha256(key: Seq<u8>, message: Seq<u8>) -> Seq<u8>;

/// The compact JSON text of an object whose members are the given names, each
/// with a string value.
pub uninterp spec fn json_object_text(members: Seq<(Seq<char>, Seq<char>)>) -> Seq<char>;

/// What is signed: the timestamp in decimal, the API key, the receive window
/// and the body, one after the other with nothing between them.
pub open spec fn signing_payload(timestamp: nat, api_key: Seq<char>, body: Seq<char>) -> Seq<
    char,
> {
    decimal_digits(timestamp) + api_key + RECV_WINDOW@ + body
}

/// The signature of a request: the HMAC-SHA256 of the signing payload under
/// the secret, in upper-case hexadecimal.
pub open spec fn signature_text(
    api_secret: Seq<char>,
    api_key: Seq<char>,
    timestamp: nat,
    body: Seq<char>,
) -> Seq<char> {
    hex_encode(
        hmac_sha256(encode_utf8(api_secret), encode_utf8(signing_payload(timestamp, api_key, body))),
    )
}

/// The six headers of a request, in the order in which they are attached.
pub open spec fn header_list(api_key: Seq<char>, signature: Seq<char>, timestamp: nat) -> Seq<
    (Seq<char>, Seq<char>),
> {
    seq![
        ("X-BAPI-API-KEY"@, api_key),
        ("X-BAPI-SIGN"@, signature),
        ("X-BAPI-SIGN-TYPE"@, "2"@),
        ("X-BAPI-TIMESTAMP"@, decimal_digits(timestamp)),
        ("X-BAPI-RECV-WINDOW"@, RECV_WINDOW@),
        ("Content-Type"@, "application/json"@),
    ]
}

/// The body of a market order: symbol, side and quantity, with the order type
/// `Market` and the order filter `Order`.
pub open spec fn market_order_body(symbol: Seq<char>, side: Seq<char>, quantity: DecimalValue) -> Seq<
    char,
> {
    json_object_text(
        seq![
            ("symbol"@, symbol),
            ("orderType"@, "Market"@),
            ("orderFilter"@, "Order"@),
            ("side"@, side),
            ("orderQty"@, quantity.text()),
        ],
    )
}

/// The body of a query for one order of the category `PERPETUAL`.
pub open spec fn order_query_body(order_id: Seq<char>) -> Seq<char> {
    json_object_text(seq![("category"@, "PERPETUAL"@), ("orderId"@, order_id)])
}

/// `Hmac::<Sha256>::new_from_slice`, `update` and `finalize` of the crates
/// `hmac` and `sha2`: the message authentication code of `message` under
/// `key`. A key of any length is accepted. The contract gives the code a
/// name and claims that it has the 32 bytes of a SHA-256 output.
#[verifier::external_body]
fn compute_hmac_sha256(key: &[u8], message: &[u8]) -> (code: Vec<u8>)
    ensures
        code@ == hmac_sha256(key@, message@),
        code@.len() == 32,
{
    let mut mac = <hmac::Hmac<sha2::Sha256> as hmac::Mac>::new_from_slice(key)
        .expect("HMAC takes a key of any length");
    hmac::Mac::update(&mut mac, message);
    hmac::Mac::finalize(mac).into_bytes().to_vec()
}

/// `serde_json::Map::insert` and the `to_string` of `serde_json::Value`: the
/// members are put into a JSON object, each value as a JSON string, and the
/// object is written as compact text. The contract gives that text a name.
#[verifier::external_body]
fn write_json_object(members: &Vec<(String, String)>) -> (text: String)
    ensures
        text@ == json_object_text(pairs_view(members@)),
{
    let mut object = serde_json::Map::new();
    for (name, value) in members.iter() {
        object.insert(name.clone(), serde_json::Value::String(value.clone()));
    }
    serde_json::Value::Object(object).to_string()
}

impl SignedRequest {
    /// The headers to attach: the API key, the signature, the signature type
    /// `2`, the timestamp in decimal, the receive window, and the content
    /// type of JSON.
    pub fn headers(&self) -> (list: Vec<(String, String)>)
        ensures
            pairs_view(list@) == header_list(
                self.api_key@,
                self.signature@,
                self.timestamp as nat,
            ),
    {
        let mut stamp = String::new();
        push_decimal(&mut stamp, self.timestamp);
        assert(stamp@ =~= decimal_digits(self.timestamp as nat));
        let mut list: Vec<(String, String)> = Vec::new();
        list.push(("X-BAPI-API-KEY".to_owned(), self.api_key.clone()));
        list.push(("X-BAPI-SIGN".to_owned(), self.signature.clone()));
        list.push(("X-BAPI-SIGN-TYPE".to_owned(), "2".to_owned()));
        list.push(("X-BAPI-TIMESTAMP".to_owned(), stamp));
        list.push(("X-BAPI-RECV-WINDOW".to_owned(), RECV_WINDOW.to_owned()));
        list.push(("Content-Type".to_owned(), "application/json".to_owned()));
        assert(pairs_view(list@) =~= header_list(
            self.api_key@,
            self.signature@,
            self.timestamp as nat,
        ));
        list
    }
}

impl Bybit {
    /// The API key.
    pub closed spec fn api_key(&self) -> Seq<char> {
        self.api_key@
    }

    /// The API secret.
    pub closed spec fn api_secret(&self) -> Seq<char> {
        self.api_secret@
    }

    /// Whether `request` is this account's request with the given body for
    /// `url`: it carries the key, and the signature of the body for the
    /// request's own timestamp.
    pub open spec fn is_request_for(&self, request: SignedRequest, body: Seq<char>, url: Seq<char>) -> bool {
        &&& request.url@ == url
        &&& request.api_key@ == self.api_key()
        &&& request.body@ == body
        &&& request.signature@ == signature_text(
            self.api_secret(),
            self.api_key(),
            request.timestamp as nat,
            body,
        )
    }

    /// A client for the account with the given key and secret.
    pub fn new(key: String, secret: String) -> (bybit: Bybit)
        ensures
            bybit.api_key() == key@,
            bybit.api_secret() == secret@,
    {
        Bybit { api_key: key, api_secret: secret }
    }

    /// Signs a request body for the given time, in milliseconds since the
    /// Unix epoch. The signature has 64 characters.
    pub fn sign(&self, request_body: &str, timestamp: u128) -> (signature: String)
        ensures
            signature@ == signature_text(
                self.api_secret(),
                self.api_key(),
                timestamp as nat,
                request_body@,
            ),
            signature@.len() == 64,
    {
        let mut context = String::new();
        push_decimal(&mut context, timestamp);
        context.append(self.api_key.as_str());
        context.append(RECV_WINDOW);
        context.append(request_body);
        assert(context@ =~= signing_payload(timestamp as nat, self.api_key(), request_body@));
        let code = compute_hmac_sha256(
            self.api_secret.as_str().as_bytes(),
            context.as_str().as_bytes(),
        );
        to_hex(code.as_slice())
    }

    /// The signed request that carries `request_body` to `url` at `timestamp`.
    pub fn signed_request(&self, request_body: String, url: &str, timestamp: u128) -> (request:
        SignedRequest)
        ensures
            self.is_request_for(request, request_body@, url@),
            request.timestamp == timestamp,
    {
        let signature = self.sign(request_body.as_str(), timestamp);
        SignedRequest {
            url: url.to_owned(),
            api_key: self.api_key.clone(),
            signature,
            timestamp,
            body: request_body,
        }
    }

    /// The signed request that carries `request_body` to `url`, stamped with
    /// the clock's reading `clock`, or `None` where the clock gave none.
    pub fn stamped_request(&self, clock: Option<u128>, request_body: String, url: &str) -> (request:
        Option<SignedRequest>)
        ensures
            match clock {
                Some(timestamp) => request is Some && self.is_request_for(
                    request.unwrap(),
                    request_body@,
                    url@,
                ) && request.unwrap().timestamp == timestamp,
                None => request is None,
            },
    {
        match clock {
            Some(timestamp) => Some(self.signed_request(request_body, url, timestamp)),
            None => None,
        }
    }

    /// The query for the account's asset information, as of `timestamp`. Its
    /// body is the empty JSON object.
    pub fn asset_info_request(&self, timestamp: u128) -> (request: SignedRequest)
        ensures
            self.is_request_for(request, "{}"@, ASSET_INFO_URL@),
            request.timestamp == timestamp,
    {
        self.signed_request("{}".to_owned(), ASSET_INFO_URL, timestamp)
    }

    /// The market order for `quantity` of `symbol` on the given side, as of
    /// `timestamp`.
    pub fn market_order_request(
        &self,
        symbol: &str,
        side: &str,
        quantity: Decimal,
        timestamp: u128,
    ) -> (request: SignedRequest)
        ensures
            self.is_request_for(
                request,
                market_order_body(symbol@, side@, quantity@),
                PLACE_ORDER_URL@,
            ),
            request.timestamp == timestamp,
    {
        let request_body = market_order_text(symbol, side, quantity);
        self.signed_request(request_body, PLACE_ORDER_URL, timestamp)
    }

    /// The query for the order `order_id` among the perpetual orders, as of
    /// `timestamp`.
    pub fn order_query_request(&self, order_id: &str, timestamp: u128) -> (request: SignedRequest)
        ensures
            self.is_request_for(request, order_query_body(order_id@), ORDER_HISTORY_URL@),
            request.timestamp == timestamp,
    {
        let request_body = order_query_text(order_id);
        self.signed_request(request_body, ORDER_HISTORY_URL, timestamp)
    }

    /// The query for the account's asset information, stamped with the system
    /// clock's time, or `None` where the clock stands before the Unix epoch.
    pub fn query_asset_info(&self) -> (request: Option<SignedRequest>)
        ensures
            request is Some ==> self.is_request_for(request.unwrap(), "{}"@, ASSET_INFO_URL@),
    {
        self.stamped_request(get_unix_epoch_millis(), "{}".to_owned(), ASSET_INFO_URL)
    }

    /// The market order for `quantity` of `symbol` on the given side, stamped
    /// with the system clock's time, or `None` where the clock stands before
    /// the Unix epoch.
    pub fn place_market_order_on_perpetual(&self, symbol: &str, side: &str, quantity: Decimal) -> (request:
        Option<SignedRequest>)
        ensures
            request is Some ==> self.is_request_for(
                request.unwrap(),
                market_order_body(symbol@, side@, quantity@),
                PLACE_ORDER_URL@,
            ),
    {
        let request_body = market_order_text(symbol, side, quantity);
        self.stamped_request(get_unix_epoch_millis(), request_body, PLACE_ORDER_URL)
    }

    /// The query for the order `order_id`, stamped with the system clock's
    /// time, or `None` where the clock stands before the Unix epoch.
    pub fn query_perpetual_order(&self, order_id: &str) -> (request: Option<SignedRequest>)
        ensures
            request is Some ==> self.is_request_for(
                request.unwrap(),
                order_query_body(order_id@),
                ORDER_HISTORY_URL@,
            ),
    {
        let request_body = order_query_text(order_id);
        self.stamped_request(get_unix_epoch_millis(), request_body, ORDER_HISTORY_URL)
    }
}

/// The body of a market order as JSON text.
pub fn market_order_text(symbol: &str, side: &str, quantity: Decimal) -> (text: String)
    ensures
        text@ == market_order_body(symbol@, side@, quantity@),
{
    let mut parameters: Vec<(String, String)> = Vec::new();
    parameters.push(("symbol".to_owned(), symbol.to_owned()));
    parameters.push(("orderType".to_owned(), "Market".to_owned()));
    parameters.push(("orderFilter".to_owned(), "Order".to_owned()));
    parameters.push(("side".to_owned(), side.to_owned()));
    parameters.push(("orderQty".to_owned(), quantity.to_text()));
    assert(pairs_view(parameters@) =~= seq![
        ("symbol"@, symbol@),
        ("orderType"@, "Market"@),
        ("orderFilter"@, "Order"@),
        ("side"@, side@),
        ("orderQty"@, quantity@.text()),
    ]);
    write_json_object(&parameters)
}

/// The body of a query for one perpetual order as JSON text.
pub fn order_query_text(order_id: &str) -> (text: String)
    ensures
        text@ == order_query_body(order_id@),
{
    let mut parameters: Vec<(String, String)> = Vec::new();
    parameters.push(("category".to_owned(), "PERPETUAL".to_owned()));
    parameters.push(("orderId".to_owned(), order_id.to_owned()));
    assert(pairs_view(parameters@) =~= seq![
        ("category"@, "PERPETUAL"@),
        ("orderId"@, order_id@),
    ]);
    write_json_object(&parameters)
}

/// The signature is a function of what is signed: the same secret, key,
/// timestamp and body give the same signature.
pub proof fn lemma_signature_deterministic(
    secret_a: Seq<char>,
    key_a: Seq<char>,
    timestamp_a: nat,
    body_a: Seq<char>,
    secret_b: Seq<char>,
    key_b: Seq<char>,
    timestamp_b: nat,
    body_b: Seq<char>,
)
    requires
        secret_a == secret_b,
        key_a == key_b,
        timestamp_a == timestamp_b,
        body_a == body_b,
    ensures
        signature_text(secret_a, key_a, timestamp_a, body_a) == signature_text(
            secret_b,
            key_b,
            timestamp_b,
            body_b,
        ),
{
}

/// Two signatures are the same text exactly when the two codes under them
/// are the same bytes.
pub proof fn lemma_signature_follows_code(
    secret_a: Seq<char>,
    key_a: Seq<char>,
    timestamp_a: nat,
    body_a: Seq<char>,
    secret_b: Seq<char>,
    key_b: Seq<char>,
    timestamp_b: nat,
    body_b: Seq<char>,
)
    ensures
        signature_text(secret_a, key_a, timestamp_a, body_a) == signature_text(
            secret_b,
            key_b,
            timestamp_b,
            body_b,
        ) <==> hmac_sha256(
            encode_utf8(secret_a),
            encode_utf8(signing_payload(timestamp_a, key_a, body_a)),
        ) == hmac_sha256(
            encode_utf8(secret_b),
            encode_utf8(signing_payload(timestamp_b, key_b, body_b)),
        ),
{
    let code_a = hmac_sha256(
        encode_utf8(secret_a),
        encode_utf8(signing_payload(timestamp_a, key_a, body_a)),
    );
    let code_b = hmac_sha256(
        encode_utf8(secret_b),
        encode_utf8(signing_payload(timestamp_b, key_b, body_b)),
    );
    if hex_encode(code_a) == hex_encode(code_b) {
        lemma_hex_encode_injective(code_a, code_b);
    }
}

/// A change of the timestamp alone, of the key alone or of the body alone
/// changes what is signed: two payloads that agree, made from inputs of which
/// at most one differs, are made from the same inputs.
pub proof fn lemma_payload_tells_inputs_apart(
    timestamp_a: nat,
    key_a: Seq<char>,
    body_a: Seq<char>,
    timestamp_b: nat,
    key_b: Seq<char>,
    body_b: Seq<char>,
)
    requires
        signing_payload(timestamp_a, key_a, body_a) == signing_payload(
            timestamp_b,
            key_b,
            body_b,
        ),
        (timestamp_a == timestamp_b && key_a == key_b) || (timestamp_a == timestamp_b && body_a
            == body_b) || (key_a == key_b && body_a == body_b),
    ensures
        timestamp_a == timestamp_b,
        key_a == key_b,
        body_a == body_b,
{
    let stamp_a = decimal_digits(timestamp_a);
    let stamp_b = decimal_digits(timestamp_b);
    let window = RECV_WINDOW@;
    let payload_a = signing_payload(timestamp_a, key_a, body_a);
    let payload_b = signing_payload(timestamp_b, key_b, body_b);
    assert(payload_a.len() == stamp_a.len() + key_a.len() + window.len() + body_a.len());
    assert(payload_b.len() == stamp_b.len() + key_b.len() + window.len() + body_b.len());
    if timestamp_a == timestamp_b && key_a == key_b {
        let head = stamp_a.len() + key_a.len() + window.len();
        assert(body_a =~= payload_a.subrange(head as int, payload_a.len() as int));
        assert(body_b =~= payload_b.subrange(head as int, payload_b.len() as int));
    } else if timestamp_a == timestamp_b && body_a == body_b {
        assert(key_a.len() == key_b.len());
        let from = stamp_a.len() as int;
        assert(key_a =~= payload_a.subrange(from, from + key_a.len()));
        assert(key_b =~= payload_b.subrange(from, from + key_b.len()));
    } else {
        assert(stamp_a.len() == stamp_b.len());
        assert(stamp_a =~= payload_a.subrange(0, stamp_a.len() as int));
        assert(stamp_b =~= payload_b.subrange(0, stamp_b.len() as int));
        lemma_decimal_digits_injective(timestamp_a, timestamp_b);
    }
}

} // verus!
