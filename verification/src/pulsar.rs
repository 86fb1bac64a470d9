//! The internal Pulsar qualification endpoint (`POST /api/v1/pulsar/leads`):
//! request dispatch, identifiers and the answers to ping, post and
//! fullpost requests.

use vstd::prelude::*;
use crate::codec::{random_bytes, random_u32, uuid_parse, uuid_parsed};
use crate::leads::{hex_upper_text, prefixed_hex_id};
use crate::text::opt_view;
use crate::text::{concat3, str_eq, to_lowercase, unicode_lower};

verus! {

broadcast use vstd::string::group_string_axioms;

/// The answer of the Pulsar endpoint.
pub struct PulsarResponse {
    pub success: bool,
    pub status: String,
    pub ping_id: Option<String>,
    pub post_id: Option<String>,
    pub promise_id: Option<String>,
    pub price: Option<u32>,
    pub message: Option<String>,
    pub error: Option<String>,
    pub reason: Option<String>,
}

/// Which handler a Pulsar request goes to.
#[derive(PartialEq, Eq, Structural)]
pub enum PulsarRoute {
    Ping,
    Post,
    FullPost,
    Invalid,
}

/// Dispatches on the lower-cased request type ("ping" when absent).
pub fn route_pulsar(request_type: Option<&str>) -> (r: PulsarRoute)
    ensures
        ({
            let t = unicode_lower(
                match request_type {
                    Some(s) => s@,
                    None => "ping"@,
                },
            );
            r == if t == "ping"@ {
                PulsarRoute::Ping
            } else if t == "post"@ {
                PulsarRoute::Post
            } else if t == "fullpost"@ {
                PulsarRoute::FullPost
            } else {
                PulsarRoute::Invalid
            }
        }),
{
    let t = match request_type {
        Some(s) => to_lowercase(s),
        None => to_lowercase("ping"),
    };
    if str_eq(t.as_str(), "ping") {
        PulsarRoute::Ping
    } else if str_eq(t.as_str(), "post") {
        PulsarRoute::Post
    } else if str_eq(t.as_str(), "fullpost") {
        PulsarRoute::FullPost
    } else {
        PulsarRoute::Invalid
    }
}

/// The buyer id from the internal `X-Internal-Buyer-ID` header, when present
/// and a UUID; a request without it is refused.
pub fn internal_buyer_id(header: Option<&str>) -> (r: Option<u128>)
    ensures
        r == match header {
            Some(h) => uuid_parsed(h@),
            None => None,
        },
{
    match header {
        Some(h) => uuid_parse(h),
        None => None,
    }
}

/// The answer to a request type other than ping, post or fullpost.
pub fn invalid_request_type_response() -> (r: PulsarResponse)
    ensures
        !r.success,
        r.status@ == "rejected"@,
        r.ping_id is None && r.post_id is None && r.promise_id is None && r.price is None,
        r.message is None && r.reason is None,
        opt_view(r.error) == Some(
            "Invalid request_type. Must be 'ping', 'post', or 'fullpost'"@,
        ),
{
    PulsarResponse {
        success: false,
        status: String::from_str("rejected"),
        ping_id: None,
        post_id: None,
        promise_id: None,
        price: None,
        message: None,
        error: Some(String::from_str("Invalid request_type. Must be 'ping', 'post', or 'fullpost'")),
        reason: None,
    }
}

/// A price between 100 and 299 drawn from a random number.
pub open spec fn price_from(r: u32) -> u32 {
    (r % 200 + 100) as u32
}

/// The price drawn from a random number: `r % 200 + 100`.
pub fn pulsar_price(r: u32) -> (p: u32)
    ensures
        p == price_from(r),
        100 <= p < 300,
{
    r % 200 + 100
}

/// The answer to an accepted ping, with the ping id, promise id and price
/// made from the given random material.
pub fn ping_accepted_response(ping_bytes: &[u8; 8], promise_bytes: &[u8; 6], price_random: u32) -> (r:
    PulsarResponse)
    ensures
        r.success,
        r.status@ == "accepted"@,
        opt_view(r.ping_id) == Some("PING_"@ + hex_upper_text(ping_bytes@)),
        opt_view(r.promise_id) == Some("PROMISE_"@ + hex_upper_text(promise_bytes@)),
        r.post_id is None,
        r.price == Some(price_from(price_random)),
        opt_view(r.message) == Some("Lead accepted for ping"@),
        r.error is None && r.reason is None,
{
    PulsarResponse {
        success: true,
        status: String::from_str("accepted"),
        ping_id: Some(prefixed_hex_id("PING_", ping_bytes)),
        post_id: None,
        promise_id: Some(prefixed_hex_id("PROMISE_", promise_bytes)),
        price: Some(pulsar_price(price_random)),
        message: Some(String::from_str("Lead accepted for ping")),
        error: None,
        reason: None,
    }
}

fn bytes8() -> (r: [u8; 8]) {
    let v = random_bytes(8);
    [v[0], v[1], v[2], v[3], v[4], v[5], v[6], v[7]]
}

fn bytes6() -> (r: [u8; 6]) {
    let v = random_bytes(6);
    [v[0], v[1], v[2], v[3], v[4], v[5]]
}

/// The outcome of a ping: the answer, and the ping id and price written to
/// the decision log (a second random draw, as the answer's price is).
pub struct PingOutcome {
    pub response: PulsarResponse,
    pub ping_id: String,
    pub logged_price: i32,
}

/// Handles a ping: every ping is accepted with fresh ids and a price
/// between 100 and 299; the decision log gets its own price in that range.
pub fn handle_ping() -> (r: PingOutcome)
    ensures
        r.response.success,
        r.response.status@ == "accepted"@,
        opt_view(r.response.ping_id) == Some(r.ping_id@),
        exists|b: Seq<u8>| b.len() == 8 && r.ping_id@ == "PING_"@ + hex_upper_text(b),
        exists|b: Seq<u8>|
            b.len() == 6 && opt_view(r.response.promise_id) == Some("PROMISE_"@ + hex_upper_text(b)),
        r.response.price matches Some(p) && 100 <= p < 300,
        100 <= r.logged_price < 300,
{
    let ping = bytes8();
    let promise = bytes6();
    let logged = pulsar_price(random_u32());
    let response = ping_accepted_response(&ping, &promise, random_u32());
    let ping_id = prefixed_hex_id("PING_", &ping);
    PingOutcome { response, ping_id, logged_price: logged as i32 }
}

/// The answer to a post whose promise id was already used for a sold lead.
pub fn promise_reused_response(promise_id: String) -> (r: PulsarResponse)
    ensures
        !r.success,
        r.status@ == "rejected"@,
        opt_view(r.promise_id) == Some(promise_id@),
        r.ping_id is None && r.post_id is None && r.price is None && r.reason is None,
        opt_view(r.message) == Some(
            "The promise_id '"@ + promise_id@ + "' was already used for a sold lead and cannot be reused."@,
        ),
        opt_view(r.error) == Some("This promise_id has already been used"@),
{
    let message = concat3(
        "The promise_id '",
        promise_id.as_str(),
        "' was already used for a sold lead and cannot be reused.",
    );
    PulsarResponse {
        success: false,
        status: String::from_str("rejected"),
        ping_id: None,
        post_id: None,
        promise_id: Some(promise_id),
        price: None,
        message: Some(message),
        error: Some(String::from_str("This promise_id has already been used")),
        reason: None,
    }
}

/// The answer to a sold post, with the post id and price made from the
/// given random material.
pub fn post_sold_response(promise_id: String, post_bytes: &[u8; 8], price_random: u32) -> (r:
    PulsarResponse)
    ensures
        r.success,
        r.status@ == "sold"@,
        opt_view(r.promise_id) == Some(promise_id@),
        opt_view(r.post_id) == Some("POST_"@ + hex_upper_text(post_bytes@)),
        r.ping_id is None,
        r.price == Some(price_from(price_random)),
        opt_view(r.message) == Some("Lead accepted and sold"@),
        r.error is None && r.reason is None,
{
    PulsarResponse {
        success: true,
        status: String::from_str("sold"),
        ping_id: None,
        post_id: Some(prefixed_hex_id("POST_", post_bytes)),
        promise_id: Some(promise_id),
        price: Some(pulsar_price(price_random)),
        message: Some(String::from_str("Lead accepted and sold")),
        error: None,
        reason: None,
    }
}

/// The outcome of a post whose promise id has not been used yet: the
/// answer and the price written to the decision log.
pub struct PostOutcome {
    pub response: PulsarResponse,
    pub logged_price: i32,
}

/// Handles a post once the store has said whether its promise id was
/// already used for a sold lead: a reused promise is rejected, any other
/// post is sold with a fresh post id and a price between 100 and 299.
pub fn handle_post(promise_id: String, already_sold: bool) -> (r: PostOutcome)
    ensures
        already_sold ==> !r.response.success && r.response.status@ == "rejected"@,
        already_sold ==> opt_view(r.response.message) == Some(
            "The promise_id '"@ + promise_id@ + "' was already used for a sold lead and cannot be reused."@,
        ) && opt_view(r.response.error) == Some("This promise_id has already been used"@)
            && r.response.ping_id is None && r.response.post_id is None && r.response.price is None
            && r.response.reason is None,
        !already_sold ==> r.response.success && r.response.status@ == "sold"@ && (
        r.response.price matches Some(p) && 100 <= p < 300),
        !already_sold ==> r.response.ping_id is None && opt_view(r.response.message) == Some(
            "Lead accepted and sold"@,
        ) && r.response.error is None && r.response.reason is None && exists|b: Seq<u8>|
            b.len() == 8 && opt_view(r.response.post_id) == Some("POST_"@ + hex_upper_text(b)),
        opt_view(r.response.promise_id) == Some(promise_id@),
        100 <= r.logged_price < 300,
{
    let logged = pulsar_price(random_u32());
    if already_sold {
        PostOutcome { response: promise_reused_response(promise_id), logged_price: logged as i32 }
    } else {
        let post = bytes8();
        PostOutcome {
            response: post_sold_response(promise_id, &post, random_u32()),
            logged_price: logged as i32,
        }
    }
}

/// The answer to a fullpost, with all identifiers and the price made from
/// the given random material.
pub fn fullpost_response(
    ping_bytes: &[u8; 8],
    post_bytes: &[u8; 8],
    promise_bytes: &[u8; 6],
    price_random: u32,
) -> (r: PulsarResponse)
    ensures
        r.success,
        r.status@ == "sold"@,
        opt_view(r.ping_id) == Some("PING_"@ + hex_upper_text(ping_bytes@)),
        opt_view(r.post_id) == Some("POST_"@ + hex_upper_text(post_bytes@)),
        opt_view(r.promise_id) == Some("PROMISE_"@ + hex_upper_text(promise_bytes@)),
        r.price == Some(price_from(price_random)),
        opt_view(r.message) == Some("Lead accepted and sold via fullpost"@),
        r.error is None && r.reason is None,
{
    PulsarResponse {
        success: true,
        status: String::from_str("sold"),
        ping_id: Some(prefixed_hex_id("PING_", ping_bytes)),
        post_id: Some(prefixed_hex_id("POST_", post_bytes)),
        promise_id: Some(prefixed_hex_id("PROMISE_", promise_bytes)),
        price: Some(pulsar_price(price_random)),
        message: Some(String::from_str("Lead accepted and sold via fullpost")),
        error: None,
        reason: None,
    }
}

/// Handles a fullpost: sold at once with fresh identifiers and a price
/// between 100 and 299.
pub fn handle_fullpost() -> (r: PulsarResponse)
    ensures
        r.success,
        r.status@ == "sold"@,
        r.price matches Some(p) && 100 <= p < 300,
        exists|b: Seq<u8>| b.len() == 8 && opt_view(r.ping_id) == Some("PING_"@ + hex_upper_text(b)),
        exists|b: Seq<u8>| b.len() == 8 && opt_view(r.post_id) == Some("POST_"@ + hex_upper_text(b)),
        exists|b: Seq<u8>|
            b.len() == 6 && opt_view(r.promise_id) == Some("PROMISE_"@ + hex_upper_text(b)),
        opt_view(r.message) == Some("Lead accepted and sold via fullpost"@),
        r.error is None && r.reason is None,
{
    let ping = bytes8();
    let post = bytes8();
    let promise = bytes6();
    fullpost_response(&ping, &post, &promise, random_u32())
}

} // verus!
