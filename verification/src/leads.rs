//! Lead submission (`POST /api/v1/leads`): the decisions that the handler
//! takes around its database and routing calls.

use vstd::prelude::*;
use crate::codec::{
    hex_encode, hex_lower, new_uuid_v4, random_alphanumeric, random_bytes, uuid_parse, uuid_parsed,
    uuid_text, uuid_to_string,
};
use crate::text::{
    ascii_lower, ascii_upper, chars_of, concat2, contains, contains_seq, decimal, is_ascii_seq, join,
    join_chars, str_eq,
    string_of, to_ascii_upper, to_lowercase, to_uppercase, u64_to_decimal, unicode_lower,
    unicode_upper, opt_view,
};

verus! {

broadcast use vstd::string::group_string_axioms;

pub open spec fn msg_missing_timestamp() -> Seq<char> {
    "Server misconfiguration: required lead timestamp is missing. Contact the site administrator."@
}

pub open spec fn msg_no_buyer() -> Seq<char> {
    "No buyer configured for this publisher/vertical"@
}

pub open spec fn msg_no_campaign() -> Seq<char> {
    "No campaign configured for this publisher/vertical"@
}

pub open spec fn msg_missing_post_id() -> Seq<char> {
    "Post could not be created: required post identifier missing"@
}

pub open spec fn msg_permission() -> Seq<char> {
    "Server permission error. Contact the administrator."@
}

pub open spec fn msg_schema_mismatch() -> Seq<char> {
    "Server configuration error: database schema mismatch. Contact the administrator."@
}

pub open spec fn msg_required_data() -> Seq<char> {
    "Required data missing for this operation. Contact support or try again later."@
}

pub open spec fn msg_internal() -> Seq<char> {
    "An internal server error occurred. Contact support if the problem persists."@
}

pub open spec fn db_error_prefix() -> Seq<char> {
    "error returned from database: "@
}

/// `line` when `cond` holds, nothing otherwise.
pub open spec fn line_if(cond: bool, line: Seq<char>) -> Seq<Seq<char>> {
    if cond {
        seq![line]
    } else {
        Seq::empty()
    }
}

/// The problems recognised in a lower-cased database error text, in the
/// order in which they are reported, before the generic fallbacks.
pub open spec fn specific_problems(lower: Seq<char>) -> Seq<Seq<char>> {
    line_if(contains_seq(lower, "submitted_at"@), msg_missing_timestamp())
        + line_if(contains_seq(lower, "buyer_id"@), msg_no_buyer())
        + line_if(contains_seq(lower, "campaign_id"@), msg_no_campaign())
        + line_if(contains_seq(lower, "post_id"@), msg_missing_post_id())
        + line_if(
        contains_seq(lower, "permission denied"@) || contains_seq(lower, "permission"@),
        msg_permission(),
    ) + line_if(
        contains_seq(lower, "column"@) && contains_seq(lower, "publisher_id"@) && contains_seq(
            lower,
            "does not exist"@,
        ),
        msg_schema_mismatch(),
    )
}

/// All problem lines reported for a lower-cased error text: the specific
/// ones; else the not-null line when the text speaks of a null value; else
/// the generic internal-error line.
pub open spec fn problem_lines(lower: Seq<char>) -> Seq<Seq<char>> {
    let specific = specific_problems(lower);
    let with_null = if specific.len() == 0 && (contains_seq(
        lower,
        "violates not-null constraint"@,
    ) || contains_seq(lower, "null value"@)) {
        seq![msg_required_data()]
    } else {
        specific
    };
    if with_null.len() == 0 {
        seq![msg_internal()]
    } else {
        with_null
    }
}

fn push_line_if(lines: &mut Vec<Vec<char>>, cond: bool, line: &str)
    ensures
        final(lines)@.map_values(|p: Vec<char>| p@) == old(lines)@.map_values(
            |p: Vec<char>| p@,
        ) + line_if(cond, line@),
{
    let ghost before = lines@.map_values(|p: Vec<char>| p@);
    if cond {
        lines.push(chars_of(line));
        assert(lines@.map_values(|p: Vec<char>| p@) =~= before + seq![line@]);
    } else {
        assert(lines@.map_values(|p: Vec<char>| p@) =~= before + Seq::<Seq<char>>::empty());
    }
}

/// Turns a database error text into a message for the user and a technical
/// message: the user message lists, one per line, the problems that the
/// lower-cased text reveals (see `problem_lines`); the technical message is
/// the text behind a fixed prefix.
pub fn map_error_to_user(err_text: &str) -> (r: (String, String))
    ensures
        r.0@ == join(problem_lines(unicode_lower(err_text@)), "\n"@),
        is_ascii_seq(err_text@) ==> r.0@ == join(problem_lines(ascii_lower(err_text@)), "\n"@),
        r.1@ == db_error_prefix() + err_text@,
{
    let lower_s = to_lowercase(err_text);
    let lower = chars_of(lower_s.as_str());
    let ghost l = unicode_lower(err_text@);
    let mut problems: Vec<Vec<char>> = Vec::new();
    assert(problems@.map_values(|p: Vec<char>| p@) =~= Seq::<Seq<char>>::empty());
    let c = contains(&lower, &chars_of("submitted_at"));
    push_line_if(
        &mut problems,
        c,
        "Server misconfiguration: required lead timestamp is missing. Contact the site administrator.",
    );
    let c = contains(&lower, &chars_of("buyer_id"));
    push_line_if(&mut problems, c, "No buyer configured for this publisher/vertical");
    let c = contains(&lower, &chars_of("campaign_id"));
    push_line_if(&mut problems, c, "No campaign configured for this publisher/vertical");
    let c = contains(&lower, &chars_of("post_id"));
    push_line_if(&mut problems, c, "Post could not be created: required post identifier missing");
    let c = contains(&lower, &chars_of("permission denied")) || contains(
        &lower,
        &chars_of("permission"),
    );
    push_line_if(&mut problems, c, "Server permission error. Contact the administrator.");
    let c = contains(&lower, &chars_of("column")) && contains(&lower, &chars_of("publisher_id"))
        && contains(&lower, &chars_of("does not exist"));
    push_line_if(
        &mut problems,
        c,
        "Server configuration error: database schema mismatch. Contact the administrator.",
    );
    assert(problems@.map_values(|p: Vec<char>| p@) =~= specific_problems(l));
    let null_hint = contains(&lower, &chars_of("violates not-null constraint")) || contains(
        &lower,
        &chars_of("null value"),
    );
    if null_hint && problems.len() == 0 {
        problems.push(
            chars_of(
                "Required data missing for this operation. Contact support or try again later.",
            ),
        );
    }
    if problems.len() == 0 {
        problems.push(
            chars_of("An internal server error occurred. Contact support if the problem persists."),
        );
    }
    assert(problems@.map_values(|p: Vec<char>| p@) =~= problem_lines(l));
    let friendly = join_chars(&problems, &chars_of("\n"));
    let mut technical = String::from_str("error returned from database: ");
    technical.append(err_text);
    (string_of(&friendly), technical)
}

/// The `status` part of a lead response.
pub struct StatusNode {
    pub success: bool,
    pub status: String,
    pub message: Option<String>,
    pub error: Option<String>,
}

/// A failed status node: `success` false and `status` "error".
pub fn error_status(message: Option<String>, error: Option<String>) -> (r: StatusNode)
    ensures
        !r.success,
        r.status@ == "error"@,
        opt_view(r.message) == opt_view(message),
        opt_view(r.error) == opt_view(error),
{
    StatusNode { success: false, status: String::from_str("error"), message, error }
}

/// The request type of a submission: the given one lower-cased, "ping"
/// when none is given.
pub fn normalize_request_type(raw: Option<&str>) -> (r: String)
    ensures
        r@ == unicode_lower(
            match raw {
                Some(t) => t@,
                None => "ping"@,
            },
        ),
{
    match raw {
        Some(t) => to_lowercase(t),
        None => to_lowercase("ping"),
    }
}

/// The routing strategy stored with a new lead: "fullPost" for a fullpost
/// request, "pingPost" for everything else.
pub fn strategy_for(request_type: &str) -> (r: &'static str)
    ensures
        r@ == (if request_type@ == "fullpost"@ {
            "fullPost"@
        } else {
            "pingPost"@
        }),
{
    if str_eq(request_type, "fullpost") {
        "fullPost"
    } else {
        "pingPost"
    }
}

/// Whether a query parameter is set to exactly "true".
pub fn query_flag(value: Option<&str>) -> (r: bool)
    ensures
        r == (value matches Some(v) && v@ == "true"@),
{
    match value {
        Some(v) => str_eq(v, "true"),
        None => false,
    }
}

/// Whether the response carries verbose details. A top-level `verbose`
/// takes precedence (and is switched off in minimal mode); only when it is
/// absent does the lead-level flag count.
pub fn verbose_requested(top_level: Option<bool>, lead_level: Option<bool>, minimal: bool) -> (r:
    bool)
    ensures
        top_level is Some ==> r == (!minimal && top_level->0),
        top_level is None ==> r == (lead_level == Some(true)),
{
    match top_level {
        Some(v) => !minimal && v,
        None => match lead_level {
            Some(l) => l,
            None => false,
        },
    }
}

/// How a `publisher_id` given in the request body compares with the
/// publisher that the API key authenticated.
pub enum PublisherIdCheck {
    /// No id was given, or it names the authenticated publisher.
    Accepted,
    /// The id names another publisher.
    Mismatch,
    /// The id is not a UUID.
    InvalidFormat,
}

/// Compares a body `publisher_id` with the authenticated publisher.
pub fn check_publisher_id(provided: Option<&str>, authenticated: u128) -> (r: PublisherIdCheck)
    ensures
        match provided {
            None => r is Accepted,
            Some(p) => match uuid_parsed(p@) {
                None => r is InvalidFormat,
                Some(u) => if u == authenticated {
                    r is Accepted
                } else {
                    r is Mismatch
                },
            },
        },
{
    match provided {
        None => PublisherIdCheck::Accepted,
        Some(p) => match uuid_parse(p) {
            None => PublisherIdCheck::InvalidFormat,
            Some(u) => if u == authenticated {
                PublisherIdCheck::Accepted
            } else {
                PublisherIdCheck::Mismatch
            },
        },
    }
}

/// What the pre-insert configuration checks found.
pub enum PrecheckOutcome {
    /// The combined query returned a row.
    Found { campaign_id: Option<u128>, buyer_id: Option<u128> },
    /// The combined query returned no row; the fallback buyer lookup
    /// found this buyer.
    FallbackBuyer { buyer: u128 },
    /// Neither query found a buyer.
    NoBuyer,
    /// The fallback buyer lookup failed.
    FallbackFailed,
    /// The combined query failed.
    QueryFailed,
}

/// What the handler does after the pre-insert checks.
pub enum PrecheckDecision {
    /// Create the lead for this buyer and campaign.
    Proceed { buyer_id: u128, campaign_id: u128 },
    /// Reject with these problem lines.
    Reject { problems: Vec<String> },
}

pub open spec fn problems_view(v: Seq<String>) -> Seq<Seq<char>> {
    v.map_values(|s: String| s@)
}

pub open spec fn msg_buyer_check_failed() -> Seq<char> {
    "Failed to verify buyers due to server error"@
}

pub open spec fn msg_config_check_failed() -> Seq<char> {
    "Failed to verify configuration due to server error"@
}

/// Problem lines of the pre-insert checks, in the order they are reported.
/// A missing campaign is reported when a campaign token was given, and
/// whenever a buyer was found without one: a lead is never created
/// without a campaign.
pub open spec fn precheck_problems(outcome: PrecheckOutcome, token_given: bool) -> Seq<Seq<char>> {
    match outcome {
        PrecheckOutcome::Found { campaign_id, buyer_id } => line_if(
            campaign_id is None && (token_given || buyer_id is Some),
            msg_no_campaign(),
        ) + line_if(buyer_id is None, msg_no_buyer()),
        PrecheckOutcome::FallbackBuyer { .. } => seq![msg_no_campaign()],
        PrecheckOutcome::NoBuyer => seq![msg_no_buyer()] + line_if(token_given, msg_no_campaign()),
        PrecheckOutcome::FallbackFailed => seq![msg_buyer_check_failed()] + line_if(
            token_given,
            msg_no_campaign(),
        ),
        PrecheckOutcome::QueryFailed => seq![msg_config_check_failed()],
    }
}

/// The buyer and campaign that the pre-insert checks settle on.
pub open spec fn precheck_ids(outcome: PrecheckOutcome) -> (Option<u128>, Option<u128>) {
    match outcome {
        PrecheckOutcome::Found { campaign_id, buyer_id } => (buyer_id, campaign_id),
        PrecheckOutcome::FallbackBuyer { buyer } => (Some(buyer), None),
        _ => (None, None),
    }
}

fn push_str_if(lines: &mut Vec<String>, cond: bool, line: &str)
    ensures
        problems_view(final(lines)@) == problems_view(old(lines)@) + line_if(cond, line@),
{
    let ghost before = problems_view(lines@);
    if cond {
        lines.push(String::from_str(line));
        assert(problems_view(lines@) =~= before + seq![line@]);
    } else {
        assert(problems_view(lines@) =~= before + Seq::<Seq<char>>::empty());
    }
}

/// Decides on the outcome of the pre-insert checks: reject with the
/// problem lines when there are any; otherwise proceed with the buyer and
/// campaign found.
pub fn decide_prechecks(outcome: PrecheckOutcome, token_given: bool) -> (r: PrecheckDecision)
    ensures
        precheck_problems(outcome, token_given).len() > 0 ==> (r matches PrecheckDecision::Reject {
            problems,
        } && problems_view(problems@) == precheck_problems(outcome, token_given)),
        precheck_problems(outcome, token_given).len() == 0 ==> match precheck_ids(outcome) {
            (Some(b), Some(c)) => r == PrecheckDecision::Proceed { buyer_id: b, campaign_id: c },
            _ => false,
        },
{
    let mut problems: Vec<String> = Vec::new();
    assert(problems_view(problems@) =~= Seq::<Seq<char>>::empty());
    let mut buyer: Option<u128> = None;
    let mut campaign: Option<u128> = None;
    match outcome {
        PrecheckOutcome::Found { campaign_id, buyer_id } => {
            campaign = campaign_id;
            buyer = buyer_id;
            push_str_if(
                &mut problems,
                campaign_id.is_none() && (token_given || buyer_id.is_some()),
                "No campaign configured for this publisher/vertical",
            );
            push_str_if(
                &mut problems,
                buyer_id.is_none(),
                "No buyer configured for this publisher/vertical",
            );
        },
        PrecheckOutcome::FallbackBuyer { buyer: b } => {
            buyer = Some(b);
            push_str_if(&mut problems, true, "No campaign configured for this publisher/vertical");
        },
        PrecheckOutcome::NoBuyer => {
            push_str_if(&mut problems, true, "No buyer configured for this publisher/vertical");
            push_str_if(
                &mut problems,
                token_given,
                "No campaign configured for this publisher/vertical",
            );
        },
        PrecheckOutcome::FallbackFailed => {
            push_str_if(&mut problems, true, "Failed to verify buyers due to server error");
            push_str_if(
                &mut problems,
                token_given,
                "No campaign configured for this publisher/vertical",
            );
        },
        PrecheckOutcome::QueryFailed => {
            push_str_if(
                &mut problems,
                true,
                "Failed to verify configuration due to server error",
            );
        },
    }
    if problems.len() > 0 {
        return PrecheckDecision::Reject { problems };
    }
    match (buyer, campaign) {
        (Some(b), Some(c)) => PrecheckDecision::Proceed { buyer_id: b, campaign_id: c },
        _ => {
            assert(false);
            PrecheckDecision::Reject { problems }
        },
    }
}

/// The message and technical error of a pre-check rejection: the problem
/// lines one per line, and the same lines comma-separated behind a prefix.
pub fn precheck_rejection(problems: &Vec<String>) -> (r: (String, String))
    ensures
        r.0@ == join(problems_view(problems@), "\n"@),
        r.1@ == "pre-check failures: "@ + join(problems_view(problems@), ", "@),
{
    let mut lines: Vec<Vec<char>> = Vec::new();
    let n = problems.len();
    for i in 0..n
        invariant
            n == problems@.len(),
            lines@.map_values(|p: Vec<char>| p@) == problems_view(problems@).take(i as int),
    {
        let c = chars_of(problems[i].as_str());
        assert(c@ == problems@[i as int]@);
        let ghost prev = lines@;
        lines.push(c);
        assert(problems_view(problems@)[i as int] == problems@[i as int]@);
        assert(problems_view(problems@).take(i + 1) =~= problems_view(problems@).take(
            i as int,
        ).push(problems@[i as int]@));
        assert(lines@.map_values(|p: Vec<char>| p@) =~= prev.map_values(|p: Vec<char>| p@).push(
            c@,
        ));
    }
    assert(problems_view(problems@).take(n as int) =~= problems_view(problems@));
    let message = join_chars(&lines, &chars_of("\n"));
    let commas = join_chars(&lines, &chars_of(", "));
    let mut error = String::from_str("pre-check failures: ");
    error.append(string_of(&commas).as_str());
    (string_of(&message), error)
}

/// "ERR_" followed by the decimal status code, as the verbose block shows.
pub fn error_code(status: u16) -> (r: String)
    ensures
        r@ == "ERR_"@ + decimal(status as nat),
{
    let digits = u64_to_decimal(status as u64);
    concat2("ERR_", digits.as_str())
}

/// The lead id of a new lead: the one the request gives, else the vertical
/// slug upper-cased, a dash, and `random` upper-cased.
pub fn build_lead_id(provided: Option<String>, slug: &str, random: &[char]) -> (r: String)
    ensures
        r@ == match provided {
            Some(p) => p@,
            None => unicode_upper(slug@) + "-"@ + ascii_upper(random@),
        },
{
    match provided {
        Some(p) => p,
        None => {
            let mut r = to_uppercase(slug);
            r.append("-");
            r.append(string_of(&to_ascii_upper(random)).as_str());
            r
        },
    }
}

/// An upper-case ASCII letter or a digit.
pub open spec fn upper_alnum(c: char) -> bool {
    ('0' <= c && c <= '9') || ('A' <= c && c <= 'Z')
}

/// Makes the lead id of a new lead: the given one, else the upper-cased
/// vertical slug, a dash and eight random upper-case letters or digits.
pub fn generate_lead_id(provided: Option<String>, slug: &str) -> (r: String)
    ensures
        provided matches Some(p) ==> r@ == p@,
        provided is None ==> exists|tail: Seq<char>|
            tail.len() == 8 && (forall|i: int| 0 <= i < 8 ==> upper_alnum(#[trigger] tail[i]))
                && r@ == unicode_upper(slug@) + "-"@ + tail,
{
    let rnd = random_alphanumeric(8);
    let r = build_lead_id(provided, slug, &rnd);
    proof {
        if provided is None {
            let tail = ascii_upper(rnd@);
            assert forall|i: int| 0 <= i < 8 implies upper_alnum(#[trigger] tail[i]) by {
                let c = rnd@[i];
                assert('0' <= c <= '9' || 'A' <= c <= 'Z' || 'a' <= c <= 'z');
                if 'a' <= c && c <= 'z' {
                    assert(((c as u32) - 32) as char == tail[i]);
                    assert(65 <= (c as u32) - 32 <= 90);
                }
            }
            assert(r@ == unicode_upper(slug@) + "-"@ + tail);
        }
    }
    r
}

/// Upper-case hexadecimal text of `b`.
pub open spec fn hex_upper_text(b: Seq<u8>) -> Seq<char> {
    ascii_upper(hex_lower(b))
}

/// `prefix` followed by the upper-case hexadecimal text of `bytes`.
pub fn prefixed_hex_id(prefix: &str, bytes: &[u8]) -> (r: String)
    ensures
        r@ == prefix@ + hex_upper_text(bytes@),
{
    let hex = hex_encode(bytes);
    let upper = to_ascii_upper(&chars_of(hex.as_str()));
    concat2(prefix, string_of(&upper).as_str())
}

/// The promise id of a ping: "PROMISE_" and six bytes in upper-case hex.
pub fn promise_id_from(bytes: &[u8; 6]) -> (r: String)
    ensures
        r@ == "PROMISE_"@ + hex_upper_text(bytes@),
{
    prefixed_hex_id("PROMISE_", bytes)
}

/// A fresh promise id for a ping or fullpost request; none for a post.
pub fn promise_id_for(request_type: &str) -> (r: Option<String>)
    ensures
        (request_type@ == "ping"@ || request_type@ == "fullpost"@) <==> r is Some,
        r matches Some(p) ==> exists|b: Seq<u8>|
            b.len() == 6 && p@ == "PROMISE_"@ + hex_upper_text(b),
{
    if str_eq(request_type, "ping") || str_eq(request_type, "fullpost") {
        let v = random_bytes(6);
        let b: [u8; 6] = [v[0], v[1], v[2], v[3], v[4], v[5]];
        assert(b@ =~= v@);
        Some(promise_id_from(&b))
    } else {
        None
    }
}

/// The event id of a new lead: "evt_" and a UUID.
pub fn event_id_from(u: u128) -> (r: String)
    ensures
        r@ == "evt_"@ + uuid_text(u),
{
    concat2("evt_", uuid_to_string(u).as_str())
}

/// The session id of a new lead: "sess_" and a UUID.
pub fn session_id_from(u: u128) -> (r: String)
    ensures
        r@ == "sess_"@ + uuid_text(u),
{
    concat2("sess_", uuid_to_string(u).as_str())
}

/// The in-progress token a post request writes into `post_id` to claim a
/// promise: "INPROG_" and a UUID.
pub fn inprogress_token_from(u: u128) -> (r: String)
    ensures
        r@ == "INPROG_"@ + uuid_text(u),
{
    concat2("INPROG_", uuid_to_string(u).as_str())
}

/// A fresh event id: "evt_" and a random UUID.
pub fn new_event_id() -> (r: String)
    ensures
        exists|u: u128| r@ == "evt_"@ + uuid_text(u),
{
    event_id_from(new_uuid_v4())
}

/// A fresh session id: "sess_" and a random UUID.
pub fn new_session_id() -> (r: String)
    ensures
        exists|u: u128| r@ == "sess_"@ + uuid_text(u),
{
    session_id_from(new_uuid_v4())
}

/// A fresh claim token for a post: "INPROG_" and a random UUID.
pub fn new_inprogress_token() -> (r: String)
    ensures
        exists|u: u128| r@ == "INPROG_"@ + uuid_text(u),
{
    inprogress_token_from(new_uuid_v4())
}

/// The final status recorded for a routed lead.
#[derive(PartialEq, Eq, Structural)]
pub enum FinalLeadStatus {
    Sold,
    PingAccepted,
    Processing,
}

/// Facts of a routing result that the final status depends on; the price
/// counts only as "present and greater than zero".
pub struct RoutingFacts {
    pub success: bool,
    pub status: String,
    pub price_positive: bool,
    pub post_id_present: bool,
    pub campaign_present: bool,
    pub buyer_present: bool,
}

/// The final status of a routed lead: sold whenever the routing succeeded
/// with a positive price and either reported "sold", produced a post id, or
/// chose a buyer and campaign; ping-accepted when the ping succeeded or a
/// buyer and campaign were chosen; processing otherwise.
pub open spec fn final_status_spec(f: RoutingFacts) -> FinalLeadStatus {
    if f.success && f.price_positive && (f.status@ == "sold"@ || f.post_id_present || (
    f.campaign_present && f.buyer_present)) {
        FinalLeadStatus::Sold
    } else if f.success && (f.status@ == "accepted"@ || f.status@ == "ping_accepted"@) {
        FinalLeadStatus::PingAccepted
    } else if f.campaign_present && f.buyer_present {
        FinalLeadStatus::PingAccepted
    } else {
        FinalLeadStatus::Processing
    }
}

/// Determines the final status of a routed lead (see `final_status_spec`).
pub fn final_lead_status(f: &RoutingFacts) -> (r: FinalLeadStatus)
    ensures
        r == final_status_spec(*f),
{
    let sold_word = str_eq(f.status.as_str(), "sold");
    if f.success && f.price_positive && sold_word {
        FinalLeadStatus::Sold
    } else if f.success && f.post_id_present && f.price_positive {
        FinalLeadStatus::Sold
    } else if f.success && f.campaign_present && f.buyer_present && f.price_positive {
        FinalLeadStatus::Sold
    } else if f.success && (str_eq(f.status.as_str(), "accepted") || str_eq(
        f.status.as_str(),
        "ping_accepted",
    )) {
        FinalLeadStatus::PingAccepted
    } else if f.campaign_present && f.buyer_present {
        FinalLeadStatus::PingAccepted
    } else {
        FinalLeadStatus::Processing
    }
}

/// Which price slot of the response the routed price goes to.
#[derive(PartialEq, Eq, Structural)]
pub enum PriceSlot {
    /// An accepted ping: the price is the winning bid.
    Bid,
    /// A sold lead: the price is the sale price.
    Price,
    /// Neither is shown.
    Neither,
}

/// "accepted" shows the price as the bid, "sold" as the price.
pub fn price_slot(status: &str) -> (r: PriceSlot)
    ensures
        r == (if status@ == "accepted"@ {
            PriceSlot::Bid
        } else if status@ == "sold"@ {
            PriceSlot::Price
        } else {
            PriceSlot::Neither
        }),
{
    if str_eq(status, "accepted") {
        PriceSlot::Bid
    } else if str_eq(status, "sold") {
        PriceSlot::Price
    } else {
        PriceSlot::Neither
    }
}

/// The kind of message a routed ping/fullpost response carries.
#[derive(PartialEq, Eq, Structural)]
pub enum RoutedMessage {
    /// "Ping Accepted with a bid of $…".
    PingAcceptedWithBid,
    /// "Ping Accepted".
    PingAccepted,
    /// "Lead Sold for $…".
    SoldWithPrice,
    /// "Lead Sold".
    Sold,
    /// "Lead routed successfully".
    Routed,
    /// No message.
    Silent,
}

/// Chooses the message of a routed response from the routing status,
/// whether it succeeded and whether a price came with it.
pub fn routed_message(status: &str, success: bool, has_price: bool) -> (r: RoutedMessage)
    ensures
        r == (if status@ == "accepted"@ {
            if has_price {
                RoutedMessage::PingAcceptedWithBid
            } else {
                RoutedMessage::PingAccepted
            }
        } else if status@ == "sold"@ {
            if has_price {
                RoutedMessage::SoldWithPrice
            } else {
                RoutedMessage::Sold
            }
        } else if success {
            RoutedMessage::Routed
        } else {
            RoutedMessage::Silent
        }),
{
    if str_eq(status, "accepted") {
        if has_price {
            RoutedMessage::PingAcceptedWithBid
        } else {
            RoutedMessage::PingAccepted
        }
    } else if str_eq(status, "sold") {
        if has_price {
            RoutedMessage::SoldWithPrice
        } else {
            RoutedMessage::Sold
        }
    } else if success {
        RoutedMessage::Routed
    } else {
        RoutedMessage::Silent
    }
}

/// Whether the ping payloads of a routed lead are saved: for a fullpost
/// request that produced a ping id (the payload row id is never set before
/// routing).
pub fn should_save_ping_payloads(request_type: &str, ping_id_present: bool) -> (r: bool)
    ensures
        r == (request_type@ == "fullpost"@ && ping_id_present),
{
    str_eq(request_type, "fullpost") && ping_id_present
}

/// Whether the post payloads of a routed lead are saved: for a fullpost
/// request that produced a post id.
pub fn should_save_post_payloads(request_type: &str, post_id_present: bool) -> (r: bool)
    ensures
        r == (request_type@ == "fullpost"@ && post_id_present),
{
    str_eq(request_type, "fullpost") && post_id_present
}

/// What a post request does to the claimed lead once routing returns.
#[derive(PartialEq, Eq, Structural)]
pub enum PostSettlement {
    /// Mark the lead sold, keeping the claim token as the guard.
    MarkSold,
    /// Clear the claim so that another post may try.
    ReleaseClaim,
}

/// A post is settled as sold exactly when routing succeeded with "sold".
pub fn settle_post(success: bool, status: &str) -> (r: PostSettlement)
    ensures
        r == (if success && status@ == "sold"@ {
            PostSettlement::MarkSold
        } else {
            PostSettlement::ReleaseClaim
        }),
{
    if success && str_eq(status, "sold") {
        PostSettlement::MarkSold
    } else {
        PostSettlement::ReleaseClaim
    }
}

/// The HTTP status a post response reports in its body: 200 when routing
/// succeeded, 500 otherwise.
pub fn post_reported_status(success: bool) -> (r: u16)
    ensures
        r == (if success {
            200u16
        } else {
            500u16
        }),
{
    if success {
        200
    } else {
        500
    }
}

/// Why a lead submission is answered with an error.
pub enum LeadRejection {
    /// The vertical slug names no vertical.
    InvalidVertical { slug: String },
    /// Looking up the vertical failed with this database error text.
    VerticalLookupFailed { error_text: String },
    /// The body's publisher id names another publisher than the API key.
    PublisherMismatch { provided: String, authenticated: u128 },
    /// The body's publisher id is not a UUID.
    InvalidPublisherId { provided: String },
    /// A post request without a promise id.
    MissingPromiseId,
    /// No lead carries the post's promise id.
    LeadNotFound,
    /// Looking up the post's lead failed; `cached` tells whether the lookup
    /// went through the cache.
    LeadLookupFailed { error_text: String, cached: bool },
    /// The promise was already claimed, sold, or has expired.
    DuplicateOrExpired,
    /// Claiming the promise failed with this database error text.
    ClaimFailed { error_text: String },
    /// Routing failed with this error text.
    RoutingFailed { error_text: String },
    /// The pre-insert checks found these problems.
    PrecheckFailed { problems: Vec<String> },
}

/// An error answer: the HTTP status code of the reply, the status code the
/// body reports, and the body's status node.
pub struct RejectionResponse {
    pub http_status: u16,
    pub reported_status: u16,
    pub status: StatusNode,
}

pub open spec fn msg_publisher_mismatch() -> Seq<char> {
    "Publisher ID mismatch. Your API key is associated with a different publisher."@
}

/// The status codes of an error answer: (reply, body).
pub open spec fn rejection_codes(r: LeadRejection) -> (u16, u16) {
    match r {
        LeadRejection::InvalidVertical { .. } => (400, 400),
        LeadRejection::VerticalLookupFailed { .. } => (500, 500),
        LeadRejection::PublisherMismatch { .. } => (400, 401),
        LeadRejection::InvalidPublisherId { .. } => (400, 400),
        LeadRejection::MissingPromiseId => (400, 400),
        LeadRejection::LeadNotFound => (404, 404),
        LeadRejection::LeadLookupFailed { cached, .. } => (
            if cached {
                400
            } else {
                500
            },
            500,
        ),
        LeadRejection::DuplicateOrExpired => (400, 400),
        LeadRejection::ClaimFailed { .. } => (400, 500),
        LeadRejection::RoutingFailed { .. } => (500, 500),
        LeadRejection::PrecheckFailed { .. } => (400, 400),
    }
}

/// The message and error of an error answer's status node.
pub open spec fn rejection_texts(r: LeadRejection) -> (Option<Seq<char>>, Option<Seq<char>>) {
    match r {
        LeadRejection::InvalidVertical { slug } => (
            Some("Invalid vertical: "@ + slug@),
            Some("Invalid vertical slug: "@ + slug@),
        ),
        LeadRejection::PublisherMismatch { provided, authenticated } => (
            Some(msg_publisher_mismatch()),
            Some(
                "Publisher ID mismatch: provided="@ + provided@ + ", authenticated="@ + uuid_text(
                    authenticated,
                ),
            ),
        ),
        LeadRejection::InvalidPublisherId { provided } => (
            Some("Invalid publisher_id format: "@ + provided@),
            Some("Invalid UUID format for publisher_id: "@ + provided@),
        ),
        LeadRejection::MissingPromiseId => (None, Some("Missing promise_id for post request"@)),
        LeadRejection::LeadNotFound => (None, Some("Lead not found"@)),
        LeadRejection::DuplicateOrExpired => (
            Some("Lead has already been posted/sold or promise expired"@),
            Some("duplicate_or_expired_promise"@),
        ),
        LeadRejection::PrecheckFailed { problems } => (
            Some(join(problems_view(problems@), "\n"@)),
            Some("pre-check failures: "@ + join(problems_view(problems@), ", "@)),
        ),
        LeadRejection::VerticalLookupFailed { error_text } => db_error_texts(error_text@),
        LeadRejection::LeadLookupFailed { error_text, .. } => db_error_texts(error_text@),
        LeadRejection::ClaimFailed { error_text } => db_error_texts(error_text@),
        LeadRejection::RoutingFailed { error_text } => db_error_texts(error_text@),
    }
}

/// The friendly and technical texts of an error text (`map_error_to_user`).
pub open spec fn db_error_texts(t: Seq<char>) -> (Option<Seq<char>>, Option<Seq<char>>) {
    (Some(join(problem_lines(unicode_lower(t)), "\n"@)), Some(db_error_prefix() + t))
}

fn texts(message: &str, error: &str) -> (r: (Option<String>, Option<String>))
    ensures
        opt_view(r.0) == Some(message@),
        opt_view(r.1) == Some(error@),
{
    (Some(String::from_str(message)), Some(String::from_str(error)))
}

fn db_texts(error_text: &str) -> (r: (Option<String>, Option<String>))
    ensures
        (opt_view(r.0), opt_view(r.1)) == db_error_texts(error_text@),
{
    let (m, t) = map_error_to_user(error_text);
    (Some(m), Some(t))
}

/// Builds the error answer of a rejected lead submission: its status codes
/// (`rejection_codes`) and a failed status node with the texts of
/// `rejection_texts`.
pub fn lead_rejection(r: LeadRejection) -> (out: RejectionResponse)
    ensures
        (out.http_status, out.reported_status) == rejection_codes(r),
        !out.status.success,
        out.status.status@ == "error"@,
        (opt_view(out.status.message), opt_view(out.status.error)) == rejection_texts(r),
{
    let ghost r0 = r;
    let codes: (u16, u16) = match &r {
        LeadRejection::InvalidVertical { .. } => (400, 400),
        LeadRejection::VerticalLookupFailed { .. } => (500, 500),
        LeadRejection::PublisherMismatch { .. } => (400, 401),
        LeadRejection::InvalidPublisherId { .. } => (400, 400),
        LeadRejection::MissingPromiseId => (400, 400),
        LeadRejection::LeadNotFound => (404, 404),
        LeadRejection::LeadLookupFailed { cached, .. } => (
            if *cached {
                400
            } else {
                500
            },
            500,
        ),
        LeadRejection::DuplicateOrExpired => (400, 400),
        LeadRejection::ClaimFailed { .. } => (400, 500),
        LeadRejection::RoutingFailed { .. } => (500, 500),
        LeadRejection::PrecheckFailed { .. } => (400, 400),
    };
    let (message, error): (Option<String>, Option<String>) = match r {
        LeadRejection::InvalidVertical { slug } => {
            let m = concat2("Invalid vertical: ", slug.as_str());
            let e = concat2("Invalid vertical slug: ", slug.as_str());
            (Some(m), Some(e))
        },
        LeadRejection::PublisherMismatch { provided, authenticated } => {
            let mut e = String::from_str("Publisher ID mismatch: provided=");
            e.append(provided.as_str());
            e.append(", authenticated=");
            e.append(uuid_to_string(authenticated).as_str());
            (
                Some(
                    String::from_str(
                        "Publisher ID mismatch. Your API key is associated with a different publisher.",
                    ),
                ),
                Some(e),
            )
        },
        LeadRejection::InvalidPublisherId { provided } => {
            let m = concat2("Invalid publisher_id format: ", provided.as_str());
            let e = concat2("Invalid UUID format for publisher_id: ", provided.as_str());
            (Some(m), Some(e))
        },
        LeadRejection::MissingPromiseId => (
            None,
            Some(String::from_str("Missing promise_id for post request")),
        ),
        LeadRejection::LeadNotFound => (None, Some(String::from_str("Lead not found"))),
        LeadRejection::DuplicateOrExpired => texts(
            "Lead has already been posted/sold or promise expired",
            "duplicate_or_expired_promise",
        ),
        LeadRejection::PrecheckFailed { problems } => {
            let (m, e) = precheck_rejection(&problems);
            (Some(m), Some(e))
        },
        LeadRejection::VerticalLookupFailed { error_text } => db_texts(error_text.as_str()),
        LeadRejection::LeadLookupFailed { error_text, .. } => db_texts(error_text.as_str()),
        LeadRejection::ClaimFailed { error_text } => db_texts(error_text.as_str()),
        LeadRejection::RoutingFailed { error_text } => db_texts(error_text.as_str()),
    };
    RejectionResponse {
        http_status: codes.0,
        reported_status: codes.1,
        status: error_status(message, error),
    }
}

/// What looking up the lead of a post's promise found.
pub enum LeadLookup {
    Found,
    Missing,
    /// The lookup failed with this error text; `cached` tells whether it
    /// went through the cache.
    Failed { error_text: String, cached: bool },
}

/// What claiming a post's promise came to.
pub enum ClaimOutcome {
    /// The promise was free and is now held by this post.
    Granted,
    /// The promise was already claimed, sold, or has expired.
    Refused,
    Failed { error_text: String },
}

/// What happened while a post request was handled.
pub enum PostEvent {
    /// The request arrived, with its promise id if it has one.
    Submitted { promise_id: Option<String> },
    LeadLooked(LeadLookup),
    Claimed(ClaimOutcome),
    /// Routing returned a result.
    Routed { success: bool, status: String },
    RoutingFailed { error_text: String },
}

/// Where a post request stands.
pub enum PostStage {
    Start,
    AwaitLead,
    AwaitClaim,
    AwaitRoute,
    Finished,
}

/// What the handler does next for a post request.
pub enum PostAction {
    LookUpLead { promise_id: String },
    ClaimPromise,
    Route,
    /// Answer with this rejection; nothing is queued.
    Reject(LeadRejection),
    /// Queue the payloads and settle the lead this way, then answer.
    Settle(PostSettlement),
}

/// The next stage and action of a post request on an event; `None` when
/// the event does not belong to the stage.
pub open spec fn post_next(stage: PostStage, event: PostEvent) -> Option<(PostStage, PostAction)> {
    match (stage, event) {
        (PostStage::Start, PostEvent::Submitted { promise_id }) => Some(
            match promise_id {
                Some(p) => (PostStage::AwaitLead, PostAction::LookUpLead { promise_id: p }),
                None => (PostStage::Finished, PostAction::Reject(LeadRejection::MissingPromiseId)),
            },
        ),
        (PostStage::AwaitLead, PostEvent::LeadLooked(l)) => Some(
            match l {
                LeadLookup::Found => (PostStage::AwaitClaim, PostAction::ClaimPromise),
                LeadLookup::Missing => (PostStage::Finished, PostAction::Reject(LeadRejection::LeadNotFound)),
                LeadLookup::Failed { error_text, cached } => (
                    PostStage::Finished,
                    PostAction::Reject(LeadRejection::LeadLookupFailed { error_text, cached }),
                ),
            },
        ),
        (PostStage::AwaitClaim, PostEvent::Claimed(c)) => Some(
            match c {
                ClaimOutcome::Granted => (PostStage::AwaitRoute, PostAction::Route),
                ClaimOutcome::Refused => (
                    PostStage::Finished,
                    PostAction::Reject(LeadRejection::DuplicateOrExpired),
                ),
                ClaimOutcome::Failed { error_text } => (
                    PostStage::Finished,
                    PostAction::Reject(LeadRejection::ClaimFailed { error_text }),
                ),
            },
        ),
        (PostStage::AwaitRoute, PostEvent::Routed { success, status }) => Some(
            (
                PostStage::Finished,
                PostAction::Settle(
                    if success && status@ == "sold"@ {
                        PostSettlement::MarkSold
                    } else {
                        PostSettlement::ReleaseClaim
                    },
                ),
            ),
        ),
        (PostStage::AwaitRoute, PostEvent::RoutingFailed { error_text }) => Some(
            (PostStage::Finished, PostAction::Reject(LeadRejection::RoutingFailed { error_text })),
        ),
        _ => None,
    }
}

/// The next stage and action of a post request (see `post_next`).
pub fn post_step(stage: PostStage, event: PostEvent) -> (r: Option<(PostStage, PostAction)>)
    ensures
        r == post_next(stage, event),
{
    match (stage, event) {
        (PostStage::Start, PostEvent::Submitted { promise_id }) => Some(
            match promise_id {
                Some(p) => (PostStage::AwaitLead, PostAction::LookUpLead { promise_id: p }),
                None => (PostStage::Finished, PostAction::Reject(LeadRejection::MissingPromiseId)),
            },
        ),
        (PostStage::AwaitLead, PostEvent::LeadLooked(l)) => Some(
            match l {
                LeadLookup::Found => (PostStage::AwaitClaim, PostAction::ClaimPromise),
                LeadLookup::Missing => (PostStage::Finished, PostAction::Reject(LeadRejection::LeadNotFound)),
                LeadLookup::Failed { error_text, cached } => (
                    PostStage::Finished,
                    PostAction::Reject(LeadRejection::LeadLookupFailed { error_text, cached }),
                ),
            },
        ),
        (PostStage::AwaitClaim, PostEvent::Claimed(c)) => Some(
            match c {
                ClaimOutcome::Granted => (PostStage::AwaitRoute, PostAction::Route),
                ClaimOutcome::Refused => (
                    PostStage::Finished,
                    PostAction::Reject(LeadRejection::DuplicateOrExpired),
                ),
                ClaimOutcome::Failed { error_text } => (
                    PostStage::Finished,
                    PostAction::Reject(LeadRejection::ClaimFailed { error_text }),
                ),
            },
        ),
        (PostStage::AwaitRoute, PostEvent::Routed { success, status }) => Some(
            (PostStage::Finished, PostAction::Settle(settle_post(success, status.as_str()))),
        ),
        (PostStage::AwaitRoute, PostEvent::RoutingFailed { error_text }) => Some(
            (PostStage::Finished, PostAction::Reject(LeadRejection::RoutingFailed { error_text })),
        ),
        _ => None,
    }
}

/// The actions a post request takes on a run of events from `stage`,
/// stopping at the first event that does not belong.
pub open spec fn post_trace(stage: PostStage, events: Seq<PostEvent>) -> Seq<PostAction>
    decreases events.len(),
{
    if events.len() == 0 {
        Seq::empty()
    } else {
        match post_next(stage, events[0]) {
            None => Seq::empty(),
            Some((next, a)) => seq![a] + post_trace(next, events.drop_first()),
        }
    }
}

/// A post routes only after it has claimed its promise: routing is the
/// third step, right after the claim, and only on a granted claim.
pub proof fn law_post_routes_only_after_claim(events: Seq<PostEvent>, j: int)
    requires
        0 <= j < post_trace(PostStage::Start, events).len(),
        post_trace(PostStage::Start, events)[j] is Route,
    ensures
        j == 2,
        post_trace(PostStage::Start, events)[1] is ClaimPromise,
        events[2] matches PostEvent::Claimed(c) && c is Granted,
{
    reveal_with_fuel(post_trace, 5);
    let e1 = events.drop_first();
    let e2 = e1.drop_first();
    let e3 = e2.drop_first();
    assert(e1.len() > 0 ==> e1[0] == events[1]);
    assert(e2.len() > 0 ==> e2[0] == events[2]);
    assert(e3.len() > 0 ==> e3[0] == events[3]);
}

/// A routed post is always settled, and the lead is marked sold only when
/// routing succeeded with the status `sold`: a failed routing, or any
/// other status, clears the claim so that another post may try.
pub proof fn law_post_sold_only_on_sold_routing(success: bool, status: String)
    ensures
        post_next(PostStage::AwaitRoute, PostEvent::Routed { success, status }) matches Some(
            (stage, PostAction::Settle(_)),
        ) && stage == PostStage::Finished,
        post_next(PostStage::AwaitRoute, PostEvent::Routed { success, status }) == Some(
            (PostStage::Finished, PostAction::Settle(PostSettlement::MarkSold)),
        ) ==> success && status@ == "sold"@,
        !(success && status@ == "sold"@) ==> post_next(
            PostStage::AwaitRoute,
            PostEvent::Routed { success, status },
        ) == Some((PostStage::Finished, PostAction::Settle(PostSettlement::ReleaseClaim))),
        success && status@ == "sold"@ ==> post_next(
            PostStage::AwaitRoute,
            PostEvent::Routed { success, status },
        ) == Some((PostStage::Finished, PostAction::Settle(PostSettlement::MarkSold))),
{
}

/// A refused claim (already claimed, sold or expired) is answered with the
/// duplicate rejection and ends the request: nothing is settled or queued.
pub proof fn law_refused_claim_never_settles(events: Seq<PostEvent>)
    requires
        post_trace(PostStage::Start, events).len() > 2,
        events[2] matches PostEvent::Claimed(c) && c is Refused,
    ensures
        post_trace(PostStage::Start, events)[2] == PostAction::Reject(LeadRejection::DuplicateOrExpired),
        post_trace(PostStage::Start, events).len() == 3,
        forall|k: int| 0 <= k < post_trace(PostStage::Start, events).len()
            ==> !(#[trigger] post_trace(PostStage::Start, events)[k] is Settle),
{
    reveal_with_fuel(post_trace, 5);
    let e1 = events.drop_first();
    let e2 = e1.drop_first();
    let e3 = e2.drop_first();
    assert(e1[0] == events[1]);
    assert(e2[0] == events[2]);
    assert(e3.len() > 0 ==> e3[0] == events[3]);
}

/// A post's claim on its promise, as the guarded update of the lead does
/// it: the claim holds only while the lead's post id is empty (or unset),
/// and then writes the post's claim token there. Gives whether the claim
/// was granted and the post id afterwards.
pub open spec fn claim_step(post_id: Option<Seq<char>>, token: Seq<char>) -> (bool, Option<Seq<char>>) {
    if post_id is None || post_id == Some(Seq::<char>::empty()) {
        (true, Some(token))
    } else {
        (false, post_id)
    }
}

/// Whether each of several claims on one promise is granted, when they
/// reach the lead one after another (the database serialises updates of a
/// row).
pub open spec fn claims_granted(post_id: Option<Seq<char>>, tokens: Seq<Seq<char>>) -> Seq<bool>
    decreases tokens.len(),
{
    if tokens.len() == 0 {
        Seq::empty()
    } else {
        let (granted, after) = claim_step(post_id, tokens[0]);
        seq![granted] + claims_granted(after, tokens.drop_first())
    }
}

proof fn lemma_claimed_stays_claimed(post_id: Option<Seq<char>>, tokens: Seq<Seq<char>>)
    requires
        post_id matches Some(p) && p.len() > 0,
    ensures
        forall|i: int| 0 <= i < claims_granted(post_id, tokens).len() ==> !#[trigger] claims_granted(post_id, tokens)[i],
        claims_granted(post_id, tokens).len() == tokens.len(),
    decreases tokens.len(),
{
    if tokens.len() > 0 {
        lemma_claimed_stays_claimed(post_id, tokens.drop_first());
    }
}

proof fn lemma_claims_at_most_one(post_id: Option<Seq<char>>, tokens: Seq<Seq<char>>)
    requires
        forall|k: int| 0 <= k < tokens.len() ==> (#[trigger] tokens[k]).len() > 0,
    ensures
        claims_granted(post_id, tokens).len() == tokens.len(),
        forall|i: int, j: int|
            0 <= i < j < tokens.len() ==> !(#[trigger] claims_granted(post_id, tokens)[i]
                && #[trigger] claims_granted(post_id, tokens)[j]),
    decreases tokens.len(),
{
    if tokens.len() > 0 {
        let (granted, after) = claim_step(post_id, tokens[0]);
        let rest = tokens.drop_first();
        let g = claims_granted(post_id, tokens);
        assert forall|k: int| 0 <= k < rest.len() implies (#[trigger] rest[k]).len() > 0 by {
            assert(rest[k] == tokens[k + 1]);
        }
        lemma_claims_at_most_one(after, rest);
        if granted {
            lemma_claimed_stays_claimed(after, rest);
        }
        assert forall|i: int, j: int| 0 <= i < j < tokens.len() implies !(#[trigger] g[i] && #[trigger] g[j]) by {
            assert(g[j] == claims_granted(after, rest)[j - 1]);
            if i > 0 {
                assert(g[i] == claims_granted(after, rest)[i - 1]);
            }
        }
    }
}

/// Posts racing on one promise: however many claim it before any has
/// finished, at most one claim is granted (its post routes); every other
/// is refused, and a refused claim ends the post with the duplicate
/// rejection: 400, "Lead has already been posted/sold or promise expired",
/// error `duplicate_or_expired_promise`. Claim tokens are never empty
/// (`new_inprogress_token`).
pub proof fn law_racing_posts_claim_once(post_id: Option<Seq<char>>, tokens: Seq<Seq<char>>)
    requires
        forall|k: int| 0 <= k < tokens.len() ==> (#[trigger] tokens[k]).len() > 0,
    ensures
        claims_granted(post_id, tokens).len() == tokens.len(),
        forall|i: int, j: int|
            0 <= i < j < tokens.len() ==> !(#[trigger] claims_granted(post_id, tokens)[i]
                && #[trigger] claims_granted(post_id, tokens)[j]),
        post_next(PostStage::AwaitClaim, PostEvent::Claimed(ClaimOutcome::Refused)) == Some(
            (PostStage::Finished, PostAction::Reject(LeadRejection::DuplicateOrExpired)),
        ),
        rejection_codes(LeadRejection::DuplicateOrExpired).0 == 400,
        rejection_texts(LeadRejection::DuplicateOrExpired) == (
            Some("Lead has already been posted/sold or promise expired"@),
            Some("duplicate_or_expired_promise"@),
        ),
{
    lemma_claims_at_most_one(post_id, tokens);
}

/// The id of the ping record made for a lead at a time stamp
/// (`%Y%m%d%H%M%S`): `FP_` and the base64 text of `lead|stamp|pending`.
pub fn ping_record_id(lead_id: &str, timestamp: &str) -> (r: String)
    ensures
        r@ == "FP_"@ + crate::codec::base64_standard(
            vstd::utf8::encode_utf8(lead_id@ + "|"@ + timestamp@ + "|pending"@),
        ),
{
    let a = concat2(lead_id, "|");
    let b = concat2(a.as_str(), timestamp);
    let payload = concat2(b.as_str(), "|pending");
    let enc = crate::codec::base64_encode(payload.as_str().as_bytes());
    concat2("FP_", enc.as_str())
}

} // verus!
