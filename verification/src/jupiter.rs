//! The quote and swap endpoints, which relay requests to the Jupiter API.

use vstd::prelude::*;
use crate::records::{User, DbFailure, QuoteRequest, SwapRequest};
use crate::http::{Reply, is_text_reply, is_json_reply, is_success_status, text_reply, text_reply_owned, json_reply, concat_text};
use crate::json::{json_string, json_string_text, json_reencode, json_reencoded, lemma_json_escape_alphanumeric};
use crate::text::{nat_digits, push_u64_digits, all_digits, digits_value, lemma_nat_digits};
use crate::encoding::{hex_decode, hex_decode_text, base58_encode, base58_text, lemma_base58_text_alphanumeric};
use crate::session::{session_outcome, check_session_at, token_live};
use crate::time::{MAX_TIMESTAMP, utc_now_timestamp};

verus! {

/// What the Jupiter API answered: its status code and body text.
pub struct Upstream {
    pub status: u16,
    pub body: String,
}

// ---------------------------------------------------------------- quote

/// The quote URL for a request; the parts are written as they come.
pub open spec fn quote_url_text(q: QuoteRequest) -> Seq<char> {
    "https://api.jup.ag/swap/v1/quote?inputMint="@ + q.input_mint@ + "&outputMint="@
        + q.output_mint@ + "&amount="@ + nat_digits(q.amount as nat) + "&slippageBps="@
        + nat_digits(q.slippage_bps as nat)
}

/// The reply to a quote request, given what the API answered (or the
/// request's failure, described by `Err`).
pub open spec fn quote_reply_ok(outcome: Result<Upstream, String>, r: Reply) -> bool {
    match outcome {
        Err(e) => is_text_reply(r, 500, "Request failed: "@ + e@),
        Ok(up) => if !is_success_status(up.status) {
            is_text_reply(r, 400, "Jupiter returned error: "@ + up.body@)
        } else {
            match json_reencoded(up.body@) {
                Some(t) => is_json_reply(r, 200, t),
                None => is_text_reply(r, 500, "Failed to parse Jupiter response"@),
            }
        },
    }
}

/// The URL that a quote request is sent to.
pub fn quote_url(q: &QuoteRequest) -> (r: String)
    ensures
        r@ == quote_url_text(*q),
{
    let mut s = String::from_str("https://api.jup.ag/swap/v1/quote?inputMint=");
    s.append(q.input_mint.as_str());
    s.append("&outputMint=");
    s.append(q.output_mint.as_str());
    s.append("&amount=");
    push_u64_digits(&mut s, q.amount);
    s.append("&slippageBps=");
    push_u64_digits(&mut s, q.slippage_bps as u64);
    s
}

/// The quote URL carries each number in full: after `&amount=` stand
/// decimal digits that read back as the whole `u64` amount, and after
/// `&slippageBps=` digits that read back as the slippage.
pub proof fn lemma_quote_url_numbers(q: QuoteRequest)
    ensures
        exists|d: Seq<char>, b: Seq<char>|
            #![trigger digits_value(d), digits_value(b)]
            all_digits(d) && d.len() >= 1 && digits_value(d) == q.amount && all_digits(b) && b.len() >= 1
                && digits_value(b) == q.slippage_bps && quote_url_text(q)
                == "https://api.jup.ag/swap/v1/quote?inputMint="@ + q.input_mint@ + "&outputMint="@
                + q.output_mint@ + "&amount="@ + d + "&slippageBps="@ + b,
{
    let d = nat_digits(q.amount as nat);
    let b = nat_digits(q.slippage_bps as nat);
    lemma_nat_digits(q.amount as nat);
    lemma_nat_digits(q.slippage_bps as nat);
    assert(digits_value(d) == q.amount && digits_value(b) == q.slippage_bps);
}

/// The reply to a quote request.
pub fn quote_reply(outcome: Result<Upstream, String>) -> (r: Reply)
    ensures
        quote_reply_ok(outcome, r),
{
    match outcome {
        Err(e) => text_reply_owned(500, concat_text("Request failed: ", e.as_str())),
        Ok(up) => {
            if !(200 <= up.status && up.status <= 299) {
                text_reply_owned(400, concat_text("Jupiter returned error: ", up.body.as_str()))
            } else {
                match json_reencode(up.body.as_str()) {
                    Some(t) => json_reply(200, t),
                    None => text_reply(500, "Failed to parse Jupiter response"),
                }
            }
        },
    }
}

// ---------------------------------------------------------------- swap

/// Where a swap request stands while it waits.
pub enum SwapState {
    /// Waiting for the user whose stored cookie is `token`.
    AwaitingSessionUser { token: String, quote_response: String },
    /// Waiting for the wallet of the signed-in user.
    AwaitingWallet { quote_response: String },
    /// Waiting for the Jupiter API.
    AwaitingJupiter,
    /// The reply has been given.
    Done,
}

/// What the database or the API answered.
pub enum SwapEvent {
    UserByCookie(Result<Option<User>, DbFailure>),
    /// The hex public key of the user's wallet, if the user has one.
    WalletFound(Option<String>),
    /// The API's answer, or the request's failure.
    JupiterReplied(Result<Upstream, String>),
}

/// What to do next.
pub enum SwapAction {
    FindUserByCookie(String),
    FindWallet(u128),
    /// POST `payload` as JSON to `url`.
    PostSwap { url: String, payload: String },
    Respond(Reply),
}

/// The JSON document sent to the swap API (keys in sorted order, as
/// serde_json writes an object): the quote as given, the wallet's key in
/// base58, and fixed options.
pub open spec fn swap_payload_text(quote: Seq<char>, user_key: Seq<char>) -> Seq<char> {
    "{\"dynamicComputeUnitLimit\":true,\"prioritizationFeeLamports\":\"auto\",\"quoteResponse\":"@
        + quote + ",\"userPublicKey\":"@ + json_string_text(user_key)
        + ",\"wrapAndUnwrapSol\":true}"@
}

pub open spec fn swap_replies_text(next: SwapState, act: SwapAction, status: u16, msg: Seq<char>) -> bool {
    &&& next is Done
    &&& act matches SwapAction::Respond(r)
    &&& is_text_reply(r, status, msg)
}

/// How a swap request begins, given its session cookie if it has one.
pub open spec fn swap_start_outcome(
    cookie: Option<String>,
    req: SwapRequest,
    next: SwapState,
    act: SwapAction,
) -> bool {
    match cookie {
        None => swap_replies_text(next, act, 401, "Missing session"@),
        Some(token) => {
            &&& next matches SwapState::AwaitingSessionUser { token: n_token, quote_response: n_quote }
            &&& n_token@ == token@ && n_quote@ == req.quote_response@
            &&& act matches SwapAction::FindUserByCookie(t) && t@ == token@
        },
    }
}

pub open spec fn swap_expects(s: SwapState, e: SwapEvent) -> bool {
    match s {
        SwapState::AwaitingSessionUser { .. } => e is UserByCookie,
        SwapState::AwaitingWallet { .. } => e is WalletFound,
        SwapState::AwaitingJupiter => e is JupiterReplied,
        SwapState::Done => false,
    }
}

/// One swap step at time `now`.
pub open spec fn swap_transition(
    s: SwapState,
    e: SwapEvent,
    now: i64,
    next: SwapState,
    act: SwapAction,
) -> bool {
    match s {
        SwapState::AwaitingSessionUser { token, quote_response } => match e {
            SwapEvent::UserByCookie(lookup) => match session_outcome(lookup, token@, now) {
                None => swap_replies_text(next, act, 401, "Invalid or expired session"@),
                Some(user) => {
                    &&& next matches SwapState::AwaitingWallet { quote_response: n_quote }
                    &&& n_quote@ == quote_response@
                    &&& act == SwapAction::FindWallet(user.user_id)
                },
            },
            _ => false,
        },
        SwapState::AwaitingWallet { quote_response } => match e {
            SwapEvent::WalletFound(None) => swap_replies_text(next, act, 400, "No wallet assigned to user"@),
            SwapEvent::WalletFound(Some(hex)) => match hex_decode_text(hex@) {
                None => swap_replies_text(next, act, 500, "Failed to decode hex pubkey from database"@),
                Some(bytes) => {
                    &&& next is AwaitingJupiter
                    &&& act matches SwapAction::PostSwap { url, payload }
                    &&& url@ == "https://api.jup.ag/swap/v1/swap"@
                    &&& payload@ == swap_payload_text(quote_response@, base58_text(bytes))
                },
            },
            _ => false,
        },
        SwapState::AwaitingJupiter => match e {
            SwapEvent::JupiterReplied(Err(_)) => swap_replies_text(next, act, 500, "Failed to reach Jupiter API"@),
            SwapEvent::JupiterReplied(Ok(up)) => if !is_success_status(up.status) {
                swap_replies_text(next, act, 400, "Jupiter Error: "@ + up.body@)
            } else {
                match json_reencoded(up.body@) {
                    Some(t) => next is Done && (act matches SwapAction::Respond(r) && is_json_reply(r, 200, t)),
                    None => swap_replies_text(next, act, 500, "Failed to parse Jupiter JSON"@),
                }
            },
            _ => false,
        },
        SwapState::Done => false,
    }
}

/// Begins a swap request from its session cookie and body.
pub fn swap_start(cookie: Option<String>, req: SwapRequest) -> (r: (SwapState, SwapAction))
    ensures
        swap_start_outcome(cookie, req, r.0, r.1),
{
    match cookie {
        None => (SwapState::Done, SwapAction::Respond(text_reply(401, "Missing session"))),
        Some(token) => {
            let t = token.clone();
            (
                SwapState::AwaitingSessionUser { token, quote_response: req.quote_response },
                SwapAction::FindUserByCookie(t),
            )
        },
    }
}

pub fn swap_accepts(s: &SwapState, e: &SwapEvent) -> (r: bool)
    ensures
        r == swap_expects(*s, *e),
{
    match s {
        SwapState::AwaitingSessionUser { .. } => matches!(e, SwapEvent::UserByCookie(_)),
        SwapState::AwaitingWallet { .. } => matches!(e, SwapEvent::WalletFound(_)),
        SwapState::AwaitingJupiter => matches!(e, SwapEvent::JupiterReplied(_)),
        SwapState::Done => false,
    }
}

/// The JSON document for the swap API.
pub fn swap_payload(quote: &str, user_key: &str) -> (r: String)
    ensures
        r@ == swap_payload_text(quote@, user_key@),
{
    let mut s = String::from_str(
        "{\"dynamicComputeUnitLimit\":true,\"prioritizationFeeLamports\":\"auto\",\"quoteResponse\":",
    );
    s.append(quote);
    s.append(",\"userPublicKey\":");
    let k = json_string(user_key);
    s.append(k.as_str());
    s.append(",\"wrapAndUnwrapSol\":true}");
    s
}

/// One swap step at time `now`.
pub fn swap_step(s: SwapState, e: SwapEvent, now: i64) -> (r: (SwapState, SwapAction))
    requires
        swap_expects(s, e),
    ensures
        swap_transition(s, e, now, r.0, r.1),
{
    match s {
        SwapState::AwaitingSessionUser { token, quote_response } => match e {
            SwapEvent::UserByCookie(lookup) => match check_session_at(lookup, token.as_str(), now) {
                None => (
                    SwapState::Done,
                    SwapAction::Respond(text_reply(401, "Invalid or expired session")),
                ),
                Some(user) => (
                    SwapState::AwaitingWallet { quote_response },
                    SwapAction::FindWallet(user.user_id),
                ),
            },
            _ => (SwapState::Done, SwapAction::Respond(text_reply(401, "Invalid or expired session"))),
        },
        SwapState::AwaitingWallet { quote_response } => match e {
            SwapEvent::WalletFound(Some(hex)) => match hex_decode(hex.as_str()) {
                Err(_) => (
                    SwapState::Done,
                    SwapAction::Respond(text_reply(500, "Failed to decode hex pubkey from database")),
                ),
                Ok(bytes) => {
                    let key = base58_encode(bytes.as_slice());
                    let payload = swap_payload(quote_response.as_str(), key.as_str());
                    (
                        SwapState::AwaitingJupiter,
                        SwapAction::PostSwap {
                            url: String::from_str("https://api.jup.ag/swap/v1/swap"),
                            payload,
                        },
                    )
                },
            },
            _ => (SwapState::Done, SwapAction::Respond(text_reply(400, "No wallet assigned to user"))),
        },
        SwapState::AwaitingJupiter => match e {
            SwapEvent::JupiterReplied(Ok(up)) => {
                if !(200 <= up.status && up.status <= 299) {
                    (
                        SwapState::Done,
                        SwapAction::Respond(
                            text_reply_owned(400, concat_text("Jupiter Error: ", up.body.as_str())),
                        ),
                    )
                } else {
                    match json_reencode(up.body.as_str()) {
                        Some(t) => (SwapState::Done, SwapAction::Respond(json_reply(200, t))),
                        None => (
                            SwapState::Done,
                            SwapAction::Respond(text_reply(500, "Failed to parse Jupiter JSON")),
                        ),
                    }
                }
            },
            _ => (SwapState::Done, SwapAction::Respond(text_reply(500, "Failed to reach Jupiter API"))),
        },
        SwapState::Done => (SwapState::Done, SwapAction::Respond(text_reply(500, "Failed to reach Jupiter API"))),
    }
}

/// A swap step taken at some time of the clock.
pub open spec fn swap_advanced(s: SwapState, e: SwapEvent, next: SwapState, act: SwapAction) -> bool {
    exists|now: i64| 0 <= now <= MAX_TIMESTAMP && #[trigger] swap_transition(s, e, now, next, act)
}

/// One swap step on the clock.
pub fn swap_advance(s: SwapState, e: SwapEvent) -> (r: (SwapState, SwapAction))
    requires
        swap_expects(s, e),
    ensures
        swap_advanced(s, e, r.0, r.1),
{
    let now = utc_now_timestamp();
    let res = swap_step(s, e, now);
    assert(swap_transition(s, e, now, res.0, res.1));
    res
}

// ---------------------------------------------------------------- laws

/// The wallet of a user is looked up only for a user found by the cookie
/// whose token is live.
pub proof fn lemma_wallet_lookup_needs_live_session(
    token: String,
    quote: String,
    lookup: Result<Option<User>, DbFailure>,
    now: i64,
    next: SwapState,
    user_id: u128,
)
    requires
        swap_transition(
            SwapState::AwaitingSessionUser { token, quote_response: quote },
            SwapEvent::UserByCookie(lookup),
            now,
            next,
            SwapAction::FindWallet(user_id),
        ),
    ensures
        lookup matches Ok(Some(u)) && u.user_id == user_id,
        token_live(token@, now),
{
}

/// The swap request names the wallet by its base58 key as it is, quoted.
pub proof fn lemma_swap_payload_names_wallet(quote: Seq<char>, key: Seq<u8>)
    ensures
        swap_payload_text(quote, base58_text(key)) ==
            "{\"dynamicComputeUnitLimit\":true,\"prioritizationFeeLamports\":\"auto\",\"quoteResponse\":"@
            + quote + ",\"userPublicKey\":"@ + seq!['"'] + base58_text(key) + seq!['"']
            + ",\"wrapAndUnwrapSol\":true}"@,
{
    lemma_base58_text_alphanumeric(key);
    lemma_json_escape_alphanumeric(base58_text(key));
    assert(json_string_text(base58_text(key)) == seq!['"'] + base58_text(key) + seq!['"']);
    assert(swap_payload_text(quote, base58_text(key)) =~=
        "{\"dynamicComputeUnitLimit\":true,\"prioritizationFeeLamports\":\"auto\",\"quoteResponse\":"@
            + quote + ",\"userPublicKey\":"@ + seq!['"'] + base58_text(key) + seq!['"']
            + ",\"wrapAndUnwrapSol\":true}"@);
}

/// A quote is answered with success only when the API reported success and
/// its body is JSON.
pub proof fn lemma_quote_ok_only_on_upstream_success(outcome: Result<Upstream, String>, r: Reply)
    requires
        quote_reply_ok(outcome, r),
        r.status == 200,
    ensures
        outcome matches Ok(up) && is_success_status(up.status) && json_reencoded(up.body@) is Some,
{
}

/// A swap is answered with success only when the API reported success.
pub proof fn lemma_swap_ok_only_on_upstream_success(
    s: SwapState,
    e: SwapEvent,
    now: i64,
    next: SwapState,
    act: SwapAction,
)
    requires
        swap_transition(s, e, now, next, act),
        act matches SwapAction::Respond(r) && r.status == 200,
    ensures
        e matches SwapEvent::JupiterReplied(Ok(up)) && is_success_status(up.status),
{
}

} // verus!
