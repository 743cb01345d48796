use tiplink_gateway::http::{BodyKind, Reply};
use tiplink_gateway::jupiter::{
    quote_reply, quote_url, swap_accepts, swap_advance, swap_payload, swap_start, swap_step,
    SwapAction, SwapEvent, SwapState, Upstream,
};
use tiplink_gateway::records::{DbFailure, QuoteRequest, SwapRequest, User};
use tiplink_gateway::session::make_session_token;

const ID: u128 = 0x67e5_5044_10b1_426f_9247_bb68_0e5f_e0c8;
const QUOTE: &str = "{\"inAmount\":\"1000\",\"outAmount\":\"5\"}";

fn text(reply: &Reply, status: u16, body: &str) {
    assert_eq!(reply.status, status);
    assert!(matches!(reply.kind, BodyKind::Text));
    assert_eq!(reply.body, body);
}

fn respond(a: SwapAction) -> Reply {
    match a {
        SwapAction::Respond(r) => r,
        _ => panic!("expected a reply"),
    }
}

#[test]
fn quote_url_carries_the_query() {
    let q = QuoteRequest {
        input_mint: "So11111111111111111111111111111111111111112".to_string(),
        output_mint: "EPjFWdd5AufqSSqeM2qN1xzybapC8G4wEGGkZwyTDt1v".to_string(),
        amount: 1_000_000,
        slippage_bps: 50,
    };
    assert_eq!(
        quote_url(&q),
        "https://api.jup.ag/swap/v1/quote?inputMint=So11111111111111111111111111111111111111112&outputMint=EPjFWdd5AufqSSqeM2qN1xzybapC8G4wEGGkZwyTDt1v&amount=1000000&slippageBps=50"
    );
}

#[test]
fn quote_replies() {
    text(&quote_reply(Err("timeout".to_string())), 500, "Request failed: timeout");
    let up = Upstream { status: 403, body: "forbidden".to_string() };
    text(&quote_reply(Ok(up)), 400, "Jupiter returned error: forbidden");
    let up = Upstream { status: 200, body: "not json".to_string() };
    text(&quote_reply(Ok(up)), 500, "Failed to parse Jupiter response");
    let up = Upstream { status: 200, body: "{ \"b\": 1,\n \"a\": [1, 2] }".to_string() };
    let r = quote_reply(Ok(up));
    assert_eq!(r.status, 200);
    assert!(matches!(r.kind, BodyKind::Json));
    assert_eq!(r.body, "{\"a\":[1,2],\"b\":1}");
}

fn user() -> User {
    User {
        user_id: ID,
        email: "a@b.c".to_string(),
        password_hash: "h".to_string(),
        username: "alice".to_string(),
        cookie: None,
    }
}

fn request() -> SwapRequest {
    SwapRequest { quote_response: QUOTE.to_string() }
}

#[test]
fn swap_without_cookie() {
    let (s, a) = swap_start(None, request());
    assert!(matches!(s, SwapState::Done));
    text(&respond(a), 401, "Missing session");
}

fn awaiting_session(token: &str) -> SwapState {
    let (s, a) = swap_start(Some(token.to_string()), request());
    match a {
        SwapAction::FindUserByCookie(t) => assert_eq!(t, token),
        _ => panic!("expected a lookup by cookie"),
    }
    s
}

#[test]
fn swap_with_unknown_or_expired_session() {
    let token = make_session_token(1000, ID);
    let (_, a) = swap_step(awaiting_session(&token), SwapEvent::UserByCookie(Ok(None)), 0);
    text(&respond(a), 401, "Invalid or expired session");
    let (_, a) = swap_step(awaiting_session(&token), SwapEvent::UserByCookie(Ok(Some(user()))), 1001);
    text(&respond(a), 401, "Invalid or expired session");
    let failed = DbFailure { message: "x".to_string() };
    let (_, a) = swap_step(awaiting_session(&token), SwapEvent::UserByCookie(Err(failed)), 0);
    text(&respond(a), 401, "Invalid or expired session");
}

fn awaiting_wallet() -> SwapState {
    let token = make_session_token(1000, ID);
    let s = awaiting_session(&token);
    let e = SwapEvent::UserByCookie(Ok(Some(user())));
    assert!(swap_accepts(&s, &e));
    let (s, a) = swap_step(s, e, 1000);
    match a {
        SwapAction::FindWallet(id) => assert_eq!(id, ID),
        _ => panic!("expected a wallet lookup"),
    }
    s
}

#[test]
fn swap_without_wallet() {
    let (_, a) = swap_step(awaiting_wallet(), SwapEvent::WalletFound(None), 0);
    text(&respond(a), 400, "No wallet assigned to user");
}

#[test]
fn swap_with_bad_hex() {
    for bad in ["zz", "abc", "ab cd", "é0"] {
        let (_, a) = swap_step(awaiting_wallet(), SwapEvent::WalletFound(Some(bad.to_string())), 0);
        text(&respond(a), 500, "Failed to decode hex pubkey from database");
    }
}

#[test]
fn swap_posts_base58_key() {
    let key: Vec<u8> = (0u8..32).collect();
    let hex = hex::encode_upper(&key);
    let (s, a) = swap_step(awaiting_wallet(), SwapEvent::WalletFound(Some(hex)), 0);
    assert!(matches!(s, SwapState::AwaitingJupiter));
    match a {
        SwapAction::PostSwap { url, payload } => {
            assert_eq!(url, "https://api.jup.ag/swap/v1/swap");
            let b58 = bs58::encode(&key).into_string();
            assert!(b58.starts_with('1'));
            assert_eq!(
                payload,
                format!(
                    "{{\"dynamicComputeUnitLimit\":true,\"prioritizationFeeLamports\":\"auto\",\"quoteResponse\":{},\"userPublicKey\":\"{}\",\"wrapAndUnwrapSol\":true}}",
                    QUOTE, b58
                )
            );
        }
        _ => panic!("expected the swap to be posted"),
    }
}

#[test]
fn swap_payload_escapes_key_text() {
    assert_eq!(
        swap_payload("null", "a\"b"),
        "{\"dynamicComputeUnitLimit\":true,\"prioritizationFeeLamports\":\"auto\",\"quoteResponse\":null,\"userPublicKey\":\"a\\\"b\",\"wrapAndUnwrapSol\":true}"
    );
}

fn awaiting_jupiter() -> SwapState {
    let (s, _) = swap_step(awaiting_wallet(), SwapEvent::WalletFound(Some("00ff".to_string())), 0);
    s
}

#[test]
fn swap_upstream_outcomes() {
    let (_, a) = swap_step(awaiting_jupiter(), SwapEvent::JupiterReplied(Err("dns".to_string())), 0);
    text(&respond(a), 500, "Failed to reach Jupiter API");
    let up = Upstream { status: 422, body: "bad quote".to_string() };
    let (_, a) = swap_step(awaiting_jupiter(), SwapEvent::JupiterReplied(Ok(up)), 0);
    text(&respond(a), 400, "Jupiter Error: bad quote");
    let up = Upstream { status: 200, body: "<html>".to_string() };
    let (_, a) = swap_step(awaiting_jupiter(), SwapEvent::JupiterReplied(Ok(up)), 0);
    text(&respond(a), 500, "Failed to parse Jupiter JSON");
    let up = Upstream { status: 200, body: "{\"swapTransaction\": \"AQ==\"}".to_string() };
    let (n, a) = swap_step(awaiting_jupiter(), SwapEvent::JupiterReplied(Ok(up)), 0);
    assert!(matches!(n, SwapState::Done));
    let r = respond(a);
    assert_eq!(r.status, 200);
    assert!(matches!(r.kind, BodyKind::Json));
    assert_eq!(r.body, "{\"swapTransaction\":\"AQ==\"}");
}

#[test]
fn swap_advance_checks_session_on_the_clock() {
    let live = make_session_token(i64::MAX, ID);
    let (_, a) = swap_advance(awaiting_session(&live), SwapEvent::UserByCookie(Ok(Some(user()))));
    assert!(matches!(a, SwapAction::FindWallet(ID)));
    let dead = make_session_token(0, ID);
    let (_, a) = swap_advance(awaiting_session(&dead), SwapEvent::UserByCookie(Ok(Some(user()))));
    text(&respond(a), 401, "Invalid or expired session");
}
