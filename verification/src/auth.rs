//! The signup and signin endpoints as state machines: each step takes the
//! outcome of the database call that the previous step asked for and decides
//! the next call or the reply.

use vstd::prelude::*;
use crate::records::{User, DbFailure, SignupRequest, SigninRequest};
use crate::http::{Reply, BodyKind, Cookie, is_text_reply, text_reply, text_reply_owned, concat_text};
use crate::json::{json_string, json_string_text};
use crate::password::{
    salt_accepted, is_canonical_salt16, is_default_phc, password_length_accepted, argon2_phc, phc_parses, password_matches, generate_salt, argon2_hash,
    phc_hash_parses, argon2_verify,
};
use crate::ids::{is_uuid_v4, new_uuid_v4};
use crate::session::{token_expiry, lemma_token_round_trip, SESSION_LIFETIME_SECS, session_token_text, make_session_token, token_live, session_outcome, lemma_fresh_session_live};
use crate::time::{MAX_TIMESTAMP, utc_now_timestamp};

verus! {

// ---------------------------------------------------------------- signup

/// Where a signup stands while it waits for the database.
pub enum SignupState {
    /// Waiting for a transaction to open.
    AwaitingTxn { email: String, username: String, password_hash: String, asset_hash: String },
    /// Waiting for the new user row to be inserted.
    AwaitingUserInsert { user_id: u128, username: String, asset_hash: String },
    /// Waiting for a wallet that no user owns yet.
    AwaitingWallet { user_id: u128, username: String, asset_hash: String },
    /// Waiting for the wallet to be given to the user.
    AwaitingAssignment { pubkey: String, username: String, asset_hash: String },
    /// Waiting for the wallet's asset password to be stored.
    AwaitingAssetStore { pubkey: String, username: String },
    /// Waiting for the transaction to commit.
    AwaitingCommit { pubkey: String, username: String },
    /// Waiting for the transaction to roll back.
    AwaitingRollback,
    /// The reply has been given.
    Done,
}

/// What the database answered.
pub enum SignupEvent {
    TxnBegun(Result<(), DbFailure>),
    UserInserted(Result<(), DbFailure>),
    /// The public key of a wallet that no user owns, if there is one.
    FreeWallet(Option<String>),
    WalletAssigned,
    AssetPasswordStored,
    Committed,
    RolledBack,
}

/// What to do next. Every database call runs inside the signup's
/// transaction.
pub enum SignupAction {
    BeginTxn,
    InsertUser { user_id: u128, email: String, password_hash: String, username: String },
    FindFreeWallet,
    AssignWallet { pubkey: String, user_id: u128 },
    StoreAssetPassword { pubkey: String, hash: String },
    Commit,
    Rollback,
    Respond(Reply),
}

/// The JSON body of a successful signup.
pub open spec fn signup_success_body(pubkey: Seq<char>, username: Seq<char>) -> Seq<char> {
    "{\"message\":\"Signup successful\",\"pubkey\":"@ + json_string_text(pubkey) + ",\"username\":"@
        + json_string_text(username) + "}"@
}

/// The signup is over, answering with a plain-text reply.
pub open spec fn signup_replies_text(next: SignupState, act: SignupAction, status: u16, msg: Seq<char>) -> bool {
    &&& next is Done
    &&& act matches SignupAction::Respond(r)
    &&& is_text_reply(r, status, msg)
}

/// How a signup begins, given the salt it drew.
pub open spec fn signup_start_outcome(
    req: SignupRequest,
    salt: Seq<char>,
    next: SignupState,
    act: SignupAction,
) -> bool {
    match argon2_phc(req.password@, salt) {
        None => signup_replies_text(next, act, 500, "Error hashing password"@),
        Some(ph) => match argon2_phc(req.asset_password@, salt) {
            None => signup_replies_text(next, act, 500, "Error hashing asset password"@),
            Some(ah) => {
                &&& next matches SignupState::AwaitingTxn {
                    email,
                    username,
                    password_hash,
                    asset_hash,
                }
                &&& email@ == req.email@
                &&& username@ == req.username@
                &&& password_hash@ == ph
                &&& asset_hash@ == ah
                &&& is_default_phc(ph, salt)
                &&& is_default_phc(ah, salt)
                &&& phc_parses(ph) && password_matches(req.password@, ph)
                &&& phc_parses(ah) && password_matches(req.asset_password@, ah)
                &&& act is BeginTxn
            },
        },
    }
}

/// Which answer each waiting state takes.
pub open spec fn signup_expects(s: SignupState, e: SignupEvent) -> bool {
    match s {
        SignupState::AwaitingTxn { .. } => e is TxnBegun,
        SignupState::AwaitingUserInsert { .. } => e is UserInserted,
        SignupState::AwaitingWallet { .. } => e is FreeWallet,
        SignupState::AwaitingAssignment { .. } => e is WalletAssigned,
        SignupState::AwaitingAssetStore { .. } => e is AssetPasswordStored,
        SignupState::AwaitingCommit { .. } => e is Committed,
        SignupState::AwaitingRollback => e is RolledBack,
        SignupState::Done => false,
    }
}

/// One signup step: from state `s` and answer `e` to the next state and
/// action; `id` is the fresh user id drawn when the transaction opens.
pub open spec fn signup_transition(
    s: SignupState,
    e: SignupEvent,
    id: u128,
    next: SignupState,
    act: SignupAction,
) -> bool {
    match s {
        SignupState::AwaitingTxn { email, username, password_hash, asset_hash } => match e {
            SignupEvent::TxnBegun(Ok(_)) => {
                &&& next matches SignupState::AwaitingUserInsert {
                    user_id: n_id,
                    username: n_username,
                    asset_hash: n_hash,
                }
                &&& n_id == id && n_username@ == username@ && n_hash@ == asset_hash@
                &&& act matches SignupAction::InsertUser {
                    user_id: a_id,
                    email: a_email,
                    password_hash: a_hash,
                    username: a_username,
                }
                &&& a_id == id && a_email@ == email@ && a_hash@ == password_hash@
                    && a_username@ == username@
            },
            SignupEvent::TxnBegun(Err(_)) => signup_replies_text(next, act, 500, "Database error"@),
            _ => false,
        },
        SignupState::AwaitingUserInsert { user_id, username, asset_hash } => match e {
            SignupEvent::UserInserted(Ok(_)) => {
                &&& next matches SignupState::AwaitingWallet {
                    user_id: n_id,
                    username: n_username,
                    asset_hash: n_hash,
                }
                &&& n_id == user_id && n_username@ == username@ && n_hash@ == asset_hash@
                &&& act is FindFreeWallet
            },
            SignupEvent::UserInserted(Err(f)) => signup_replies_text(next, act, 400, "Username or Email taken: "@ + f.message@),
            _ => false,
        },
        SignupState::AwaitingWallet { user_id, username, asset_hash } => match e {
            SignupEvent::FreeWallet(Some(pubkey)) => {
                &&& next matches SignupState::AwaitingAssignment {
                    pubkey: n_key,
                    username: n_username,
                    asset_hash: n_hash,
                }
                &&& n_key@ == pubkey@ && n_username@ == username@ && n_hash@ == asset_hash@
                &&& act matches SignupAction::AssignWallet { pubkey: a_key, user_id: a_id }
                &&& a_key@ == pubkey@ && a_id == user_id
            },
            SignupEvent::FreeWallet(None) => next is AwaitingRollback && act is Rollback,
            _ => false,
        },
        SignupState::AwaitingAssignment { pubkey, username, asset_hash } => {
            &&& e is WalletAssigned
            &&& next matches SignupState::AwaitingAssetStore { pubkey: n_key, username: n_username }
            &&& n_key@ == pubkey@ && n_username@ == username@
            &&& act matches SignupAction::StoreAssetPassword { pubkey: a_key, hash: a_hash }
            &&& a_key@ == pubkey@ && a_hash@ == asset_hash@
        },
        SignupState::AwaitingAssetStore { pubkey, username } => {
            &&& e is AssetPasswordStored
            &&& next matches SignupState::AwaitingCommit { pubkey: n_key, username: n_username }
            &&& n_key@ == pubkey@ && n_username@ == username@
            &&& act is Commit
        },
        SignupState::AwaitingCommit { pubkey, username } => {
            &&& e is Committed
            &&& next is Done
            &&& act matches SignupAction::Respond(r)
            &&& r.status == 200 && r.kind is Json && r.cookie is None
            &&& r.body@ == signup_success_body(pubkey@, username@)
        },
        SignupState::AwaitingRollback => {
            &&& e is RolledBack
            &&& next is Done
            &&& act matches SignupAction::Respond(r)
            &&& is_text_reply(r, 500, "No pre-generated wallets available!"@)
        },
        SignupState::Done => false,
    }
}

/// Begins a signup with a given salt: hashes the password, then the asset
/// password, and asks for a transaction.
pub fn signup_start_with_salt(req: SignupRequest, salt: &str) -> (r: (SignupState, SignupAction))
    requires
        salt_accepted(salt@),
    ensures
        signup_start_outcome(req, salt@, r.0, r.1),
        r.0 matches SignupState::AwaitingTxn { password_hash, .. } ==> phc_parses(password_hash@)
            && password_matches(req.password@, password_hash@),
        r.0 matches SignupState::AwaitingTxn { asset_hash, .. } ==> phc_parses(asset_hash@)
            && password_matches(req.asset_password@, asset_hash@),
        is_canonical_salt16(salt@) && password_length_accepted(req.password@)
            && password_length_accepted(req.asset_password@) ==> r.0 is AwaitingTxn,
{
    let password_hash = match argon2_hash(req.password.as_str(), salt) {
        Ok(h) => h,
        Err(_) => {
            return (
                SignupState::Done,
                SignupAction::Respond(text_reply(500, "Error hashing password")),
            );
        },
    };
    let asset_hash = match argon2_hash(req.asset_password.as_str(), salt) {
        Ok(h) => h,
        Err(_) => {
            return (
                SignupState::Done,
                SignupAction::Respond(text_reply(500, "Error hashing asset password")),
            );
        },
    };
    (
        SignupState::AwaitingTxn {
            email: req.email,
            username: req.username,
            password_hash,
            asset_hash,
        },
        SignupAction::BeginTxn,
    )
}

/// Begins a signup: draws a fresh salt, shared by both hashes.
pub fn signup_start(req: SignupRequest) -> (r: (SignupState, SignupAction))
    ensures
        exists|salt: Seq<char>| is_canonical_salt16(salt) && salt_accepted(salt) && signup_start_outcome(req, salt, r.0, r.1),
        r.0 matches SignupState::AwaitingTxn { password_hash, .. } ==> phc_parses(password_hash@)
            && password_matches(req.password@, password_hash@),
        r.0 matches SignupState::AwaitingTxn { asset_hash, .. } ==> phc_parses(asset_hash@)
            && password_matches(req.asset_password@, asset_hash@),
        password_length_accepted(req.password@) && password_length_accepted(req.asset_password@)
            ==> r.0 is AwaitingTxn,
{
    let salt = generate_salt();
    assert(salt_accepted(salt@));
    signup_start_with_salt(req, salt.as_str())
}

/// Whether `s` waits for an answer of the kind of `e`.
pub fn signup_accepts(s: &SignupState, e: &SignupEvent) -> (r: bool)
    ensures
        r == signup_expects(*s, *e),
{
    match s {
        SignupState::AwaitingTxn { .. } => matches!(e, SignupEvent::TxnBegun(_)),
        SignupState::AwaitingUserInsert { .. } => matches!(e, SignupEvent::UserInserted(_)),
        SignupState::AwaitingWallet { .. } => matches!(e, SignupEvent::FreeWallet(_)),
        SignupState::AwaitingAssignment { .. } => matches!(e, SignupEvent::WalletAssigned),
        SignupState::AwaitingAssetStore { .. } => matches!(e, SignupEvent::AssetPasswordStored),
        SignupState::AwaitingCommit { .. } => matches!(e, SignupEvent::Committed),
        SignupState::AwaitingRollback => matches!(e, SignupEvent::RolledBack),
        SignupState::Done => false,
    }
}

fn signup_success_reply(pubkey: &str, username: &str) -> (r: Reply)
    ensures
        r.status == 200 && r.kind is Json && r.cookie is None,
        r.body@ == signup_success_body(pubkey@, username@),
{
    let mut body = String::from_str("{\"message\":\"Signup successful\",\"pubkey\":");
    let k = json_string(pubkey);
    body.append(k.as_str());
    body.append(",\"username\":");
    let u = json_string(username);
    body.append(u.as_str());
    body.append("}");
    Reply { status: 200, kind: BodyKind::Json, body, cookie: None }
}

/// One signup step with a given fresh user id.
pub fn signup_step(s: SignupState, e: SignupEvent, id: u128) -> (r: (SignupState, SignupAction))
    requires
        signup_expects(s, e),
    ensures
        signup_transition(s, e, id, r.0, r.1),
{
    match s {
        SignupState::AwaitingTxn { email, username, password_hash, asset_hash } => match e {
            SignupEvent::TxnBegun(Ok(_)) => {
                let u = username.clone();
                (
                    SignupState::AwaitingUserInsert { user_id: id, username: u, asset_hash },
                    SignupAction::InsertUser { user_id: id, email, password_hash, username },
                )
            },
            _ => (SignupState::Done, SignupAction::Respond(text_reply(500, "Database error"))),
        },
        SignupState::AwaitingUserInsert { user_id, username, asset_hash } => match e {
            SignupEvent::UserInserted(Ok(_)) => (
                SignupState::AwaitingWallet { user_id, username, asset_hash },
                SignupAction::FindFreeWallet,
            ),
            SignupEvent::UserInserted(Err(f)) => (
                SignupState::Done,
                SignupAction::Respond(
                    text_reply_owned(400, concat_text("Username or Email taken: ", f.message.as_str())),
                ),
            ),
            _ => (SignupState::Done, SignupAction::Rollback),
        },
        SignupState::AwaitingWallet { user_id, username, asset_hash } => match e {
            SignupEvent::FreeWallet(Some(pubkey)) => {
                let k = pubkey.clone();
                (
                    SignupState::AwaitingAssignment { pubkey: k, username, asset_hash },
                    SignupAction::AssignWallet { pubkey, user_id },
                )
            },
            _ => (SignupState::AwaitingRollback, SignupAction::Rollback),
        },
        SignupState::AwaitingAssignment { pubkey, username, asset_hash } => {
            let k = pubkey.clone();
            (
                SignupState::AwaitingAssetStore { pubkey: k, username },
                SignupAction::StoreAssetPassword { pubkey, hash: asset_hash },
            )
        },
        SignupState::AwaitingAssetStore { pubkey, username } => (
            SignupState::AwaitingCommit { pubkey, username },
            SignupAction::Commit,
        ),
        SignupState::AwaitingCommit { pubkey, username } => (
            SignupState::Done,
            SignupAction::Respond(signup_success_reply(pubkey.as_str(), username.as_str())),
        ),
        _ => (
            SignupState::Done,
            SignupAction::Respond(text_reply(500, "No pre-generated wallets available!")),
        ),
    }
}

/// One signup step; a fresh version-4 user id is drawn when the transaction
/// has opened.
pub fn signup_advance(s: SignupState, e: SignupEvent) -> (r: (SignupState, SignupAction))
    requires
        signup_expects(s, e),
    ensures
        exists|id: u128| is_uuid_v4(id) && signup_transition(s, e, id, r.0, r.1),
{
    let id = new_uuid_v4();
    signup_step(s, e, id)
}

// ---------------------------------------------------------------- signin

/// Where a signin stands while it waits for the database.
pub enum SigninState {
    /// Waiting for the user with the given email.
    AwaitingUser { password: String },
    /// Waiting for the new session token to be stored on the user.
    AwaitingCookieSave { username: String, token: String },
    /// The reply has been given.
    Done,
}

/// What the database answered.
pub enum SigninEvent {
    UserFound(Option<User>),
    CookieSaved(Result<(), DbFailure>),
}

/// What to do next.
pub enum SigninAction {
    FindUserByEmail(String),
    SaveCookie { user_id: u128, token: String },
    Respond(Reply),
}

/// The JSON body of a successful signin.
pub open spec fn signin_success_body(username: Seq<char>) -> Seq<char> {
    "{\"status\":\"success\",\"username\":"@ + json_string_text(username) + "}"@
}

/// The session cookie: `session_token`, path `/`, HTTP only, one day.
pub open spec fn is_session_cookie(c: Cookie, token: Seq<char>) -> bool {
    &&& c.name@ == "session_token"@
    &&& c.value@ == token
    &&& c.path@ == "/"@
    &&& c.http_only
    &&& c.max_age_secs == SESSION_LIFETIME_SECS
}

pub open spec fn signin_expects(s: SigninState, e: SigninEvent) -> bool {
    match s {
        SigninState::AwaitingUser { .. } => e is UserFound,
        SigninState::AwaitingCookieSave { .. } => e is CookieSaved,
        SigninState::Done => false,
    }
}

/// The signin is over, answering with a plain-text reply.
pub open spec fn signin_replies_text(next: SigninState, act: SigninAction, status: u16, msg: Seq<char>) -> bool {
    &&& next is Done
    &&& act matches SigninAction::Respond(r)
    &&& is_text_reply(r, status, msg)
}

/// One signin step at time `now`, with `id` the random part of a new token.
pub open spec fn signin_transition(
    s: SigninState,
    e: SigninEvent,
    now: i64,
    id: u128,
    next: SigninState,
    act: SigninAction,
) -> bool {
    match s {
        SigninState::AwaitingUser { password } => match e {
            SigninEvent::UserFound(None) => signin_replies_text(next, act, 401, "Invalild email or password"@),
            SigninEvent::UserFound(Some(user)) => if !phc_parses(user.password_hash@) {
                signin_replies_text(next, act, 500, "Error parsing stored hash"@)
            } else if !password_matches(password@, user.password_hash@) {
                signin_replies_text(next, act, 401, "Invalid Email or Password"@)
            } else {
                let token = session_token_text(now + SESSION_LIFETIME_SECS, id);
                &&& next matches SigninState::AwaitingCookieSave { username: n_user, token: n_token }
                &&& n_user@ == user.username@ && n_token@ == token
                &&& act matches SigninAction::SaveCookie { user_id: a_id, token: a_token }
                &&& a_id == user.user_id && a_token@ == token
            },
            _ => false,
        },
        SigninState::AwaitingCookieSave { username, token } => match e {
            SigninEvent::CookieSaved(Err(_)) => signin_replies_text(next, act, 500, "Failed to create session"@),
            SigninEvent::CookieSaved(Ok(_)) => {
                &&& next is Done
                &&& act matches SigninAction::Respond(r)
                &&& r.status == 200 && r.kind is Json
                &&& r.body@ == signin_success_body(username@)
                &&& r.cookie matches Some(c) && is_session_cookie(c, token@)
            },
            _ => false,
        },
        SigninState::Done => false,
    }
}

/// Begins a signin: looks the user up by email.
pub fn signin_start(req: SigninRequest) -> (r: (SigninState, SigninAction))
    ensures
        r.0 matches SigninState::AwaitingUser { password } && password@ == req.password@,
        r.1 matches SigninAction::FindUserByEmail(email) && email@ == req.email@,
{
    (SigninState::AwaitingUser { password: req.password }, SigninAction::FindUserByEmail(req.email))
}

pub fn signin_accepts(s: &SigninState, e: &SigninEvent) -> (r: bool)
    ensures
        r == signin_expects(*s, *e),
{
    match s {
        SigninState::AwaitingUser { .. } => matches!(e, SigninEvent::UserFound(_)),
        SigninState::AwaitingCookieSave { .. } => matches!(e, SigninEvent::CookieSaved(_)),
        SigninState::Done => false,
    }
}

/// Whether a signin with these credentials goes on to issue a session: the
/// stored hash parses and the password verifies against it.
pub open spec fn signin_issues_session(s: SigninState, e: SigninEvent) -> bool {
    &&& s matches SigninState::AwaitingUser { password }
    &&& e matches SigninEvent::UserFound(Some(user))
    &&& phc_parses(user.password_hash@)
    &&& password_matches(password@, user.password_hash@)
}

/// The reply that refuses the credentials, if they are refused: the stored
/// hash must parse and the password must verify against it.
fn credential_failure(password: &str, user: &User) -> (r: Option<Reply>)
    ensures
        r is None <==> phc_parses(user.password_hash@) && password_matches(password@, user.password_hash@),
        r matches Some(rep) ==> if !phc_parses(user.password_hash@) {
            is_text_reply(rep, 500, "Error parsing stored hash"@)
        } else {
            is_text_reply(rep, 401, "Invalid Email or Password"@)
        },
{
    if !phc_hash_parses(user.password_hash.as_str()) {
        return Some(text_reply(500, "Error parsing stored hash"));
    }
    if !argon2_verify(password, user.password_hash.as_str()) {
        return Some(text_reply(401, "Invalid Email or Password"));
    }
    None
}

/// Issues the session for `user`: a token ending a day after `now`, to be
/// stored on the user.
fn issue_session(user: User, now: i64, id: u128) -> (r: (SigninState, SigninAction))
    requires
        now <= MAX_TIMESTAMP - SESSION_LIFETIME_SECS,
    ensures
        r.0 matches SigninState::AwaitingCookieSave { username, token } && username@ == user.username@
            && token@ == session_token_text(now + SESSION_LIFETIME_SECS, id),
        r.1 matches SigninAction::SaveCookie { user_id, token } && user_id == user.user_id
            && token@ == session_token_text(now + SESSION_LIFETIME_SECS, id),
{
    let token = make_session_token(now + SESSION_LIFETIME_SECS, id);
    let saved = token.clone();
    (
        SigninState::AwaitingCookieSave { username: user.username, token },
        SigninAction::SaveCookie { user_id: user.user_id, token: saved },
    )
}

/// One signin step at time `now` with a given token id. The session ends a
/// day after `now`, which chrono must be able to represent.
pub fn signin_step(s: SigninState, e: SigninEvent, now: i64, id: u128) -> (r: (SigninState, SigninAction))
    requires
        signin_expects(s, e),
        now <= MAX_TIMESTAMP - SESSION_LIFETIME_SECS,
    ensures
        signin_transition(s, e, now, id, r.0, r.1),
{
    match s {
        SigninState::AwaitingUser { password } => match e {
            SigninEvent::UserFound(Some(user)) => match credential_failure(password.as_str(), &user) {
                Some(reply) => (SigninState::Done, SigninAction::Respond(reply)),
                None => issue_session(user, now, id),
            },
            _ => (
                SigninState::Done,
                SigninAction::Respond(text_reply(401, "Invalild email or password")),
            ),
        },
        SigninState::AwaitingCookieSave { username, token } => match e {
            SigninEvent::CookieSaved(Ok(_)) => {
                let mut body = String::from_str("{\"status\":\"success\",\"username\":");
                let u = json_string(username.as_str());
                body.append(u.as_str());
                body.append("}");
                let cookie = Cookie {
                    name: String::from_str("session_token"),
                    value: token,
                    path: String::from_str("/"),
                    http_only: true,
                    max_age_secs: SESSION_LIFETIME_SECS,
                };
                (
                    SigninState::Done,
                    SigninAction::Respond(
                        Reply { status: 200, kind: BodyKind::Json, body, cookie: Some(cookie) },
                    ),
                )
            },
            _ => (
                SigninState::Done,
                SigninAction::Respond(text_reply(500, "Failed to create session")),
            ),
        },
        SigninState::Done => (SigninState::Done, SigninAction::Respond(text_reply(500, "Failed to create session"))),
    }
}

/// A signin step taken at some time of the clock, no later than a day before
/// the end of chrono's range, with some version-4 token id.
pub open spec fn signin_advanced(s: SigninState, e: SigninEvent, next: SigninState, act: SigninAction) -> bool {
    exists|now: i64, id: u128|
        0 <= now <= MAX_TIMESTAMP - SESSION_LIFETIME_SECS && is_uuid_v4(id)
            && #[trigger] signin_transition(s, e, now, id, next, act)
}

/// One signin step with a fresh token id. The clock is read only when a
/// session is issued; `None` only there, where the clock stands within a day
/// of the end of chrono's range and adding the session lifetime to it
/// overflows. Every other step is taken.
pub fn signin_advance(s: SigninState, e: SigninEvent) -> (r: Option<(SigninState, SigninAction)>)
    requires
        signin_expects(s, e),
    ensures
        !signin_issues_session(s, e) ==> r is Some,
        r matches Some(p) ==> signin_advanced(s, e, p.0, p.1),
{
    let ghost witness: u128 = 0x4000_8000_0000_0000_0000u128;
    proof {
        assert(witness & 0xF000_C000_0000_0000_0000u128 == 0x4000_8000_0000_0000_0000u128) by (bit_vector)
            requires
                witness == 0x4000_8000_0000_0000_0000u128,
        ;
    }
    let ghost s0 = s;
    let ghost e0 = e;
    match s {
        SigninState::AwaitingUser { password } => match e {
            SigninEvent::UserFound(Some(user)) => {
                let ghost u0 = user;
                match credential_failure(password.as_str(), &user) {
                    Some(reply) => {
                        let res = (SigninState::Done, SigninAction::Respond(reply));
                        assert(signin_transition(s0, e0, 0, witness, res.0, res.1));
                        assert(signin_advanced(s0, e0, res.0, res.1));
                        Some(res)
                    },
                    None => {
                        let now = utc_now_timestamp();
                        if now > MAX_TIMESTAMP - SESSION_LIFETIME_SECS {
                            return None;
                        }
                        let id = new_uuid_v4();
                        let res = issue_session(user, now, id);
                        assert(signin_transition(s0, e0, now, id, res.0, res.1));
                        assert(signin_advanced(s0, e0, res.0, res.1));
                        Some(res)
                    },
                }
            },
            _ => {
                let res = signin_step(SigninState::AwaitingUser { password }, e, 0, 0);
                assert(signin_transition(s0, e0, 0, witness, res.0, res.1));
                assert(signin_advanced(s0, e0, res.0, res.1));
                Some(res)
            },
        },
        _ => {
            let res = signin_step(s, e, 0, 0);
            assert(signin_transition(s0, e0, 0, witness, res.0, res.1));
            assert(signin_advanced(s0, e0, res.0, res.1));
            Some(res)
        },
    }
}

// ---------------------------------------------------------------- laws

/// A signup answers 200 only once its transaction has committed.
pub proof fn lemma_signup_ok_only_after_commit(
    s: SignupState,
    e: SignupEvent,
    id: u128,
    next: SignupState,
    act: SignupAction,
)
    requires
        signup_transition(s, e, id, next, act),
        act matches SignupAction::Respond(r) && r.status == 200,
    ensures
        s is AwaitingCommit,
        e is Committed,
{
}

/// A password hash that signup stored lets the same password sign in: the
/// signin asks to store a session token that ends a day after `now`.
pub proof fn lemma_stored_hash_signs_in(
    password: String,
    user: User,
    now: i64,
    id: u128,
    next: SigninState,
    act: SigninAction,
)
    requires
        phc_parses(user.password_hash@),
        password_matches(password@, user.password_hash@),
        signin_transition(
            SigninState::AwaitingUser { password },
            SigninEvent::UserFound(Some(user)),
            now,
            id,
            next,
            act,
        ),
    ensures
        act matches SigninAction::SaveCookie { user_id, token } && user_id == user.user_id
            && token@ == session_token_text(now + SESSION_LIFETIME_SECS, id),
{
}

/// The token that a signin at `now` stores is live at `t` exactly when `t`
/// is no more than a day after `now`.
pub proof fn lemma_signin_token_lifetime(
    s: SigninState,
    e: SigninEvent,
    now: i64,
    id: u128,
    next: SigninState,
    act: SigninAction,
    t: i64,
)
    requires
        now <= MAX_TIMESTAMP - SESSION_LIFETIME_SECS,
        signin_transition(s, e, now, id, next, act),
        act is SaveCookie,
    ensures
        act matches SigninAction::SaveCookie { token, .. } && (token_live(token@, t) <==> t <= now
            + SESSION_LIFETIME_SECS),
{
    lemma_fresh_session_live(now, id, t);
}

/// The stored hashes are never the passwords themselves, unless a password
/// is itself a default Argon2 PHC string for the drawn salt (the prefix, that
/// salt, and 43 base64 characters).
pub proof fn lemma_stored_hashes_are_not_passwords(
    req: SignupRequest,
    salt: Seq<char>,
    next: SignupState,
    act: SignupAction,
)
    requires
        signup_start_outcome(req, salt, next, act),
        next is AwaitingTxn,
    ensures
        next matches SignupState::AwaitingTxn { password_hash, asset_hash, .. } && (!is_default_phc(
            req.password@,
            salt,
        ) ==> password_hash@ != req.password@) && (!is_default_phc(req.asset_password@, salt)
            ==> asset_hash@ != req.asset_password@),
{
}

/// A run of the signup machine: states, the answers that moved it on, the
/// fresh ids drawn, and the actions asked for (`actions[0]` at the start,
/// `actions[i + 1]` after answer `i`).
pub open spec fn signup_run(
    states: Seq<SignupState>,
    events: Seq<SignupEvent>,
    ids: Seq<u128>,
    actions: Seq<SignupAction>,
) -> bool {
    &&& states.len() == events.len() + 1
    &&& actions.len() == states.len()
    &&& ids.len() == events.len()
    &&& states[0] is AwaitingTxn
    &&& actions[0] is BeginTxn
    &&& forall|i: int|
        #![trigger events[i]]
        0 <= i < events.len() ==> signup_transition(
            states[i],
            events[i],
            ids[i],
            states[i + 1],
            actions[i + 1],
        )
}

/// How far along the successful path a state stands.
pub open spec fn signup_stage(s: SignupState) -> int {
    match s {
        SignupState::AwaitingTxn { .. } => 0,
        SignupState::AwaitingUserInsert { .. } => 1,
        SignupState::AwaitingWallet { .. } => 2,
        SignupState::AwaitingAssignment { .. } => 3,
        SignupState::AwaitingAssetStore { .. } => 4,
        SignupState::AwaitingCommit { .. } => 5,
        SignupState::AwaitingRollback => 6,
        SignupState::Done => 7,
    }
}

proof fn lemma_signup_stage_step(s: SignupState, e: SignupEvent, id: u128, n: SignupState, a: SignupAction)
    requires
        signup_transition(s, e, id, n, a),
        signup_stage(n) <= 5,
    ensures
        signup_stage(n) == signup_stage(s) + 1,
{
}

proof fn lemma_signup_run_stage(
    states: Seq<SignupState>,
    events: Seq<SignupEvent>,
    ids: Seq<u128>,
    actions: Seq<SignupAction>,
    i: int,
)
    requires
        signup_run(states, events, ids, actions),
        0 <= i < states.len(),
        signup_stage(states[i]) <= 5,
    ensures
        signup_stage(states[i]) == i,
    decreases i,
{
    if i > 0 {
        assert(signup_transition(states[i - 1], events[i - 1], ids[i - 1], states[i], actions[i]));
        lemma_signup_stage_step(states[i - 1], events[i - 1], ids[i - 1], states[i], actions[i]);
        lemma_signup_run_stage(states, events, ids, actions, i - 1);
    }
}

/// The shape of a signup that reaches its commit: the user row is inserted
/// with the fresh id, one free wallet is looked up, exactly that wallet is
/// given to the new user, and the asset password is stored under that
/// wallet's key, each once and in this order, before the commit.
pub open spec fn signup_committed_shape(events: Seq<SignupEvent>, ids: Seq<u128>, actions: Seq<SignupAction>) -> bool {
    &&& actions.len() > 5
    &&& actions[0] is BeginTxn
    &&& actions[1] matches SignupAction::InsertUser { user_id, .. } && user_id == ids[0]
    &&& actions[2] is FindFreeWallet
    &&& events[2] matches SignupEvent::FreeWallet(Some(free))
    &&& actions[3] matches SignupAction::AssignWallet { pubkey, user_id } && pubkey@ == free@ && user_id == ids[0]
    &&& actions[4] matches SignupAction::StoreAssetPassword { pubkey, .. } && pubkey@ == free@
    &&& actions[5] is Commit
}

/// A signup commits only once, at its sixth action, after inserting one
/// user, claiming the one wallet that the free-wallet lookup named for that
/// user, and storing one asset password under that wallet's key.
pub proof fn lemma_signup_commit_shape(
    states: Seq<SignupState>,
    events: Seq<SignupEvent>,
    ids: Seq<u128>,
    actions: Seq<SignupAction>,
    k: int,
)
    requires
        signup_run(states, events, ids, actions),
        0 <= k < actions.len(),
        actions[k] is Commit,
    ensures
        k == 5,
        signup_committed_shape(events, ids, actions),
{
    assert(k > 0);
    assert(signup_transition(states[k - 1], events[k - 1], ids[k - 1], states[k], actions[k]));
    assert(states[k - 1] is AwaitingAssetStore);
    lemma_signup_run_stage(states, events, ids, actions, k - 1);
    assert(signup_transition(states[0], events[0], ids[0], states[1], actions[1]));
    assert(signup_transition(states[1], events[1], ids[1], states[2], actions[2]));
    assert(signup_transition(states[2], events[2], ids[2], states[3], actions[3]));
    assert(signup_transition(states[3], events[3], ids[3], states[4], actions[4]));
    assert(signup_transition(states[4], events[4], ids[4], states[5], actions[5]));
    assert(states[3] is AwaitingAssignment);
    assert(states[2] is AwaitingWallet);
    assert(states[1] is AwaitingUserInsert);
}

/// Signin answers 200 only once the session token has been stored.
pub proof fn lemma_signin_ok_only_after_cookie_saved(
    s: SigninState,
    e: SigninEvent,
    now: i64,
    id: u128,
    next: SigninState,
    act: SigninAction,
)
    requires
        signin_transition(s, e, now, id, next, act),
        act matches SigninAction::Respond(r) && r.status == 200,
    ensures
        s is AwaitingCookieSave,
        e matches SigninEvent::CookieSaved(Ok(_)),
{
}

/// Signin asks to store a cookie only on the user that the email lookup
/// found, and only once the password verified against that user's hash.
pub proof fn lemma_signin_cookie_only_for_verified_user(
    s: SigninState,
    e: SigninEvent,
    now: i64,
    id: u128,
    next: SigninState,
    act: SigninAction,
)
    requires
        signin_transition(s, e, now, id, next, act),
        act is SaveCookie,
    ensures
        signin_issues_session(s, e),
        e matches SigninEvent::UserFound(Some(u)) && act matches SigninAction::SaveCookie { user_id, .. }
            && user_id == u.user_id,
{
}

/// The user row that a signup inserts carries a hash of the signup's own
/// password: signing in with that password against the inserted row issues
/// a session, at every time and with every token id.
pub proof fn lemma_inserted_user_signs_in(
    req: SignupRequest,
    salt: Seq<char>,
    s0: SignupState,
    a0: SignupAction,
    e: SignupEvent,
    id: u128,
    s1: SignupState,
    a1: SignupAction,
    user: User,
    password: String,
    now: i64,
    token_id: u128,
    next: SigninState,
    act: SigninAction,
)
    requires
        signup_start_outcome(req, salt, s0, a0),
        signup_transition(s0, e, id, s1, a1),
        a1 matches SignupAction::InsertUser { password_hash, .. } && user.password_hash@ == password_hash@,
        password@ == req.password@,
        signin_transition(
            SigninState::AwaitingUser { password },
            SigninEvent::UserFound(Some(user)),
            now,
            token_id,
            next,
            act,
        ),
    ensures
        act matches SigninAction::SaveCookie { user_id, token } && user_id == user.user_id
            && token@ == session_token_text(now + SESSION_LIFETIME_SECS, token_id),
{
}

/// The stored asset-password hash that a signup writes under its wallet
/// verifies the signup's asset password.
pub proof fn lemma_stored_asset_hash_verifies(
    req: SignupRequest,
    salt: Seq<char>,
    states: Seq<SignupState>,
    events: Seq<SignupEvent>,
    ids: Seq<u128>,
    actions: Seq<SignupAction>,
    k: int,
)
    requires
        signup_start_outcome(req, salt, states[0], actions[0]),
        signup_run(states, events, ids, actions),
        0 <= k < actions.len(),
        actions[k] is StoreAssetPassword,
    ensures
        actions[k] matches SignupAction::StoreAssetPassword { hash, .. } && phc_parses(hash@)
            && password_matches(req.asset_password@, hash@),
    decreases k,
{
    assert(k > 0);
    assert(signup_transition(states[k - 1], events[k - 1], ids[k - 1], states[k], actions[k]));
    lemma_signup_run_stage(states, events, ids, actions, k - 1);
    assert(signup_transition(states[0], events[0], ids[0], states[1], actions[1]));
    assert(signup_transition(states[1], events[1], ids[1], states[2], actions[2]));
    assert(signup_transition(states[2], events[2], ids[2], states[3], actions[3]));
    assert(states[2] is AwaitingWallet);
    assert(states[1] is AwaitingUserInsert);
}

/// In every signup run, the user row that is inserted carries a hash that
/// parses and verifies the signup's own password.
pub proof fn lemma_inserted_hash_verifies(
    req: SignupRequest,
    salt: Seq<char>,
    states: Seq<SignupState>,
    events: Seq<SignupEvent>,
    ids: Seq<u128>,
    actions: Seq<SignupAction>,
    k: int,
)
    requires
        signup_start_outcome(req, salt, states[0], actions[0]),
        signup_run(states, events, ids, actions),
        0 <= k < actions.len(),
        actions[k] is InsertUser,
    ensures
        k == 1,
        actions[k] matches SignupAction::InsertUser { password_hash, .. } && phc_parses(password_hash@)
            && password_matches(req.password@, password_hash@),
{
    assert(k > 0);
    assert(signup_transition(states[k - 1], events[k - 1], ids[k - 1], states[k], actions[k]));
    assert(states[k - 1] is AwaitingTxn);
    lemma_signup_run_stage(states, events, ids, actions, k - 1);
}

/// A signin whose password verifies issues a fresh session whatever cookie
/// the user already holds: the new token ends a day after `now`.
pub proof fn lemma_signin_replaces_any_cookie(
    password: String,
    user: User,
    now: i64,
    id: u128,
    next: SigninState,
    act: SigninAction,
)
    requires
        now <= MAX_TIMESTAMP - SESSION_LIFETIME_SECS,
        phc_parses(user.password_hash@),
        password_matches(password@, user.password_hash@),
        signin_transition(
            SigninState::AwaitingUser { password },
            SigninEvent::UserFound(Some(user)),
            now,
            id,
            next,
            act,
        ),
    ensures
        act matches SigninAction::SaveCookie { user_id, token } && user_id == user.user_id && token_expiry(
            token@,
        ) == Some((now + SESSION_LIFETIME_SECS) as i64),
{
    lemma_token_round_trip((now + SESSION_LIFETIME_SECS) as i64, id);
}

/// Signing in and then checking the session: once the token that a signin
/// at `now` stored is found on the user, the session check gives that user
/// back at every time `t` up to a day after `now`, and nothing after.
pub proof fn lemma_signin_session_checks(
    s: SigninState,
    e: SigninEvent,
    now: i64,
    id: u128,
    next: SigninState,
    act: SigninAction,
    user: User,
    t: i64,
)
    requires
        now <= MAX_TIMESTAMP - SESSION_LIFETIME_SECS,
        signin_transition(s, e, now, id, next, act),
        act is SaveCookie,
    ensures
        act matches SigninAction::SaveCookie { token, .. } && session_outcome(
            Ok(Some(user)),
            token@,
            t,
        ) == (if t <= now + SESSION_LIFETIME_SECS {
            Some(user)
        } else {
            None
        }),
{
    lemma_fresh_session_live(now, id, t);
}

} // verus!
