//! Plain records exchanged with the database and the HTTP layer.

use vstd::prelude::*;

verus! {

/// A row of the `users` table.
pub struct User {
    /// The user's id, a version-4 UUID as its 128-bit value.
    pub user_id: u128,
    pub email: String,
    pub password_hash: String,
    pub username: String,
    /// The current session token, if the user has signed in.
    pub cookie: Option<String>,
}

/// A database call that failed; `message` is the database's own wording.
pub struct DbFailure {
    pub message: String,
}

/// The body of a signup request.
pub struct SignupRequest {
    pub email: String,
    pub password: String,
    pub username: String,
    pub asset_password: String,
}

/// The body of a signin request.
pub struct SigninRequest {
    pub email: String,
    pub password: String,
}

/// The query of a quote request.
pub struct QuoteRequest {
    pub input_mint: String,
    pub output_mint: String,
    pub amount: u64,
    pub slippage_bps: u32,
}

/// The body of a swap request; `quote_response` is the quote as compact JSON
/// text.
pub struct SwapRequest {
    pub quote_response: String,
}

/// A row of the `key_shares` table of one signing node: the wallet's public
/// key in hex and that node's secret share.
pub struct Model {
    pub pubkey: String,
    pub share_blob: Vec<u8>,
}

} // verus!
