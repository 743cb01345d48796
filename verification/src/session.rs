//! Session tokens: `<expiry timestamp>:<uuid>`, valid until the expiry.

use vstd::prelude::*;
use crate::text::{int_text, parse_i64_spec, parse_i64, push_char, push_i64_text, lemma_parse_int_text};
use crate::ids::{uuid_text, uuid_to_text, lemma_uuid_text_has_no_colon};
use crate::records::{User, DbFailure};
use crate::time::{utc_now_timestamp, MAX_TIMESTAMP};

verus! {

/// How long a session lasts, in seconds (24 hours).
pub const SESSION_LIFETIME_SECS: i64 = 86400;

/// The pieces of `s` between occurrences of `sep`, as std's `str::split`
/// yields them: one more piece than there are separators.
pub open spec fn split_on(s: Seq<char>, sep: char) -> Seq<Seq<char>>
    decreases s.len(),
{
    if s.len() == 0 {
        seq![Seq::<char>::empty()]
    } else {
        let rest = split_on(s.drop_last(), sep);
        if s.last() == sep {
            rest.push(Seq::<char>::empty())
        } else {
            rest.update(rest.len() - 1, rest.last().push(s.last()))
        }
    }
}

/// The text of the token for a session ending at `expiry`.
pub open spec fn session_token_text(expiry: int, id: u128) -> Seq<char> {
    int_text(expiry) + seq![':'] + uuid_text(id)
}

/// The expiry a token carries: it splits at `:` into exactly two pieces and
/// the first is an `i64` in std's grammar.
pub open spec fn token_expiry(token: Seq<char>) -> Option<i64> {
    let parts = split_on(token, ':');
    if parts.len() == 2 {
        parse_i64_spec(parts[0])
    } else {
        None
    }
}

/// A token is live at `now` when it carries an expiry that `now` has not
/// passed.
pub open spec fn token_live(token: Seq<char>, now: i64) -> bool {
    match token_expiry(token) {
        Some(expiry) => now <= expiry,
        None => false,
    }
}

/// What a session check answers, given the user found by the token (or the
/// database failure) and the time.
pub open spec fn session_outcome(
    lookup: Result<Option<User>, DbFailure>,
    token: Seq<char>,
    now: i64,
) -> Option<User> {
    match lookup {
        Ok(Some(user)) => if token_live(token, now) {
            Some(user)
        } else {
            None
        },
        _ => None,
    }
}

proof fn lemma_split_on_nonempty(s: Seq<char>, sep: char)
    ensures
        split_on(s, sep).len() >= 1,
    decreases s.len(),
{
    if s.len() > 0 {
        lemma_split_on_nonempty(s.drop_last(), sep);
    }
}

/// Splitting `a`, a separator, then `b`, where neither holds the separator,
/// gives the two pieces `a` and `b`.
proof fn lemma_split_on_pair(a: Seq<char>, b: Seq<char>, sep: char)
    requires
        forall|i: int| 0 <= i < a.len() ==> a[i] != sep,
        forall|i: int| 0 <= i < b.len() ==> b[i] != sep,
    ensures
        split_on(a + seq![sep] + b, sep) =~= seq![a, b],
    decreases b.len(),
{
    let s = a + seq![sep] + b;
    if b.len() == 0 {
        lemma_split_on_single(a, sep);
        assert(s.drop_last() =~= a);
        assert(s.last() == sep);
        assert(split_on(s, sep) == split_on(a, sep).push(Seq::<char>::empty()));
        assert(b =~= Seq::<char>::empty());
    } else {
        lemma_split_on_pair(a, b.drop_last(), sep);
        assert(s.drop_last() =~= a + seq![sep] + b.drop_last());
        assert(b.drop_last().push(b.last()) =~= b);
        assert(s.last() == b.last());
        assert(b.last() != sep);
        let rest = split_on(s.drop_last(), sep);
        assert(rest =~= seq![a, b.drop_last()]);
        assert(split_on(s, sep) == rest.update(1, b.drop_last().push(b.last())));
    }
}

/// A string without the separator is a single piece.
proof fn lemma_split_on_single(a: Seq<char>, sep: char)
    requires
        forall|i: int| 0 <= i < a.len() ==> a[i] != sep,
    ensures
        split_on(a, sep) =~= seq![a],
    decreases a.len(),
{
    if a.len() > 0 {
        lemma_split_on_single(a.drop_last(), sep);
        assert(a.drop_last().push(a.last()) =~= a);
        assert(a.last() != sep);
        let rest = split_on(a.drop_last(), sep);
        assert(rest.len() == 1 && rest.last() == a.drop_last());
        assert(split_on(a, sep) == rest.update(0, a.drop_last().push(a.last())));
        assert(rest.update(0, a) =~= seq![a]);
    } else {
        assert(a =~= Seq::<char>::empty());
    }
}

/// Builds the token for a session ending at `expiry` with the random part
/// `id`: `format!("{}:{}", expiry, Uuid::from_u128(id))`.
pub fn make_session_token(expiry: i64, id: u128) -> (r: String)
    ensures
        r@ == session_token_text(expiry as int, id),
{
    let mut s = String::new();
    push_i64_text(&mut s, expiry);
    push_char(&mut s, ':');
    let u = uuid_to_text(id);
    s.append(u.as_str());
    assert(s@ =~= session_token_text(expiry as int, id));
    s
}

/// The expiry that `token` carries, if it is well formed.
pub fn session_token_expiry(token: &str) -> (r: Option<i64>)
    ensures
        r == token_expiry(token@),
{
    let n = token.unicode_len();
    let mut pieces: usize = 1;
    let mut first = String::new();
    let mut i: usize = 0;
    proof {
        assert(token@.take(0) =~= Seq::<char>::empty());
    }
    while i < n
        invariant
            n == token@.len(),
            i <= n,
            1 <= pieces <= 3,
            pieces == (if split_on(token@.take(i as int), ':').len() < 3 {
                split_on(token@.take(i as int), ':').len()
            } else {
                3
            }),
            first@ == split_on(token@.take(i as int), ':')[0],
        decreases n - i,
    {
        let c = token.get_char(i);
        let ghost prev = split_on(token@.take(i as int), ':');
        proof {
            lemma_split_on_nonempty(token@.take(i as int), ':');
            assert(token@.take(i + 1).drop_last() =~= token@.take(i as int));
            assert(token@.take(i + 1).last() == c);
        }
        if c == ':' {
            if pieces < 3 {
                pieces = pieces + 1;
            }
        } else if pieces == 1 {
            push_char(&mut first, c);
        }
        i = i + 1;
    }
    assert(token@.take(n as int) =~= token@);
    if pieces == 2 {
        parse_i64(first.as_str())
    } else {
        None
    }
}

/// Whether `token` is live at `now`.
pub fn session_live_at(token: &str, now: i64) -> (r: bool)
    ensures
        r == token_live(token@, now),
{
    match session_token_expiry(token) {
        Some(expiry) => !(now > expiry),
        None => false,
    }
}

/// The session check at a given time: the user that the token was found on,
/// if the token is live at `now`.
pub fn check_session_at(lookup: Result<Option<User>, DbFailure>, token: &str, now: i64) -> (r:
    Option<User>)
    ensures
        r == session_outcome(lookup, token@, now),
{
    match lookup {
        Ok(Some(user)) => {
            if session_live_at(token, now) {
                Some(user)
            } else {
                None
            }
        },
        _ => None,
    }
}

/// The session check: `lookup` is what the database answered for the user
/// whose stored cookie equals `token`; the check reads the clock and keeps
/// the user only while the token is live.
pub fn check_session(lookup: Result<Option<User>, DbFailure>, token: &str) -> (r: Option<User>)
    ensures
        exists|now: i64| 0 <= now <= MAX_TIMESTAMP && r == session_outcome(lookup, token@, now),
{
    let now = utc_now_timestamp();
    check_session_at(lookup, token, now)
}

/// A token minted for a session ending at `expiry` carries that expiry.
pub proof fn lemma_token_round_trip(expiry: i64, id: u128)
    ensures
        token_expiry(session_token_text(expiry as int, id)) == Some(expiry),
{
    let a = int_text(expiry as int);
    let b = uuid_text(id);
    lemma_uuid_text_has_no_colon(id);
    crate::text::lemma_nat_digits(if expiry < 0 { (-(expiry as int)) as nat } else { expiry as nat });
    assert forall|i: int| 0 <= i < a.len() implies a[i] != ':' by {
        if expiry < 0 {
            if i > 0 {
                assert(a[i] == a.drop_first()[i - 1]);
                assert(a.drop_first() =~= crate::text::nat_digits((-(expiry as int)) as nat));
            }
        }
    }
    lemma_split_on_pair(a, b, ':');
    lemma_parse_int_text(expiry);
}

/// A session issued at `issued` (lasting `SESSION_LIFETIME_SECS`) is live at
/// `now` exactly when `now` is no later than its expiry.
pub proof fn lemma_fresh_session_live(issued: i64, id: u128, now: i64)
    requires
        issued <= i64::MAX - SESSION_LIFETIME_SECS,
    ensures
        token_live(session_token_text(issued + SESSION_LIFETIME_SECS, id), now) <==> now <= issued
            + SESSION_LIFETIME_SECS,
{
    lemma_token_round_trip((issued + SESSION_LIFETIME_SECS) as i64, id);
}

} // verus!
