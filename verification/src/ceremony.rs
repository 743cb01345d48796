//! The dealer ceremony that provisions sharded wallets: each wallet's key is
//! split 2-of-3 by a trusted dealer, each signing node gets one share, and
//! the backend learns the wallet's public key.

use vstd::prelude::*;
use crate::records::Model;
use crate::encoding::{hex_encode, hex_encode_text, hex_decode_text, lemma_hex_round_trip};

verus! {

broadcast use vstd::seq_lib::group_to_multiset_ensures;

/// How many wallets one ceremony provisions.
pub const WALLET_COUNT: u32 = 100;

/// How many signing nodes hold a share of each wallet.
pub const SIGNER_COUNT: u16 = 3;

/// How many shares it takes to sign.
pub const SIGNING_THRESHOLD: u16 = 2;

/// One participant's share as the dealer hands it out: the participant's
/// identifier and its secret signing share, both as frost serialises them.
pub struct DealerShare {
    pub identifier: Vec<u8>,
    pub secret: Vec<u8>,
}

/// What the dealer produced: the group's public key, the threshold that
/// frost records in the public key package, and the shares.
pub struct DealerKeys {
    pub group_key: Vec<u8>,
    pub min_signers: Option<u16>,
    pub shares: Vec<DealerShare>,
}

/// The 32-byte little-endian encoding of a small scalar `n`, as frost
/// serialises the identifier `n`.
pub open spec fn identifier_bytes(n: nat) -> Seq<u8> {
    Seq::new(
        32,
        |j: int|
            if j == 0 {
                (n % 256) as u8
            } else if j == 1 {
                ((n / 256) % 256) as u8
            } else {
                0u8
            },
    )
}

pub open spec fn share_identifiers(s: Seq<DealerShare>) -> Seq<Seq<u8>> {
    s.map_values(|d: DealerShare| d.identifier@)
}

pub open spec fn share_secrets(s: Seq<DealerShare>) -> Seq<Seq<u8>> {
    s.map_values(|d: DealerShare| d.secret@)
}

/// The serialised group verifying key that belongs to shares with these
/// identifiers and signing shares: frost's `keys::reconstruct` on the key
/// packages they make (Lagrange interpolation at zero), then
/// `VerifyingKey::from` and `serialize`.
pub uninterp spec fn frost_group_key(identifiers: Seq<Seq<u8>>, secrets: Seq<Seq<u8>>) -> Seq<u8>;

/// One wallet, ready to be stored: its public key in hex, the row for each
/// signing node (node `i` gets row `i`), and the statement that registers the
/// wallet with the backend.
pub struct WalletProvision {
    pub pubkey_hex: String,
    pub node_rows: Vec<Model>,
    pub balance_sql: String,
}

/// frost-ed25519's `keys::generate_with_dealer(max, min,
/// IdentifierList::Default, thread_rng())`, with the group's verifying key
/// and each share written out by frost's `serialize` and the threshold read
/// back from the public key package; an error is carried as its message.
/// frost refuses exactly the signer counts with `min_signers < 2`,
/// `max_signers < 2` or `min_signers > max_signers`; otherwise the default
/// identifiers 1..=max_signers are distinct and nonzero, the signing key is a
/// random nonzero scalar, so the verifying key is not the identity and
/// serialises. The shares come from a map ordered by identifier, so share `i`
/// is identifier `i + 1`; the package records `Some(min_signers)`. The shares
/// are the dealer's polynomial at each identifier, and the verifying key is
/// that of its value at zero, which interpolation from all the shares
/// recovers; the key material itself is chance.
#[verifier::external_body]
pub(crate) fn dealer_keygen(max_signers: u16, min_signers: u16) -> (r: Result<DealerKeys, String>)
    ensures
        r is Ok <==> (2 <= min_signers && min_signers <= max_signers),
        r matches Ok(k) ==> k.shares@.len() == max_signers,
        r matches Ok(k) ==> k.min_signers == Some(min_signers),
        r matches Ok(k) ==> forall|i: int|
            0 <= i < k.shares@.len() ==> (#[trigger] k.shares@[i]).identifier@ == identifier_bytes((i + 1) as nat),
        r matches Ok(k) ==> k.group_key@ == frost_group_key(share_identifiers(k.shares@), share_secrets(k.shares@)),
{
    let ids = frost_ed25519::keys::IdentifierList::Default;
    match frost_ed25519::keys::generate_with_dealer(max_signers, min_signers, ids, rand::thread_rng()) {
        Err(e) => Err(e.to_string()),
        Ok((shares, package)) => match package.verifying_key().serialize() {
            Err(e) => Err(e.to_string()),
            Ok(group_key) => Ok(DealerKeys {
                group_key,
                min_signers: package.min_signers(),
                shares: shares.iter().map(|(id, s)| DealerShare {
                    identifier: id.serialize(),
                    secret: s.signing_share().serialize(),
                }).collect(),
            }),
        },
    }
}

/// Lexicographic order on byte strings.
pub open spec fn lex_le(a: Seq<u8>, b: Seq<u8>) -> bool
    decreases a.len(),
{
    if a.len() == 0 {
        true
    } else if b.len() == 0 {
        false
    } else if a[0] != b[0] {
        a[0] < b[0]
    } else {
        lex_le(a.drop_first(), b.drop_first())
    }
}

/// The key by which frost orders identifiers: the scalar's little-endian
/// serialisation read from the last byte (that is, big-endian).
pub open spec fn identifier_key(s: DealerShare) -> Seq<u8> {
    s.identifier@.reverse()
}

pub open spec fn sorted_by_identifier(s: Seq<DealerShare>) -> bool {
    forall|i: int, j: int|
        0 <= i < j < s.len() ==> lex_le(identifier_key(#[trigger] s[i]), identifier_key(#[trigger] s[j]))
}

proof fn lemma_lex_total(a: Seq<u8>, b: Seq<u8>)
    ensures
        lex_le(a, b) || lex_le(b, a),
    decreases a.len(),
{
    if a.len() > 0 && b.len() > 0 && a[0] == b[0] {
        lemma_lex_total(a.drop_first(), b.drop_first());
    }
}

proof fn lemma_lex_trans(a: Seq<u8>, b: Seq<u8>, c: Seq<u8>)
    requires
        lex_le(a, b),
        lex_le(b, c),
    ensures
        lex_le(a, c),
    decreases a.len(),
{
    if a.len() > 0 && b.len() > 0 && c.len() > 0 && a[0] == b[0] && b[0] == c[0] {
        lemma_lex_trans(a.drop_first(), b.drop_first(), c.drop_first());
    }
}

proof fn lemma_lex_skip(a: Seq<u8>, b: Seq<u8>, i: int)
    requires
        0 <= i < a.len(),
        i < b.len(),
        a[i] == b[i],
    ensures
        lex_le(a.skip(i), b.skip(i)) == lex_le(a.skip(i + 1), b.skip(i + 1)),
{
    assert(a.skip(i).drop_first() =~= a.skip(i + 1));
    assert(b.skip(i).drop_first() =~= b.skip(i + 1));
}

fn reversed(v: &Vec<u8>) -> (r: Vec<u8>)
    ensures
        r@ == v@.reverse(),
{
    let n = v.len();
    let mut r: Vec<u8> = Vec::new();
    let mut i: usize = 0;
    while i < n
        invariant
            n == v@.len(),
            i <= n,
            r@ == v@.reverse().take(i as int),
        decreases n - i,
    {
        r.push(v[n - 1 - i]);
        i = i + 1;
        assert(r@ =~= v@.reverse().take(i as int));
    }
    assert(v@.reverse().take(n as int) =~= v@.reverse());
    r
}

fn bytes_lex_le(a: &Vec<u8>, b: &Vec<u8>) -> (r: bool)
    ensures
        r == lex_le(a@, b@),
{
    let mut i: usize = 0;
    assert(a@.skip(0) =~= a@ && b@.skip(0) =~= b@);
    while i < a.len() && i < b.len()
        invariant
            i <= a@.len(),
            i <= b@.len(),
            lex_le(a@, b@) == lex_le(a@.skip(i as int), b@.skip(i as int)),
        decreases a@.len() - i,
    {
        if a[i] != b[i] {
            return a[i] < b[i];
        }
        proof {
            lemma_lex_skip(a@, b@, i as int);
        }
        i = i + 1;
    }
    i == a.len()
}

/// Whether `a` comes no later than `b` in identifier order.
fn identifier_le(a: &DealerShare, b: &DealerShare) -> (r: bool)
    ensures
        r == lex_le(identifier_key(*a), identifier_key(*b)),
{
    let ka = reversed(&a.identifier);
    let kb = reversed(&b.identifier);
    bytes_lex_le(&ka, &kb)
}

/// `r` arranges `orig` through `perm` (position `i` of `r` holds element
/// `perm[i]` of `orig`, each element once), and shares with equal
/// identifiers keep their relative order.
pub open spec fn stable_arrangement(orig: Seq<DealerShare>, r: Seq<DealerShare>, perm: Seq<int>) -> bool {
    &&& perm.len() == r.len()
    &&& r.len() == orig.len()
    &&& forall|i: int| 0 <= i < perm.len() ==> 0 <= #[trigger] perm[i] < orig.len() && r[i] == orig[perm[i]]
    &&& forall|i: int, j: int| 0 <= i < j < perm.len() ==> #[trigger] perm[i] != #[trigger] perm[j]
    &&& forall|i: int, j: int|
        0 <= i < j < r.len() && identifier_key(#[trigger] r[i]) == identifier_key(#[trigger] r[j]) ==> perm[i] < perm[j]
}

proof fn lemma_lex_refl(a: Seq<u8>)
    ensures
        lex_le(a, a),
    decreases a.len(),
{
    if a.len() > 0 {
        lemma_lex_refl(a.drop_first());
    }
}

/// Orders the shares by identifier, keeping the order of equal identifiers:
/// `sort_by_key` on the identifier.
pub fn sort_shares(shares: Vec<DealerShare>) -> (r: Vec<DealerShare>)
    ensures
        r@.to_multiset() == shares@.to_multiset(),
        sorted_by_identifier(r@),
        exists|perm: Seq<int>| stable_arrangement(shares@, r@, perm),
{
    let ghost orig = shares@;
    let ghost n = orig.len();
    let mut v = shares;
    let mut out: Vec<DealerShare> = Vec::new();
    let ghost mut perm: Seq<int> = Seq::empty();
    while v.len() > 0
        invariant
            n == orig.len(),
            v@ == orig.take(v@.len() as int),
            v@.len() + out@.len() == n,
            perm.len() == out@.len(),
            forall|i: int| 0 <= i < perm.len() ==> v@.len() <= #[trigger] perm[i] < n && out@[i] == orig[perm[i]],
            forall|i: int, j: int| 0 <= i < j < perm.len() ==> #[trigger] perm[i] != #[trigger] perm[j],
            forall|i: int, j: int|
                0 <= i < j < out@.len() && identifier_key(#[trigger] out@[i]) == identifier_key(#[trigger] out@[j]) ==> perm[i] < perm[j],
            sorted_by_identifier(out@),
            v@.to_multiset().add(out@.to_multiset()) == orig.to_multiset(),
        decreases v@.len(),
    {
        let ghost v_before = v@;
        let x = v.pop().unwrap();
        let ghost idx: int = v@.len() as int;
        proof {
            assert(v_before =~= v@.push(x));
            assert(v@ =~= orig.take(idx));
            assert(x == orig[idx]);
        }
        let mut p: usize = 0;
        while p < out.len() && !identifier_le(&x, &out[p])
            invariant
                p <= out@.len(),
                forall|j: int| 0 <= j < p ==> lex_le(identifier_key(#[trigger] out@[j]), identifier_key(x)),
                forall|j: int| 0 <= j < p ==> !lex_le(identifier_key(x), identifier_key(#[trigger] out@[j])),
            decreases out@.len() - p,
        {
            proof {
                lemma_lex_total(identifier_key(x), identifier_key(out@[p as int]));
            }
            p = p + 1;
        }
        let ghost out_before = out@;
        let ghost perm_before = perm;
        proof {
            assert forall|j: int| p <= j < out_before.len() implies lex_le(identifier_key(x), identifier_key(#[trigger] out_before[j])) by {
                if j > p {
                    lemma_lex_trans(identifier_key(x), identifier_key(out_before[p as int]), identifier_key(out_before[j]));
                }
            }
        }
        out.insert(p, x);
        proof {
            perm = perm_before.insert(p as int, idx);
            assert forall|i: int, j: int| 0 <= i < j < out@.len() implies lex_le(identifier_key(#[trigger] out@[i]), identifier_key(#[trigger] out@[j])) by {
                if i < p && j == p {
                } else if i < p && j > p {
                    lemma_lex_trans(identifier_key(out@[i]), identifier_key(x), identifier_key(out@[j]));
                }
            }
            assert forall|i: int| 0 <= i < perm.len() implies v@.len() <= #[trigger] perm[i] < n && out@[i] == orig[perm[i]] by {
                if i < p {
                    assert(perm[i] == perm_before[i]);
                } else if i > p {
                    assert(perm[i] == perm_before[i - 1]);
                }
            }
            assert forall|i: int, j: int| 0 <= i < j < perm.len() implies #[trigger] perm[i] != #[trigger] perm[j] by {
                if i != p && j != p {
                    let pi = if i < p { i } else { i - 1 };
                    let pj = if j < p { j } else { j - 1 };
                    assert(perm[i] == perm_before[pi] && perm[j] == perm_before[pj]);
                } else if i == p {
                    assert(perm[j] == perm_before[j - 1]);
                } else {
                    assert(perm[i] == perm_before[i]);
                }
            }
            assert forall|i: int, j: int|
                0 <= i < j < out@.len() && identifier_key(#[trigger] out@[i]) == identifier_key(#[trigger] out@[j]) implies perm[i] < perm[j] by {
                if i != p && j != p {
                    let pi = if i < p { i } else { i - 1 };
                    let pj = if j < p { j } else { j - 1 };
                    assert(perm[i] == perm_before[pi] && perm[j] == perm_before[pj]);
                    assert(out@[i] == out_before[pi] && out@[j] == out_before[pj]);
                } else if i == p {
                    assert(perm[j] == perm_before[j - 1]);
                } else {
                    lemma_lex_refl(identifier_key(x));
                    assert(out@[i] == out_before[i]);
                }
            }
            assert(out@.to_multiset() == out_before.to_multiset().insert(x));
            assert(v_before.to_multiset() == v@.to_multiset().insert(x));
            broadcast use vstd::multiset::group_multiset_axioms;
            assert(v@.to_multiset().add(out@.to_multiset()) =~= v_before.to_multiset().add(out_before.to_multiset()));
        }
    }
    assert(stable_arrangement(orig, out@, perm));
    out
}

/// The statement that registers a wallet with the backend.
pub open spec fn balance_sql_text(pubkey_hex: Seq<char>) -> Seq<char> {
    "INSERT INTO balances (pubkey, tokens, balance) VALUES ('"@ + pubkey_hex + "', 'SOL', 0.0)"@
}

/// What a provision holds for dealer output `keys` whose shares, ordered by
/// identifier, are `ordered`.
pub open spec fn provision_of(keys: DealerKeys, ordered: Seq<DealerShare>, w: WalletProvision) -> bool {
    let hex = hex_encode_text(keys.group_key@);
    &&& w.pubkey_hex@ == hex
    &&& w.balance_sql@ == balance_sql_text(hex)
    &&& w.node_rows@.len() == ordered.len()
    &&& forall|i: int|
        0 <= i < ordered.len() ==> (#[trigger] w.node_rows@[i]).pubkey@ == hex
            && w.node_rows@[i].share_blob@ == ordered[i].secret@
}

/// Lays out one wallet for storage: the key in hex, the shares in identifier
/// order (node `i` gets the `i`-th), and the balance row.
pub fn provision_wallet(keys: DealerKeys) -> (w: WalletProvision)
    ensures
        exists|ordered: Seq<DealerShare>|
            ordered.to_multiset() == keys.shares@.to_multiset() && sorted_by_identifier(ordered)
                && #[trigger] provision_of(keys, ordered, w),
{
    let ghost keys0 = keys;
    let pubkey_hex = hex_encode(keys.group_key.as_slice());
    let ordered = sort_shares(keys.shares);
    let n = ordered.len();
    let mut rows: Vec<Model> = Vec::new();
    let mut i: usize = 0;
    while i < n
        invariant
            n == ordered@.len(),
            i <= n,
            rows@.len() == i,
            forall|j: int|
                0 <= j < i ==> (#[trigger] rows@[j]).pubkey@ == pubkey_hex@
                    && rows@[j].share_blob@ == ordered@[j].secret@,
        decreases n - i,
    {
        let blob = ordered[i].secret.clone();
        rows.push(Model { pubkey: pubkey_hex.clone(), share_blob: blob });
        i = i + 1;
    }
    let mut sql = String::from_str("INSERT INTO balances (pubkey, tokens, balance) VALUES ('");
    sql.append(pubkey_hex.as_str());
    sql.append("', 'SOL', 0.0)");
    let w = WalletProvision { pubkey_hex, node_rows: rows, balance_sql: sql };
    assert(provision_of(keys0, ordered@, w));
    w
}

/// What a 2-of-3 dealer split is: threshold 2, shares for the identifiers
/// 1, 2 and 3 in that order, and the group key that belongs to those shares.
pub open spec fn is_two_of_three_split(keys: DealerKeys) -> bool {
    &&& keys.min_signers == Some(SIGNING_THRESHOLD)
    &&& keys.shares@.len() == SIGNER_COUNT
    &&& forall|i: int|
        0 <= i < keys.shares@.len() ==> (#[trigger] keys.shares@[i]).identifier@ == identifier_bytes((i + 1) as nat)
    &&& keys.group_key@ == frost_group_key(share_identifiers(keys.shares@), share_secrets(keys.shares@))
}

/// A provision laid out from one 2-of-3 dealer split: its key and its
/// shares come from the same split.
pub open spec fn dealt_wallet(w: WalletProvision) -> bool {
    exists|keys: DealerKeys, ordered: Seq<DealerShare>|
        is_two_of_three_split(keys) && ordered.to_multiset() == keys.shares@.to_multiset()
            && sorted_by_identifier(ordered) && #[trigger] provision_of(keys, ordered, w)
}

/// One wallet of the ceremony: a fresh 2-of-3 dealer split, laid out for
/// storage. A 2-of-3 split is always within what frost accepts, so this
/// succeeds.
pub fn ceremony_wallet() -> (r: Result<WalletProvision, String>)
    ensures
        r is Ok,
        r matches Ok(w) ==> w.node_rows@.len() == SIGNER_COUNT,
        r matches Ok(w) ==> dealt_wallet(w),
{
    match dealer_keygen(SIGNER_COUNT, SIGNING_THRESHOLD) {
        Err(e) => Err(e),
        Ok(keys) => {
            let ghost k = keys;
            let w = provision_wallet(keys);
            proof {
                let ordered = choose|ordered: Seq<DealerShare>|
                    ordered.to_multiset() == k.shares@.to_multiset() && sorted_by_identifier(ordered)
                        && #[trigger] provision_of(k, ordered, w);
                assert(ordered.len() == ordered.to_multiset().len());
                assert(k.shares@.len() == k.shares@.to_multiset().len());
                assert(provision_of(k, ordered, w));
                assert(is_two_of_three_split(k));
                assert(dealt_wallet(w));
            }
            Ok(w)
        },
    }
}

/// Whether the ceremony reports progress after wallet `i` (every tenth).
pub fn progress_checkpoint(i: u32) -> (r: bool)
    ensures
        r == (i % 10 == 0),
{
    i % 10 == 0
}

/// The key that the backend decodes from a provisioned wallet's hex is the
/// group key that the dealer produced.
pub proof fn lemma_provisioned_key_decodes(keys: DealerKeys, ordered: Seq<DealerShare>, w: WalletProvision)
    requires
        provision_of(keys, ordered, w),
    ensures
        hex_decode_text(w.pubkey_hex@) == Some(keys.group_key@),
{
    lemma_hex_round_trip(keys.group_key@);
}

} // verus!
