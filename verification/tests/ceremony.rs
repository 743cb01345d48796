use tiplink_gateway::jupiter::{swap_start, swap_step, SwapAction, SwapEvent};
use tiplink_gateway::records::{SwapRequest, User};
use tiplink_gateway::session::make_session_token;
use frost_ed25519::keys::{reconstruct, KeyPackage, SigningShare, VerifyingShare};
use frost_ed25519::{Identifier, VerifyingKey};
use tiplink_gateway::ceremony::{
    ceremony_wallet, progress_checkpoint, provision_wallet, sort_shares, DealerKeys, DealerShare,
    SIGNER_COUNT, SIGNING_THRESHOLD, WALLET_COUNT,
};

fn id_le(v: u8, at: usize) -> Vec<u8> {
    let mut b = vec![0u8; 32];
    b[at] = v;
    b
}

fn share(id: Vec<u8>, tag: u8) -> DealerShare {
    DealerShare { identifier: id, secret: vec![tag; 32] }
}

#[test]
fn shares_sort_by_identifier_value() {
    let shares = vec![share(id_le(3, 0), 3), share(id_le(1, 0), 1), share(id_le(2, 0), 2)];
    let tags: Vec<u8> = sort_shares(shares).iter().map(|s| s.secret[0]).collect();
    assert_eq!(tags, vec![1, 2, 3]);
}

#[test]
fn shares_sort_little_endian_identifiers_as_numbers() {
    // 255 (low byte) is smaller than 2^248 (high byte).
    let shares = vec![share(id_le(1, 31), 9), share(id_le(255, 0), 4)];
    let tags: Vec<u8> = sort_shares(shares).iter().map(|s| s.secret[0]).collect();
    assert_eq!(tags, vec![4, 9]);
}

#[test]
fn provision_lays_out_rows_and_sql() {
    let keys = DealerKeys {
        group_key: vec![0xde, 0xad, 0x01],
        min_signers: Some(2),
        shares: vec![share(id_le(2, 0), 2), share(id_le(1, 0), 1), share(id_le(3, 0), 3)],
    };
    let w = provision_wallet(keys);
    assert_eq!(w.pubkey_hex, "dead01");
    assert_eq!(w.balance_sql, "INSERT INTO balances (pubkey, tokens, balance) VALUES ('dead01', 'SOL', 0.0)");
    assert_eq!(w.node_rows.len(), 3);
    for (i, row) in w.node_rows.iter().enumerate() {
        assert_eq!(row.pubkey, "dead01");
        assert_eq!(row.share_blob, vec![(i + 1) as u8; 32]);
    }
}

#[test]
fn ceremony_wallet_splits_a_key_three_ways() {
    let w = ceremony_wallet().expect("dealer keygen");
    assert_eq!(w.node_rows.len(), SIGNER_COUNT as usize);
    assert_eq!(w.pubkey_hex.len(), 64);
    assert_eq!(hex::decode(&w.pubkey_hex).unwrap().len(), 32);
    for row in &w.node_rows {
        assert_eq!(row.pubkey, w.pubkey_hex);
        assert_eq!(row.share_blob.len(), 32);
    }
    assert_ne!(w.node_rows[0].share_blob, w.node_rows[1].share_blob);
    assert!(w.balance_sql.contains(&w.pubkey_hex));
    let other = ceremony_wallet().expect("dealer keygen");
    assert_ne!(other.pubkey_hex, w.pubkey_hex);
}

#[test]
fn ceremony_parameters() {
    assert_eq!((WALLET_COUNT, SIGNER_COUNT, SIGNING_THRESHOLD), (100, 3, 2));
}

#[test]
fn progress_every_tenth_wallet() {
    let due: Vec<u32> = (1..=WALLET_COUNT).filter(|i| progress_checkpoint(*i)).collect();
    assert_eq!(due, vec![10, 20, 30, 40, 50, 60, 70, 80, 90, 100]);
}

#[test]
fn provisioned_wallet_key_reaches_the_swap_in_base58() {
    let group_key: Vec<u8> = (100u8..132).collect();
    let keys = DealerKeys { group_key: group_key.clone(), min_signers: Some(2), shares: vec![share(id_le(1, 0), 1)] };
    let w = provision_wallet(keys);
    assert_eq!(hex::decode(&w.pubkey_hex).unwrap(), group_key);

    let token = make_session_token(10, 7);
    let (s, _) = swap_start(Some(token), SwapRequest { quote_response: "{}".to_string() });
    let user = User {
        user_id: 7,
        email: String::new(),
        password_hash: String::new(),
        username: String::new(),
        cookie: None,
    };
    let (s, _) = swap_step(s, SwapEvent::UserByCookie(Ok(Some(user))), 10);
    let (_, a) = swap_step(s, SwapEvent::WalletFound(Some(w.pubkey_hex.clone())), 10);
    match a {
        SwapAction::PostSwap { payload, .. } => {
            let needle = format!("\"userPublicKey\":\"{}\"", bs58::encode(&group_key).into_string());
            assert!(payload.contains(&needle));
        }
        _ => panic!("expected the swap to be posted"),
    }
}

#[test]
fn any_two_nodes_recover_the_registered_key() {
    let w = ceremony_wallet().expect("dealer keygen");
    let key_bytes = hex::decode(&w.pubkey_hex).unwrap();
    let vk = VerifyingKey::deserialize(&key_bytes).unwrap();
    let package = |i: usize| {
        let share = SigningShare::deserialize(&w.node_rows[i].share_blob).unwrap();
        let id = Identifier::try_from((i + 1) as u16).unwrap();
        KeyPackage::new(id, share, VerifyingShare::from(share), vk, 2)
    };
    for (a, b) in [(0, 1), (0, 2), (1, 2)] {
        let sk = reconstruct(&[package(a), package(b)]).unwrap();
        assert_eq!(VerifyingKey::from(&sk).serialize().unwrap(), key_bytes);
    }
}
