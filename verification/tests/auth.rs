use argon2::password_hash::{PasswordHash, PasswordVerifier};
use tiplink_gateway::auth::{
    signin_accepts, signin_advance, signin_start, signin_step, signup_accepts, signup_advance,
    signup_start, signup_start_with_salt, signup_step, SigninAction, SigninEvent, SigninState,
    SignupAction, SignupEvent, SignupState,
};
use tiplink_gateway::http::{BodyKind, Reply};
use tiplink_gateway::records::{DbFailure, SigninRequest, SignupRequest, User};

const SALT: &str = "c29tZXNhbHRzb21lc2FsdA";
const ID: u128 = 0x67e5_5044_10b1_426f_9247_bb68_0e5f_e0c8;

fn request() -> SignupRequest {
    SignupRequest {
        email: "bob@example.com".to_string(),
        password: "hunter2".to_string(),
        username: "bob \"b\"".to_string(),
        asset_password: "vault".to_string(),
    }
}

fn text(reply: &Reply, status: u16, body: &str) {
    assert_eq!(reply.status, status);
    assert!(matches!(reply.kind, BodyKind::Text));
    assert_eq!(reply.body, body);
    assert!(reply.cookie.is_none());
}

fn respond_signup(a: SignupAction) -> Reply {
    match a {
        SignupAction::Respond(r) => r,
        _ => panic!("expected a reply"),
    }
}

fn respond_signin(a: SigninAction) -> Reply {
    match a {
        SigninAction::Respond(r) => r,
        _ => panic!("expected a reply"),
    }
}

fn verifies(password: &str, phc: &str) -> bool {
    let h = PasswordHash::new(phc).unwrap();
    argon2::Argon2::default().verify_password(password.as_bytes(), &h).is_ok()
}

fn awaiting_txn() -> SignupState {
    let (s, a) = signup_start_with_salt(request(), SALT);
    assert!(matches!(a, SignupAction::BeginTxn));
    s
}

#[test]
fn signup_hashes_both_passwords_with_one_salt() {
    match awaiting_txn() {
        SignupState::AwaitingTxn { email, username, password_hash, asset_hash } => {
            assert_eq!(email, "bob@example.com");
            assert_eq!(username, "bob \"b\"");
            assert!(password_hash.starts_with("$argon2id$v=19$m=19456,t=2,p=1$c29tZXNhbHRzb21lc2FsdA$"));
            assert!(asset_hash.starts_with("$argon2id$v=19$m=19456,t=2,p=1$c29tZXNhbHRzb21lc2FsdA$"));
            assert!(verifies("hunter2", &password_hash));
            assert!(verifies("vault", &asset_hash));
            assert!(!verifies("vault", &password_hash));
        }
        _ => panic!("expected a transaction to be asked for"),
    }
}

#[test]
fn signup_draws_a_fresh_salt() {
    let (s, _) = signup_start(request());
    match s {
        SignupState::AwaitingTxn { password_hash, .. } => {
            let h = PasswordHash::new(&password_hash).unwrap();
            assert_eq!(h.salt.unwrap().as_str().len(), 22);
            assert!(verifies("hunter2", &password_hash));
        }
        _ => panic!("expected a transaction to be asked for"),
    }
}

#[test]
fn signup_database_error_on_begin() {
    let e = SignupEvent::TxnBegun(Err(DbFailure { message: "x".to_string() }));
    let s = awaiting_txn();
    assert!(signup_accepts(&s, &e));
    let (n, a) = signup_step(s, e, ID);
    assert!(matches!(n, SignupState::Done));
    text(&respond_signup(a), 500, "Database error");
}

#[test]
fn signup_taken_username() {
    let (s, a) = signup_step(awaiting_txn(), SignupEvent::TxnBegun(Ok(())), ID);
    match a {
        SignupAction::InsertUser { user_id, email, username, .. } => {
            assert_eq!(user_id, ID);
            assert_eq!(email, "bob@example.com");
            assert_eq!(username, "bob \"b\"");
        }
        _ => panic!("expected the user to be inserted"),
    }
    let failure = DbFailure { message: "duplicate key".to_string() };
    let (n, a) = signup_step(s, SignupEvent::UserInserted(Err(failure)), ID);
    assert!(matches!(n, SignupState::Done));
    text(&respond_signup(a), 400, "Username or Email taken: duplicate key");
}

#[test]
fn signup_without_free_wallet_rolls_back() {
    let (s, _) = signup_step(awaiting_txn(), SignupEvent::TxnBegun(Ok(())), ID);
    let (s, a) = signup_step(s, SignupEvent::UserInserted(Ok(())), ID);
    assert!(matches!(a, SignupAction::FindFreeWallet));
    let (s, a) = signup_step(s, SignupEvent::FreeWallet(None), ID);
    assert!(matches!(a, SignupAction::Rollback));
    assert!(!signup_accepts(&s, &SignupEvent::Committed));
    let (n, a) = signup_step(s, SignupEvent::RolledBack, ID);
    assert!(matches!(n, SignupState::Done));
    text(&respond_signup(a), 500, "No pre-generated wallets available!");
}

#[test]
fn signup_success_assigns_wallet_and_commits() {
    let (s, _) = signup_step(awaiting_txn(), SignupEvent::TxnBegun(Ok(())), ID);
    let (s, _) = signup_step(s, SignupEvent::UserInserted(Ok(())), ID);
    let (s, a) = signup_step(s, SignupEvent::FreeWallet(Some("ab12".to_string())), ID);
    match a {
        SignupAction::AssignWallet { pubkey, user_id } => {
            assert_eq!(pubkey, "ab12");
            assert_eq!(user_id, ID);
        }
        _ => panic!("expected the wallet to be assigned"),
    }
    let (s, a) = signup_step(s, SignupEvent::WalletAssigned, ID);
    match a {
        SignupAction::StoreAssetPassword { pubkey, hash } => {
            assert_eq!(pubkey, "ab12");
            assert!(verifies("vault", &hash));
        }
        _ => panic!("expected the asset password to be stored"),
    }
    let (s, a) = signup_step(s, SignupEvent::AssetPasswordStored, ID);
    assert!(matches!(a, SignupAction::Commit));
    let (n, a) = signup_step(s, SignupEvent::Committed, ID);
    assert!(matches!(n, SignupState::Done));
    let r = respond_signup(a);
    assert_eq!(r.status, 200);
    assert!(matches!(r.kind, BodyKind::Json));
    assert_eq!(
        r.body,
        "{\"message\":\"Signup successful\",\"pubkey\":\"ab12\",\"username\":\"bob \\\"b\\\"\"}"
    );
}

#[test]
fn signup_advance_draws_v4_user_id() {
    let (_, a) = signup_advance(awaiting_txn(), SignupEvent::TxnBegun(Ok(())));
    match a {
        SignupAction::InsertUser { user_id, .. } => {
            let u = uuid::Uuid::from_u128(user_id);
            assert_eq!(u.get_version_num(), 4);
            assert_eq!(u.get_variant(), uuid::Variant::RFC4122);
        }
        _ => panic!("expected the user to be inserted"),
    }
}

fn stored_user(hash: &str) -> User {
    User {
        user_id: ID,
        email: "bob@example.com".to_string(),
        password_hash: hash.to_string(),
        username: "bob".to_string(),
        cookie: None,
    }
}

fn awaiting_user(password: &str) -> SigninState {
    let (s, a) = signin_start(SigninRequest { email: "bob@example.com".to_string(), password: password.to_string() });
    match a {
        SigninAction::FindUserByEmail(e) => assert_eq!(e, "bob@example.com"),
        _ => panic!("expected a lookup by email"),
    }
    s
}

fn signup_hash() -> String {
    match awaiting_txn() {
        SignupState::AwaitingTxn { password_hash, .. } => password_hash,
        _ => panic!("expected a transaction to be asked for"),
    }
}

#[test]
fn signin_unknown_email() {
    let (n, a) = signin_step(awaiting_user("x"), SigninEvent::UserFound(None), 0, ID);
    assert!(matches!(n, SigninState::Done));
    text(&respond_signin(a), 401, "Invalild email or password");
}

#[test]
fn signin_unparsable_stored_hash() {
    let (_, a) = signin_step(awaiting_user("x"), SigninEvent::UserFound(Some(stored_user("not a hash"))), 0, ID);
    text(&respond_signin(a), 500, "Error parsing stored hash");
}

#[test]
fn signin_wrong_password() {
    let h = signup_hash();
    let (_, a) = signin_step(awaiting_user("wrong"), SigninEvent::UserFound(Some(stored_user(&h))), 0, ID);
    text(&respond_signin(a), 401, "Invalid Email or Password");
}

#[test]
fn signed_up_password_signs_in_and_gets_cookie() {
    let h = signup_hash();
    let now = 1_700_000_000i64;
    let s = awaiting_user("hunter2");
    let e = SigninEvent::UserFound(Some(stored_user(&h)));
    assert!(signin_accepts(&s, &e));
    let (s, a) = signin_step(s, e, now, ID);
    let token = match a {
        SigninAction::SaveCookie { user_id, token } => {
            assert_eq!(user_id, ID);
            token
        }
        _ => panic!("expected the cookie to be saved"),
    };
    assert_eq!(token, format!("{}:{}", now + 86400, uuid::Uuid::from_u128(ID)));
    let (n, a) = signin_step(s, SigninEvent::CookieSaved(Ok(())), now, ID);
    assert!(matches!(n, SigninState::Done));
    let r = respond_signin(a);
    assert_eq!(r.status, 200);
    assert!(matches!(r.kind, BodyKind::Json));
    assert_eq!(r.body, "{\"status\":\"success\",\"username\":\"bob\"}");
    let c = r.cookie.expect("a session cookie");
    assert_eq!(c.name, "session_token");
    assert_eq!(c.value, token);
    assert_eq!(c.path, "/");
    assert!(c.http_only);
    assert_eq!(c.max_age_secs, 86400);
}

#[test]
fn signin_cookie_not_saved() {
    let h = signup_hash();
    let (s, _) = signin_step(awaiting_user("hunter2"), SigninEvent::UserFound(Some(stored_user(&h))), 5, ID);
    let failure = DbFailure { message: "gone".to_string() };
    let (_, a) = signin_step(s, SigninEvent::CookieSaved(Err(failure)), 5, ID);
    text(&respond_signin(a), 500, "Failed to create session");
}

#[test]
fn signin_advance_reads_clock() {
    let h = signup_hash();
    let before = chrono::Utc::now().timestamp();
    let (_, a) = signin_advance(awaiting_user("hunter2"), SigninEvent::UserFound(Some(stored_user(&h)))).unwrap();
    let after = chrono::Utc::now().timestamp();
    match a {
        SigninAction::SaveCookie { token, .. } => {
            let expiry: i64 = token.split(':').next().unwrap().parse().unwrap();
            assert!(before + 86400 <= expiry && expiry <= after + 86400);
            assert_eq!(token.len(), expiry.to_string().len() + 1 + 36);
        }
        _ => panic!("expected the cookie to be saved"),
    }
}

#[test]
fn signin_advance_refusals_need_no_clock() {
    let (_, a) = signin_advance(awaiting_user("x"), SigninEvent::UserFound(None)).unwrap();
    text(&respond_signin(a), 401, "Invalild email or password");
    let h = signup_hash();
    let (_, a) = signin_advance(awaiting_user("wrong"), SigninEvent::UserFound(Some(stored_user(&h)))).unwrap();
    text(&respond_signin(a), 401, "Invalid Email or Password");
}

#[test]
fn stored_hashes_have_the_default_phc_form() {
    let (s, _) = signup_start(request());
    match s {
        SignupState::AwaitingTxn { password_hash, asset_hash, .. } => {
            for h in [&password_hash, &asset_hash] {
                assert_eq!(h.len(), 31 + 22 + 1 + 43);
                assert!(h.starts_with("$argon2id$v=19$m=19456,t=2,p=1$"));
                let salt = &h[31..53];
                assert!(matches!(salt.chars().last(), Some('A' | 'Q' | 'g' | 'w')));
                assert_eq!(&h[53..54], "$");
                assert_ne!(h.as_str(), "hunter2");
            }
            assert!(verifies("vault", &asset_hash));
        }
        _ => panic!("expected a transaction to be asked for"),
    }
}
