use autowds::account::{
    adjust_user_credits, create_user_at, delete_user, export_data, register_at, reset_password,
    set_name, update_user, update_user_edition, CreateUserReq, RegisterError, RegisterReq,
    ResetError, UpdateError, UserService,
};
use autowds::credit::{AccountStore, CreditError, CreditOperation, CreditService};
use autowds::enums::ProductEdition;

fn admin_req(n: u32) -> CreateUserReq {
    CreateUserReq {
        username: format!("user{}", n),
        email: format!("user{}@example.com", n),
        password: "secret1".to_string(),
    }
}

fn store_with_users(n: u32) -> AccountStore {
    let mut store = AccountStore::new();
    for k in 1..=n {
        let id = create_user_at(&mut store, admin_req(k), 1000 + k as u64, k as u64, vec![7u8; 16]).unwrap();
        assert_eq!(id, k as i64);
    }
    store
}

fn user(store: &AccountStore, id: i64) -> &autowds::credit::AccountUser {
    &store.users[store.find_user(id).unwrap()]
}

fn last_log_balance(store: &AccountStore, id: i64) -> i32 {
    store.logs.iter().rev().find(|l| l.user_id == id).map(|l| l.balance).unwrap_or(0)
}

fn reg(email: &str, code: &str, invite: Option<String>) -> RegisterReq {
    RegisterReq {
        name: "newbie".to_string(),
        email: email.to_string(),
        passwd: "digest".to_string(),
        validate_code: code.to_string(),
        invite_code: invite,
    }
}

#[test]
fn encode_base62_values() {
    assert_eq!(CreditService::encode_base62(0), "0");
    assert_eq!(CreditService::encode_base62(9), "9");
    assert_eq!(CreditService::encode_base62(10), "A");
    assert_eq!(CreditService::encode_base62(61), "z");
    assert_eq!(CreditService::encode_base62(62), "10");
    assert_eq!(CreditService::encode_base62(238327), "zzz");
    assert_eq!(CreditService::encode_base62(238328), "1000");
}

#[test]
fn invite_code_layout() {
    assert_eq!(CreditService::invite_code_from_parts(7, 100, 5), "INV7001c0005");
    assert_eq!(CreditService::invite_code_from_parts(7, 238328 + 100, 238328 + 5), "INV7001c0005");
    assert_eq!(CreditService::invite_code_from_parts(62, 0, 238327), "INV1000000zzz");
}

#[test]
fn generated_invite_code_embeds_id() {
    let a = CreditService::generate_invite_code(7);
    assert!(a.starts_with("INV7"));
    assert_eq!(a.len(), 12);
    assert!(a[4..].chars().all(|c| c.is_ascii_alphanumeric()));
}

#[test]
fn add_and_deduct_keep_log_in_step() {
    let mut store = store_with_users(1);
    assert_eq!(user(&store, 1).credits, 100);
    let ops: Vec<(bool, i32)> = vec![(true, 50), (false, 30), (false, 500), (true, 7), (false, 127)];
    for (add, amount) in ops {
        let _ = if add {
            CreditService::add_credits(&mut store, 1, amount, CreditOperation::AdminAdjust, None, None)
        } else {
            CreditService::deduct_credits(&mut store, 1, amount, CreditOperation::Export, None)
        };
        assert_eq!(last_log_balance(&store, 1), user(&store, 1).credits);
    }
    assert_eq!(user(&store, 1).credits, 0);
    let amounts: Vec<i32> = store.logs.iter().map(|l| l.amount).collect();
    assert_eq!(amounts, vec![100, 50, -30, 7, -127]);
}

#[test]
fn deduct_beyond_balance_changes_nothing() {
    let mut store = store_with_users(1);
    let logs_before = store.logs.len();
    let r = CreditService::deduct_credits(&mut store, 1, 101, CreditOperation::Export, None);
    assert_eq!(r, Err(CreditError::InsufficientBalance));
    assert_eq!(user(&store, 1).credits, 100);
    assert_eq!(store.logs.len(), logs_before);
    assert_eq!(CreditService::deduct_credits(&mut store, 1, 100, CreditOperation::Export, None), Ok(0));
}

#[test]
fn ledger_errors() {
    let mut store = store_with_users(1);
    assert_eq!(
        CreditService::add_credits(&mut store, 9, 5, CreditOperation::Invite, None, None),
        Err(CreditError::UserNotFound)
    );
    assert_eq!(
        CreditService::add_credits(&mut store, 1, -5, CreditOperation::Invite, None, None),
        Err(CreditError::InvalidAmount)
    );
    assert_eq!(
        CreditService::deduct_credits(&mut store, 1, -5, CreditOperation::Export, None),
        Err(CreditError::InvalidAmount)
    );
    assert_eq!(
        CreditService::add_credits(&mut store, 1, 0, CreditOperation::Invite, None, None),
        Err(CreditError::InvalidAmount)
    );
    assert_eq!(
        CreditService::deduct_credits(&mut store, 1, 0, CreditOperation::Export, None),
        Err(CreditError::InvalidAmount)
    );
    assert_eq!(
        CreditService::add_credits(&mut store, 1, i32::MAX, CreditOperation::AdminAdjust, None, None),
        Err(CreditError::BalanceOverflow)
    );
    assert_eq!(store.logs.len(), 1);
}

#[test]
fn export_with_empty_balance_is_refused() {
    let mut store = store_with_users(1);
    CreditService::deduct_credits(&mut store, 1, 100, CreditOperation::Export, None).unwrap();
    let logs_before = store.logs.len();
    assert_eq!(export_data(&mut store, 1), Err(CreditError::InsufficientBalance));
    assert_eq!(user(&store, 1).credits, 0);
    assert_eq!(store.logs.len(), logs_before);
}

#[test]
fn export_costs_one_credit() {
    let mut store = store_with_users(1);
    assert_eq!(export_data(&mut store, 1), Ok(99));
    let last = store.logs.last().unwrap();
    assert_eq!(last.operation, CreditOperation::Export);
    assert_eq!(last.amount, -1);
    assert_eq!(last.balance, 99);
    assert_eq!(last.related_user_id, None);
    assert_eq!(last.description.as_deref(), Some("data export"));
    assert_eq!(export_data(&mut store, 5), Err(CreditError::UserNotFound));
}

#[test]
fn register_with_invite_code_of_user_seven() {
    let mut store = store_with_users(7);
    let code = user(&store, 7).invite_code.clone();
    let before = user(&store, 7).credits;
    let id = register_at(&mut store, reg("new@example.com", "123456", Some(code)), Some("123456".to_string()), 100, 5, vec![7u8; 16]).unwrap();
    assert_eq!(id, 8);
    let u = user(&store, 8);
    assert_eq!(u.credits, 100);
    assert_eq!(u.invite_code, "INV8001c0005");
    assert_eq!(u.invited_by, Some(7));
    assert_eq!(u.edition, ProductEdition::L0);
    assert_eq!(user(&store, 7).credits, before + 100);
    let n = store.logs.len();
    let signup = &store.logs[n - 2];
    assert_eq!((signup.user_id, signup.operation, signup.amount, signup.balance), (8, CreditOperation::Register, 100, 100));
    let bonus = &store.logs[n - 1];
    assert_eq!((bonus.user_id, bonus.operation, bonus.amount), (7, CreditOperation::Invite, 100));
    assert_eq!(bonus.related_user_id, Some(8));
    assert_eq!(bonus.balance, before + 100);
}

#[test]
fn register_without_invite_code() {
    let mut store = AccountStore::new();
    let id = register_at(&mut store, reg("a@example.com", "42", None), Some("42".to_string()), 0, 0, vec![7u8; 16]).unwrap();
    assert_eq!(id, 1);
    assert_eq!(user(&store, 1).credits, 100);
    assert_eq!(user(&store, 1).invited_by, None);
    assert_eq!(store.logs.len(), 1);
}

#[test]
fn failed_registration_leaves_nothing() {
    let mut store = store_with_users(2);
    let users = store.users.len();
    let logs = store.logs.len();
    let r = register_at(&mut store, reg("x@example.com", "1", Some("INVnope".to_string())), Some("1".to_string()), 0, 0, vec![7u8; 16]);
    assert_eq!(r, Err(RegisterError::InvalidInviteCode));
    let r = register_at(&mut store, reg("user1@example.com", "1", None), Some("1".to_string()), 0, 0, vec![7u8; 16]);
    assert_eq!(r, Err(RegisterError::EmailTaken));
    let r = register_at(&mut store, reg("x@example.com", "1", None), None, 0, 0, vec![7u8; 16]);
    assert_eq!(r, Err(RegisterError::CodeExpired));
    let r = register_at(&mut store, reg("x@example.com", "1", None), Some("2".to_string()), 0, 0, vec![7u8; 16]);
    assert_eq!(r, Err(RegisterError::CodeMismatch));
    assert_eq!(store.users.len(), users);
    assert_eq!(store.logs.len(), logs);
    assert_eq!(store.next_user_id, 3);
}

#[test]
fn registration_fails_whole_when_inviter_bonus_overflows() {
    let mut store = store_with_users(1);
    CreditService::add_credits(&mut store, 1, i32::MAX - 150, CreditOperation::AdminAdjust, None, None).unwrap();
    let code = user(&store, 1).invite_code.clone();
    let logs = store.logs.len();
    let r = register_at(&mut store, reg("b@example.com", "1", Some(code)), Some("1".to_string()), 0, 0, vec![7u8; 16]);
    assert_eq!(r, Err(RegisterError::BonusOverflow));
    assert_eq!(store.users.len(), 1);
    assert_eq!(store.logs.len(), logs);
}

#[test]
fn admin_created_user_gets_signup_bonus() {
    let mut store = AccountStore::new();
    let id = create_user_at(&mut store, admin_req(1), 62, 61, vec![7u8; 16]).unwrap();
    assert_eq!(id, 1);
    let u = user(&store, 1);
    assert_eq!(u.credits, 100);
    assert_eq!(u.invite_code, "INV10010000z");
    assert_eq!(create_user_at(&mut store, admin_req(1), 0, 0, vec![7u8; 16]), Err(RegisterError::EmailTaken));
}

#[test]
fn admin_adjustments() {
    let mut store = store_with_users(1);
    assert_eq!(adjust_user_credits(&mut store, 1, 250, "gift".to_string()), Ok(350));
    assert_eq!(adjust_user_credits(&mut store, 1, -50, "fix".to_string()), Ok(300));
    assert_eq!(adjust_user_credits(&mut store, 1, -301, "fix".to_string()), Err(CreditError::InsufficientBalance));
    assert_eq!(adjust_user_credits(&mut store, 1, 10001, "x".to_string()), Err(CreditError::InvalidAmount));
    assert_eq!(adjust_user_credits(&mut store, 2, 5, "x".to_string()), Err(CreditError::UserNotFound));
    let logs = store.logs.len();
    assert_eq!(adjust_user_credits(&mut store, 1, 0, "none".to_string()), Ok(300));
    assert_eq!(store.logs.len(), logs);
    let last = store.logs.last().unwrap();
    assert_eq!((last.operation, last.amount, last.balance), (CreditOperation::AdminAdjust, -50, 300));
}

#[test]
fn admin_edition_change_is_logged() {
    let mut store = store_with_users(1);
    update_user_edition(&mut store, 1, ProductEdition::L3, "promo".to_string()).unwrap();
    assert_eq!(user(&store, 1).edition, ProductEdition::L3);
    let last = store.logs.last().unwrap();
    assert_eq!((last.amount, last.balance), (0, 100));
    assert_eq!(last.description.as_deref(), Some("edition change: L0 -> L3 (promo)"));
    assert_eq!(update_user_edition(&mut store, 4, ProductEdition::L1, "x".to_string()), Err(CreditError::UserNotFound));
}

#[test]
fn tier_upgrade_never_lowers() {
    let mut store = store_with_users(1);
    UserService::confirm_user(&mut store, 1, ProductEdition::L2).unwrap();
    assert_eq!(user(&store, 1).edition, ProductEdition::L2);
    UserService::confirm_user(&mut store, 1, ProductEdition::L1).unwrap();
    assert_eq!(user(&store, 1).edition, ProductEdition::L2);
    UserService::confirm_user(&mut store, 1, ProductEdition::L2).unwrap();
    assert_eq!(user(&store, 1).edition, ProductEdition::L2);
    assert_eq!(UserService::confirm_user(&mut store, 3, ProductEdition::L2), Err(CreditError::UserNotFound));
}

#[test]
fn password_reset_and_rename() {
    let mut store = store_with_users(2);
    let email = "user2@example.com".to_string();
    let code = "777".to_string();
    let n = "n".to_string();
    assert_eq!(reset_password(&mut store, &email, &n, vec![1u8; 16], &code, &None), Err(ResetError::CodeExpired));
    assert_eq!(reset_password(&mut store, &email, &n, vec![1u8; 16], &code, &Some("1".to_string())), Err(ResetError::CodeMismatch));
    let huge = "x".repeat(2000);
    assert_eq!(reset_password(&mut store, &email, &huge, vec![1u8; 16], &code, &Some(code.clone())), Err(ResetError::PasswordTooLong));
    let nobody = "nobody@example.com".to_string();
    assert_eq!(reset_password(&mut store, &nobody, &n, vec![1u8; 16], &code, &Some(code.clone())), Err(ResetError::UserNotFound));
    let old_hash = user(&store, 2).passwd_hash.clone();
    let new_pw = "new secret".to_string();
    assert_eq!(reset_password(&mut store, &email, &new_pw, vec![1u8; 16], &code, &Some(code.clone())), Ok(1));
    assert_eq!(user(&store, 2).passwd_salt, vec![1u8; 16]);
    assert_ne!(user(&store, 2).passwd_hash, old_hash);
    assert_eq!(autowds::claims::login(&store, &email, &new_pw), Ok(1));
    assert_eq!(autowds::claims::login(&store, &email, &"secret1".to_string()), Err(autowds::claims::AuthError::WrongPassword));
    set_name(&mut store, 2, "renamed".to_string()).unwrap();
    assert_eq!(user(&store, 2).name, "renamed");
    assert_eq!(set_name(&mut store, 9, "x".to_string()), Err(CreditError::UserNotFound));
}

#[test]
fn invite_bonus_for_unknown_inviter() {
    let mut store = store_with_users(1);
    assert_eq!(CreditService::handle_invite_register(&mut store, 4, 1), Err(CreditError::UserNotFound));
    assert_eq!(CreditService::handle_invite_register(&mut store, 1, 4), Ok(()));
    assert_eq!(user(&store, 1).credits, 200);
    assert_eq!(store.logs.last().unwrap().related_user_id, Some(4));
}

#[test]
fn admin_edits_keep_emails_unique() {
    let mut store = store_with_users(2);
    let r = update_user(&mut store, 2, "b".to_string(), "user1@example.com".to_string(), None, None);
    assert_eq!(r, Err(UpdateError::EmailTaken));
    assert_eq!(user(&store, 2).email, "user2@example.com");
    let r = update_user(&mut store, 2, "b".to_string(), "user2@example.com".to_string(), Some(true), None);
    assert_eq!(r, Ok(()));
    assert!(user(&store, 2).locked);
    assert_eq!(user(&store, 2).name, "b");
    assert_eq!(user(&store, 2).edition, ProductEdition::L0);
    let r = update_user(&mut store, 5, "c".to_string(), "c@example.com".to_string(), None, None);
    assert_eq!(r, Err(UpdateError::UserNotFound));
}

#[test]
fn deleted_account_keeps_its_log() {
    let mut store = store_with_users(3);
    let logs = store.logs.len();
    assert_eq!(delete_user(&mut store, 2), Ok(()));
    assert_eq!(store.users.len(), 2);
    assert!(store.find_user(2).is_none());
    assert_eq!(store.logs.len(), logs);
    assert_eq!(delete_user(&mut store, 2), Err(CreditError::UserNotFound));
    let next = create_user_at(&mut store, admin_req(9), 0, 0, vec![7u8; 16]).unwrap();
    assert_eq!(next, 4);
}

#[test]
fn recent_log_entries_newest_first() {
    let mut store = store_with_users(2);
    for k in 0..5 {
        CreditService::add_credits(&mut store, 1 + (k % 2), 1, CreditOperation::AdminAdjust, None, None).unwrap();
    }
    // log: [u1 signup, u2 signup, u1, u2, u1, u2, u1]
    assert_eq!(store.recent_logs(1, 50), vec![6, 4, 2, 0]);
    assert_eq!(store.recent_logs(1, 2), vec![6, 4]);
    assert_eq!(store.recent_logs(2, 50), vec![5, 3, 1]);
    assert!(store.recent_logs(3, 50).is_empty());
}

#[test]
fn notes_log_zero_credits() {
    let mut store = store_with_users(1);
    assert_eq!(CreditService::log_note(&mut store, 1, CreditOperation::AdminAdjust, Some("n".to_string())), Ok(100));
    let last = store.logs.last().unwrap();
    assert_eq!((last.amount, last.balance), (0, 100));
    assert_eq!(CreditService::log_note(&mut store, 2, CreditOperation::AdminAdjust, None), Err(CreditError::UserNotFound));
}

#[test]
fn invite_codes_stay_unique() {
    let mut store = store_with_users(70);
    let codes: std::collections::HashSet<String> = store.users.iter().map(|u| u.invite_code.clone()).collect();
    assert_eq!(codes.len(), 70);
    let code = user(&store, 62).invite_code.clone();
    let id = register_at(&mut store, reg("z@example.com", "1", Some(code)), Some("1".to_string()), 9, 9, vec![7u8; 16]).unwrap();
    assert_eq!(user(&store, id).invited_by, Some(62));
}
