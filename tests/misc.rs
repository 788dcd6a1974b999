use autowds::password::{hash_password, verify_password};
use autowds::account::{create_user_at, CreateUserReq, RegisterReq};
use autowds::claims::{login, AuthError, Claims, TOKEN_LIFETIME_SECS};
use autowds::credit::{AccountStore, CreditError};
use autowds::dto::{
    AdjustCreditsReq, FieldError, PayStatusQuery, ScraperTaskQuery, SendEmailReq, TaskListQuery,
    TemplateQuery, UserListQuery,
};
use autowds::enums::{ProductEdition, TemplateTopic};
use autowds::error::ErrorKind;
use autowds::favorite::{FavoriteError, TemplateCatalog};
use autowds::page::{Page, PageRequest};
use autowds::pay::{OrderStatus, PayError, PayFrom, PayOrder};
use autowds::stats::{admin_task_statistics, statistics_overview, task_statistics};
use autowds::task::{
    check_batch_limit, check_task_limit, delete_task, find_check_task, task_limit,
    update_task_schedule, LimitNotice, ScheduleData,
    ScheduleType, ScraperTask, TaskError, TaskState,
};
use autowds::validate_code::{check_validate_code, generate_validate_code, validate_code_key, validate_code_from_draws, CodeError};
use autowds::views::{
    account_status, contains, starts_with, ListTemplateResp, PayStatusResponse, TaskResp, UserResp,
    UserToken,
};

fn task(id: i64, user_id: i64, name: &str, scheduled: bool, deleted: bool) -> ScraperTask {
    ScraperTask {
        id,
        user_id,
        name: name.to_string(),
        data: if scheduled {
            Some(ScheduleData { cron: "0 * * * * *".to_string(), proxy_id: 1, ty: ScheduleType::Fast })
        } else {
            None
        },
        deleted,
    }
}

#[test]
fn task_quota_by_tier() {
    assert_eq!(task_limit(None), 1);
    assert_eq!(task_limit(Some(ProductEdition::L0)), 3);
    assert_eq!(task_limit(Some(ProductEdition::L1)), 10);
    assert_eq!(task_limit(Some(ProductEdition::L2)), 50);
    assert_eq!(task_limit(Some(ProductEdition::L3)), 200);
    assert_eq!(check_task_limit(0, None), Ok(()));
    assert_eq!(check_task_limit(1, None), Err(TaskError::LimitReached(LimitNotice::SignInRequired)));
    assert_eq!(check_task_limit(3, Some(ProductEdition::L0)), Err(TaskError::LimitReached(LimitNotice::UpgradeRequired)));
    assert_eq!(check_task_limit(49, Some(ProductEdition::L2)), Ok(()));
    assert_eq!(check_task_limit(50, Some(ProductEdition::L2)), Err(TaskError::LimitReached(LimitNotice::QuotaReached)));
}

#[test]
fn batch_quota() {
    assert_eq!(check_batch_limit(0, 11, ProductEdition::L3), Err(TaskError::BatchTooLarge));
    assert_eq!(check_batch_limit(0, 3, ProductEdition::L0), Ok(()));
    assert_eq!(check_batch_limit(1, 3, ProductEdition::L0), Err(TaskError::LimitReached(LimitNotice::UpgradeRequired)));
    assert_eq!(check_batch_limit(45, 5, ProductEdition::L2), Ok(()));
    assert_eq!(check_batch_limit(46, 5, ProductEdition::L2), Err(TaskError::LimitReached(LimitNotice::QuotaReached)));
    assert_eq!(check_batch_limit(500, 1, ProductEdition::L3), Err(TaskError::LimitReached(LimitNotice::QuotaReached)));
}

#[test]
fn task_ownership() {
    let tasks = vec![task(1, 10, "a", false, false), task(2, 20, "b", false, false)];
    assert_eq!(find_check_task(&tasks, 2, 20), Ok(1));
    assert_eq!(find_check_task(&tasks, 2, 10), Err(TaskError::Forbidden));
    assert_eq!(find_check_task(&tasks, 3, 10), Err(TaskError::NotFound));
}

#[test]
fn task_states() {
    assert_eq!(task(1, 1, "a", false, false).state(), TaskState::Pending);
    assert_eq!(task(1, 1, "a", true, false).state(), TaskState::Running);
    assert_eq!(task(1, 1, "a", true, true).state(), TaskState::Completed);
    assert_eq!(TaskState::parse(&"running".to_string()), Some(TaskState::Running));
    assert_eq!(TaskState::parse(&"done".to_string()), None);
    assert_eq!(TaskState::Completed.as_str(), "completed");
    let r = TaskResp::from_task(&task(5, 1, "crawl", true, false), "c".to_string(), "u".to_string());
    assert_eq!(r.status, "running");
    assert_eq!(r.name, "crawl");
}

#[test]
fn task_counts() {
    let tasks = vec![
        task(1, 1, "a", false, false),
        task(2, 1, "b", true, false),
        task(3, 1, "c", true, true),
        task(4, 1, "d", false, true),
        task(5, 2, "e", true, false),
    ];
    let s = task_statistics(&tasks, 1);
    assert_eq!((s.total, s.undeployed, s.scheduled, s.completed), (4, 2, 1, 2));
    let a = admin_task_statistics(&tasks);
    assert_eq!((a.pending, a.running, a.completed, a.failed), (2, 2, 2, 0));
    let o = statistics_overview(3, tasks.len(), 1);
    assert_eq!((o.user_count, o.task_count, o.template_count), (3, 5, 1));
}

#[test]
fn favorites_keep_counts() {
    let mut cat = TemplateCatalog::new();
    assert!(cat.add_template(1, "shop".to_string(), TemplateTopic::ECommerce, ProductEdition::L0));
    assert!(!cat.add_template(1, "dup".to_string(), TemplateTopic::Media, ProductEdition::L0));
    assert_eq!(cat.add_favorite(10, 1), Ok(()));
    assert_eq!(cat.add_favorite(11, 1), Ok(()));
    assert_eq!(cat.templates[0].fav_count, 2);
    assert_eq!(cat.add_favorite(10, 1), Err(FavoriteError::AlreadyFavorite));
    assert_eq!(cat.add_favorite(10, 2), Err(FavoriteError::TemplateNotFound));
    assert_eq!(cat.templates[0].fav_count, 2);
    assert_eq!(cat.delete_favorite(10, 1), Ok(true));
    assert_eq!(cat.delete_favorite(10, 1), Ok(false));
    assert_eq!(cat.delete_favorite(10, 2), Err(FavoriteError::TemplateNotFound));
    assert_eq!(cat.templates[0].fav_count, 1);
    assert_eq!(cat.favorites.len(), 1);
}

#[test]
fn template_search() {
    let mut cat = TemplateCatalog::new();
    cat.add_template(1, "Shopping list".to_string(), TemplateTopic::ECommerce, ProductEdition::L1);
    let t = &cat.templates[0];
    let q = TemplateQuery { name: Some("Shop".to_string()), topic: None, edition: None };
    assert!(q.matches(t));
    let q = TemplateQuery { name: Some("shop".to_string()), topic: None, edition: None };
    assert!(!q.matches(t));
    let q = TemplateQuery { name: None, topic: Some(TemplateTopic::Media), edition: None };
    assert!(!q.matches(t));
    let q = TemplateQuery { name: None, topic: Some(TemplateTopic::ECommerce), edition: Some(ProductEdition::L1) };
    assert!(q.matches(t));
    assert!(starts_with("héllo", "hé"));
    assert!(!starts_with("he", "hello"));
    let tq = ScraperTaskQuery { name: Some("cr".to_string()) };
    assert!(tq.matches(&task(1, 3, "crawl", false, false), 3));
    assert!(!tq.matches(&task(1, 3, "crawl", false, false), 4));
}

#[test]
fn claims_and_admin_rule() {
    let c = Claims::issued_at(1, "root@example.com".to_string(), 1000);
    assert_eq!(c.exp, (1000 + TOKEN_LIFETIME_SECS) as usize);
    assert_eq!(c.iss, "AutoWDS");
    assert!(c.is_admin());
    assert_eq!(c.require_admin(), Ok(()));
    let c2 = Claims::new(2, "u@example.com".to_string()).unwrap();
    assert_eq!(c2.uid, 2);
    assert_eq!(c2.email, "u@example.com");
    assert!(!c2.is_admin());
    assert_eq!(c2.require_admin(), Err(AuthError::AdminRequired));
    assert!(c2.exp as i64 >= TOKEN_LIFETIME_SECS);
}

#[test]
fn sign_in() {
    let mut store = AccountStore::new();
    let req = CreateUserReq { username: "a".to_string(), email: "a@example.com".to_string(), password: "digest1".to_string() };
    create_user_at(&mut store, req, 0, 0, vec![7u8; 16]).unwrap();
    let email = "a@example.com".to_string();
    assert_eq!(store.users[0].passwd_hash.len(), 32);
    assert_ne!(store.users[0].passwd_hash, b"digest1".to_vec());
    assert_eq!(login(&store, &email, &"digest1".to_string()), Ok(0));
    assert_eq!(login(&store, &email, &"other".to_string()), Err(AuthError::WrongPassword));
    assert_eq!(login(&store, &"b@example.com".to_string(), &"digest1".to_string()), Err(AuthError::NotRegistered));
    let u = &store.users[0];
    let claims = Claims::issued_at(u.id, u.email.clone(), 5);
    assert_eq!(claims.check_owner(u), Ok(()));
    let other = Claims::issued_at(u.id, "x@example.com".to_string(), 5);
    assert_eq!(other.check_owner(u), Err(AuthError::TokenMismatch));
    let t = UserToken::for_user(u, "tok".to_string());
    assert_eq!(t.id, 1);
    assert!(t.is_admin);
    assert_eq!(t.token, "tok");
}

#[test]
fn request_validation() {
    let ok = RegisterReq {
        name: "n".to_string(),
        email: "someone@example.com".to_string(),
        passwd: "p".to_string(),
        validate_code: "123456".to_string(),
        invite_code: None,
    };
    assert_eq!(ok.validate(), Ok(()));
    let bad_email = RegisterReq { email: "not-an-email".to_string(), ..ok };
    assert_eq!(bad_email.validate(), Err(FieldError::Email));
    let long_name = RegisterReq { name: "x".repeat(31), email: "someone@example.com".to_string(), ..bad_email };
    assert_eq!(long_name.validate(), Err(FieldError::Name));
    assert_eq!(SendEmailReq { email: "a@b.c".to_string() }.validate(), Ok(()));
    assert_eq!(SendEmailReq { email: "".to_string() }.validate(), Err(FieldError::Email));
    let c = CreateUserReq { username: "u".to_string(), email: "u@example.com".to_string(), password: "12345".to_string() };
    assert_eq!(c.validate(), Err(FieldError::Password));
    assert_eq!(AdjustCreditsReq { amount: -10001, description: "d".to_string() }.validate(), Err(FieldError::Amount));
    assert_eq!(AdjustCreditsReq { amount: 10000, description: "".to_string() }.validate(), Err(FieldError::Description));
    assert_eq!(PayStatusQuery { order_id: 0 }.validate(), Err(FieldError::OrderId));
}

#[test]
fn validation_codes() {
    assert_eq!(validate_code_key("a@b.c"), "email-validate:a@b.c");
    let given = "ab12".to_string();
    assert_eq!(check_validate_code(&None, &given), Err(CodeError::Expired));
    assert_eq!(check_validate_code(&Some("zz".to_string()), &given), Err(CodeError::Mismatch));
    assert_eq!(check_validate_code(&Some("ab12".to_string()), &given), Ok(()));
    assert_eq!(validate_code_from_draws(&vec![0, 10, 36, 61, 1, 2]), "0Aaz12");
    let code = generate_validate_code();
    assert_eq!(code.chars().count(), 6);
    assert!(code.chars().all(|c| c.is_ascii_alphanumeric()));
}

#[test]
fn paging() {
    let req = PageRequest { page: 3, size: 20, sort: vec![] };
    assert_eq!(req.offset(), 60);
    assert_eq!(req.limit(), 20);
    let page = Page::new(vec![1, 2, 3], 63, &req);
    assert_eq!((page.total, page.number, page.size), (63, 3, 20));
    let doubled = page.map(|x: &i32| x * 2);
    assert_eq!(doubled.content, vec![2, 4, 6]);
    assert_eq!(doubled.total, 63);
}

#[test]
fn error_kinds() {
    assert_eq!(CreditError::InsufficientBalance.kind(), ErrorKind::BadRequest);
    assert_eq!(CreditError::UserNotFound.kind().status(), 404);
    assert_eq!(AuthError::WrongPassword.kind().status(), 401);
    assert_eq!(TaskError::Forbidden.kind().status(), 403);
    assert_eq!(PayError::SignatureInvalid.kind(), ErrorKind::ProviderError);
    assert_eq!(ErrorKind::Internal.status(), 500);
    assert_eq!(ErrorKind::BadRequest.title(), "Bad Request");
}

#[test]
fn response_views() {
    assert_eq!(account_status(true), "locked");
    assert_eq!(account_status(false), "active");
    let o = PayOrder {
        id: 7,
        user_id: 1,
        level: ProductEdition::L1,
        pay_from: PayFrom::Alipay,
        status: OrderStatus::Confirmed,
        created: 0,
        confirm: Some(5),
    };
    let r = PayStatusResponse::from_order(&o, "c".to_string(), Some("d".to_string()));
    assert_eq!(r.order_id, 7);
    assert_eq!(r.status, "CONFIRMED");
    assert_eq!(ProductEdition::L2.as_str(), "L2");
    assert!(ProductEdition::L2.at_least(ProductEdition::L1));
    assert_eq!(ProductEdition::L1.max(ProductEdition::L3), ProductEdition::L3);
}

#[test]
fn admin_listing_filters() {
    assert!(contains("hello world", "o w"));
    assert!(contains("abc", ""));
    assert!(!contains("abc", "abcd"));
    assert!(!contains("abc", "ac"));
    let mut store = AccountStore::new();
    let req = CreateUserReq { username: "Alice".to_string(), email: "alice@example.com".to_string(), password: "digest1".to_string() };
    create_user_at(&mut store, req, 0, 0, vec![7u8; 16]).unwrap();
    let u = &store.users[0];
    assert!(UserListQuery { keyword: None }.matches(u));
    assert!(UserListQuery { keyword: Some("lic".to_string()) }.matches(u));
    assert!(UserListQuery { keyword: Some("example".to_string()) }.matches(u));
    assert!(!UserListQuery { keyword: Some("bob".to_string()) }.matches(u));
    let deleted_unscheduled = task(1, 1, "a", false, true);
    assert!(TaskListQuery { status: Some("pending".to_string()) }.matches(&deleted_unscheduled));
    assert!(TaskListQuery { status: Some("completed".to_string()) }.matches(&deleted_unscheduled));
    assert!(!TaskListQuery { status: Some("running".to_string()) }.matches(&deleted_unscheduled));
    assert!(TaskListQuery { status: Some("other".to_string()) }.matches(&deleted_unscheduled));
    let r = UserResp::from_user(u, "2024-01-01 00:00:00".to_string());
    assert_eq!(r.status, "active");
    assert_eq!(r.credits, 100);
    let mut cat = TemplateCatalog::new();
    cat.add_template(3, "news".to_string(), TemplateTopic::Media, ProductEdition::L0);
    cat.add_favorite(1, 3).unwrap();
    let l = ListTemplateResp::new(&cat.templates[0], true);
    assert!(l.like);
    assert_eq!(l.fav_count, 1);
}

#[test]
fn task_writes_need_ownership() {
    let mut tasks = vec![task(1, 10, "a", false, false), task(2, 20, "b", true, false)];
    assert_eq!(delete_task(&mut tasks, 2, 10), Err(TaskError::Forbidden));
    assert!(!tasks[1].deleted);
    assert_eq!(delete_task(&mut tasks, 3, 10), Err(TaskError::NotFound));
    assert_eq!(delete_task(&mut tasks, 2, 20), Ok(1));
    assert!(tasks[1].deleted);
    assert_eq!(tasks[1].state(), TaskState::Completed);
    let sched = ScheduleData { cron: "0 0 * * * *".to_string(), proxy_id: 2, ty: ScheduleType::Browser };
    assert_eq!(update_task_schedule(&mut tasks, 1, 20, None), Err(TaskError::Forbidden));
    assert_eq!(update_task_schedule(&mut tasks, 1, 10, Some(sched)), Ok(0));
    assert_eq!(tasks[0].state(), TaskState::Running);
}

#[test]
fn password_keys_depend_on_salt_and_password() {
    let pw = "hunter2".to_string();
    let a = hash_password(&vec![1u8; 16], &pw);
    let b = hash_password(&vec![2u8; 16], &pw);
    let c = hash_password(&vec![1u8; 16], &"hunter3".to_string());
    assert_eq!(a.len(), 32);
    assert_ne!(a, b);
    assert_ne!(a, c);
    assert_eq!(a, hash_password(&vec![1u8; 16], &pw));
    assert!(verify_password(&vec![1u8; 16], &a, &pw));
    assert!(!verify_password(&vec![2u8; 16], &a, &pw));
    assert!(!verify_password(&vec![1u8; 15], &a, &pw));
}
