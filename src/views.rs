//! Response payloads built from the library's records.
use vstd::prelude::*;
use vstd::string::*;
use crate::claims::{spec_is_admin, ADMIN_MAX_ID};
use crate::credit::AccountUser;
use crate::dto::{ScraperTaskQuery, TaskListQuery, TemplateQuery, UserListQuery};
use crate::enums::{ProductEdition, TemplateTopic};
use crate::favorite::TaskTemplate;
use crate::pay::{OrderStatus, PayFrom, PayOrder};
use crate::task::{spec_task_state, ScraperTask, TaskState};

verus! {

/// `p` is a prefix of `s`.
pub open spec fn has_prefix(s: Seq<char>, p: Seq<char>) -> bool {
    p.len() <= s.len() && s.subrange(0, p.len() as int) == p
}

/// Whether `s` starts with `prefix`.
pub fn starts_with(s: &str, prefix: &str) -> (r: bool)
    ensures
        r == has_prefix(s@, prefix@),
{
    let n = s.unicode_len();
    let m = prefix.unicode_len();
    if m > n {
        return false;
    }
    let mut i: usize = 0;
    while i < m
        invariant
            m == prefix@.len(),
            n == s@.len(),
            m <= n,
            i <= m,
            forall|j: int| 0 <= j < i ==> s@[j] == prefix@[j],
        decreases m - i,
    {
        if s.get_char(i) != prefix.get_char(i) {
            assert(s@.subrange(0, m as int)[i as int] != prefix@[i as int]);
            return false;
        }
        i = i + 1;
    }
    assert(s@.subrange(0, m as int) =~= prefix@);
    true
}

/// `k` occurs in `s` starting at `i`.
pub open spec fn occurs_at(s: Seq<char>, k: Seq<char>, i: int) -> bool {
    0 <= i && i + k.len() <= s.len() && s.subrange(i, i + k.len()) == k
}

/// `k` occurs somewhere in `s`.
pub open spec fn has_infix(s: Seq<char>, k: Seq<char>) -> bool {
    exists|i: int| #[trigger] occurs_at(s, k, i)
}

/// Whether `k` occurs in `s` at character position `i`.
fn matches_at(s: &str, k: &str, i: usize) -> (r: bool)
    requires
        i + k@.len() <= s@.len(),
    ensures
        r == occurs_at(s@, k@, i as int),
{
    let m = k.unicode_len();
    let n = s.unicode_len();
    let mut j: usize = 0;
    while j < m
        invariant
            m == k@.len(),
            n == s@.len(),
            i + m <= s@.len(),
            j <= m,
            forall|t: int| 0 <= t < j ==> s@[i + t] == k@[t],
        decreases m - j,
    {
        if s.get_char(i + j) != k.get_char(j) {
            assert(s@.subrange(i as int, i + m)[j as int] != k@[j as int]);
            return false;
        }
        j = j + 1;
    }
    assert(s@.subrange(i as int, i + m) =~= k@);
    true
}

/// Whether `k` occurs in `s`.
pub fn contains(s: &str, k: &str) -> (r: bool)
    ensures
        r == has_infix(s@, k@),
{
    let n = s.unicode_len();
    let m = k.unicode_len();
    if m > n {
        assert forall|i: int| !occurs_at(s@, k@, i) by {}
        return false;
    }
    let mut i: usize = 0;
    loop
        invariant
            n == s@.len(),
            m == k@.len(),
            m <= n,
            i <= n - m,
            forall|t: int| 0 <= t < i ==> !#[trigger] occurs_at(s@, k@, t),
        ensures
            forall|t: int| 0 <= t <= n - m ==> !#[trigger] occurs_at(s@, k@, t),
        decreases n - m - i,
    {
        if matches_at(s, k, i) {
            assert(occurs_at(s@, k@, i as int));
            return true;
        }
        if i == n - m {
            break;
        }
        i = i + 1;
    }
    assert forall|t: int| !#[trigger] occurs_at(s@, k@, t) by {
        if 0 <= t <= n - m {
        }
    }
    false
}

impl UserListQuery {
    /// Whether `user`'s name or email contains the keyword, when one is given.
    pub fn matches(&self, user: &AccountUser) -> (r: bool)
        ensures
            r == (self.keyword matches Some(k) ==> (has_infix(user.name@, k@) || has_infix(
                user.email@,
                k@,
            ))),
    {
        match &self.keyword {
            None => true,
            Some(k) => contains(user.name.as_str(), k.as_str()) || contains(
                user.email.as_str(),
                k.as_str(),
            ),
        }
    }
}

impl TaskListQuery {
    /// Whether `task` is in the asked state: `pending` (not scheduled),
    /// `running` (scheduled, not deleted) or `completed` (deleted). Any other
    /// state name, or none, asks for every task.
    pub fn matches(&self, task: &ScraperTask) -> (r: bool)
        ensures
            r == match self.status {
                None => true,
                Some(s) => if s@ == "pending"@ {
                    task.data.is_none()
                } else if s@ == "running"@ {
                    task.data.is_some() && !task.deleted
                } else if s@ == "completed"@ {
                    task.deleted
                } else {
                    true
                },
            },
    {
        match &self.status {
            None => true,
            Some(s) => match TaskState::parse(s) {
                Some(TaskState::Pending) => task.data.is_none(),
                Some(TaskState::Running) => task.data.is_some() && !task.deleted,
                Some(TaskState::Completed) => task.deleted,
                None => true,
            },
        }
    }
}

impl TemplateQuery {
    /// Whether `t` has the asked name prefix, topic and tier, each when asked.
    pub fn matches(&self, t: &TaskTemplate) -> (r: bool)
        ensures
            r == ((self.name matches Some(n) ==> has_prefix(t.name@, n@)) && (self.topic matches Some(
                x,
            ) ==> t.topic == x) && (self.edition matches Some(e) ==> t.edition == e)),
    {
        if let Some(n) = &self.name {
            if !starts_with(t.name.as_str(), n.as_str()) {
                return false;
            }
        }
        if let Some(x) = self.topic {
            if t.topic != x {
                return false;
            }
        }
        if let Some(e) = self.edition {
            if t.edition != e {
                return false;
            }
        }
        true
    }
}

impl ScraperTaskQuery {
    /// Whether `t` belongs to `uid` and has the asked name prefix, when asked.
    pub fn matches(&self, t: &ScraperTask, uid: i64) -> (r: bool)
        ensures
            r == (t.user_id == uid && (self.name matches Some(n) ==> has_prefix(t.name@, n@))),
    {
        if t.user_id != uid {
            return false;
        }
        if let Some(n) = &self.name {
            return starts_with(t.name.as_str(), n.as_str());
        }
        true
    }
}

/// An account as administrators see it. The creation time is formatted by the
/// caller.
pub struct UserResp {
    pub id: i64,
    pub username: String,
    pub email: String,
    pub status: String,
    pub created_at: String,
    pub credits: i32,
    pub invite_code: String,
    pub invited_by: Option<i64>,
    pub edition: ProductEdition,
}

impl UserResp {
    /// The view of `user`.
    pub fn from_user(user: &AccountUser, created_at: String) -> (r: UserResp)
        ensures
            r.id == user.id,
            r.username == user.name,
            r.email == user.email,
            r.status@ == (if user.locked {
                "locked"@
            } else {
                "active"@
            }),
            r.created_at == created_at,
            r.credits == user.credits,
            r.invite_code == user.invite_code,
            r.invited_by == user.invited_by,
            r.edition == user.edition,
    {
        UserResp {
            id: user.id,
            username: user.name.clone(),
            email: user.email.clone(),
            status: String::from_str(account_status(user.locked)),
            created_at,
            credits: user.credits,
            invite_code: user.invite_code.clone(),
            invited_by: user.invited_by,
            edition: user.edition,
        }
    }
}

/// A catalog entry as listed to a user, with whether the user favors it.
pub struct ListTemplateResp {
    pub id: i64,
    pub topic: TemplateTopic,
    pub edition: ProductEdition,
    pub fav_count: i32,
    pub name: String,
    pub like: bool,
}

impl ListTemplateResp {
    /// The listing of `model`; `like` tells whether the user favors it.
    pub fn new(model: &TaskTemplate, like: bool) -> (r: ListTemplateResp)
        ensures
            r.id == model.id,
            r.topic == model.topic,
            r.edition == model.edition,
            r.fav_count == model.fav_count,
            r.name == model.name,
            r.like == like,
    {
        ListTemplateResp {
            id: model.id,
            topic: model.topic,
            edition: model.edition,
            fav_count: model.fav_count,
            name: model.name.clone(),
            like,
        }
    }
}

/// What a successful sign-in returns.
pub struct UserToken {
    pub id: i64,
    pub is_admin: bool,
    pub name: String,
    pub email: String,
    pub edition: ProductEdition,
    pub token: String,
}

impl UserToken {
    /// The sign-in answer for `user` with its encoded `token`.
    pub fn for_user(user: &AccountUser, token: String) -> (r: UserToken)
        ensures
            r.id == user.id,
            r.is_admin == spec_is_admin(user.id),
            r.name == user.name,
            r.email == user.email,
            r.edition == user.edition,
            r.token == token,
    {
        UserToken {
            id: user.id,
            is_admin: user.id <= ADMIN_MAX_ID,
            name: user.name.clone(),
            email: user.email.clone(),
            edition: user.edition,
            token,
        }
    }
}

/// Whether an account is locked, as shown to administrators.
pub fn account_status(locked: bool) -> (r: &'static str)
    ensures
        r@ == if locked {
            "locked"@
        } else {
            "active"@
        },
{
    if locked {
        "locked"
    } else {
        "active"
    }
}

/// A task as administrators see it. Times are formatted by the caller.
pub struct TaskResp {
    pub id: i64,
    pub name: String,
    pub status: String,
    pub template_id: i64,
    pub created_at: String,
    pub updated_at: String,
}

impl TaskResp {
    /// The view of `task`, with its state's name as status.
    pub fn from_task(task: &ScraperTask, created_at: String, updated_at: String) -> (r: TaskResp)
        ensures
            r.id == task.id,
            r.name == task.name,
            r.status@ == spec_task_state(task.deleted, task.data.is_some()).spec_name(),
            r.template_id == 0,
            r.created_at == created_at,
            r.updated_at == updated_at,
    {
        let state = task.state();
        TaskResp {
            id: task.id,
            name: task.name.clone(),
            status: String::from_str(state.as_str()),
            template_id: 0,
            created_at,
            updated_at,
        }
    }
}

impl TaskState {
    pub open spec fn spec_name(self) -> Seq<char> {
        match self {
            TaskState::Pending => "pending"@,
            TaskState::Running => "running"@,
            TaskState::Completed => "completed"@,
        }
    }
}

impl OrderStatus {
    pub open spec fn spec_name(self) -> Seq<char> {
        match self {
            OrderStatus::Created => "CREATED"@,
            OrderStatus::Pending => "PENDING"@,
            OrderStatus::Confirmed => "CONFIRMED"@,
            OrderStatus::Failed => "FAILED"@,
        }
    }

    /// The status's name.
    pub fn as_str(&self) -> (r: &'static str)
        ensures
            r@ == self.spec_name(),
    {
        match self {
            OrderStatus::Created => "CREATED",
            OrderStatus::Pending => "PENDING",
            OrderStatus::Confirmed => "CONFIRMED",
            OrderStatus::Failed => "FAILED",
        }
    }
}

/// An order as its owner sees it. Times are formatted by the caller.
pub struct PayStatusResponse {
    pub order_id: i32,
    pub status: String,
    pub level: ProductEdition,
    pub pay_from: PayFrom,
    pub created: String,
    pub confirm: Option<String>,
}

impl PayStatusResponse {
    /// The view of `order`, whose id must fit an `i32`.
    pub fn from_order(order: &PayOrder, created: String, confirm: Option<String>) -> (r:
        PayStatusResponse)
        requires
            i32::MIN <= order.id <= i32::MAX,
        ensures
            r.order_id == order.id,
            r.status@ == order.status.spec_name(),
            r.level == order.level,
            r.pay_from == order.pay_from,
            r.created == created,
            r.confirm == confirm,
    {
        PayStatusResponse {
            order_id: order.id as i32,
            status: String::from_str(order.status.as_str()),
            level: order.level,
            pay_from: order.pay_from,
            created,
            confirm,
        }
    }
}

/// The text of a mail that carries a validation code.
pub struct ValidateCodeEmailTemplate {
    pub tip: String,
    pub code: String,
}

impl ValidateCodeEmailTemplate {
    /// The mail sent to confirm a registration.
    pub fn for_register(code: String) -> (r: ValidateCodeEmailTemplate)
        ensures
            r.code == code,
            r.tip@ == "Welcome! Your registration code, valid for 5 minutes, is:"@,
    {
        ValidateCodeEmailTemplate {
            tip: String::from_str("Welcome! Your registration code, valid for 5 minutes, is:"),
            code,
        }
    }

    /// The mail sent to confirm a password reset.
    pub fn for_reset(code: String) -> (r: ValidateCodeEmailTemplate)
        ensures
            r.code == code,
            r.tip@ == "To reset your password, enter this code within 5 minutes:"@,
    {
        ValidateCodeEmailTemplate {
            tip: String::from_str("To reset your password, enter this code within 5 minutes:"),
            code,
        }
    }
}

} // verus!
