//! Account registration and the operations on accounts built on the ledger.
use vstd::prelude::*;
use vstd::string::*;
use crate::credit::{
    invite_code, last_balance, lemma_last_balance_absent, AccountStore, AccountUser, CreditError, CreditLog,
    CreditOperation, CreditService, INVITE_PART_MODULUS,
};
use crate::enums::ProductEdition;
use crate::password::{credential, hash_password, new_salt, password_fits, password_fits_exec, SALT_LEN};
use crate::sys::{random_below, unix_now};

verus! {

/// Credits a new account starts with.
pub const SIGNUP_BONUS: i32 = 100;

/// Credits an inviter earns for each account registered with their code.
pub const INVITE_BONUS: i32 = 100;

/// Credits one data export costs.
pub const EXPORT_COST: i32 = 1;

/// Largest change of a balance that one adjustment by an administrator may make.
pub const MAX_CREDIT_ADJUSTMENT: i32 = 10000;

/// A registration request.
pub struct RegisterReq {
    pub name: String,
    pub email: String,
    pub passwd: String,
    /// The code that was mailed to `email`.
    pub validate_code: String,
    /// Invite code of the account that invited this one.
    pub invite_code: Option<String>,
}

/// Why a registration was refused. A refused registration changes nothing.
#[derive(Clone, Copy, Debug, PartialEq, Eq, Structural)]
pub enum RegisterError {
    /// No validation code is on record for the email (never sent, or expired).
    CodeExpired,
    /// The validation code differs from the one on record.
    CodeMismatch,
    /// An account already has this email.
    EmailTaken,
    /// No account has the given invite code.
    InvalidInviteCode,
    /// Every account id has been used.
    IdsExhausted,
    /// The inviter's balance cannot take the bonus.
    BonusOverflow,
    /// An account already holds the invite code drawn for the new account.
    InviteCodeTaken,
    /// The password is too long to be hashed.
    PasswordTooLong,
}

impl AccountStore {
    pub open spec fn email_taken(&self, email: Seq<char>) -> bool {
        exists|i: int| 0 <= i < self.users@.len() && #[trigger] self.users@[i].email@ == email
    }

    pub open spec fn has_invite_code(&self, code: Seq<char>) -> bool {
        exists|i: int|
            0 <= i < self.users@.len() && #[trigger] self.users@[i].invite_code@ == code
    }

    /// `i` is the first account whose invite code is `code`.
    pub open spec fn is_code_owner(&self, code: Seq<char>, i: int) -> bool {
        &&& 0 <= i < self.users@.len()
        &&& self.users@[i].invite_code@ == code
        &&& forall|j: int| 0 <= j < i ==> #[trigger] self.users@[j].invite_code@ != code
    }

    /// Position of the first account whose invite code is `code`.
    pub open spec fn code_owner(&self, code: Seq<char>) -> int {
        choose|i: int| self.is_code_owner(code, i)
    }

    /// Position of the first account whose invite code is `code`, if any.
    pub fn find_invite_code(&self, code: &String) -> (r: Option<usize>)
        ensures
            match r {
                Some(i) => self.is_code_owner(code@, i as int) && self.code_owner(code@)
                    == i as int,
                None => !self.has_invite_code(code@),
            },
    {
        let mut i: usize = 0;
        while i < self.users.len()
            invariant
                i <= self.users@.len(),
                forall|j: int| 0 <= j < i ==> #[trigger] self.users@[j].invite_code@ != code@,
            decreases self.users@.len() - i,
        {
            if self.users[i].invite_code == *code {
                proof {
                    assert(self.is_code_owner(code@, i as int));
                    let o = self.code_owner(code@);
                    assert(self.is_code_owner(code@, o));
                    if o < i {
                        assert(self.users@[o].invite_code@ != code@);
                    } else if o > i {
                        assert(self.users@[i as int].invite_code@ != code@);
                    }
                }
                return Some(i);
            }
            i = i + 1;
        }
        None
    }

    /// Whether an account has `email`.
    pub fn email_exists(&self, email: &String) -> (r: bool)
        ensures
            r == self.email_taken(email@),
    {
        let mut i: usize = 0;
        while i < self.users.len()
            invariant
                i <= self.users@.len(),
                forall|j: int| 0 <= j < i ==> #[trigger] self.users@[j].email@ != email@,
            decreases self.users@.len() - i,
        {
            if self.users[i].email == *email {
                return true;
            }
            i = i + 1;
        }
        false
    }
}

impl AccountStore {
    /// Appends a fresh account, with no credits, under the next id.
    fn insert_user(&mut self, user: AccountUser)
        requires
            old(self).wf(),
            user.id == old(self).next_user_id,
            old(self).next_user_id < i64::MAX,
            user.credits == 0,
            !old(self).email_taken(user.email@),
            !old(self).has_invite_code(user.invite_code@),
        ensures
            final(self).wf(),
            final(self).users@ == old(self).users@.push(user),
            final(self).logs@ == old(self).logs@,
            final(self).next_user_id == old(self).next_user_id + 1,
    {
        proof {
            lemma_last_balance_absent(self.logs@, user.id);
        }
        self.users.push(user);
        self.next_user_id = self.next_user_id + 1;
        proof {
            let n = old(self).users@.len() as int;
            assert forall|i: int, j: int|
                0 <= i < j < self.users@.len() implies self.users@[i].email@
                != self.users@[j].email@ by {
                if j == n {
                    assert(old(self).users@[i].email@ != user.email@);
                }
            }
            assert forall|i: int, j: int|
                0 <= i < j < self.users@.len() implies self.users@[i].invite_code@
                != self.users@[j].invite_code@ by {
                if j == n {
                    assert(old(self).users@[i].invite_code@ != user.invite_code@);
                }
            }
        }
    }
}

impl CreditService {
    /// Credits the inviter `inviter_id` with the invite bonus, naming the
    /// invited account `new_user_id` in the entry.
    pub fn handle_invite_register(store: &mut AccountStore, inviter_id: i64, new_user_id: i64) -> (r:
        Result<(), CreditError>)
        requires
            old(store).wf(),
        ensures
            final(store).wf(),
            final(store).next_user_id == old(store).next_user_id,
            r.is_ok() <==> (old(store).has_user(inviter_id) && old(store).credits_of(inviter_id)
                + INVITE_BONUS <= i32::MAX),
            r.is_err() ==> final(store).users@ == old(store).users@ && final(store).logs@ == old(store).logs@,
            r.is_ok() ==> {
                let i = old(store).index_of(inviter_id);
                let b = (old(store).credits_of(inviter_id) + INVITE_BONUS) as i32;
                &&& final(store).users@ == old(store).users@.update(
                    i,
                    old(store).users@[i].with_credits(b),
                )
                &&& final(store).logs@.len() == old(store).logs@.len() + 1
                &&& final(store).logs@.drop_last() == old(store).logs@
                &&& final(store).logs@.last().user_id == inviter_id
                &&& final(store).logs@.last().operation == CreditOperation::Invite
                &&& final(store).logs@.last().amount == INVITE_BONUS
                &&& final(store).logs@.last().balance == b
                &&& final(store).logs@.last().related_user_id == Some(new_user_id)
                &&& final(store).logs@.last().description matches Some(d) && d@ == "invite bonus"@
            },
    {
        let r = CreditService::add_credits(
            store,
            inviter_id,
            INVITE_BONUS,
            CreditOperation::Invite,
            Some(String::from_str("invite bonus")),
            Some(new_user_id),
        );
        proof {
            if r.is_ok() {
                assert(store.logs@.drop_last() =~= old(store).logs@);
            }
        }
        match r {
            Ok(_) => Ok(()),
            Err(e) => Err(e),
        }
    }
}

impl AccountStore {
    /// Sets the tier of the account at `i`.
    pub fn set_edition(&mut self, i: usize, edition: ProductEdition)
        requires
            old(self).wf(),
            i < old(self).users@.len(),
        ensures
            final(self).wf(),
            final(self).next_user_id == old(self).next_user_id,
            final(self).logs@ == old(self).logs@,
            final(self).users@ == old(self).users@.update(
                i as int,
                AccountUser { edition, ..old(self).users@[i as int] },
            ),
    {
        self.users[i].edition = edition;
        assert(self.users@ =~= old(self).users@.update(
            i as int,
            AccountUser { edition, ..old(self).users@[i as int] },
        ));
    }
}

/// Charges one data export to `user_id`: refused, with nothing changed, when
/// the balance is below the cost.
pub fn export_data(store: &mut AccountStore, user_id: i64) -> (r: Result<i32, CreditError>)
    requires
        old(store).wf(),
    ensures
        final(store).wf(),
        final(store).next_user_id == old(store).next_user_id,
        r.is_ok() <==> (old(store).has_user(user_id) && old(store).credits_of(user_id)
            >= EXPORT_COST),
        (r == Err::<i32, CreditError>(CreditError::UserNotFound)) <==> !old(store).has_user(
            user_id,
        ),
        (r == Err::<i32, CreditError>(CreditError::InsufficientBalance)) <==> (old(store).has_user(user_id) && old(store).credits_of(user_id) < EXPORT_COST),
        r.is_err() ==> final(store).users@ == old(store).users@ && final(store).logs@ == old(store).logs@,
        r.is_ok() ==> {
            let i = old(store).index_of(user_id);
            let b = r.unwrap();
            &&& b == old(store).credits_of(user_id) - EXPORT_COST
            &&& final(store).users@ == old(store).users@.update(
                i,
                old(store).users@[i].with_credits(b),
            )
            &&& final(store).logs@.len() == old(store).logs@.len() + 1
            &&& final(store).logs@.drop_last() == old(store).logs@
            &&& final(store).logs@.last().user_id == user_id
            &&& final(store).logs@.last().operation == CreditOperation::Export
            &&& final(store).logs@.last().amount == -EXPORT_COST
            &&& final(store).logs@.last().balance == b
            &&& final(store).logs@.last().related_user_id == None::<i64>
            &&& final(store).logs@.last().description matches Some(d) && d@ == "data export"@
        },
{
    let note = String::from_str("data export");
    let r = CreditService::deduct_credits(
        store,
        user_id,
        EXPORT_COST,
        CreditOperation::Export,
        Some(note),
    );
    proof {
        if r.is_ok() {
            assert(store.logs@.drop_last() =~= old(store).logs@);
        }
    }
    r
}

/// An administrator's change of the balance of `user_id` by `amount`, logged
/// with `description`: a credit when positive, a deduction when negative,
/// nothing when zero. Returns the balance after it.
pub fn adjust_user_credits(
    store: &mut AccountStore,
    user_id: i64,
    amount: i32,
    description: String,
) -> (r: Result<i32, CreditError>)
    requires
        old(store).wf(),
    ensures
        final(store).wf(),
        final(store).next_user_id == old(store).next_user_id,
        (r == Err::<i32, CreditError>(CreditError::InvalidAmount)) <==> (amount
            < -MAX_CREDIT_ADJUSTMENT || amount > MAX_CREDIT_ADJUSTMENT),
        (r == Err::<i32, CreditError>(CreditError::UserNotFound)) <==> (-MAX_CREDIT_ADJUSTMENT
            <= amount <= MAX_CREDIT_ADJUSTMENT && !old(store).has_user(user_id)),
        (r == Err::<i32, CreditError>(CreditError::InsufficientBalance)) <==> (
        -MAX_CREDIT_ADJUSTMENT <= amount < 0 && old(store).has_user(user_id) && old(store).credits_of(user_id) + amount < 0),
        (r == Err::<i32, CreditError>(CreditError::BalanceOverflow)) <==> (0 < amount
            <= MAX_CREDIT_ADJUSTMENT && old(store).has_user(user_id) && old(store).credits_of(
            user_id,
        ) + amount > i32::MAX),
        r.is_err() || amount == 0 ==> final(store).users@ == old(store).users@ && final(store).logs@ == old(store).logs@,
        r.is_ok() ==> r.unwrap() == old(store).credits_of(user_id) + amount,
        r.is_ok() && amount != 0 ==> {
            let i = old(store).index_of(user_id);
            let b = r.unwrap();
            &&& final(store).users@ == old(store).users@.update(
                i,
                old(store).users@[i].with_credits(b),
            )
            &&& final(store).logs@ == old(store).logs@.push(
                CreditLog {
                    user_id,
                    operation: CreditOperation::AdminAdjust,
                    amount,
                    balance: b,
                    description: Some(description),
                    related_user_id: None,
                },
            )
        },
{
    if amount < -MAX_CREDIT_ADJUSTMENT || amount > MAX_CREDIT_ADJUSTMENT {
        return Err(CreditError::InvalidAmount);
    }
    if amount > 0 {
        CreditService::add_credits(
            store,
            user_id,
            amount,
            CreditOperation::AdminAdjust,
            Some(description),
            None,
        )
    } else if amount < 0 {
        CreditService::deduct_credits(
            store,
            user_id,
            -amount,
            CreditOperation::AdminAdjust,
            Some(description),
        )
    } else {
        match store.find_user(user_id) {
            None => Err(CreditError::UserNotFound),
            Some(i) => {
                proof {
                    store.lemma_index_of(i as int);
                }
                Ok(store.users[i].credits)
            },
        }
    }
}

/// An administrator's change of the tier of `user_id`, recorded as a ledger
/// entry of zero credits that names both tiers and `description`.
pub fn update_user_edition(
    store: &mut AccountStore,
    user_id: i64,
    edition: ProductEdition,
    description: String,
) -> (r: Result<(), CreditError>)
    requires
        old(store).wf(),
    ensures
        final(store).wf(),
        final(store).next_user_id == old(store).next_user_id,
        r.is_ok() <==> old(store).has_user(user_id),
        r.is_err() ==> r == Err::<(), CreditError>(CreditError::UserNotFound) && final(store).users@ == old(store).users@ && final(store).logs@ == old(store).logs@,
        r.is_ok() ==> {
            let i = old(store).index_of(user_id);
            &&& final(store).users@ == old(store).users@.update(
                i,
                AccountUser { edition, ..old(store).users@[i] },
            )
            &&& final(store).logs@.len() == old(store).logs@.len() + 1
            &&& final(store).logs@.drop_last() == old(store).logs@
            &&& final(store).logs@.last().user_id == user_id
            &&& final(store).logs@.last().operation == CreditOperation::AdminAdjust
            &&& final(store).logs@.last().amount == 0
            &&& final(store).logs@.last().balance == old(store).credits_of(user_id)
        },
{
    let i = match store.find_user(user_id) {
        None => return Err(CreditError::UserNotFound),
        Some(i) => i,
    };
    proof {
        store.lemma_index_of(i as int);
    }
    let old_edition = store.users[i].edition;
    let mut note = String::from_str("edition change: ");
    note.append(old_edition.as_str());
    note.append(" -> ");
    note.append(edition.as_str());
    note.append(" (");
    note.append(description.as_str());
    note.append(")");
    store.set_edition(i, edition);
    proof {
        store.lemma_index_of(i as int);
    }
    let r = CreditService::log_note(store, user_id, CreditOperation::AdminAdjust, Some(note));
    assert(r.is_ok());
    assert(store.logs@.drop_last() =~= old(store).logs@);
    Ok(())
}

/// Applies paid tiers to accounts.
pub struct UserService;

impl UserService {
    /// Raises the tier of `user_id` to at least `level`. It never lowers a
    /// tier, and applying the same tier again changes nothing.
    pub fn confirm_user(store: &mut AccountStore, user_id: i64, level: ProductEdition) -> (r:
        Result<(), CreditError>)
        requires
            old(store).wf(),
        ensures
            final(store).wf(),
            final(store).next_user_id == old(store).next_user_id,
            final(store).logs@ == old(store).logs@,
            r.is_ok() <==> old(store).has_user(user_id),
            r.is_err() ==> r == Err::<(), CreditError>(CreditError::UserNotFound)
                && final(store).users@ == old(store).users@,
            r.is_ok() ==> {
                let i = old(store).index_of(user_id);
                final(store).users@ == old(store).users@.update(
                    i,
                    AccountUser { edition: old(store).users@[i].edition.spec_max(level), ..old(store).users@[i] },
                )
            },
    {
        let i = match store.find_user(user_id) {
            None => return Err(CreditError::UserNotFound),
            Some(i) => i,
        };
        proof {
            store.lemma_index_of(i as int);
        }
        let edition = store.users[i].edition.max(level);
        store.set_edition(i, edition);
        Ok(())
    }
}

/// Why a password reset was refused. A refused reset changes nothing.
#[derive(Clone, Copy, Debug, PartialEq, Eq, Structural)]
pub enum ResetError {
    /// No validation code is on record for the email.
    CodeExpired,
    /// The validation code differs from the one on record.
    CodeMismatch,
    /// No account has the email.
    UserNotFound,
    /// The new password is too long to be hashed.
    PasswordTooLong,
}

/// Replaces the password of the account with `email`, once the validation
/// code checks out: the account gets `salt` and the key of `passwd` under it.
/// Returns the account's position.
pub fn reset_password(
    store: &mut AccountStore,
    email: &String,
    passwd: &String,
    salt: Vec<u8>,
    validate_code: &String,
    stored_code: &Option<String>,
) -> (r: Result<usize, ResetError>)
    requires
        old(store).wf(),
        salt@.len() == SALT_LEN,
    ensures
        final(store).wf(),
        final(store).next_user_id == old(store).next_user_id,
        final(store).logs@ == old(store).logs@,
        r == Err::<usize, ResetError>(ResetError::CodeExpired) <==> stored_code.is_none(),
        r == Err::<usize, ResetError>(ResetError::CodeMismatch) <==> (stored_code matches Some(
            c,
        ) && c@ != validate_code@),
        r == Err::<usize, ResetError>(ResetError::PasswordTooLong) <==> (stored_code matches Some(
            c,
        ) && c@ == validate_code@ && !password_fits(passwd@)),
        r == Err::<usize, ResetError>(ResetError::UserNotFound) <==> (stored_code matches Some(
            c,
        ) && c@ == validate_code@ && password_fits(passwd@) && !old(store).email_taken(email@)),
        r.is_err() ==> final(store).users@ == old(store).users@,
        r matches Ok(i) ==> i < old(store).users@.len() && old(store).users@[i as int].email@
            == email@ && final(store).users@[i as int].passwd_salt@ == salt@ && final(
            store).users@[i as int].passwd_hash@ == credential(salt@, passwd@) && final(
            store).users@ == old(store).users@.update(
            i as int,
            AccountUser {
                passwd_salt: final(store).users@[i as int].passwd_salt,
                passwd_hash: final(store).users@[i as int].passwd_hash,
                ..old(store).users@[i as int]
            },
        ),
{
    match stored_code {
        None => {
            return Err(ResetError::CodeExpired);
        },
        Some(c) => {
            if !(*c == *validate_code) {
                return Err(ResetError::CodeMismatch);
            }
        },
    }
    if !password_fits_exec(passwd) {
        return Err(ResetError::PasswordTooLong);
    }
    let key = hash_password(&salt, passwd);
    let mut i: usize = 0;
    while i < store.users.len()
        invariant
            store.wf(),
            *store == *old(store),
            stored_code matches Some(c) && c@ == validate_code@,
            password_fits(passwd@),
            salt@.len() == SALT_LEN,
            key@ == credential(salt@, passwd@),
            i <= store.users@.len(),
            forall|j: int| 0 <= j < i ==> #[trigger] store.users@[j].email@ != email@,
        decreases store.users@.len() - i,
    {
        if store.users[i].email == *email {
            store.users[i].passwd_salt = salt;
            store.users[i].passwd_hash = key;
            assert(store.users@ =~= old(store).users@.update(
                i as int,
                AccountUser {
                    passwd_salt: store.users@[i as int].passwd_salt,
                    passwd_hash: store.users@[i as int].passwd_hash,
                    ..old(store).users@[i as int]
                },
            ));
            return Ok(i);
        }
        i = i + 1;
    }
    Err(ResetError::UserNotFound)
}

/// Renames the account `user_id`.
pub fn set_name(store: &mut AccountStore, user_id: i64, name: String) -> (r: Result<(), CreditError>)
    requires
        old(store).wf(),
    ensures
        final(store).wf(),
        final(store).next_user_id == old(store).next_user_id,
        final(store).logs@ == old(store).logs@,
        r.is_ok() <==> old(store).has_user(user_id),
        r.is_err() ==> r == Err::<(), CreditError>(CreditError::UserNotFound)
            && final(store).users@ == old(store).users@,
        r.is_ok() ==> final(store).users@ == old(store).users@.update(
            old(store).index_of(user_id),
            AccountUser { name, ..old(store).users@[old(store).index_of(user_id)] },
        ),
{
    let i = match store.find_user(user_id) {
        None => return Err(CreditError::UserNotFound),
        Some(i) => i,
    };
    proof {
        store.lemma_index_of(i as int);
    }
    store.users[i].name = name;
    assert(store.users@ =~= old(store).users@.update(
        i as int,
        AccountUser { name, ..old(store).users@[i as int] },
    ));
    Ok(())
}

/// Why an administrator's edit of an account was refused. A refused edit
/// changes nothing.
#[derive(Clone, Copy, Debug, PartialEq, Eq, Structural)]
pub enum UpdateError {
    UserNotFound,
    /// Another account has the new email.
    EmailTaken,
}

/// Another account than the one at `i` has `email`.
pub open spec fn email_taken_by_other(store: AccountStore, i: int, email: Seq<char>) -> bool {
    exists|j: int| 0 <= j < store.users@.len() && j != i && #[trigger] store.users@[j].email@ == email
}

/// An administrator's edit of the account `user_id`: new name and email, and
/// the lock flag and tier when given.
pub fn update_user(
    store: &mut AccountStore,
    user_id: i64,
    username: String,
    email: String,
    locked: Option<bool>,
    edition: Option<ProductEdition>,
) -> (r: Result<(), UpdateError>)
    requires
        old(store).wf(),
    ensures
        final(store).wf(),
        final(store).next_user_id == old(store).next_user_id,
        final(store).logs@ == old(store).logs@,
        (r == Err::<(), UpdateError>(UpdateError::UserNotFound)) <==> !old(store).has_user(user_id),
        (r == Err::<(), UpdateError>(UpdateError::EmailTaken)) <==> (old(store).has_user(user_id)
            && email_taken_by_other(*old(store), old(store).index_of(user_id), email@)),
        r.is_err() ==> final(store).users@ == old(store).users@,
        r.is_ok() ==> {
            let i = old(store).index_of(user_id);
            let u = old(store).users@[i];
            final(store).users@ == old(store).users@.update(
                i,
                AccountUser {
                    name: username,
                    email,
                    locked: match locked {
                        Some(l) => l,
                        None => u.locked,
                    },
                    edition: match edition {
                        Some(e) => e,
                        None => u.edition,
                    },
                    ..u
                },
            )
        },
{
    let i = match store.find_user(user_id) {
        None => return Err(UpdateError::UserNotFound),
        Some(i) => i,
    };
    proof {
        store.lemma_index_of(i as int);
    }
    let mut j: usize = 0;
    while j < store.users.len()
        invariant
            *store == *old(store),
            old(store).wf(),
            old(store).has_user(user_id),
            old(store).index_of(user_id) == i,
            i < store.users@.len(),
            j <= store.users@.len(),
            forall|t: int| 0 <= t < j && t != i ==> #[trigger] store.users@[t].email@ != email@,
        decreases store.users@.len() - j,
    {
        if j != i && store.users[j].email == email {
            return Err(UpdateError::EmailTaken);
        }
        j = j + 1;
    }
    let ghost u = store.users@[i as int];
    let new_locked = match locked {
        Some(l) => l,
        None => store.users[i].locked,
    };
    let new_edition = match edition {
        Some(e) => e,
        None => store.users[i].edition,
    };
    store.users[i].name = username;
    store.users[i].email = email;
    store.users[i].locked = new_locked;
    store.users[i].edition = new_edition;
    assert(store.users@ =~= old(store).users@.update(
        i as int,
        AccountUser { name: username, email, locked: new_locked, edition: new_edition, ..u },
    ));
    Ok(())
}

/// An administrator's removal of the account `user_id`. Its log entries stay,
/// and its id is not given out again.
pub fn delete_user(store: &mut AccountStore, user_id: i64) -> (r: Result<(), CreditError>)
    requires
        old(store).wf(),
    ensures
        final(store).wf(),
        final(store).next_user_id == old(store).next_user_id,
        final(store).logs@ == old(store).logs@,
        r.is_ok() <==> old(store).has_user(user_id),
        r.is_err() ==> r == Err::<(), CreditError>(CreditError::UserNotFound)
            && final(store).users@ == old(store).users@,
        r.is_ok() ==> final(store).users@ == old(store).users@.remove(old(store).index_of(user_id)),
        !final(store).has_user(user_id),
{
    let i = match store.find_user(user_id) {
        None => return Err(CreditError::UserNotFound),
        Some(i) => i,
    };
    proof {
        store.lemma_index_of(i as int);
    }
    let _ = store.users.remove(i);
    proof {
        let o = old(store).users@;
        let k = i as int;
        assert forall|a: int, b: int|
            0 <= a < b < store.users@.len() implies store.users@[a].id != store.users@[b].id
            && store.users@[a].email@ != store.users@[b].email@ by {
            let oa = if a < k { a } else { a + 1 };
            let ob = if b < k { b } else { b + 1 };
            assert(store.users@[a] == o[oa]);
            assert(store.users@[b] == o[ob]);
        }
        assert forall|a: int| 0 <= a < store.users@.len() implies #[trigger] store.users@[a].id
            != user_id by {
            let oa = if a < k { a } else { a + 1 };
            assert(store.users@[a] == o[oa]);
            assert(o[k].id == user_id);
            if oa < k {
                assert(o[oa].id != o[k].id);
            } else {
                assert(o[k].id != o[oa].id);
            }
        }
    }
    Ok(())
}

/// The first check that a registration fails, in the order the checks are made.
/// `t` and `k` are the time and random parts of the new account's invite code.
pub open spec fn register_check(
    store: AccountStore,
    req: RegisterReq,
    stored_code: Option<String>,
    t: nat,
    k: nat,
) -> Option<RegisterError> {
    match stored_code {
        None => Some(RegisterError::CodeExpired),
        Some(c) => if c@ != req.validate_code@ {
            Some(RegisterError::CodeMismatch)
        } else if !password_fits(req.passwd@) {
            Some(RegisterError::PasswordTooLong)
        } else if store.email_taken(req.email@) {
            Some(RegisterError::EmailTaken)
        } else if req.invite_code matches Some(code) && !store.has_invite_code(code@) {
            Some(RegisterError::InvalidInviteCode)
        } else if store.next_user_id == i64::MAX {
            Some(RegisterError::IdsExhausted)
        } else if store.has_invite_code(invite_code(store.next_user_id as u64 as nat, t, k)) {
            Some(RegisterError::InviteCodeTaken)
        } else if req.invite_code matches Some(code) && store.users@[store.code_owner(
            code@,
        )].credits + INVITE_BONUS > i32::MAX {
            Some(RegisterError::BonusOverflow)
        } else {
            None
        },
    }
}

/// What a registration that passed its checks leaves behind: a new account with
/// id `id`, the signup bonus logged for it, and, when an invite code was given,
/// the invite bonus logged for the code's first owner, naming the new account.
pub open spec fn registered(
    pre: AccountStore,
    post: AccountStore,
    req: RegisterReq,
    id: i64,
    time_part: nat,
    random_part: nat,
    salt: Seq<u8>,
) -> bool {
    let u = post.users@.last();
    let signup = post.logs@[pre.logs@.len() as int];
    &&& id == pre.next_user_id
    &&& post.next_user_id == pre.next_user_id + 1
    &&& post.users@.len() == pre.users@.len() + 1
    &&& u.id == id
    &&& u.name == req.name
    &&& u.email == req.email
    &&& u.passwd_salt@ == salt
    &&& u.passwd_hash@ == credential(salt, req.passwd@)
    &&& u.edition == ProductEdition::L0
    &&& !u.locked
    &&& u.credits == SIGNUP_BONUS
    &&& u.invite_code@ == invite_code(id as u64 as nat, time_part, random_part)
    &&& post.logs@.subrange(0, pre.logs@.len() as int) == pre.logs@
    &&& signup.user_id == id && signup.operation == CreditOperation::Register
    &&& signup.amount == SIGNUP_BONUS && signup.balance == SIGNUP_BONUS
    &&& signup.related_user_id == None::<i64>
    &&& match req.invite_code {
        None => {
            &&& u.invited_by == None::<i64>
            &&& post.users@.drop_last() == pre.users@
            &&& post.logs@.len() == pre.logs@.len() + 1
        },
        Some(code) => {
            let j = pre.code_owner(code@);
            let inviter = pre.users@[j];
            let bonus = post.logs@[pre.logs@.len() + 1 as int];
            &&& u.invited_by == Some(inviter.id)
            &&& post.users@.drop_last() == pre.users@.update(
                j,
                inviter.with_credits((inviter.credits + INVITE_BONUS) as i32),
            )
            &&& post.logs@.len() == pre.logs@.len() + 2
            &&& bonus.user_id == inviter.id && bonus.operation == CreditOperation::Invite
            &&& bonus.amount == INVITE_BONUS
            &&& bonus.balance == inviter.credits + INVITE_BONUS
            &&& bonus.related_user_id == Some(id)
        },
    }
}

/// Registering with the invite code of an account credits exactly that
/// account: its balance rises by the invite bonus and the bonus entry names the
/// new account, which names it as inviter. Invite codes are unique, so no
/// other account can take its place.
pub proof fn lemma_invite_credits_code_holder(
    pre: AccountStore,
    post: AccountStore,
    req: RegisterReq,
    id: i64,
    t: nat,
    k: nat,
    salt: Seq<u8>,
    j: int,
)
    requires
        pre.wf(),
        post.wf(),
        registered(pre, post, req, id, t, k, salt),
        req.invite_code is Some,
        0 <= j < pre.users@.len(),
        pre.users@[j].invite_code@ == req.invite_code->Some_0@,
    ensures
        post.users@[j].id == pre.users@[j].id,
        post.users@[j].credits == pre.users@[j].credits + INVITE_BONUS,
        post.users@.last().invited_by == Some(pre.users@[j].id),
        post.logs@.len() == pre.logs@.len() + 2,
        post.logs@.last().user_id == pre.users@[j].id,
        post.logs@.last().operation == CreditOperation::Invite,
        post.logs@.last().amount == INVITE_BONUS,
        post.logs@.last().balance == pre.users@[j].credits + INVITE_BONUS,
        post.logs@.last().related_user_id == Some(id),
{
    let c = req.invite_code->Some_0@;
    assert forall|m: int| 0 <= m < j implies #[trigger] pre.users@[m].invite_code@ != c by {
        assert(pre.users@[m].invite_code@ != pre.users@[j].invite_code@);
    }
    assert(pre.is_code_owner(c, j));
    let o = pre.code_owner(c);
    assert(pre.is_code_owner(c, o));
    if o != j {
        if o < j {
            assert(pre.users@[o].invite_code@ != pre.users@[j].invite_code@);
        } else {
            assert(pre.users@[j].invite_code@ != pre.users@[o].invite_code@);
        }
    }
    let n = pre.users@.len() as int;
    assert(post.users@.drop_last()[j] == post.users@[j]);
    assert(post.logs@.last() == post.logs@[pre.logs@.len() + 1 as int]);
    assert(post.users@[j].credits == last_balance(post.logs@, post.users@[j].id));
}

/// How a registration with invite-code parts `t` and `k` ended: refused, with
/// nothing changed, on the first check it fails; otherwise registered.
pub open spec fn register_result(
    pre: AccountStore,
    post: AccountStore,
    req: RegisterReq,
    stored_code: Option<String>,
    t: nat,
    k: nat,
    salt: Seq<u8>,
    r: Result<i64, RegisterError>,
) -> bool {
    &&& r.is_err() <==> register_check(pre, req, stored_code, t, k).is_some()
    &&& r.is_err() ==> r == Err::<i64, RegisterError>(
        register_check(pre, req, stored_code, t, k).unwrap(),
    ) && post == pre
    &&& r.is_ok() ==> registered(pre, post, req, r.unwrap(), t, k, salt)
}

/// Registers an account. `stored_code` is the validation code on record for
/// the email; `timestamp` and `random` supply the time and random parts of the
/// new account's invite code. Either every change is made (the account, its
/// signup bonus, the inviter's bonus) or none.
pub fn register_at(
    store: &mut AccountStore,
    req: RegisterReq,
    stored_code: Option<String>,
    timestamp: u64,
    random: u64,
    salt: Vec<u8>,
) -> (r: Result<i64, RegisterError>)
    requires
        old(store).wf(),
        salt@.len() == SALT_LEN,
    ensures
        final(store).wf(),
        register_result(
            *old(store),
            *final(store),
            req,
            stored_code,
            (timestamp % INVITE_PART_MODULUS) as nat,
            (random % INVITE_PART_MODULUS) as nat,
            salt@,
            r,
        ),
{
    match &stored_code {
        None => {
            return Err(RegisterError::CodeExpired);
        },
        Some(c) => {
            if !(*c == req.validate_code) {
                return Err(RegisterError::CodeMismatch);
            }
        },
    }
    if !password_fits_exec(&req.passwd) {
        return Err(RegisterError::PasswordTooLong);
    }
    if store.email_exists(&req.email) {
        return Err(RegisterError::EmailTaken);
    }
    let inviter: Option<usize> = match &req.invite_code {
        None => None,
        Some(code) => match store.find_invite_code(code) {
            None => {
                return Err(RegisterError::InvalidInviteCode);
            },
            Some(j) => Some(j),
        },
    };
    if store.next_user_id == i64::MAX {
        return Err(RegisterError::IdsExhausted);
    }
    let id = store.next_user_id;
    let code = CreditService::invite_code_from_parts(id, timestamp, random);
    if store.find_invite_code(&code).is_some() {
        return Err(RegisterError::InviteCodeTaken);
    }
    if let Some(j) = inviter {
        if store.users[j].credits > i32::MAX - INVITE_BONUS {
            return Err(RegisterError::BonusOverflow);
        }
    }
    let ghost pre = *store;
    let inviter_id: Option<i64> = match inviter {
        Some(j) => Some(store.users[j].id),
        None => None,
    };
    let key = hash_password(&salt, &req.passwd);
    let user = AccountUser {
        id,
        name: req.name,
        email: req.email,
        passwd_salt: salt,
        passwd_hash: key,
        edition: ProductEdition::L0,
        locked: false,
        credits: 0,
        invite_code: code,
        invited_by: inviter_id,
    };
    store.insert_user(user);
    let ghost n = pre.users@.len();
    let ghost mid = *store;
    proof {
        store.lemma_index_of(n as int);
    }
    let r1 = CreditService::add_credits(
        store,
        id,
        SIGNUP_BONUS,
        CreditOperation::Register,
        Some(String::from_str("signup bonus")),
        None,
    );
    assert(r1.is_ok());
    let ghost after_signup = *store;
    assert(after_signup.users@ =~= pre.users@.push(mid.users@[n as int].with_credits(SIGNUP_BONUS)));
    if let Some(j) = inviter {
        let inviter_id = store.users[j].id;
        proof {
            store.lemma_index_of(j as int);
        }
        let r2 = CreditService::handle_invite_register(store, inviter_id, id);
        assert(r2.is_ok());
        proof {
            assert(store.users@.drop_last() =~= pre.users@.update(
                j as int,
                pre.users@[j as int].with_credits((pre.users@[j as int].credits + INVITE_BONUS) as i32),
            ));
            assert(store.logs@.subrange(0, pre.logs@.len() as int) =~= pre.logs@);
        }
    } else {
        proof {
            assert(store.users@.drop_last() =~= pre.users@);
            assert(store.logs@.subrange(0, pre.logs@.len() as int) =~= pre.logs@);
        }
    }
    Ok(id)
}

/// Registers an account, taking the invite code's time part from the clock and
/// its random part from the random source (zero for the time part when the
/// clock reads before the epoch); otherwise as [`register_at`].
pub fn register(store: &mut AccountStore, req: RegisterReq, stored_code: Option<String>) -> (r:
    Result<i64, RegisterError>)
    requires
        old(store).wf(),
    ensures
        final(store).wf(),
        exists|t: nat, k: nat, s: Seq<u8>|
            t < INVITE_PART_MODULUS && k < INVITE_PART_MODULUS && s.len() == SALT_LEN
                && #[trigger] register_result(*old(store), *final(store), req, stored_code, t, k, s, r),
{
    let now: u64 = match unix_now() {
        Some(t) => t as u64,
        None => 0,
    };
    let random = random_below(INVITE_PART_MODULUS);
    let salt = new_salt();
    register_at(store, req, stored_code, now, random, salt)
}

/// An administrator's request to create an account.
pub struct CreateUserReq {
    pub username: String,
    pub email: String,
    pub password: String,
}

/// What creating an account by an administrator leaves behind: a new account
/// with id `id`, invited by nobody, and its signup bonus logged.
pub open spec fn created(
    pre: AccountStore,
    post: AccountStore,
    req: CreateUserReq,
    id: i64,
    time_part: nat,
    random_part: nat,
    salt: Seq<u8>,
) -> bool {
    let u = post.users@.last();
    let signup = post.logs@.last();
    &&& id == pre.next_user_id
    &&& post.next_user_id == pre.next_user_id + 1
    &&& post.users@.len() == pre.users@.len() + 1
    &&& post.users@.drop_last() == pre.users@
    &&& u.id == id
    &&& u.name == req.username
    &&& u.email == req.email
    &&& u.passwd_salt@ == salt
    &&& u.passwd_hash@ == credential(salt, req.password@)
    &&& u.edition == ProductEdition::L0
    &&& !u.locked
    &&& u.credits == SIGNUP_BONUS
    &&& u.invite_code@ == invite_code(id as u64 as nat, time_part, random_part)
    &&& u.invited_by == None::<i64>
    &&& post.logs@.len() == pre.logs@.len() + 1
    &&& post.logs@.drop_last() == pre.logs@
    &&& signup.user_id == id && signup.operation == CreditOperation::Register
    &&& signup.amount == SIGNUP_BONUS && signup.balance == SIGNUP_BONUS
    &&& signup.related_user_id == None::<i64>
}

/// The first check that creating an account with invite-code parts `t` and
/// `k` fails.
pub open spec fn create_check(store: AccountStore, req: CreateUserReq, t: nat, k: nat) -> Option<
    RegisterError,
> {
    if store.email_taken(req.email@) {
        Some(RegisterError::EmailTaken)
    } else if !password_fits(req.password@) {
        Some(RegisterError::PasswordTooLong)
    } else if store.next_user_id == i64::MAX {
        Some(RegisterError::IdsExhausted)
    } else if store.has_invite_code(invite_code(store.next_user_id as u64 as nat, t, k)) {
        Some(RegisterError::InviteCodeTaken)
    } else {
        None
    }
}

/// How creating an account with invite-code parts `t` and `k` ended: refused,
/// with nothing changed, on the first check it fails; otherwise created.
pub open spec fn create_result(
    pre: AccountStore,
    post: AccountStore,
    req: CreateUserReq,
    t: nat,
    k: nat,
    salt: Seq<u8>,
    r: Result<i64, RegisterError>,
) -> bool {
    &&& r.is_ok() <==> create_check(pre, req, t, k).is_none()
    &&& r.is_err() ==> r == Err::<i64, RegisterError>(create_check(pre, req, t, k).unwrap())
        && post == pre
    &&& r.is_ok() ==> created(pre, post, req, r.unwrap(), t, k, salt)
}

/// Creates an account on an administrator's request, with `timestamp` and
/// `random` as the time and random parts of its invite code. Refused, with
/// nothing changed, when the email is taken, the ids are used up or the drawn
/// invite code is held already.
pub fn create_user_at(
    store: &mut AccountStore,
    req: CreateUserReq,
    timestamp: u64,
    random: u64,
    salt: Vec<u8>,
) -> (r: Result<i64, RegisterError>)
    requires
        old(store).wf(),
        salt@.len() == SALT_LEN,
    ensures
        final(store).wf(),
        create_result(
            *old(store),
            *final(store),
            req,
            (timestamp % INVITE_PART_MODULUS) as nat,
            (random % INVITE_PART_MODULUS) as nat,
            salt@,
            r,
        ),
{
    if store.email_exists(&req.email) {
        return Err(RegisterError::EmailTaken);
    }
    if !password_fits_exec(&req.password) {
        return Err(RegisterError::PasswordTooLong);
    }
    if store.next_user_id == i64::MAX {
        return Err(RegisterError::IdsExhausted);
    }
    let ghost pre = *store;
    let id = store.next_user_id;
    let code = CreditService::invite_code_from_parts(id, timestamp, random);
    if store.find_invite_code(&code).is_some() {
        return Err(RegisterError::InviteCodeTaken);
    }
    let key = hash_password(&salt, &req.password);
    let user = AccountUser {
        id,
        name: req.username,
        email: req.email,
        passwd_salt: salt,
        passwd_hash: key,
        edition: ProductEdition::L0,
        locked: false,
        credits: 0,
        invite_code: code,
        invited_by: None,
    };
    store.insert_user(user);
    let ghost n = pre.users@.len();
    proof {
        store.lemma_index_of(n as int);
    }
    let r1 = CreditService::add_credits(
        store,
        id,
        SIGNUP_BONUS,
        CreditOperation::Register,
        Some(String::from_str("signup bonus")),
        None,
    );
    assert(r1.is_ok());
    assert(store.users@.drop_last() =~= pre.users@);
    assert(store.logs@.drop_last() =~= pre.logs@);
    Ok(id)
}

/// Creates an account on an administrator's request, taking the invite code's
/// time part from the clock and its random part from the random source (zero
/// for the time part when the clock reads before the epoch); otherwise as
/// [`create_user_at`].
pub fn create_user(store: &mut AccountStore, req: CreateUserReq) -> (r: Result<i64, RegisterError>)
    requires
        old(store).wf(),
    ensures
        final(store).wf(),
        exists|t: nat, k: nat, s: Seq<u8>|
            t < INVITE_PART_MODULUS && k < INVITE_PART_MODULUS && s.len() == SALT_LEN
                && #[trigger] create_result(*old(store), *final(store), req, t, k, s, r),
{
    let now: u64 = match unix_now() {
        Some(t) => t as u64,
        None => 0,
    };
    let random = random_below(INVITE_PART_MODULUS);
    let salt = new_salt();
    create_user_at(store, req, now, random, salt)
}

} // verus!
