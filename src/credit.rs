//! The credit ledger: per-user balances and their append-only log.
use vstd::prelude::*;
use vstd::string::*;
use crate::base62::{base62, base62_digit, left_pad, BASE62_ALPHABET};
use crate::enums::ProductEdition;
use crate::sys::{random_below, unix_now};

verus! {

/// First characters of every invite code.
pub const INVITE_PREFIX: &'static str = "INV";

/// The time and random parts of an invite code are taken modulo `62 * 62 * 62`.
pub const INVITE_PART_MODULUS: u64 = 238328;

/// Digits of the time part and of the random part of an invite code.
pub const INVITE_PART_WIDTH: usize = 4;

/// An invite code: the prefix, the account id in base62, then the time part and
/// the random part in base62, each padded to four digits.
pub open spec fn invite_code(user_id: nat, time_part: nat, random_part: nat) -> Seq<char> {
    INVITE_PREFIX@ + base62(user_id) + left_pad(base62(time_part), 4) + left_pad(
        base62(random_part),
        4,
    )
}

/// What a ledger entry was for.
#[derive(Clone, Copy, Debug, PartialEq, Eq, Structural)]
pub enum CreditOperation {
    Register,
    Invite,
    Export,
    AdminAdjust,
}

/// Why a ledger operation was refused. A refused operation changes nothing.
#[derive(Clone, Copy, Debug, PartialEq, Eq, Structural)]
pub enum CreditError {
    /// No account has the given id.
    UserNotFound,
    /// A deduction asked for more than the balance.
    InsufficientBalance,
    /// The amount was not positive.
    InvalidAmount,
    /// The new balance would not fit an `i32`.
    BalanceOverflow,
}

/// One user account.
pub struct AccountUser {
    pub id: i64,
    pub name: String,
    pub email: String,
    /// Salt of the password's key.
    pub passwd_salt: Vec<u8>,
    /// Key derived from the password under `passwd_salt`.
    pub passwd_hash: Vec<u8>,
    pub edition: ProductEdition,
    pub locked: bool,
    pub credits: i32,
    pub invite_code: String,
    pub invited_by: Option<i64>,
}

impl AccountUser {
    pub open spec fn with_credits(self, credits: i32) -> AccountUser {
        AccountUser { credits, ..self }
    }
}

/// One ledger entry: the signed amount and the balance right after it.
pub struct CreditLog {
    pub user_id: i64,
    pub operation: CreditOperation,
    pub amount: i32,
    pub balance: i32,
    pub description: Option<String>,
    pub related_user_id: Option<i64>,
}

/// The balance that the latest entry of `user_id` in `logs` records, 0 if none does.
pub open spec fn last_balance(logs: Seq<CreditLog>, user_id: i64) -> int
    decreases logs.len(),
{
    if logs.len() == 0 {
        0
    } else if logs.last().user_id == user_id {
        logs.last().balance as int
    } else {
        last_balance(logs.drop_last(), user_id)
    }
}

/// Sum of the amounts of the entries of `user_id` in `logs`: the balance
/// rebuilt by replaying the log.
pub open spec fn replayed_balance(logs: Seq<CreditLog>, user_id: i64) -> int
    decreases logs.len(),
{
    if logs.len() == 0 {
        0
    } else {
        replayed_balance(logs.drop_last(), user_id) + if logs.last().user_id == user_id {
            logs.last().amount as int
        } else {
            0
        }
    }
}

/// Each entry's balance is the balance its account had before it plus its amount.
pub open spec fn entries_chain(logs: Seq<CreditLog>) -> bool {
    forall|k: int|
        0 <= k < logs.len() ==> #[trigger] logs[k].balance == last_balance(
            logs.subrange(0, k),
            logs[k].user_id,
        ) + logs[k].amount
}

/// In a chained log, the latest balance of an account is the sum of its amounts.
pub proof fn lemma_replay(logs: Seq<CreditLog>, user_id: i64)
    requires
        entries_chain(logs),
    ensures
        last_balance(logs, user_id) == replayed_balance(logs, user_id),
    decreases logs.len(),
{
    if logs.len() > 0 {
        let init = logs.drop_last();
        let n = logs.len() - 1;
        assert forall|k: int| 0 <= k < init.len() implies #[trigger] init[k].balance == last_balance(
            init.subrange(0, k),
            init[k].user_id,
        ) + init[k].amount by {
            assert(init.subrange(0, k) =~= logs.subrange(0, k));
            assert(init[k] == logs[k]);
        }
        lemma_replay(init, user_id);
        assert(logs.subrange(0, n) =~= init);
        assert(logs[n].balance == last_balance(init, logs[n].user_id) + logs[n].amount);
    }
}

proof fn lemma_chain_push(logs: Seq<CreditLog>, e: CreditLog)
    requires
        entries_chain(logs),
        e.balance == last_balance(logs, e.user_id) + e.amount,
    ensures
        entries_chain(logs.push(e)),
{
    let l2 = logs.push(e);
    assert forall|k: int| 0 <= k < l2.len() implies #[trigger] l2[k].balance == last_balance(
        l2.subrange(0, k),
        l2[k].user_id,
    ) + l2[k].amount by {
        if k < logs.len() {
            assert(l2.subrange(0, k) =~= logs.subrange(0, k));
            assert(l2[k] == logs[k]);
        } else {
            assert(l2.subrange(0, k) =~= logs);
        }
    }
}

proof fn lemma_last_balance_push(logs: Seq<CreditLog>, e: CreditLog)
    ensures
        forall|uid: i64|
            #[trigger] last_balance(logs.push(e), uid) == if e.user_id == uid {
                e.balance as int
            } else {
                last_balance(logs, uid)
            },
{
    assert(logs.push(e).drop_last() =~= logs);
}

pub proof fn lemma_last_balance_absent(logs: Seq<CreditLog>, uid: i64)
    requires
        forall|k: int| 0 <= k < logs.len() ==> #[trigger] logs[k].user_id != uid,
    ensures
        last_balance(logs, uid) == 0,
    decreases logs.len(),
{
    if logs.len() > 0 {
        assert(logs.last().user_id != uid);
        lemma_last_balance_absent(logs.drop_last(), uid);
    }
}

/// Accounts and the credit log, changed only by whole operations.
pub struct AccountStore {
    pub users: Vec<AccountUser>,
    pub logs: Vec<CreditLog>,
    /// The id that the next account gets; ids are never reused.
    pub next_user_id: i64,
}

impl AccountStore {
    /// Ids, emails and invite codes are unique, every balance is non-negative and equals the
    /// balance recorded by the latest log entry of its account.
    pub open spec fn wf(&self) -> bool {
        &&& 1 <= self.next_user_id
        &&& forall|i: int, j: int|
            0 <= i < j < self.users@.len() ==> self.users@[i].id != self.users@[j].id
        &&& forall|i: int, j: int|
            0 <= i < j < self.users@.len() ==> self.users@[i].email@ != self.users@[j].email@
        &&& forall|i: int|
            0 <= i < self.users@.len() ==> 1 <= #[trigger] self.users@[i].id < self.next_user_id
        &&& forall|k: int|
            0 <= k < self.logs@.len() ==> #[trigger] self.logs@[k].user_id < self.next_user_id
        &&& forall|i: int, j: int|
            0 <= i < j < self.users@.len() ==> self.users@[i].invite_code@
                != self.users@[j].invite_code@
        &&& entries_chain(self.logs@)
        &&& forall|i: int| 0 <= i < self.users@.len() ==> #[trigger] self.users@[i].credits >= 0
        &&& forall|i: int|
            0 <= i < self.users@.len() ==> #[trigger] self.users@[i].credits == last_balance(
                self.logs@,
                self.users@[i].id,
            )
    }

    pub open spec fn has_user(&self, id: i64) -> bool {
        exists|i: int| 0 <= i < self.users@.len() && #[trigger] self.users@[i].id == id
    }

    /// Position of the account `id` (meaningful when `has_user(id)`).
    pub open spec fn index_of(&self, id: i64) -> int {
        choose|i: int| 0 <= i < self.users@.len() && #[trigger] self.users@[i].id == id
    }

    /// Balance of the account `id` (meaningful when `has_user(id)`).
    pub open spec fn credits_of(&self, id: i64) -> int {
        self.users@[self.index_of(id)].credits as int
    }

    pub proof fn lemma_index_of(&self, i: int)
        requires
            self.wf(),
            0 <= i < self.users@.len(),
        ensures
            self.has_user(self.users@[i].id),
            self.index_of(self.users@[i].id) == i,
            self.credits_of(self.users@[i].id) == self.users@[i].credits,
    {
        let id = self.users@[i].id;
        assert(self.has_user(id));
        let j = self.index_of(id);
        if j != i {
            if j < i {
                assert(self.users@[j].id != self.users@[i].id);
            } else {
                assert(self.users@[i].id != self.users@[j].id);
            }
        }
    }

    /// An empty store whose first account gets id 1.
    pub fn new() -> (r: AccountStore)
        ensures
            r.wf(),
            r.users@.len() == 0,
            r.logs@.len() == 0,
            r.next_user_id == 1,
    {
        AccountStore { users: Vec::new(), logs: Vec::new(), next_user_id: 1 }
    }

    /// Positions in the log of the latest entries of `user_id`, newest first,
    /// at most `limit` of them.
    pub fn recent_logs(&self, user_id: i64, limit: usize) -> (r: Vec<usize>)
        ensures
            r@.len() <= limit,
            forall|j: int|
                0 <= j < r@.len() ==> #[trigger] r@[j] < self.logs@.len() && self.logs@[r@[j] as int].user_id
                    == user_id,
            forall|j: int| 0 <= j < r@.len() - 1 ==> #[trigger] r@[j] > r@[j + 1],
            r@.len() < limit ==> forall|k: int|
                0 <= k < self.logs@.len() && #[trigger] self.logs@[k].user_id == user_id
                    ==> r@.contains(k as usize),
            forall|k: int|
                0 <= k < self.logs@.len() && #[trigger] self.logs@[k].user_id == user_id && r@.len()
                    > 0 && k > r@.last() ==> r@.contains(k as usize),
    {
        let mut r: Vec<usize> = Vec::new();
        let mut i: usize = self.logs.len();
        while i > 0 && r.len() < limit
            invariant
                i <= self.logs@.len(),
                r@.len() <= limit,
                forall|j: int|
                    0 <= j < r@.len() ==> #[trigger] r@[j] < self.logs@.len()
                        && self.logs@[r@[j] as int].user_id == user_id && r@[j] >= i,
                forall|j: int| 0 <= j < r@.len() - 1 ==> #[trigger] r@[j] > r@[j + 1],
                forall|k: int|
                    i <= k < self.logs@.len() && #[trigger] self.logs@[k].user_id == user_id
                        ==> r@.contains(k as usize),
            decreases i,
        {
            i = i - 1;
            if self.logs[i].user_id == user_id {
                let ghost prev = r@;
                r.push(i);
                proof {
                    assert forall|k: int|
                        i <= k < self.logs@.len() && #[trigger] self.logs@[k].user_id == user_id
                            implies r@.contains(k as usize) by {
                        if k == i {
                            assert(r@[r@.len() - 1] == i);
                        } else {
                            assert(prev.contains(k as usize));
                            let w = choose|w: int| 0 <= w < prev.len() && prev[w] == k as usize;
                            assert(r@[w] == k as usize);
                        }
                    }
                }
            }
        }
        proof {
            if r@.len() > 0 {
                assert(r@.last() >= i);
            }
        }
        r
    }

    /// Position of the account `user_id`, if there is one.
    pub fn find_user(&self, user_id: i64) -> (r: Option<usize>)
        ensures
            match r {
                Some(i) => i < self.users@.len() && self.users@[i as int].id == user_id,
                None => !self.has_user(user_id),
            },
    {
        let mut i: usize = 0;
        while i < self.users.len()
            invariant
                i <= self.users@.len(),
                forall|j: int| 0 <= j < i ==> #[trigger] self.users@[j].id != user_id,
            decreases self.users@.len() - i,
        {
            if self.users[i].id == user_id {
                return Some(i);
            }
            i = i + 1;
        }
        None
    }
}

/// The latest log entry of an account records its current balance (an account
/// without entries has balance zero), replaying the account's entries gives the
/// same balance, and it is not negative. Every operation on a store keeps `wf`,
/// so this holds after any sequence of them.
pub proof fn lemma_log_replays_balance(store: AccountStore, user_id: i64)
    requires
        store.wf(),
        store.has_user(user_id),
    ensures
        last_balance(store.logs@, user_id) == store.credits_of(user_id),
        replayed_balance(store.logs@, user_id) == store.credits_of(user_id),
        store.credits_of(user_id) >= 0,
{
    let i = store.index_of(user_id);
    assert(0 <= i < store.users@.len() && store.users@[i].id == user_id);
    lemma_replay(store.logs@, user_id);
}

/// The ledger's operations.
pub struct CreditService;

impl CreditService {
    /// Encodes `num` in base62.
    pub fn encode_base62(num: u64) -> (r: String)
        ensures
            r@ == base62(num as nat),
    {
        proof {
            reveal_strlit("0123456789ABCDEFGHIJKLMNOPQRSTUVWXYZabcdefghijklmnopqrstuvwxyz");
        }
        let alphabet: &str = BASE62_ALPHABET;
        assert(alphabet@.len() == 62);
        let d: usize = (num % 62) as usize;
        let mut out = String::from_str(alphabet.substring_ascii(d, d + 1));
        let mut n: u64 = num / 62;
        assert(out@ =~= seq![base62_digit((num % 62) as nat)]);
        while n > 0
            invariant
                n == 0 ==> out@ == base62(num as nat),
                n > 0 ==> base62(num as nat) == base62(n as nat) + out@,
                alphabet@ == BASE62_ALPHABET@,
                alphabet.is_ascii(),
                alphabet@.len() == 62,
            decreases n,
        {
            let d: usize = (n % 62) as usize;
            let piece = alphabet.substring_ascii(d, d + 1);
            assert(piece@ =~= seq![base62_digit((n % 62) as nat)]);
            let mut next = String::from_str(piece);
            next.append(out.as_str());
            proof {
                if n >= 62 {
                    assert(base62(n as nat) == base62((n / 62) as nat) + seq![
                        base62_digit((n % 62) as nat),
                    ]);
                    assert(base62(num as nat) =~= base62((n / 62) as nat) + next@);
                } else {
                    assert(base62(n as nat) == seq![base62_digit(n as nat)]);
                    assert(base62(num as nat) =~= next@);
                }
            }
            out = next;
            n = n / 62;
        }
        out
    }

    /// `s` with `0` digits put in front until it has `width` characters.
    fn pad_digits(s: String, width: usize) -> (r: String)
        ensures
            r@ == left_pad(s@, width as nat),
    {
        let mut out = s;
        let mut len = out.unicode_len();
        while len < width
            invariant
                len == out@.len(),
                len <= width ==> left_pad(s@, width as nat) == left_pad(out@, width as nat),
                len > width ==> out@ == s@,
                s@.len() >= width ==> out@ == s@,
            decreases width - len,
        {
            let mut next = String::from_str("0");
            next.append(out.as_str());
            proof {
                reveal_strlit("0");
                assert("0"@ =~= seq!['0']);
                assert(next@ =~= seq!['0'] + out@);
                let zs = Seq::new((width - next@.len()) as nat, |_i: int| '0');
                let zo = Seq::new((width - out@.len()) as nat, |_i: int| '0');
                assert(zo =~= zs + seq!['0']);
                assert(left_pad(next@, width as nat) =~= left_pad(out@, width as nat));
            }
            out = next;
            len = len + 1;
        }
        out
    }

    /// The invite code of account `user_id` built from a time and a random
    /// part: `INV`, the id in base62, then each part reduced modulo
    /// `62 * 62 * 62` in base62 and padded to four digits.
    pub fn invite_code_from_parts(user_id: i64, timestamp: u64, random: u64) -> (r: String)
        ensures
            r@ == invite_code(
                user_id as u64 as nat,
                (timestamp % INVITE_PART_MODULUS) as nat,
                (random % INVITE_PART_MODULUS) as nat,
            ),
    {
        let mut code = String::from_str(INVITE_PREFIX);
        let user_part = Self::encode_base62(user_id as u64);
        let time_part = Self::pad_digits(
            Self::encode_base62(timestamp % INVITE_PART_MODULUS),
            INVITE_PART_WIDTH,
        );
        let random_part = Self::pad_digits(
            Self::encode_base62(random % INVITE_PART_MODULUS),
            INVITE_PART_WIDTH,
        );
        code.append(user_part.as_str());
        code.append(time_part.as_str());
        code.append(random_part.as_str());
        code
    }

    /// A fresh invite code for `user_id`, from the clock and the random
    /// source: two calls may differ. Without a clock reading (a clock before
    /// the epoch) the time part is zero.
    pub fn generate_invite_code(user_id: i64) -> (r: String)
        ensures
            exists|t: nat, k: nat|
                t < INVITE_PART_MODULUS && k < INVITE_PART_MODULUS && r@ == #[trigger] invite_code(
                    user_id as u64 as nat,
                    t,
                    k,
                ),
    {
        let now: u64 = match unix_now() {
            Some(t) => t as u64,
            None => 0,
        };
        let random = random_below(INVITE_PART_MODULUS);
        let r = Self::invite_code_from_parts(user_id, now, random);
        assert(random % INVITE_PART_MODULUS == random);
        r
    }
    /// Adds `amount` to the balance of `user_id` and logs it, in one step.
    /// Returns the new balance.
    pub fn add_credits(
        store: &mut AccountStore,
        user_id: i64,
        amount: i32,
        operation: CreditOperation,
        description: Option<String>,
        related_user_id: Option<i64>,
    ) -> (r: Result<i32, CreditError>)
        requires
            old(store).wf(),
        ensures
            final(store).wf(),
            final(store).next_user_id == old(store).next_user_id,
            r.is_ok() <==> (amount > 0 && old(store).has_user(user_id) && old(store).credits_of(
                user_id,
            ) + amount <= i32::MAX),
            (r == Err::<i32, CreditError>(CreditError::InvalidAmount)) <==> amount <= 0,
            (r == Err::<i32, CreditError>(CreditError::UserNotFound)) <==> (amount > 0
                && !old(store).has_user(user_id)),
            (r == Err::<i32, CreditError>(CreditError::BalanceOverflow)) <==> (amount > 0
                && old(store).has_user(user_id) && old(store).credits_of(user_id) + amount
                > i32::MAX),
            r.is_err() ==> final(store).users@ == old(store).users@ && final(store).logs@ == old(store).logs@,
            r.is_ok() ==> {
                let i = old(store).index_of(user_id);
                let b = r.unwrap();
                &&& b == old(store).credits_of(user_id) + amount
                &&& final(store).users@ == old(store).users@.update(
                    i,
                    old(store).users@[i].with_credits(b),
                )
                &&& final(store).logs@ == old(store).logs@.push(
                    CreditLog {
                        user_id,
                        operation,
                        amount,
                        balance: b,
                        description,
                        related_user_id,
                    },
                )
            },
    {
        if amount <= 0 {
            return Err(CreditError::InvalidAmount);
        }
        let i = match store.find_user(user_id) {
            Some(i) => i,
            None => return Err(CreditError::UserNotFound),
        };
        proof {
            store.lemma_index_of(i as int);
        }
        let current = store.users[i].credits;
        if current > i32::MAX - amount {
            return Err(CreditError::BalanceOverflow);
        }
        let balance = current + amount;
        Self::commit(store, i, balance, operation, amount, description, related_user_id);
        Ok(balance)
    }

    /// Takes `amount` from the balance of `user_id` and logs `-amount`, in one
    /// step; refuses when the balance is smaller than `amount`. Returns the new
    /// balance.
    pub fn deduct_credits(
        store: &mut AccountStore,
        user_id: i64,
        amount: i32,
        operation: CreditOperation,
        description: Option<String>,
    ) -> (r: Result<i32, CreditError>)
        requires
            old(store).wf(),
        ensures
            final(store).wf(),
            final(store).next_user_id == old(store).next_user_id,
            r.is_ok() <==> (amount > 0 && old(store).has_user(user_id) && amount <= old(store).credits_of(user_id)),
            (r == Err::<i32, CreditError>(CreditError::InvalidAmount)) <==> amount <= 0,
            (r == Err::<i32, CreditError>(CreditError::UserNotFound)) <==> (amount > 0
                && !old(store).has_user(user_id)),
            (r == Err::<i32, CreditError>(CreditError::InsufficientBalance)) <==> (amount > 0
                && old(store).has_user(user_id) && amount > old(store).credits_of(user_id)),
            r.is_err() ==> final(store).users@ == old(store).users@ && final(store).logs@ == old(store).logs@,
            r.is_ok() ==> {
                let i = old(store).index_of(user_id);
                let b = r.unwrap();
                &&& b == old(store).credits_of(user_id) - amount
                &&& final(store).users@ == old(store).users@.update(
                    i,
                    old(store).users@[i].with_credits(b),
                )
                &&& final(store).logs@ == old(store).logs@.push(
                    CreditLog {
                        user_id,
                        operation,
                        amount: (-amount) as i32,
                        balance: b,
                        description,
                        related_user_id: None,
                    },
                )
            },
    {
        if amount <= 0 {
            return Err(CreditError::InvalidAmount);
        }
        let i = match store.find_user(user_id) {
            Some(i) => i,
            None => return Err(CreditError::UserNotFound),
        };
        proof {
            store.lemma_index_of(i as int);
        }
        let current = store.users[i].credits;
        if current < amount {
            return Err(CreditError::InsufficientBalance);
        }
        let balance = current - amount;
        Self::commit(store, i, balance, operation, -amount, description, None);
        Ok(balance)
    }

    /// Appends an entry of zero credits to the log of `user_id`, noting
    /// `description`; the balance stays. Returns the balance.
    pub fn log_note(
        store: &mut AccountStore,
        user_id: i64,
        operation: CreditOperation,
        description: Option<String>,
    ) -> (r: Result<i32, CreditError>)
        requires
            old(store).wf(),
        ensures
            final(store).wf(),
            final(store).next_user_id == old(store).next_user_id,
            r.is_ok() <==> old(store).has_user(user_id),
            r.is_err() ==> r == Err::<i32, CreditError>(CreditError::UserNotFound),
            final(store).users@ == old(store).users@,
            r.is_err() ==> final(store).logs@ == old(store).logs@,
            r.is_ok() ==> r.unwrap() == old(store).credits_of(user_id) && final(store).logs@ == old(
                store).logs@.push(
                CreditLog {
                    user_id,
                    operation,
                    amount: 0,
                    balance: r.unwrap(),
                    description,
                    related_user_id: None,
                },
            ),
    {
        let i = match store.find_user(user_id) {
            Some(i) => i,
            None => return Err(CreditError::UserNotFound),
        };
        proof {
            store.lemma_index_of(i as int);
        }
        let balance = store.users[i].credits;
        Self::commit(store, i, balance, operation, 0, description, None);
        assert(store.users@ =~= old(store).users@);
        Ok(balance)
    }

    /// Writes `balance` to the account at `i` and appends the matching entry.
    fn commit(
        store: &mut AccountStore,
        i: usize,
        balance: i32,
        operation: CreditOperation,
        amount: i32,
        description: Option<String>,
        related_user_id: Option<i64>,
    )
        requires
            old(store).wf(),
            i < old(store).users@.len(),
            balance >= 0,
            balance == old(store).users@[i as int].credits + amount,
        ensures
            final(store).wf(),
            final(store).next_user_id == old(store).next_user_id,
            final(store).users@ == old(store).users@.update(
                i as int,
                old(store).users@[i as int].with_credits(balance),
            ),
            final(store).logs@ == old(store).logs@.push(
                CreditLog {
                    user_id: old(store).users@[i as int].id,
                    operation,
                    amount,
                    balance,
                    description,
                    related_user_id,
                },
            ),
    {
        let user_id = store.users[i].id;
        let entry = CreditLog {
            user_id,
            operation,
            amount,
            balance,
            description,
            related_user_id,
        };
        proof {
            lemma_last_balance_push(store.logs@, entry);
            store.lemma_index_of(i as int);
            lemma_chain_push(store.logs@, entry);
        }
        store.users[i].credits = balance;
        store.logs.push(entry);
        assert(store.users@ =~= old(store).users@.update(
            i as int,
            old(store).users@[i as int].with_credits(balance),
        ));
    }
}

} // verus!
