//! Payment orders: creation, settlement by provider notification or by the
//! reconciliation sweep, and the tier upgrade that a confirmation triggers.
use vstd::prelude::*;
use crate::account::UserService;
use crate::credit::{AccountStore, AccountUser};
use crate::enums::ProductEdition;

verus! {

/// Where an order stands. `Confirmed` is final and set only on a payment;
/// `Pending` and `Failed` record what a provider said, and a later payment
/// still confirms a failed order.
#[derive(Clone, Copy, Debug, PartialEq, Eq, Structural)]
pub enum OrderStatus {
    Created,
    Pending,
    Confirmed,
    Failed,
}

/// The payment provider an order goes through.
#[derive(Clone, Copy, Debug, PartialEq, Eq, Structural)]
pub enum PayFrom {
    Alipay,
    Wechat,
}

/// What a provider reports of a trade.
#[derive(Clone, Copy, Debug, PartialEq, Eq, Structural)]
pub enum TradeState {
    /// The money was received.
    Paid,
    /// The trade exists and awaits payment.
    Waiting,
    /// The trade was closed without payment.
    Closed,
}

/// One checkout attempt for a tier. Times are seconds since the Unix epoch.
#[derive(Clone, Copy, Debug, PartialEq, Eq, Structural)]
pub struct PayOrder {
    pub id: i64,
    pub user_id: i64,
    pub level: ProductEdition,
    pub pay_from: PayFrom,
    pub status: OrderStatus,
    pub created: i64,
    /// When the order was confirmed; set once.
    pub confirm: Option<i64>,
}

/// Why an order operation was refused. A refused operation changes nothing.
#[derive(Clone, Copy, Debug, PartialEq, Eq, Structural)]
pub enum PayError {
    /// The provider's signature did not verify.
    SignatureInvalid,
    /// No order has the given id.
    OrderNotFound,
    /// The provider could not be asked; the next sweep asks again.
    ProviderQueryFailed,
    /// Every order id has been used.
    IdsExhausted,
}

/// What settling an order did.
#[derive(Clone, Copy, Debug, PartialEq, Eq, Structural)]
pub enum SettleOutcome {
    /// The order moved to `Confirmed` now; the tier `level` is owed to `user_id`.
    Confirmed { user_id: i64, level: ProductEdition },
    /// The order had been confirmed before; nothing changed.
    AlreadyConfirmed,
    /// The provider reports no payment; the order was left as it was.
    Unpaid,
}

pub open spec fn is_open(s: OrderStatus) -> bool {
    s == OrderStatus::Created || s == OrderStatus::Pending
}

pub open spec fn ids_unique(orders: Seq<PayOrder>) -> bool {
    forall|i: int, j: int| 0 <= i < j < orders.len() ==> orders[i].id != orders[j].id
}

pub open spec fn has_order(orders: Seq<PayOrder>, id: i64) -> bool {
    exists|i: int| 0 <= i < orders.len() && #[trigger] orders[i].id == id
}

/// Position of the order `id` (meaningful when `has_order(orders, id)`).
pub open spec fn order_index(orders: Seq<PayOrder>, id: i64) -> int {
    choose|i: int| 0 <= i < orders.len() && #[trigger] orders[i].id == id
}

pub proof fn lemma_order_index(orders: Seq<PayOrder>, i: int)
    requires
        ids_unique(orders),
        0 <= i < orders.len(),
    ensures
        has_order(orders, orders[i].id),
        order_index(orders, orders[i].id) == i,
{
    let id = orders[i].id;
    assert(has_order(orders, id));
    let j = order_index(orders, id);
    if j != i {
        if j < i {
            assert(orders[j].id != orders[i].id);
        } else {
            assert(orders[i].id != orders[j].id);
        }
    }
}

/// What settling order `id` with the provider's report `state` returns.
pub open spec fn settle_outcome(orders: Seq<PayOrder>, id: i64, state: TradeState) -> Result<
    SettleOutcome,
    PayError,
> {
    if !has_order(orders, id) {
        Err(PayError::OrderNotFound)
    } else {
        let o = orders[order_index(orders, id)];
        if o.status == OrderStatus::Confirmed {
            Ok(SettleOutcome::AlreadyConfirmed)
        } else if state == TradeState::Paid {
            Ok(SettleOutcome::Confirmed { user_id: o.user_id, level: o.level })
        } else {
            Ok(SettleOutcome::Unpaid)
        }
    }
}

/// The orders after settling order `id` with `state` at time `now`: a paid
/// order not yet confirmed is confirmed and stamped `now`; every other order,
/// an unpaid one included, stays as it is for the next sweep.
pub open spec fn settle_effect(orders: Seq<PayOrder>, id: i64, state: TradeState, now: i64) -> Seq<
    PayOrder,
> {
    if has_order(orders, id) && orders[order_index(orders, id)].status != OrderStatus::Confirmed
        && state == TradeState::Paid {
        let i = order_index(orders, id);
        orders.update(
            i,
            PayOrder { status: OrderStatus::Confirmed, confirm: Some(now), ..orders[i] },
        )
    } else {
        orders
    }
}

/// An order the sweep should ask its provider about: still open, and created
/// at least `grace` seconds before `now`.
pub open spec fn is_due(o: PayOrder, now: i64, grace: i64) -> bool {
    is_open(o.status) && o.created + grace <= now
}

/// Ids of the due orders, in the order they are stored.
pub open spec fn due_ids(orders: Seq<PayOrder>, now: i64, grace: i64) -> Seq<i64>
    decreases orders.len(),
{
    if orders.len() == 0 {
        Seq::empty()
    } else {
        let rest = due_ids(orders.drop_last(), now, grace);
        if is_due(orders.last(), now, grace) {
            rest.push(orders.last().id)
        } else {
            rest
        }
    }
}

/// The tier upgrade that a confirmation of `user_id` for `level` owes: the
/// account's tier becomes the higher of its tier and `level`; without such an
/// account nothing changes.
pub open spec fn tier_applied(
    pre: AccountStore,
    post: AccountStore,
    user_id: i64,
    level: ProductEdition,
) -> bool {
    &&& post.logs@ == pre.logs@
    &&& post.next_user_id == pre.next_user_id
    &&& pre.has_user(user_id) ==> {
        let i = pre.index_of(user_id);
        post.users@ == pre.users@.update(
            i,
            AccountUser { edition: pre.users@[i].edition.spec_max(level), ..pre.users@[i] },
        )
    }
    &&& !pre.has_user(user_id) ==> post.users@ == pre.users@
}

/// The orders of all users.
pub struct OrderBook {
    pub orders: Vec<PayOrder>,
    /// The id that the next order gets.
    pub next_order_id: i64,
}

impl OrderBook {
    /// Ids are unique and below `next_order_id`; an order has a confirmation
    /// time exactly when it is confirmed.
    pub open spec fn wf(&self) -> bool {
        &&& 1 <= self.next_order_id
        &&& ids_unique(self.orders@)
        &&& forall|i: int|
            0 <= i < self.orders@.len() ==> 1 <= #[trigger] self.orders@[i].id
                < self.next_order_id
        &&& forall|i: int|
            0 <= i < self.orders@.len() ==> (#[trigger] self.orders@[i].status
                == OrderStatus::Confirmed) == self.orders@[i].confirm.is_some()
    }

    /// An empty book whose first order gets id 1.
    pub fn new() -> (r: OrderBook)
        ensures
            r.wf(),
            r.orders@.len() == 0,
            r.next_order_id == 1,
    {
        OrderBook { orders: Vec::new(), next_order_id: 1 }
    }

    /// Position of the order `order_id`, if there is one.
    pub fn find_order(&self, order_id: i64) -> (r: Option<usize>)
        ensures
            match r {
                Some(i) => i < self.orders@.len() && self.orders@[i as int].id == order_id,
                None => !has_order(self.orders@, order_id),
            },
    {
        let mut i: usize = 0;
        while i < self.orders.len()
            invariant
                i <= self.orders@.len(),
                forall|j: int| 0 <= j < i ==> #[trigger] self.orders@[j].id != order_id,
            decreases self.orders@.len() - i,
        {
            if self.orders[i].id == order_id {
                return Some(i);
            }
            i = i + 1;
        }
        None
    }

    /// Records a new order of `user_id` for `level` through `pay_from`, created
    /// at `now`, and returns its id.
    pub fn create_order(
        &mut self,
        user_id: i64,
        level: ProductEdition,
        pay_from: PayFrom,
        now: i64,
    ) -> (r: Result<i64, PayError>)
        requires
            old(self).wf(),
        ensures
            final(self).wf(),
            r.is_err() <==> old(self).next_order_id == i64::MAX,
            r.is_err() ==> r == Err::<i64, PayError>(PayError::IdsExhausted) && *final(self)
                == *old(self),
            r.is_ok() ==> {
                &&& r.unwrap() == old(self).next_order_id
                &&& final(self).next_order_id == old(self).next_order_id + 1
                &&& final(self).orders@ == old(self).orders@.push(
                    PayOrder {
                        id: r.unwrap(),
                        user_id,
                        level,
                        pay_from,
                        status: OrderStatus::Created,
                        created: now,
                        confirm: None,
                    },
                )
            },
    {
        if self.next_order_id == i64::MAX {
            return Err(PayError::IdsExhausted);
        }
        let id = self.next_order_id;
        self.orders.push(
            PayOrder {
                id,
                user_id,
                level,
                pay_from,
                status: OrderStatus::Created,
                created: now,
                confirm: None,
            },
        );
        self.next_order_id = id + 1;
        Ok(id)
    }

    /// Status of the order `order_id` when it belongs to `user_id`.
    pub fn find_order_status(&self, order_id: i64, user_id: i64) -> (r: Option<OrderStatus>)
        requires
            self.wf(),
        ensures
            r.is_some() <==> (has_order(self.orders@, order_id) && self.orders@[order_index(
                self.orders@,
                order_id,
            )].user_id == user_id),
            r.is_some() ==> r.unwrap() == self.orders@[order_index(
                self.orders@,
                order_id,
            )].status,
    {
        match self.find_order(order_id) {
            None => None,
            Some(i) => {
                proof {
                    lemma_order_index(self.orders@, i as int);
                }
                if self.orders[i].user_id == user_id {
                    Some(self.orders[i].status)
                } else {
                    None
                }
            },
        }
    }

    /// Applies the provider's report `state` on order `order_id` at time `now`:
    /// a payment confirms the order unless it was confirmed before (compare and
    /// set); a report of no payment changes nothing.
    pub fn settle(&mut self, order_id: i64, state: TradeState, now: i64) -> (r: Result<
        SettleOutcome,
        PayError,
    >)
        requires
            old(self).wf(),
        ensures
            final(self).wf(),
            final(self).next_order_id == old(self).next_order_id,
            r == settle_outcome(old(self).orders@, order_id, state),
            final(self).orders@ == settle_effect(old(self).orders@, order_id, state, now),
    {
        let i = match self.find_order(order_id) {
            None => return Err(PayError::OrderNotFound),
            Some(i) => i,
        };
        proof {
            lemma_order_index(self.orders@, i as int);
        }
        let o = self.orders[i];
        if o.status == OrderStatus::Confirmed {
            Ok(SettleOutcome::AlreadyConfirmed)
        } else if state == TradeState::Paid {
            self.orders.set(i, PayOrder { status: OrderStatus::Confirmed, confirm: Some(now), ..o });
            Ok(SettleOutcome::Confirmed { user_id: o.user_id, level: o.level })
        } else {
            Ok(SettleOutcome::Unpaid)
        }
    }

    /// Ids of the open orders created at least `grace` seconds before `now`,
    /// in the order they are stored.
    pub fn due_for_check(&self, now: i64, grace: i64) -> (r: Vec<i64>)
        ensures
            r@ == due_ids(self.orders@, now, grace),
    {
        let mut r: Vec<i64> = Vec::new();
        let mut i: usize = 0;
        while i < self.orders.len()
            invariant
                i <= self.orders@.len(),
                r@ == due_ids(self.orders@.subrange(0, i as int), now, grace),
            decreases self.orders@.len() - i,
        {
            let o = self.orders[i];
            let open = match o.status {
                OrderStatus::Created | OrderStatus::Pending => true,
                _ => false,
            };
            if open && (o.created as i128) + (grace as i128) <= now as i128 {
                r.push(o.id);
            }
            proof {
                assert(self.orders@.subrange(0, i + 1).drop_last() =~= self.orders@.subrange(
                    0,
                    i as int,
                ));
            }
            i = i + 1;
        }
        assert(self.orders@.subrange(0, self.orders@.len() as int) =~= self.orders@);
        r
    }
}

/// The acknowledgement a provider's notification gets.
#[derive(Clone, Copy, Debug, PartialEq, Eq, Structural)]
pub enum NotifyAck {
    Success,
    Fail,
}

/// Settles order `order_id` with the provider's report `state` and, when this
/// confirms it, raises the owner's tier. A tier upgrade that finds no account
/// does not undo the confirmation.
pub fn settle_order(
    orders: &mut OrderBook,
    accounts: &mut AccountStore,
    order_id: i64,
    state: TradeState,
    now: i64,
) -> (r: Result<SettleOutcome, PayError>)
    requires
        old(orders).wf(),
        old(accounts).wf(),
    ensures
        final(orders).wf(),
        final(accounts).wf(),
        final(orders).next_order_id == old(orders).next_order_id,
        r == settle_outcome(old(orders).orders@, order_id, state),
        final(orders).orders@ == settle_effect(old(orders).orders@, order_id, state, now),
        match r {
            Ok(SettleOutcome::Confirmed { user_id, level }) => tier_applied(
                *old(accounts),
                *final(accounts),
                user_id,
                level,
            ),
            _ => *final(accounts) == *old(accounts),
        },
{
    let r = orders.settle(order_id, state, now);
    if let Ok(SettleOutcome::Confirmed { user_id, level }) = r {
        let _ = UserService::confirm_user(accounts, user_id, level);
    }
    r
}

/// Handles a provider's notification on order `order_id`. Nothing changes
/// unless `signature_valid`; otherwise the order is settled as by
/// [`settle_order`]. The provider is told `Success` whenever the report was
/// taken, a repeated one included.
pub fn handle_notification(
    orders: &mut OrderBook,
    accounts: &mut AccountStore,
    signature_valid: bool,
    order_id: i64,
    state: TradeState,
    now: i64,
) -> (r: NotifyAck)
    requires
        old(orders).wf(),
        old(accounts).wf(),
    ensures
        final(orders).wf(),
        final(accounts).wf(),
        final(orders).next_order_id == old(orders).next_order_id,
        !signature_valid ==> r == NotifyAck::Fail && *final(orders) == *old(orders)
            && *final(accounts) == *old(accounts),
        signature_valid ==> {
            let outcome = settle_outcome(old(orders).orders@, order_id, state);
            &&& r == (if outcome.is_ok() {
                NotifyAck::Success
            } else {
                NotifyAck::Fail
            })
            &&& final(orders).orders@ == settle_effect(old(orders).orders@, order_id, state, now)
            &&& match outcome {
                Ok(SettleOutcome::Confirmed { user_id, level }) => tier_applied(
                    *old(accounts),
                    *final(accounts),
                    user_id,
                    level,
                ),
                _ => *final(accounts) == *old(accounts),
            }
        },
{
    if !signature_valid {
        return NotifyAck::Fail;
    }
    match settle_order(orders, accounts, order_id, state, now) {
        Ok(_) => NotifyAck::Success,
        Err(_) => NotifyAck::Fail,
    }
}

/// One step of the reconciliation sweep: `report` is what the provider said of
/// order `order_id`, `None` when it could not be asked. The order is then
/// settled exactly as a notification would settle it.
pub fn check_pending_order(
    orders: &mut OrderBook,
    accounts: &mut AccountStore,
    order_id: i64,
    report: Option<TradeState>,
    now: i64,
) -> (r: Result<SettleOutcome, PayError>)
    requires
        old(orders).wf(),
        old(accounts).wf(),
    ensures
        final(orders).wf(),
        final(accounts).wf(),
        final(orders).next_order_id == old(orders).next_order_id,
        match report {
            None => r == Err::<SettleOutcome, PayError>(PayError::ProviderQueryFailed)
                && *final(orders) == *old(orders) && *final(accounts) == *old(accounts),
            Some(state) => {
                &&& r == settle_outcome(old(orders).orders@, order_id, state)
                &&& final(orders).orders@ == settle_effect(
                    old(orders).orders@,
                    order_id,
                    state,
                    now,
                )
                &&& match r {
                    Ok(SettleOutcome::Confirmed { user_id, level }) => tier_applied(
                        *old(accounts),
                        *final(accounts),
                        user_id,
                        level,
                    ),
                    _ => *final(accounts) == *old(accounts),
                }
            },
        },
{
    match report {
        None => Err(PayError::ProviderQueryFailed),
        Some(state) => settle_order(orders, accounts, order_id, state, now),
    }
}

/// Settling the same payment twice confirms once: the second time finds the
/// order confirmed, changes nothing, and reports no new confirmation, so no
/// second tier upgrade is owed. The first time confirms exactly when the order
/// exists and was not confirmed yet.
pub proof fn lemma_settle_paid_idempotent(orders: Seq<PayOrder>, id: i64, t1: i64, t2: i64)
    requires
        ids_unique(orders),
    ensures
        ({
            let once = settle_effect(orders, id, TradeState::Paid, t1);
            &&& settle_effect(once, id, TradeState::Paid, t2) == once
            &&& !(settle_outcome(once, id, TradeState::Paid) is Ok && settle_outcome(
                once,
                id,
                TradeState::Paid,
            )->Ok_0 is Confirmed)
            &&& (settle_outcome(orders, id, TradeState::Paid) is Ok && settle_outcome(
                orders,
                id,
                TradeState::Paid,
            )->Ok_0 is Confirmed) <==> (has_order(orders, id) && orders[order_index(
                orders,
                id,
            )].status != OrderStatus::Confirmed)
        }),
{
    let once = settle_effect(orders, id, TradeState::Paid, t1);
    if has_order(orders, id) {
        let i = order_index(orders, id);
        lemma_order_index(orders, i);
        assert(ids_unique(once));
        lemma_order_index(once, i);
        assert(once[i].status == OrderStatus::Confirmed);
    } else {
        assert(!has_order(once, id));
    }
}

/// Raising a tier is idempotent and never lowers it.
pub proof fn lemma_tier_upgrade_idempotent(e: ProductEdition, level: ProductEdition)
    ensures
        e.spec_max(level).spec_max(level) == e.spec_max(level),
        e.spec_max(level).spec_rank() >= e.spec_rank(),
        e.spec_max(level).spec_rank() >= level.spec_rank(),
{
}

} // verus!
