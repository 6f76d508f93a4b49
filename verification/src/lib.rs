//! An escrow ledger for "safe send" payments.
//!
//! A sender locks a positive amount of an asset — the native currency or a
//! fungible token — together with a service fee, naming a recipient. The
//! recipient may later collect the amount, or the sender may cancel and
//! reclaim it; a cheque settles in exactly one of those two ways, and never
//! twice. The admin fixed at construction sets the fee charged to new cheques
//! and receives the fee when a cheque is collected.
//!
//! The ledger itself is a pure state machine. The execution environment is an
//! external collaborator: it supplies the caller's identity and the native
//! value attached to each call, and it alone moves assets. Every asset
//! movement an operation decides on is appended to the [`AzSafeSend::payments`]
//! queue, to be executed by the environment after the operation commits, so a
//! reentrant transfer can never observe a cheque that is still pending.
//! Likewise every domain event is appended to [`AzSafeSend::events`].

pub mod errors;

use vstd::prelude::*;
use std::collections::HashMap;
use crate::errors::{
    AzSafeSendError, msg_cheque, msg_different_parties, msg_pending_status, msg_positive_amount,
};

verus! {

broadcast use vstd::std_specs::hash::group_hash_axioms;

/// An account identity on the ledger.
pub type AccountId = u128;

/// An amount of the native currency or of a token.
pub type Balance = u128;

/// The asset a cheque escrows: the native currency, or a fungible token
/// identified by its contract account.
#[derive(Clone, Copy, Debug, PartialEq, Eq, Structural)]
pub enum Asset {
    Native,
    Token(AccountId),
}

/// Where a cheque stands in its lifecycle. `Collected` and `Cancelled` are
/// terminal: no transition leaves them.
#[derive(Clone, Copy, Debug, PartialEq, Eq, Structural)]
pub enum Status {
    Pending,
    Collected,
    Cancelled,
}

/// One escrow record. `from`, `to`, `amount`, `asset` and `fee` are fixed for
/// the cheque's lifetime; only `status` ever changes, exactly once.
#[derive(Clone, Copy, Debug, PartialEq, Eq, Structural)]
pub struct Cheque {
    pub id: u32,
    pub from: AccountId,
    pub to: AccountId,
    pub amount: Balance,
    pub asset: Asset,
    pub status: Status,
    pub fee: Balance,
}

/// A read-only snapshot of the ledger's administrative state.
#[derive(Clone, Copy, Debug, PartialEq, Eq, Structural)]
pub struct Config {
    pub admin: AccountId,
    pub fee: Balance,
    pub cheques_total: u32,
}

/// Notification of a successful `create`, carrying the cheque's public fields.
#[derive(Clone, Copy, Debug, PartialEq, Eq, Structural)]
pub struct Create {
    pub id: u32,
    pub from: AccountId,
    pub to: AccountId,
    pub amount: Balance,
    pub asset: Asset,
    pub fee: Balance,
}

/// Notification of a successful `cancel`.
#[derive(Clone, Copy, Debug, PartialEq, Eq, Structural)]
pub struct Cancel {
    pub id: u32,
}

/// Notification of a successful `collect`.
#[derive(Clone, Copy, Debug, PartialEq, Eq, Structural)]
pub struct Collect {
    pub id: u32,
}

/// Notification of a successful `update_fee`.
#[derive(Clone, Copy, Debug, PartialEq, Eq, Structural)]
pub struct UpdateFee {
    pub fee: Balance,
}

/// A domain event, appended to the notification record strictly after the
/// mutation it reports has committed.
#[derive(Clone, Copy, Debug, PartialEq, Eq, Structural)]
pub enum Event {
    Create(Create),
    Cancel(Cancel),
    Collect(Collect),
    UpdateFee(UpdateFee),
}

/// An asset movement the environment must execute on the ledger's behalf.
///
/// `Native` moves the ledger's own native funds; its failure means the
/// ledger's balance invariant is broken, and the environment must halt rather
/// than report a typed error. `TokenPull` and `TokenPay` are calls into the
/// fungible-token contract (transfer-from into the ledger's custody, and
/// transfer out of it); their failure makes the environment roll the whole
/// enclosing operation back.
#[derive(Clone, Copy, Debug, PartialEq, Eq, Structural)]
pub enum Payment {
    Native { to: AccountId, amount: Balance },
    TokenPull { token: AccountId, from: AccountId, amount: Balance },
    TokenPay { token: AccountId, to: AccountId, amount: Balance },
}

/// The escrow ledger: the admin and current fee, the cheque store with its
/// monotonic counter, and the two append-only queues read by the environment.
#[derive(Clone)]
pub struct AzSafeSend {
    pub admin: AccountId,
    pub fee: Balance,
    pub cheques: HashMap<u32, Cheque>,
    pub cheques_total: u32,
    pub events: Vec<Event>,
    pub payments: Vec<Payment>,
}

/// What every stored cheque satisfies: distinct parties, a positive amount,
/// and — for a native cheque — an amount-plus-fee total that fits a `Balance`,
/// since cancelling it refunds that total in one native payment.
pub open spec fn cheque_wf(c: Cheque) -> bool {
    &&& c.from != c.to
    &&& c.amount > 0
    &&& (c.asset is Native ==> c.amount + c.fee <= u128::MAX)
}

/// The cheque a successful `create` stores: the next identifier, the caller as
/// payer, status `Pending`, and the fee currently in effect.
pub open spec fn new_cheque(
    pre: AzSafeSend,
    caller: AccountId,
    to: AccountId,
    amount: Balance,
    asset: Asset,
) -> Cheque {
    Cheque {
        id: pre.cheques_total,
        from: caller,
        to,
        amount,
        asset,
        status: Status::Pending,
        fee: pre.fee,
    }
}

/// When `create` succeeds: distinct parties, a positive amount, a counter that
/// is not saturated, and an attached value that matches exactly — the fee for
/// a token cheque, the fee plus the amount (without overflow) for a native one.
pub open spec fn create_accepts(
    pre: AzSafeSend,
    caller: AccountId,
    to: AccountId,
    amount: Balance,
    asset: Asset,
    attached_value: Balance,
) -> bool {
    &&& caller != to
    &&& amount > 0
    &&& pre.cheques_total < u32::MAX
    &&& match asset {
        Asset::Token(_) => attached_value == pre.fee,
        Asset::Native => pre.fee + amount <= u128::MAX && attached_value == pre.fee + amount,
    }
}

/// The asset movement a successful `create` queues: a token cheque pulls the
/// amount from the caller into the ledger's custody; a native cheque needs
/// none, since the attached value already constitutes custody.
pub open spec fn create_payments(caller: AccountId, amount: Balance, asset: Asset) -> Seq<Payment> {
    match asset {
        Asset::Token(t) => seq![Payment::TokenPull { token: t, from: caller, amount }],
        Asset::Native => Seq::<Payment>::empty(),
    }
}

/// The full effect of a successful `create`, relating the ledger before and
/// after: the returned cheque `c` is stored under the old counter value, the
/// counter advances by exactly one, the fee and admin are untouched, and the
/// matching event and asset movement are appended.
pub open spec fn create_committed(
    pre: AzSafeSend,
    post: AzSafeSend,
    caller: AccountId,
    to: AccountId,
    amount: Balance,
    asset: Asset,
    attached_value: Balance,
    c: Cheque,
) -> bool {
    &&& create_accepts(pre, caller, to, amount, asset, attached_value)
    &&& c == new_cheque(pre, caller, to, amount, asset)
    &&& post.admin == pre.admin
    &&& post.fee == pre.fee
    &&& post.cheques_total == pre.cheques_total + 1
    &&& post.cheques@ == pre.cheques@.insert(c.id, c)
    &&& post.events@ == pre.events@.push(
        Event::Create(
            Create {
                id: c.id,
                from: c.from,
                to: c.to,
                amount: c.amount,
                asset: c.asset,
                fee: c.fee,
            },
        ),
    )
    &&& post.payments@ == pre.payments@ + create_payments(caller, amount, asset)
}

/// Which error a failing `create` returns, following the order the checks are
/// made in: self-transfer, then zero amount, then a saturated counter, and
/// otherwise a mismatched attached value.
pub open spec fn create_rejected(
    pre: AzSafeSend,
    caller: AccountId,
    to: AccountId,
    amount: Balance,
    asset: Asset,
    attached_value: Balance,
    e: AzSafeSendError,
) -> bool {
    if caller == to {
        e matches AzSafeSendError::UnprocessableEntity(m) && m@ == msg_different_parties()
    } else if amount == 0 {
        e matches AzSafeSendError::UnprocessableEntity(m) && m@ == msg_positive_amount()
    } else if pre.cheques_total == u32::MAX {
        e matches AzSafeSendError::RecordsLimitReached(m) && m@ == msg_cheque()
    } else {
        e == AzSafeSendError::IncorrectFee && !create_accepts(
            pre,
            caller,
            to,
            amount,
            asset,
            attached_value,
        )
    }
}

/// When `cancel` succeeds: the cheque exists, the caller is its payer, and it
/// is still pending.
pub open spec fn cancel_accepts(pre: AzSafeSend, caller: AccountId, id: u32) -> bool {
    &&& pre.cheques@.contains_key(id)
    &&& caller == pre.cheques@[id].from
    &&& pre.cheques@[id].status is Pending
}

/// The asset movements a successful `cancel` of cheque `c` queues: a token
/// cheque returns the amount through the token contract and refunds the fee
/// natively if there is one; a native cheque refunds amount and fee in one
/// native payment. Everything goes back to the payer.
pub open spec fn cancel_payments(c: Cheque) -> Seq<Payment> {
    match c.asset {
        Asset::Token(t) => seq![Payment::TokenPay { token: t, to: c.from, amount: c.amount }]
            + if c.fee > 0 {
                seq![Payment::Native { to: c.from, amount: c.fee }]
            } else {
                Seq::<Payment>::empty()
            },
        Asset::Native => seq![
            Payment::Native { to: c.from, amount: (c.amount + c.fee) as Balance },
        ],
    }
}

/// The full effect of a successful `cancel`: the stored cheque flips to
/// `Cancelled` and is returned, everything else in the store is untouched,
/// and the matching event and refund movements are appended.
pub open spec fn cancel_committed(
    pre: AzSafeSend,
    post: AzSafeSend,
    caller: AccountId,
    id: u32,
    c: Cheque,
) -> bool {
    &&& cancel_accepts(pre, caller, id)
    &&& c == (Cheque { status: Status::Cancelled, ..pre.cheques@[id] })
    &&& post.admin == pre.admin
    &&& post.fee == pre.fee
    &&& post.cheques_total == pre.cheques_total
    &&& post.cheques@ == pre.cheques@.insert(id, c)
    &&& post.events@ == pre.events@.push(Event::Cancel(Cancel { id }))
    &&& post.payments@ == pre.payments@ + cancel_payments(pre.cheques@[id])
}

/// Which error a failing `cancel` returns, in the order the checks are made:
/// an unknown identifier, then a caller other than the payer, and otherwise a
/// cheque that is already settled.
pub open spec fn cancel_rejected(
    pre: AzSafeSend,
    caller: AccountId,
    id: u32,
    e: AzSafeSendError,
) -> bool {
    if !pre.cheques@.contains_key(id) {
        e matches AzSafeSendError::NotFound(m) && m@ == msg_cheque()
    } else if caller != pre.cheques@[id].from {
        e == AzSafeSendError::Unauthorised
    } else {
        &&& !(pre.cheques@[id].status is Pending)
        &&& e matches AzSafeSendError::UnprocessableEntity(m)
        &&& m@ == msg_pending_status()
    }
}

/// When `collect` succeeds: the cheque exists, the caller is its payee, and it
/// is still pending.
pub open spec fn collect_accepts(pre: AzSafeSend, caller: AccountId, id: u32) -> bool {
    &&& pre.cheques@.contains_key(id)
    &&& caller == pre.cheques@[id].to
    &&& pre.cheques@[id].status is Pending
}

/// The asset movements a successful `collect` of cheque `c` queues: the amount
/// goes to the payee — through the token contract for a token cheque, natively
/// otherwise — and the fee, if there is one, goes natively to `admin`.
pub open spec fn collect_payments(c: Cheque, admin: AccountId) -> Seq<Payment> {
    (match c.asset {
        Asset::Token(t) => seq![Payment::TokenPay { token: t, to: c.to, amount: c.amount }],
        Asset::Native => seq![Payment::Native { to: c.to, amount: c.amount }],
    }) + if c.fee > 0 {
        seq![Payment::Native { to: admin, amount: c.fee }]
    } else {
        Seq::<Payment>::empty()
    }
}

/// The full effect of a successful `collect`: the stored cheque flips to
/// `Collected` and is returned, everything else in the store is untouched,
/// and the matching event and payout movements are appended.
pub open spec fn collect_committed(
    pre: AzSafeSend,
    post: AzSafeSend,
    caller: AccountId,
    id: u32,
    c: Cheque,
) -> bool {
    &&& collect_accepts(pre, caller, id)
    &&& c == (Cheque { status: Status::Collected, ..pre.cheques@[id] })
    &&& post.admin == pre.admin
    &&& post.fee == pre.fee
    &&& post.cheques_total == pre.cheques_total
    &&& post.cheques@ == pre.cheques@.insert(id, c)
    &&& post.events@ == pre.events@.push(Event::Collect(Collect { id }))
    &&& post.payments@ == pre.payments@ + collect_payments(pre.cheques@[id], pre.admin)
}

/// Which error a failing `collect` returns, in the order the checks are made:
/// an unknown identifier, then a caller other than the payee, and otherwise a
/// cheque that is already settled.
pub open spec fn collect_rejected(
    pre: AzSafeSend,
    caller: AccountId,
    id: u32,
    e: AzSafeSendError,
) -> bool {
    if !pre.cheques@.contains_key(id) {
        e matches AzSafeSendError::NotFound(m) && m@ == msg_cheque()
    } else if caller != pre.cheques@[id].to {
        e == AzSafeSendError::Unauthorised
    } else {
        &&& !(pre.cheques@[id].status is Pending)
        &&& e matches AzSafeSendError::UnprocessableEntity(m)
        &&& m@ == msg_pending_status()
    }
}

/// The full effect of a successful `update_fee`: the fee is replaced, nothing
/// else changes, and the matching event is appended.
pub open spec fn update_fee_committed(pre: AzSafeSend, post: AzSafeSend, fee: Balance) -> bool {
    &&& post.admin == pre.admin
    &&& post.fee == fee
    &&& post.cheques_total == pre.cheques_total
    &&& post.cheques@ == pre.cheques@
    &&& post.events@ == pre.events@.push(Event::UpdateFee(UpdateFee { fee }))
    &&& post.payments@ == pre.payments@
}

impl AzSafeSend {
    /// The ledger's invariant: every stored cheque sits below the counter,
    /// is keyed by its own identifier, and is well formed.
    pub open spec fn wf(self) -> bool {
        forall|i: u32| #[trigger] self.cheques@.contains_key(i)
            ==> i < self.cheques_total && self.cheques@[i].id == i && cheque_wf(self.cheques@[i])
    }

    /// Construct the ledger. The deployer — the caller of the construction —
    /// becomes the admin; the fee applies to cheques created from now on.
    pub fn new(caller: AccountId, fee: Balance) -> (r: AzSafeSend)
        ensures
            r.admin == caller,
            r.fee == fee,
            r.cheques_total == 0,
            r.cheques@ == Map::<u32, Cheque>::empty(),
            r.events@ == Seq::<Event>::empty(),
            r.payments@ == Seq::<Payment>::empty(),
            r.wf(),
    {
        AzSafeSend {
            admin: caller,
            fee,
            cheques: HashMap::new(),
            cheques_total: 0,
            events: Vec::new(),
            payments: Vec::new(),
        }
    }

    /// A read-only snapshot of admin, current fee and the cheque counter.
    pub fn config(&self) -> (r: Config)
        ensures
            r == (Config { admin: self.admin, fee: self.fee, cheques_total: self.cheques_total }),
    {
        Config { admin: self.admin, fee: self.fee, cheques_total: self.cheques_total }
    }

    /// Look a cheque up by its identifier.
    pub fn show(&self, id: u32) -> (r: Result<Cheque, AzSafeSendError>)
        ensures
            r is Ok <==> self.cheques@.contains_key(id),
            r matches Ok(c) ==> c == self.cheques@[id],
            r matches Err(e) ==> e matches AzSafeSendError::NotFound(m) && m@ == msg_cheque(),
    {
        match self.cheques.get(&id) {
            Some(cheque) => Ok(*cheque),
            None => Err(AzSafeSendError::NotFound("Cheque".to_owned())),
        }
    }

    /// Cancel the pending cheque `id` and reclaim what it escrowed.
    ///
    /// Only the cheque's payer may cancel, and only while the cheque is
    /// pending. On success the cheque flips to `Cancelled` and the refunds are
    /// queued: the amount back to the payer (through the token contract for a
    /// token cheque, natively otherwise) and the snapshotted fee natively. On
    /// failure nothing changes.
    pub fn cancel(&mut self, caller: AccountId, id: u32) -> (r: Result<Cheque, AzSafeSendError>)
        requires
            old(self).wf(),
        ensures
            final(self).wf(),
            r is Ok <==> cancel_accepts(*old(self), caller, id),
            r matches Ok(c) ==> cancel_committed(*old(self), *final(self), caller, id, c),
            r matches Err(e) ==> *final(self) == *old(self) && cancel_rejected(
                *old(self),
                caller,
                id,
                e,
            ),
    {
        let mut cheque = match self.show(id) {
            Ok(c) => c,
            Err(e) => { return Err(e); },
        };
        if caller != cheque.from {
            return Err(AzSafeSendError::Unauthorised);
        }
        if cheque.status != Status::Pending {
            return Err(
                AzSafeSendError::UnprocessableEntity(
                    "Status must be pending collection.".to_owned(),
                ),
            );
        }

        // Return the amount to the payer.
        let mut native_refund: Balance = 0;
        match cheque.asset {
            Asset::Token(token) => {
                self.payments.push(
                    Payment::TokenPay { token, to: caller, amount: cheque.amount },
                );
            },
            Asset::Native => {
                native_refund = cheque.amount;
            },
        }

        // Return the fee to the payer; the fee is always refunded natively,
        // whatever the cheque's asset. The sum cannot overflow: a native
        // cheque's amount plus fee fitted a `Balance` when it was created.
        native_refund = native_refund + cheque.fee;
        if native_refund > 0 {
            self.payments.push(Payment::Native { to: caller, amount: native_refund });
        }

        cheque.status = Status::Cancelled;
        self.cheques.insert(id, cheque);
        self.emit_event(Event::Cancel(Cancel { id }));
        proof {
            assert(self.payments@ =~= old(self).payments@ + cancel_payments(
                old(self).cheques@[id],
            ));
        }
        Ok(cheque)
    }

    /// Collect the pending cheque `id`.
    ///
    /// Only the cheque's payee may collect, and only while the cheque is
    /// pending. On success the cheque flips to `Collected` and the payouts are
    /// queued: the amount to the payee (through the token contract for a token
    /// cheque, natively otherwise) and the snapshotted fee natively to the
    /// admin. On failure nothing changes.
    pub fn collect(&mut self, caller: AccountId, id: u32) -> (r: Result<Cheque, AzSafeSendError>)
        requires
            old(self).wf(),
        ensures
            final(self).wf(),
            r is Ok <==> collect_accepts(*old(self), caller, id),
            r matches Ok(c) ==> collect_committed(*old(self), *final(self), caller, id, c),
            r matches Err(e) ==> *final(self) == *old(self) && collect_rejected(
                *old(self),
                caller,
                id,
                e,
            ),
    {
        let mut cheque = match self.show(id) {
            Ok(c) => c,
            Err(e) => { return Err(e); },
        };
        if caller != cheque.to {
            return Err(AzSafeSendError::Unauthorised);
        }
        if cheque.status != Status::Pending {
            return Err(
                AzSafeSendError::UnprocessableEntity(
                    "Status must be pending collection.".to_owned(),
                ),
            );
        }

        // Pay the amount out to the payee.
        match cheque.asset {
            Asset::Token(token) => {
                self.payments.push(
                    Payment::TokenPay { token, to: caller, amount: cheque.amount },
                );
            },
            Asset::Native => {
                self.payments.push(Payment::Native { to: caller, amount: cheque.amount });
            },
        }

        // Pay the snapshotted fee to the admin.
        if cheque.fee > 0 {
            self.payments.push(Payment::Native { to: self.admin, amount: cheque.fee });
        }

        cheque.status = Status::Collected;
        self.cheques.insert(id, cheque);
        self.emit_event(Event::Collect(Collect { id }));
        proof {
            assert(self.payments@ =~= old(self).payments@ + collect_payments(
                old(self).cheques@[id],
                old(self).admin,
            ));
        }
        Ok(cheque)
    }

    /// Create a cheque from `caller` to `to` over `amount` of `asset`.
    ///
    /// `attached_value` is the native value the environment reports as sent
    /// along with the call; it must equal the current fee exactly for a token
    /// cheque, and the fee plus the amount exactly for a native one. On
    /// success the cheque is stored as `Pending` with the current fee
    /// snapshotted, and for a token cheque the pull of the amount into the
    /// ledger's custody is queued. On failure nothing changes.
    pub fn create(
        &mut self,
        caller: AccountId,
        to: AccountId,
        amount: Balance,
        asset: Asset,
        attached_value: Balance,
    ) -> (r: Result<Cheque, AzSafeSendError>)
        requires
            old(self).wf(),
        ensures
            final(self).wf(),
            r is Ok <==> create_accepts(*old(self), caller, to, amount, asset, attached_value),
            r matches Ok(c) ==> create_committed(
                *old(self),
                *final(self),
                caller,
                to,
                amount,
                asset,
                attached_value,
                c,
            ),
            r matches Err(e) ==> *final(self) == *old(self) && create_rejected(
                *old(self),
                caller,
                to,
                amount,
                asset,
                attached_value,
                e,
            ),
    {
        if caller == to {
            return Err(
                AzSafeSendError::UnprocessableEntity(
                    "Sender and receiver must be different.".to_owned(),
                ),
            );
        }
        if amount == 0 {
            return Err(
                AzSafeSendError::UnprocessableEntity("Amount must be greater than zero.".to_owned()),
            );
        }
        if self.cheques_total == u32::MAX {
            return Err(AzSafeSendError::RecordsLimitReached("Cheque".to_owned()));
        }
        match asset {
            Asset::Token(token) => {
                // The attached native value must cover exactly the fee.
                if attached_value != self.fee {
                    return Err(AzSafeSendError::IncorrectFee);
                }
                self.acquire_psp22(token, caller, amount);
            },
            Asset::Native => {
                // The attached native value must cover exactly the fee plus
                // the escrowed amount.
                if self.fee.checked_add(amount).is_none() || attached_value != self.fee + amount {
                    return Err(AzSafeSendError::IncorrectFee);
                }
            },
        }

        let cheque = Cheque {
            id: self.cheques_total,
            from: caller,
            to,
            amount,
            asset,
            status: Status::Pending,
            fee: self.fee,
        };
        self.cheques.insert(cheque.id, cheque);
        self.cheques_total = self.cheques_total + 1;
        self.emit_event(
            Event::Create(
                Create {
                    id: cheque.id,
                    from: cheque.from,
                    to: cheque.to,
                    amount: cheque.amount,
                    asset: cheque.asset,
                    fee: cheque.fee,
                },
            ),
        );
        proof {
            // A push and an append of a singleton (or of nothing) build the
            // same sequence, which needs element-wise equality.
            assert(self.payments@ =~= old(self).payments@ + create_payments(
                caller,
                amount,
                asset,
            ));
        }
        Ok(cheque)
    }

    /// Replace the fee charged to cheques created from now on.
    ///
    /// Only the admin may do so; the fee snapshotted into existing cheques is
    /// unaffected. On failure nothing changes.
    pub fn update_fee(&mut self, caller: AccountId, fee: Balance) -> (r: Result<
        (),
        AzSafeSendError,
    >)
        requires
            old(self).wf(),
        ensures
            final(self).wf(),
            r is Ok <==> caller == old(self).admin,
            r is Ok ==> update_fee_committed(*old(self), *final(self), fee),
            r matches Err(e) ==> *final(self) == *old(self) && e
                == AzSafeSendError::Unauthorised,
    {
        if caller != self.admin {
            return Err(AzSafeSendError::Unauthorised);
        }
        self.fee = fee;
        self.emit_event(Event::UpdateFee(UpdateFee { fee }));
        Ok(())
    }

    /// Queue the pull of `amount` of token `token` from `from` into the
    /// ledger's own custody, performed by the environment through the
    /// fungible-token interface's transfer-from primitive.
    fn acquire_psp22(&mut self, token: AccountId, from: AccountId, amount: Balance)
        ensures
            final(self).payments@ == old(self).payments@.push(
                Payment::TokenPull { token, from, amount },
            ),
            final(self).admin == old(self).admin,
            final(self).fee == old(self).fee,
            final(self).cheques == old(self).cheques,
            final(self).cheques_total == old(self).cheques_total,
            final(self).events == old(self).events,
    {
        self.payments.push(Payment::TokenPull { token, from, amount });
    }

    /// Append a domain event to the notification record.
    fn emit_event(&mut self, event: Event)
        ensures
            final(self).events@ == old(self).events@.push(event),
            final(self).admin == old(self).admin,
            final(self).fee == old(self).fee,
            final(self).cheques == old(self).cheques,
            final(self).cheques_total == old(self).cheques_total,
            final(self).payments == old(self).payments,
    {
        self.events.push(event);
    }
}

/// A cheque's fee and status are snapshotted at creation: after a successful
/// `create`, the record stored under the new identifier is `Pending` and
/// carries the fee that was in effect when it was created, and a later fee
/// update — whatever the new fee — leaves that stored record untouched, so
/// `show` keeps returning it unchanged.
pub proof fn lemma_fee_snapshot(
    pre: AzSafeSend,
    mid: AzSafeSend,
    post: AzSafeSend,
    caller: AccountId,
    to: AccountId,
    amount: Balance,
    asset: Asset,
    attached_value: Balance,
    c: Cheque,
    new_fee: Balance,
)
    requires
        create_committed(pre, mid, caller, to, amount, asset, attached_value, c),
        update_fee_committed(mid, post, new_fee),
    ensures
        post.cheques@.contains_key(c.id),
        post.cheques@[c.id] == c,
        c.status is Pending,
        c.fee == pre.fee,
{
}

/// A fee update applies to subsequently created cheques only: a cheque created
/// after `update_fee` snapshots the new fee, not the one it replaced.
pub proof fn lemma_fee_applies_to_subsequent(
    pre: AzSafeSend,
    mid: AzSafeSend,
    post: AzSafeSend,
    new_fee: Balance,
    caller: AccountId,
    to: AccountId,
    amount: Balance,
    asset: Asset,
    attached_value: Balance,
    c: Cheque,
)
    requires
        update_fee_committed(pre, mid, new_fee),
        create_committed(mid, post, caller, to, amount, asset, attached_value, c),
    ensures
        c.fee == new_fee,
        c.status is Pending,
{
}

/// The cheque counter never decreases: whichever operation commits, it either
/// leaves the counter unchanged or — for `create` alone — advances it by
/// exactly one.
pub proof fn lemma_counter_monotonic(
    pre: AzSafeSend,
    post: AzSafeSend,
    caller: AccountId,
    to: AccountId,
    amount: Balance,
    asset: Asset,
    attached_value: Balance,
    c: Cheque,
    id: u32,
    fee: Balance,
)
    requires
        create_committed(pre, post, caller, to, amount, asset, attached_value, c)
            || cancel_committed(pre, post, caller, id, c)
            || collect_committed(pre, post, caller, id, c)
            || update_fee_committed(pre, post, fee),
    ensures
        pre.cheques_total <= post.cheques_total,
        create_committed(pre, post, caller, to, amount, asset, attached_value, c)
            ==> post.cheques_total == pre.cheques_total + 1,
{
}

/// Settling is one-way and cheques are never deleted: a committed `cancel` or
/// `collect` flips exactly the one pending record named by `id` to its
/// terminal status and leaves every other stored record — in particular every
/// already settled one — exactly as it was.
pub proof fn lemma_settlement_is_one_way(
    pre: AzSafeSend,
    post: AzSafeSend,
    caller: AccountId,
    id: u32,
    c: Cheque,
)
    requires
        cancel_committed(pre, post, caller, id, c) || collect_committed(pre, post, caller, id, c),
    ensures
        pre.cheques@[id].status is Pending,
        post.cheques@[id].status is Cancelled || post.cheques@[id].status is Collected,
        forall|i: u32|
            i != id && #[trigger] pre.cheques@.contains_key(i)
                ==> post.cheques@.contains_key(i) && post.cheques@[i] == pre.cheques@[i],
        forall|i: u32| #[trigger] post.cheques@.contains_key(i) <==> pre.cheques@.contains_key(i),
{
}

} // verus!
