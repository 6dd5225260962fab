//! The stake proposal command: a validator account, then an amount to stake.
use vstd::prelude::*;
use crate::account::{scalar_resolution, resolve_scalar};
use crate::amount::decimal;
use crate::interaction::{carry, within, ConnectionConfig, Cursor, Field, Pos, Replies, Step};
use crate::transaction::{Assembled, Payload, Transaction, TransactionBuilder};
use crate::transfer_near_tokens::{transfer_child, CliTransfer, Transfer};

verus! {

/// The validator level as given on the command line.
#[derive(Clone)]
pub struct CliSender {
    pub sender_account_id: Option<String>,
    pub transfer: Option<CliTransfer>,
}

/// A resolved validator level.
pub struct Sender {
    pub sender_account_id: String,
    pub transfer: Transfer,
}

/// How a validator level resolves: its account, checked when online, then
/// its amount.
pub open spec fn stake_resolution(item: CliSender, online: bool, replies: Replies, cur: Pos) -> (
    Step<Sender>,
    Pos,
) {
    let (a, c1) = scalar_resolution(
        item.sender_account_id,
        Field::ValidatorAccount,
        online,
        replies,
        cur,
    );
    match a {
        Step::Done(id) => {
            let (t, c2) = transfer_child(item.transfer, replies, c1);
            match t {
                Step::Done(tr) => (Step::Done(Sender { sender_account_id: id, transfer: tr }), c2),
                _ => (carry(t), c2),
            }
        },
        _ => (carry(a), c1),
    }
}

/// The transaction of a resolved stake proposal: the validator signs and
/// receives its own stake.
pub open spec fn stake_transaction(s: Sender) -> Transaction {
    Transaction {
        signer_id: s.sender_account_id,
        receiver_id: s.sender_account_id,
        payload: Payload::Stake { amount: s.transfer.amount },
    }
}

/// The account argument of a validator level.
pub open spec fn account_args(c: CliSender) -> Seq<Seq<char>> {
    match c.sender_account_id {
        Some(s) => seq![s@],
        None => Seq::empty(),
    }
}

/// The amount argument of an amount level.
pub open spec fn amount_args(t: Option<CliTransfer>) -> Seq<Seq<char>> {
    match t {
        Some(CliTransfer { amount: Some(a) }) => seq![decimal(a as nat)],
        _ => Seq::empty(),
    }
}

/// The command-line arguments of a validator level: its account, then its
/// amount, each where given.
pub open spec fn stake_args(c: CliSender) -> Seq<Seq<char>> {
    account_args(c) + amount_args(c.transfer)
}

impl CliSender {
    /// The command-line arguments that give this level: the account, then
    /// those of the amount.
    pub fn to_cli_args(&self) -> (r: Vec<String>)
        ensures
            r@.len() == stake_args(*self).len(),
            forall|i: int| 0 <= i < r@.len() ==> #[trigger] r@[i]@ == stake_args(*self)[i],
    {
        let tail = match &self.transfer {
            Some(subcommand) => subcommand.to_cli_args(),
            None => Vec::new(),
        };
        let mut args: Vec<String> = Vec::new();
        if let Some(sender_account_id) = &self.sender_account_id {
            args.push(sender_account_id.clone());
        }
        let mut i: usize = 0;
        let start = args.len();
        while i < tail.len()
            invariant
                start == account_args(*self).len(),
                tail@.len() == amount_args(self.transfer).len(),
                forall|j: int| 0 <= j < tail@.len() ==> #[trigger] tail@[j]@ == amount_args(self.transfer)[j],
                self.sender_account_id is Some ==> args@[0]@ == self.sender_account_id->0@,
                0 <= i <= tail@.len(),
                args@.len() == start + i,
                forall|j: int| 0 <= j < i ==> #[trigger] args@[start + j] == tail@[j],
            decreases tail@.len() - i,
        {
            args.push(tail[i].clone());
            i = i + 1;
        }
        assert forall|i: int| 0 <= i < args@.len() implies #[trigger] args@[i]@ == stake_args(
            *self,
        )[i] by {
            if i >= start {
                assert(args@[start + (i - start)] == tail@[i - start]);
            }
        }
        args
    }

    /// The command line that resolves to `sender` without any question.
    pub fn from_resolved(sender: Sender) -> (r: CliSender)
        ensures
            r.sender_account_id == Some(sender.sender_account_id),
            r.transfer == Some(CliTransfer { amount: Some(sender.transfer.amount) }),
    {
        CliSender {
            sender_account_id: Some(sender.sender_account_id),
            transfer: Some(CliTransfer { amount: Some(sender.transfer.amount) }),
        }
    }
}

impl Sender {
    /// Resolves a validator level against the recorded replies; the account
    /// is checked with the oracle when a network is given.
    pub fn from(
        item: CliSender,
        connection_config: &Option<ConnectionConfig>,
        replies: &Replies,
        cursor: &mut Cursor,
    ) -> (r: Step<Sender>)
        requires
            within(*old(cursor), *replies),
        ensures
            (r, final(cursor).pos()) == stake_resolution(
                item,
                connection_config is Some,
                *replies,
                old(cursor).pos(),
            ),
            within(*final(cursor), *replies),
    {
        let sender_account_id = match resolve_scalar(
            item.sender_account_id,
            Field::ValidatorAccount,
            connection_config.is_some(),
            replies,
            cursor,
        ) {
            Step::Done(id) => id,
            Step::Need(q) => {
                return Step::Need(q);
            },
            Step::Failed(e) => {
                return Step::Failed(e);
            },
        };
        match Transfer::resolve(item.transfer, replies, cursor) {
            Step::Done(transfer) => Step::Done(Sender { sender_account_id, transfer }),
            Step::Need(q) => Step::Need(q),
            Step::Failed(e) => Step::Failed(e),
        }
    }

    /// Assembles the stake transaction of a resolved validator level.
    pub fn process(self, prepopulated: TransactionBuilder) -> (r: Transaction)
        requires
            prepopulated.is_empty(),
        ensures
            r == stake_transaction(self),
    {
        let tx = prepopulated.set_signer(self.sender_account_id.clone()).set_receiver(
            self.sender_account_id,
        ).set_payload(Payload::Stake { amount: self.transfer.amount });
        tx.build().unwrap()
    }
}

} // verus!
