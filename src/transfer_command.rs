//! The transfer command: a sender, then a receiver, then an amount.
use vstd::prelude::*;
use crate::account::{scalar_resolution, resolve_scalar};
use crate::amount::decimal;
use crate::interaction::{carry, within, ConnectionConfig, Cursor, Field, Pos, Replies, Step};
use crate::transaction::{
    extend_command, extended, Assembled, Payload, Transaction, TransactionBuilder,
};
use crate::transfer_near_tokens::{transfer_child, CliTransfer, Transfer};

verus! {

/// The sender level as given on the command line.
#[derive(Clone)]
pub struct CliSender {
    pub sender_account_id: Option<String>,
    pub send_to: Option<CliSendTo>,
}

/// A resolved sender level.
pub struct Sender {
    pub sender_account_id: String,
    pub send_to: SendTo,
}

/// The choice that follows the sender, as given on the command line.
#[derive(Clone)]
pub enum CliSendTo {
    Receiver(CliReceiver),
}

/// The resolved choice that follows the sender.
pub enum SendTo {
    Receiver(Receiver),
}

/// The receiver level as given on the command line.
#[derive(Clone)]
pub struct CliReceiver {
    pub receiver_account_id: Option<String>,
    pub transfer: Option<CliTransfer>,
}

/// A resolved receiver level.
pub struct Receiver {
    pub receiver_account_id: String,
    pub transfer: Transfer,
}

/// How a receiver level resolves: its account (not checked), then its amount.
pub open spec fn receiver_resolution(item: CliReceiver, replies: Replies, cur: Pos) -> (
    Step<Receiver>,
    Pos,
) {
    let (a, c1) = scalar_resolution(
        item.receiver_account_id,
        Field::ReceiverAccount,
        false,
        replies,
        cur,
    );
    match a {
        Step::Done(id) => {
            let (t, c2) = transfer_child(item.transfer, replies, c1);
            match t {
                Step::Done(tr) => (
                    Step::Done(Receiver { receiver_account_id: id, transfer: tr }),
                    c2,
                ),
                _ => (carry(t), c2),
            }
        },
        _ => (carry(a), c1),
    }
}

/// How the level after the sender resolves.
pub open spec fn send_to_resolution(item: CliSendTo, replies: Replies, cur: Pos) -> (
    Step<SendTo>,
    Pos,
) {
    match item {
        CliSendTo::Receiver(r) => {
            let (s, c1) = receiver_resolution(r, replies, cur);
            match s {
                Step::Done(v) => (Step::Done(SendTo::Receiver(v)), c1),
                _ => (carry(s), c1),
            }
        },
    }
}

/// The receiver level with nothing supplied.
pub open spec fn empty_send_to() -> CliSendTo {
    CliSendTo::Receiver(CliReceiver { receiver_account_id: None, transfer: None })
}

/// How a sender level resolves: its account as supplied, or typed in once
/// (this level has no validator, so the oracle is never asked), then the
/// level after it (the only kind there is, when none was given).
pub open spec fn sender_resolution(item: CliSender, replies: Replies, cur: Pos) -> (
    Step<Sender>,
    Pos,
) {
    let (a, c1) = scalar_resolution(
        item.sender_account_id,
        Field::SenderAccount,
        false,
        replies,
        cur,
    );
    match a {
        Step::Done(id) => {
            let child = match item.send_to {
                Some(c) => c,
                None => empty_send_to(),
            };
            let (s, c2) = send_to_resolution(child, replies, c1);
            match s {
                Step::Done(v) => (Step::Done(Sender { sender_account_id: id, send_to: v }), c2),
                _ => (carry(s), c2),
            }
        },
        _ => (carry(a), c1),
    }
}

/// The transaction a resolved transfer chain stands for.
pub open spec fn transfer_transaction(s: Sender) -> Transaction {
    match s.send_to {
        SendTo::Receiver(r) => Transaction {
            signer_id: s.sender_account_id,
            receiver_id: r.receiver_account_id,
            payload: Payload::Transfer { amount: r.transfer.amount },
        },
    }
}

/// The command line a resolved transfer chain extends `cc` by.
pub open spec fn transfer_command_line(s: Sender, cc: Seq<char>) -> Seq<char> {
    match s.send_to {
        SendTo::Receiver(r) => extended(
            extended(
                extended(extended(cc, s.sender_account_id@), "receiver"@),
                r.receiver_account_id@,
            ),
            decimal(r.transfer.amount as nat),
        ),
    }
}

impl Receiver {
    /// Resolves a receiver level against the recorded replies.
    pub fn from(item: CliReceiver, replies: &Replies, cursor: &mut Cursor) -> (r: Step<Receiver>)
        requires
            within(*old(cursor), *replies),
        ensures
            (r, final(cursor).pos()) == receiver_resolution(item, *replies, old(cursor).pos()),
            within(*final(cursor), *replies),
    {
        let receiver_account_id = match resolve_scalar(
            item.receiver_account_id,
            Field::ReceiverAccount,
            false,
            replies,
            cursor,
        ) {
            Step::Done(id) => id,
            Step::Need(q) => {
                return Step::Need(q);
            },
            Step::Failed(e) => {
                return Step::Failed(e);
            },
        };
        match Transfer::resolve(item.transfer, replies, cursor) {
            Step::Done(transfer) => Step::Done(Receiver { receiver_account_id, transfer }),
            Step::Need(q) => Step::Need(q),
            Step::Failed(e) => Step::Failed(e),
        }
    }

    /// The command line extended by this level's account.
    pub fn get_console_command(&self, console_command: &String) -> (r: String)
        ensures
            r@ == extended(console_command@, self.receiver_account_id@),
    {
        extend_command(console_command, &self.receiver_account_id)
    }

    /// Fills in the receiver and the payload, and finishes the transaction.
    pub fn process(self, prepopulated: TransactionBuilder, console_command: String) -> (r:
        Assembled)
        requires
            prepopulated.signer_id is Some,
            prepopulated.receiver_id is None,
            prepopulated.payload is None,
        ensures
            r.transaction == (Transaction {
                signer_id: prepopulated.signer_id->0,
                receiver_id: self.receiver_account_id,
                payload: Payload::Transfer { amount: self.transfer.amount },
            }),
            r.console_command@ == extended(
                extended(console_command@, self.receiver_account_id@),
                decimal(self.transfer.amount as nat),
            ),
    {
        let console_command = self.get_console_command(&console_command);
        let console_command = extend_command(
            &console_command,
            &crate::amount::amount_text(self.transfer.amount),
        );
        let tx = prepopulated.set_receiver(self.receiver_account_id).set_payload(
            Payload::Transfer { amount: self.transfer.amount },
        );
        Assembled { transaction: tx.build().unwrap(), console_command }
    }
}

impl SendTo {
    /// Resolves the level after the sender against the recorded replies.
    pub fn from(item: CliSendTo, replies: &Replies, cursor: &mut Cursor) -> (r: Step<SendTo>)
        requires
            within(*old(cursor), *replies),
        ensures
            (r, final(cursor).pos()) == send_to_resolution(item, *replies, old(cursor).pos()),
            within(*final(cursor), *replies),
    {
        match item {
            CliSendTo::Receiver(cli_receiver) => match Receiver::from(
                cli_receiver,
                replies,
                cursor,
            ) {
                Step::Done(receiver) => Step::Done(SendTo::Receiver(receiver)),
                Step::Need(q) => Step::Need(q),
                Step::Failed(e) => Step::Failed(e),
            },
        }
    }

    /// Resolves the level after the sender when none was given: its only
    /// kind, from an empty level.
    pub fn send_to(replies: &Replies, cursor: &mut Cursor) -> (r: Step<SendTo>)
        requires
            within(*old(cursor), *replies),
        ensures
            (r, final(cursor).pos()) == send_to_resolution(
                empty_send_to(),
                *replies,
                old(cursor).pos(),
            ),
            within(*final(cursor), *replies),
    {
        SendTo::from(
            CliSendTo::Receiver(CliReceiver { receiver_account_id: None, transfer: None }),
            replies,
            cursor,
        )
    }

    /// Passes the transaction on to the chosen level.
    pub fn process(self, prepopulated: TransactionBuilder, console_command: String) -> (r:
        Assembled)
        requires
            prepopulated.signer_id is Some,
            prepopulated.receiver_id is None,
            prepopulated.payload is None,
        ensures
            match self {
                SendTo::Receiver(rc) => {
                    &&& r.transaction == (Transaction {
                        signer_id: prepopulated.signer_id->0,
                        receiver_id: rc.receiver_account_id,
                        payload: Payload::Transfer { amount: rc.transfer.amount },
                    })
                    &&& r.console_command@ == extended(
                        extended(extended(console_command@, "receiver"@), rc.receiver_account_id@),
                        decimal(rc.transfer.amount as nat),
                    )
                },
            },
    {
        match self {
            SendTo::Receiver(receiver) => {
                let token = String::from_str("receiver");
                receiver.process(prepopulated, extend_command(&console_command, &token))
            },
        }
    }
}

impl Sender {
    /// Resolves a sender level against the recorded replies. The sender has
    /// no validator: a supplied account is kept as given, a missing one is
    /// asked for once, and the network is never consulted.
    pub fn from(
        item: CliSender,
        _connection_config: &Option<ConnectionConfig>,
        replies: &Replies,
        cursor: &mut Cursor,
    ) -> (r: Step<Sender>)
        requires
            within(*old(cursor), *replies),
        ensures
            (r, final(cursor).pos()) == sender_resolution(item, *replies, old(cursor).pos()),
            within(*final(cursor), *replies),
    {
        let sender_account_id = match resolve_scalar(
            item.sender_account_id,
            Field::SenderAccount,
            false,
            replies,
            cursor,
        ) {
            Step::Done(id) => id,
            Step::Need(q) => {
                return Step::Need(q);
            },
            Step::Failed(e) => {
                return Step::Failed(e);
            },
        };
        let send_to = match item.send_to {
            Some(cli_send_to) => SendTo::from(cli_send_to, replies, cursor),
            None => SendTo::send_to(replies, cursor),
        };
        match send_to {
            Step::Done(send_to) => Step::Done(Sender { sender_account_id, send_to }),
            Step::Need(q) => Step::Need(q),
            Step::Failed(e) => Step::Failed(e),
        }
    }

    /// The command line extended by this level's account.
    pub fn get_console_command(&self, console_command: &String) -> (r: String)
        ensures
            r@ == extended(console_command@, self.sender_account_id@),
    {
        extend_command(console_command, &self.sender_account_id)
    }

    /// Assembles the transaction of a resolved chain: the sender signs, the
    /// receiver receives, the amount is transferred.
    pub fn process(self, prepopulated: TransactionBuilder, console_command: String) -> (r:
        Assembled)
        requires
            prepopulated.is_empty(),
        ensures
            r.transaction == transfer_transaction(self),
            r.console_command@ == transfer_command_line(self, console_command@),
    {
        let console_command = self.get_console_command(&console_command);
        let tx = prepopulated.set_signer(self.sender_account_id);
        self.send_to.process(tx, console_command)
    }
}

} // verus!
