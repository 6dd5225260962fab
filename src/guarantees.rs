//! Properties of resolution and assembly, proved over their definitions.
use vstd::prelude::*;
use crate::account::{scalar_resolution, check_from};
use crate::interaction::{pos_within, selection, Field, Menu, Pos, Replies, Request, Step};
use crate::commands::{command_resolution, command_variant, top_level_resolution, CliTopLevelCommand};
use crate::execute_command::{method_resolution, method_variant, option_method_resolution, CliMethod, CliOptionMethod};
use crate::stake_proposal as stake;
use crate::transaction::{Payload, Transaction};
use crate::transfer_command::{
    empty_send_to, receiver_resolution, sender_resolution,
    transfer_transaction, CliReceiver, CliSendTo, CliSender, SendTo, Sender,
};
use crate::transfer_near_tokens::{transfer_child, transfer_resolution, CliTransfer};

verus! {

/// A pass that stops short asks only for a kind of reply that has run out,
/// and never reads past the replies.
pub open spec fn settled<T>(s: Step<T>, p: Pos, replies: Replies) -> bool {
    &&& pos_within(p, replies)
    &&& (s matches Step::Need(Request::Text { .. }) ==> p.0 == replies.answers@.len())
    &&& (s matches Step::Need(Request::Select { .. }) ==> p.1 == replies.selections@.len())
    &&& (s matches Step::Need(Request::Check { .. }) ==> p.2 == replies.checks@.len())
}

proof fn lemma_check_settled(v: String, field: Field, replies: Replies, cur: Pos)
    requires
        pos_within(cur, replies),
    ensures
        settled(check_from(v, field, replies, cur).0, check_from(v, field, replies, cur).1, replies),
    decreases replies.checks@.len() - cur.2,
{
    if cur.2 < replies.checks@.len() {
        let next = (cur.0, cur.1, cur.2 + 1);
        if replies.checks@[cur.2] is NotFound && next.0 < replies.answers@.len() {
            lemma_check_settled(replies.answers@[next.0], field, replies, (next.0 + 1, next.1, next.2));
        }
    }
}

proof fn lemma_scalar_settled(supplied: Option<String>, field: Field, validate: bool, replies: Replies, cur: Pos)
    requires
        pos_within(cur, replies),
    ensures
        ({
            let (s, p) = scalar_resolution(supplied, field, validate, replies, cur);
            settled(s, p, replies)
        }),
{
    match supplied {
        Some(v) => if validate {
            lemma_check_settled(v, field, replies, cur);
        },
        None => if cur.0 < replies.answers@.len() && validate {
            lemma_check_settled(replies.answers@[cur.0], field, replies, (cur.0 + 1, cur.1, cur.2));
        },
    }
}

proof fn lemma_transfer_settled(item: Option<CliTransfer>, replies: Replies, cur: Pos)
    requires
        pos_within(cur, replies),
    ensures
        ({
            let (s, p) = transfer_child(item, replies, cur);
            settled(s, p, replies) && p.2 == cur.2
        }),
{
    if item is None {
        let (s, c1) = selection(Menu::Transfer, replies, cur);
        if s is Done {
            let _ = transfer_resolution(CliTransfer { amount: None }, replies, c1);
        }
    }
}

proof fn lemma_receiver_settled(item: CliReceiver, replies: Replies, cur: Pos)
    requires
        pos_within(cur, replies),
    ensures
        ({
            let (s, p) = receiver_resolution(item, replies, cur);
            settled(s, p, replies) && p.2 == cur.2
        }),
{
    lemma_scalar_settled(item.receiver_account_id, Field::ReceiverAccount, false, replies, cur);
    let (a, c1) = scalar_resolution(item.receiver_account_id, Field::ReceiverAccount, false, replies, cur);
    if a is Done {
        lemma_transfer_settled(item.transfer, replies, c1);
    }
}

proof fn lemma_sender_settled(item: CliSender, replies: Replies, cur: Pos)
    requires
        pos_within(cur, replies),
    ensures
        ({
            let (s, p) = sender_resolution(item, replies, cur);
            settled(s, p, replies) && p.2 == cur.2 && !(s is Need && s->Need_0 is Check)
        }),
{
    lemma_scalar_settled(item.sender_account_id, Field::SenderAccount, false, replies, cur);
    let (a, c1) = scalar_resolution(item.sender_account_id, Field::SenderAccount, false, replies, cur);
    if a is Done {
        let child = match item.send_to {
            Some(c) => c,
            None => empty_send_to(),
        };
        match child {
            CliSendTo::Receiver(r) => lemma_receiver_settled(r, replies, c1),
        }
    }
}

proof fn lemma_stake_settled(item: stake::CliSender, online: bool, replies: Replies, cur: Pos)
    requires
        pos_within(cur, replies),
    ensures
        ({
            let (s, p) = stake::stake_resolution(item, online, replies, cur);
            settled(s, p, replies) && (!online ==> p.2 == cur.2)
        }),
{
    lemma_scalar_settled(item.sender_account_id, Field::ValidatorAccount, online, replies, cur);
    let (a, c1) = scalar_resolution(item.sender_account_id, Field::ValidatorAccount, online, replies, cur);
    if a is Done {
        lemma_transfer_settled(item.transfer, replies, c1);
    }
}

proof fn lemma_method_settled(item: CliMethod, replies: Replies, cur: Pos)
    requires
        pos_within(cur, replies),
    ensures
        ({
            let (s, p) = method_resolution(item, replies, cur);
            settled(s, p, replies) && p.2 == cur.2
        }),
{
    match item {
        CliMethod::ChangeMethod(c) => lemma_scalar_settled(c.method_name, Field::MethodName, false, replies, cur),
        CliMethod::ViewMethod(c) => lemma_scalar_settled(c.method_name, Field::MethodName, false, replies, cur),
    }
}

proof fn lemma_option_method_settled(item: CliOptionMethod, replies: Replies, cur: Pos)
    requires
        pos_within(cur, replies),
    ensures
        ({
            let (s, p) = option_method_resolution(item, replies, cur);
            settled(s, p, replies) && p.2 == cur.2
        }),
{
    match item.method {
        Some(m) => lemma_method_settled(m, replies, cur),
        None => {
            let (s, c1) = selection(Menu::Method, replies, cur);
            if let Step::Done(i) = s {
                lemma_method_settled(method_variant(i), replies, c1);
            }
        },
    }
}

proof fn lemma_command_settled(item: CliTopLevelCommand, online: bool, replies: Replies, cur: Pos)
    requires
        pos_within(cur, replies),
    ensures
        ({
            let (s, p) = command_resolution(item, online, replies, cur);
            settled(s, p, replies) && (!online ==> p.2 == cur.2)
        }),
{
    match item {
        CliTopLevelCommand::Transfer(c) => lemma_sender_settled(c, replies, cur),
        CliTopLevelCommand::StakeProposal(c) => lemma_stake_settled(c, online, replies, cur),
        CliTopLevelCommand::Execute(c) => lemma_option_method_settled(c, replies, cur),
    }
}

proof fn lemma_top_level_settled(
    item: Option<CliTopLevelCommand>,
    online: bool,
    replies: Replies,
    cur: Pos,
)
    requires
        pos_within(cur, replies),
    ensures
        ({
            let (s, p) = top_level_resolution(item, online, replies, cur);
            settled(s, p, replies) && (!online ==> p.2 == cur.2)
        }),
{
    match item {
        Some(c) => lemma_command_settled(c, online, replies, cur),
        None => {
            let (s, c1) = selection(Menu::Command, replies, cur);
            if let Step::Done(i) = s {
                lemma_command_settled(command_variant(i), online, replies, c1);
            }
        },
    }
}

/// Totality of resolution: for every command line, given or empty, and every
/// record of replies, a pass ends with a complete command, a fatal error, or
/// a request for a kind of reply that the record has run out of; it never
/// reads past the record.
pub proof fn lemma_resolution_total(
    item: Option<CliTopLevelCommand>,
    online: bool,
    replies: Replies,
)
    ensures
        ({
            let (s, p) = top_level_resolution(item, online, replies, (0, 0, 0));
            settled(s, p, replies)
        }),
{
    lemma_top_level_settled(item, online, replies, (0, 0, 0));
}

/// Offline, resolving any command reads no oracle reply.
pub proof fn lemma_offline_never_checks(item: Option<CliTopLevelCommand>, replies: Replies)
    ensures
        top_level_resolution(item, false, replies, (0, 0, 0)).1.2 == 0,
{
    lemma_top_level_settled(item, false, replies, (0, 0, 0));
}

/// The transfer command has no validator: resolving it never asks the
/// oracle and reads no oracle reply, whether or not a network is given.
pub proof fn lemma_transfer_never_checks(item: CliSender, replies: Replies, cur: Pos)
    requires
        pos_within(cur, replies),
    ensures
        ({
            let (s, p) = sender_resolution(item, replies, cur);
            p.2 == cur.2 && !(s is Need && s->Need_0 is Check)
        }),
{
    lemma_sender_settled(item, replies, cur);
}

/// A transfer sender is kept exactly as supplied; a missing one is asked for
/// once, and the first typed-in answer is taken as it is.
pub proof fn lemma_transfer_sender_kept(item: CliSender, replies: Replies, cur: Pos)
    requires
        pos_within(cur, replies),
    ensures
        ({
            let (s, p) = sender_resolution(item, replies, cur);
            s matches Step::Done(x) ==> x.sender_account_id == match item.sender_account_id {
                Some(a) => a,
                None => replies.answers@[cur.0],
            }
        }),
        item.sender_account_id is None && cur.0 == replies.answers@.len() ==> sender_resolution(
            item,
            replies,
            cur,
        ).0 == Step::<Sender>::Need(Request::Text { field: Field::SenderAccount, notice: None }),
{
}

/// A supplied account that the oracle confirms is taken exactly as given.
pub proof fn lemma_confirmed_value_kept(
    supplied: String,
    field: Field,
    replies: Replies,
    cur: Pos,
)
    requires
        0 <= cur.2 < replies.checks@.len(),
        replies.checks@[cur.2] is Found,
    ensures
        scalar_resolution(Some(supplied), field, true, replies, cur).0 == Step::<String>::Done(
            supplied,
        ),
{
}

/// Offline, a supplied account is taken as given and the oracle is never
/// consulted.
pub proof fn lemma_offline_accepts(supplied: String, field: Field, replies: Replies, cur: Pos)
    ensures
        scalar_resolution(Some(supplied), field, false, replies, cur) == (
            Step::<String>::Done(supplied),
            cur,
        ),
{
}

/// Assembly writes each field of the transaction from exactly one level of
/// the chain: the signer from the sender, the receiver from the receiver,
/// the payload from the amount. `Sender::process` returns exactly this
/// transaction, so assembling equal chains gives equal transactions.
pub proof fn lemma_assembly_fields(s: Sender)
    ensures
        match s.send_to {
            SendTo::Receiver(r) => transfer_transaction(s) == (Transaction {
                signer_id: s.sender_account_id,
                receiver_id: r.receiver_account_id,
                payload: Payload::Transfer { amount: r.transfer.amount },
            }),
        },
{
}

/// A stake proposal's validator both signs and receives, and the payload is
/// the stake of its amount level.
pub proof fn lemma_stake_assembly_fields(s: stake::Sender)
    ensures
        stake::stake_transaction(s).signer_id == s.sender_account_id,
        stake::stake_transaction(s).receiver_id == s.sender_account_id,
        stake::stake_transaction(s).payload == (Payload::Stake { amount: s.transfer.amount }),
{
}

} // verus!
