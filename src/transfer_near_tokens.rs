//! The terminal level shared by the transfer and stake commands: an amount
//! of tokens.
use vstd::prelude::*;
use crate::amount::{amount_text, decimal, digits_value, is_amount_text, parse_amount};
use crate::interaction::{
    carry, select, selection, within, Cursor, Field, Menu, Pos, Replies, Request, ResolveError,
    Step,
};

verus! {

/// An amount as given on the command line, if it was.
#[derive(Clone)]
pub struct CliTransfer {
    pub amount: Option<u128>,
}

/// A resolved amount.
pub struct Transfer {
    pub amount: u128,
}

/// How an amount resolves: the supplied one as it is, or the next typed-in
/// answer, which must be a decimal amount.
pub open spec fn transfer_resolution(item: CliTransfer, replies: Replies, cur: Pos) -> (
    Step<Transfer>,
    Pos,
) {
    match item.amount {
        Some(a) => (Step::Done(Transfer { amount: a }), cur),
        None => if cur.0 < 0 || cur.0 >= replies.answers@.len() {
            (Step::Need(Request::Text { field: Field::Amount, notice: None }), cur)
        } else {
            let t = replies.answers@[cur.0];
            let next = (cur.0 + 1, cur.1, cur.2);
            if is_amount_text(t@) {
                (Step::Done(Transfer { amount: digits_value(t@) as u128 }), next)
            } else {
                (Step::Failed(ResolveError::InvalidAmount(t)), next)
            }
        },
    }
}

/// How a missing amount level resolves: a choice from the transfer menu,
/// then an empty amount level resolved in turn.
pub open spec fn chosen_transfer(replies: Replies, cur: Pos) -> (Step<Transfer>, Pos) {
    let (s, c1) = selection(Menu::Transfer, replies, cur);
    match s {
        Step::Done(_) => transfer_resolution(CliTransfer { amount: None }, replies, c1),
        _ => (carry(s), c1),
    }
}

/// How an optional amount level resolves.
pub open spec fn transfer_child(item: Option<CliTransfer>, replies: Replies, cur: Pos) -> (
    Step<Transfer>,
    Pos,
) {
    match item {
        Some(t) => transfer_resolution(t, replies, cur),
        None => chosen_transfer(replies, cur),
    }
}

impl CliTransfer {
    /// The level with nothing supplied.
    pub fn empty() -> (r: CliTransfer)
        ensures
            r.amount is None,
    {
        CliTransfer { amount: None }
    }

    /// The command-line arguments that give this level.
    pub fn to_cli_args(&self) -> (r: Vec<String>)
        ensures
            r@.len() == (if self.amount is Some { 1int } else { 0 }),
            self.amount is Some ==> r@[0]@ == decimal(self.amount->0 as nat),
    {
        let mut args: Vec<String> = Vec::new();
        if let Some(a) = self.amount {
            args.push(amount_text(a));
        }
        args
    }
}

impl Transfer {
    /// Resolves an amount level against the recorded replies.
    pub fn from(item: CliTransfer, replies: &Replies, cursor: &mut Cursor) -> (r: Step<Transfer>)
        requires
            within(*old(cursor), *replies),
        ensures
            (r, final(cursor).pos()) == transfer_resolution(item, *replies, old(cursor).pos()),
            within(*final(cursor), *replies),
    {
        match item.amount {
            Some(a) => Step::Done(Transfer { amount: a }),
            None => {
                if cursor.answer >= replies.answers.len() {
                    return Step::Need(Request::Text { field: Field::Amount, notice: None });
                }
                let t = &replies.answers[cursor.answer];
                cursor.answer = cursor.answer + 1;
                match parse_amount(t.as_str()) {
                    Some(a) => Step::Done(Transfer { amount: a }),
                    None => Step::Failed(ResolveError::InvalidAmount(t.clone())),
                }
            },
        }
    }

    /// Resolves a missing amount level: the operator picks the kind of
    /// transfer from a menu, and its empty level is resolved.
    pub fn choose_transfer_near(replies: &Replies, cursor: &mut Cursor) -> (r: Step<Transfer>)
        requires
            within(*old(cursor), *replies),
        ensures
            (r, final(cursor).pos()) == chosen_transfer(*replies, old(cursor).pos()),
            within(*final(cursor), *replies),
    {
        match select(Menu::Transfer, replies, cursor) {
            Step::Done(_) => Transfer::from(CliTransfer::empty(), replies, cursor),
            Step::Need(q) => Step::Need(q),
            Step::Failed(e) => Step::Failed(e),
        }
    }

    /// Resolves an optional amount level.
    pub fn resolve(item: Option<CliTransfer>, replies: &Replies, cursor: &mut Cursor) -> (r: Step<
        Transfer,
    >)
        requires
            within(*old(cursor), *replies),
        ensures
            (r, final(cursor).pos()) == transfer_child(item, *replies, old(cursor).pos()),
            within(*final(cursor), *replies),
    {
        match item {
            Some(t) => Transfer::from(t, replies, cursor),
            None => Transfer::choose_transfer_near(replies, cursor),
        }
    }
}

} // verus!
