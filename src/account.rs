//! Resolution of one scalar of a command level (an account identifier, a
//! method name): take the supplied value, check it against the oracle when
//! the level has a validator and a network is given, and fall back to
//! prompting.
use vstd::prelude::*;
use crate::interaction::{AccountCheck, Cursor, Field, Pos, Replies, Request, ResolveError, Step};

verus! {

/// Checks `candidate` with the next oracle reply, and on "not found" goes on
/// with the next typed-in answer, until an answer is confirmed, the oracle
/// fails, or the replies run out.
pub open spec fn check_from(candidate: String, field: Field, replies: Replies, cur: Pos) -> (
    Step<String>,
    Pos,
)
    decreases replies.checks@.len() - cur.2,
{
    if cur.2 < 0 || cur.2 >= replies.checks@.len() {
        (Step::Need(Request::Check { account_id: candidate }), cur)
    } else {
        let next = (cur.0, cur.1, cur.2 + 1);
        match replies.checks@[cur.2] {
            AccountCheck::Found => (Step::Done(candidate), next),
            AccountCheck::Failed(e) => (Step::Failed(ResolveError::Transport(e)), next),
            AccountCheck::NotFound => if next.0 < 0 || next.0 >= replies.answers@.len() {
                (Step::Need(Request::Text { field, notice: Some(candidate) }), next)
            } else {
                check_from(replies.answers@[next.0], field, replies, (next.0 + 1, next.1, next.2))
            },
        }
    }
}

/// How one scalar resolves. `validate` holds when the level has a validator
/// and a network is given. A supplied value is taken as it is without
/// validation and checked with it; a missing one is asked for, and checked
/// with validation.
pub open spec fn scalar_resolution(
    supplied: Option<String>,
    field: Field,
    validate: bool,
    replies: Replies,
    cur: Pos,
) -> (Step<String>, Pos) {
    match supplied {
        Some(v) => if validate {
            check_from(v, field, replies, cur)
        } else {
            (Step::Done(v), cur)
        },
        None => if cur.0 < 0 || cur.0 >= replies.answers@.len() {
            (Step::Need(Request::Text { field, notice: None }), cur)
        } else {
            let v = replies.answers@[cur.0];
            let next = (cur.0 + 1, cur.1, cur.2);
            if validate {
                check_from(v, field, replies, next)
            } else {
                (Step::Done(v), next)
            }
        },
    }
}

/// Resolves one scalar against the recorded replies, consuming them from
/// `cursor` on; the oracle is asked only when `validate` holds.
pub fn resolve_scalar(
    supplied: Option<String>,
    field: Field,
    validate: bool,
    replies: &Replies,
    cursor: &mut Cursor,
) -> (r: Step<String>)
    requires
        crate::interaction::within(*old(cursor), *replies),
    ensures
        (r, final(cursor).pos()) == scalar_resolution(
            supplied,
            field,
            validate,
            *replies,
            old(cursor).pos(),
        ),
        crate::interaction::within(*final(cursor), *replies),
{
    let mut candidate: String;
    match supplied {
        Some(v) => {
            if !validate {
                return Step::Done(v);
            }
            candidate = v;
        },
        None => {
            if cursor.answer >= replies.answers.len() {
                return Step::Need(Request::Text { field, notice: None });
            }
            candidate = replies.answers[cursor.answer].clone();
            cursor.answer = cursor.answer + 1;
            if !validate {
                return Step::Done(candidate);
            }
        },
    }
    loop
        invariant
            crate::interaction::within(*cursor, *replies),
            check_from(candidate, field, *replies, cursor.pos()) == scalar_resolution(
                supplied,
                field,
                validate,
                *replies,
                old(cursor).pos(),
            ),
        decreases replies.checks@.len() - cursor.check,
    {
        if cursor.check >= replies.checks.len() {
            return Step::Need(Request::Check { account_id: candidate });
        }
        let reply = &replies.checks[cursor.check];
        cursor.check = cursor.check + 1;
        match reply {
            AccountCheck::Found => {
                return Step::Done(candidate);
            },
            AccountCheck::Failed(e) => {
                return Step::Failed(ResolveError::Transport(e.clone()));
            },
            AccountCheck::NotFound => {
                if cursor.answer >= replies.answers.len() {
                    return Step::Need(Request::Text { field, notice: Some(candidate) });
                }
                candidate = replies.answers[cursor.answer].clone();
                cursor.answer = cursor.answer + 1;
            },
        }
    }
}

/// The notice shown when the oracle reports an account missing.
pub open spec fn notice_text(account_id: Seq<char>) -> Seq<char> {
    "Account <"@ + account_id + "> doesn't exist"@
}

/// Renders the notice for an account that the oracle reported missing.
pub fn not_found_notice(account_id: &String) -> (r: String)
    ensures
        r@ == notice_text(account_id@),
{
    let mut s = String::from_str("Account <");
    s.append(account_id.as_str());
    s.append("> doesn't exist");
    s
}

} // verus!
