//! What the resolution engine asks of the operator and of the network, and
//! the recorded replies it replays.
use vstd::prelude::*;

verus! {

/// A network to resolve against. Its absence means offline mode: no account
/// is checked.
#[derive(Clone)]
pub struct ConnectionConfig {
    pub network_name: String,
    pub rpc_url: String,
}

/// The answer of the account-existence oracle.
pub enum AccountCheck {
    Found,
    NotFound,
    Failed(String),
}

/// A scalar that may have to be typed in by the operator.
#[derive(Clone, Copy, PartialEq, Eq, Structural)]
pub enum Field {
    SenderAccount,
    ReceiverAccount,
    ValidatorAccount,
    Amount,
    MethodName,
}

/// A position in the tree where a child is picked from a menu.
#[derive(Clone, Copy, PartialEq, Eq, Structural)]
pub enum Menu {
    Command,
    Transfer,
    Method,
}

/// The next thing the engine needs before it can go on.
pub enum Request {
    /// Ask the operator for a line of text; `notice` is an account that was
    /// just reported missing and must be announced first.
    Text { field: Field, notice: Option<String> },
    /// Let the operator pick one item of a menu.
    Select { menu: Menu },
    /// Ask the oracle whether an account exists.
    Check { account_id: String },
}

/// A fatal resolution error.
pub enum ResolveError {
    /// The oracle could not answer.
    Transport(String),
    /// Typed-in text that is not an amount.
    InvalidAmount(String),
    /// A menu index outside the menu.
    InvalidSelection(usize),
}

/// The result of one resolution pass.
pub enum Step<T> {
    Done(T),
    Need(Request),
    Failed(ResolveError),
}

/// Everything the operator and the oracle have answered so far, in order.
pub struct Replies {
    pub answers: Vec<String>,
    pub selections: Vec<usize>,
    pub checks: Vec<AccountCheck>,
}

/// How many replies of each kind a pass has consumed.
#[derive(Clone, Copy, PartialEq, Eq, Structural)]
pub struct Cursor {
    pub answer: usize,
    pub selection: usize,
    pub check: usize,
}

/// Positions in the three reply lists: answers, selections, oracle checks.
pub type Pos = (int, int, int);

impl Cursor {
    pub open spec fn pos(self) -> Pos {
        (self.answer as int, self.selection as int, self.check as int)
    }

    pub fn start() -> (r: Cursor)
        ensures
            r == (Cursor { answer: 0, selection: 0, check: 0 }),
    {
        Cursor { answer: 0, selection: 0, check: 0 }
    }
}

impl Replies {
    pub fn new() -> (r: Replies)
        ensures
            r.answers@.len() == 0,
            r.selections@.len() == 0,
            r.checks@.len() == 0,
    {
        Replies { answers: Vec::new(), selections: Vec::new(), checks: Vec::new() }
    }
}

/// A cursor that stays within the replies.
pub open spec fn within(c: Cursor, r: Replies) -> bool {
    &&& c.answer <= r.answers@.len()
    &&& c.selection <= r.selections@.len()
    &&& c.check <= r.checks@.len()
}

/// Positions that stay within the replies.
pub open spec fn pos_within(p: Pos, r: Replies) -> bool {
    &&& 0 <= p.0 <= r.answers@.len()
    &&& 0 <= p.1 <= r.selections@.len()
    &&& 0 <= p.2 <= r.checks@.len()
}

/// The step that carries a non-final result over to another result type.
pub open spec fn carry<A, B>(s: Step<A>) -> Step<B> {
    match s {
        Step::Need(q) => Step::Need(q),
        Step::Failed(e) => Step::Failed(e),
        Step::Done(_) => arbitrary(),
    }
}

impl Field {
    /// The question put to the operator for this field.
    pub fn question(&self) -> (r: &'static str)
        ensures
            *self == Field::SenderAccount ==> r@ == "What is the account ID of the sender?"@,
            *self == Field::ReceiverAccount ==> r@ == "What is the account ID of the receiver?"@,
            *self == Field::ValidatorAccount ==> r@ == "What is the account ID of the validator?"@,
            *self == Field::Amount ==> r@ == "How many NEAR Tokens do you want to transfer?"@,
            *self == Field::MethodName ==> r@ == "What is the name of the method?"@,
    {
        match self {
            Field::SenderAccount => "What is the account ID of the sender?",
            Field::ReceiverAccount => "What is the account ID of the receiver?",
            Field::ValidatorAccount => "What is the account ID of the validator?",
            Field::Amount => "How many NEAR Tokens do you want to transfer?",
            Field::MethodName => "What is the name of the method?",
        }
    }
}

impl Menu {
    /// How many variants the menu offers.
    pub open spec fn size(self) -> nat {
        match self {
            Menu::Command => 3,
            Menu::Transfer => 1,
            Menu::Method => 2,
        }
    }

    /// The menu's prompt.
    pub fn prompt(&self) -> (r: &'static str)
        ensures
            *self == Menu::Command ==> r@ == "Choose your action"@,
            *self == Menu::Transfer ==> r@ == "Select the type of transfer"@,
            *self == Menu::Method ==> r@ == "Choose your method"@,
    {
        match self {
            Menu::Command => "Choose your action",
            Menu::Transfer => "Select the type of transfer",
            Menu::Method => "Choose your method",
        }
    }

    /// The item preselected when the menu is shown: always the first.
    pub fn default_selection(&self) -> (r: usize)
        ensures
            r == 0,
            r < self.size(),
    {
        0
    }

    /// The menu's items, in the order of the variants they stand for.
    pub fn items(&self) -> (r: Vec<String>)
        ensures
            r@.len() == self.size(),
            self == Menu::Command ==> r@[0]@ == "Transfer tokens"@ && r@[1]@
                == "Propose a stake"@ && r@[2]@ == "Call a method"@,
            self == Menu::Transfer ==> r@[0]@ == "Transfer NEAR tokens"@,
            self == Menu::Method ==> r@[0]@ == "Change a method"@ && r@[1]@ == "View a method"@,
    {
        let mut v: Vec<String> = Vec::new();
        match self {
            Menu::Command => {
                v.push(String::from_str("Transfer tokens"));
                v.push(String::from_str("Propose a stake"));
                v.push(String::from_str("Call a method"));
            },
            Menu::Transfer => {
                v.push(String::from_str("Transfer NEAR tokens"));
            },
            Menu::Method => {
                v.push(String::from_str("Change a method"));
                v.push(String::from_str("View a method"));
            },
        }
        v
    }
}

/// How a menu choice resolves: the next recorded selection, which must lie
/// within the menu.
pub open spec fn selection(menu: Menu, replies: Replies, cur: Pos) -> (Step<usize>, Pos) {
    if cur.1 < 0 || cur.1 >= replies.selections@.len() {
        (Step::Need(Request::Select { menu }), cur)
    } else {
        let s = replies.selections@[cur.1];
        let next = (cur.0, cur.1 + 1, cur.2);
        if s < menu.size() {
            (Step::Done(s), next)
        } else {
            (Step::Failed(ResolveError::InvalidSelection(s)), next)
        }
    }
}

/// Takes the next recorded menu selection.
pub fn select(menu: Menu, replies: &Replies, cursor: &mut Cursor) -> (r: Step<usize>)
    requires
        within(*old(cursor), *replies),
    ensures
        (r, final(cursor).pos()) == selection(menu, *replies, old(cursor).pos()),
        within(*final(cursor), *replies),
{
    if cursor.selection >= replies.selections.len() {
        return Step::Need(Request::Select { menu });
    }
    let s = replies.selections[cursor.selection];
    cursor.selection = cursor.selection + 1;
    let size: usize = match menu {
        Menu::Command => 3,
        Menu::Transfer => 1,
        Menu::Method => 2,
    };
    if s < size {
        Step::Done(s)
    } else {
        Step::Failed(ResolveError::InvalidSelection(s))
    }
}

} // verus!
