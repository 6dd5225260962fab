//! The method level of the execute command: a change method or a view
//! method, each naming the contract method to call.
use vstd::prelude::*;
use crate::account::{scalar_resolution, resolve_scalar};
use crate::interaction::{carry, select, selection, within, Cursor, Field, Menu, Pos, Replies, Step};
use crate::transaction::{Payload, TransactionBuilder};

verus! {

/// A method call as given on the command line.
#[derive(Clone)]
pub struct CliCall {
    pub method_name: Option<String>,
}

/// A resolved method call.
pub struct Call {
    pub method_name: String,
}

/// The kind of method, as given on the command line.
#[derive(Clone)]
pub enum CliMethod {
    ChangeMethod(CliCall),
    ViewMethod(CliCall),
}

/// The resolved kind of method.
pub enum Method {
    ChangeMethod(Call),
    ViewMethod(Call),
}

/// The method level as given on the command line.
#[derive(Clone)]
pub struct CliOptionMethod {
    pub method: Option<CliMethod>,
}

/// A resolved method level.
pub struct OptionMethod {
    pub method: Method,
}

/// How a method call resolves: its name as supplied, or typed in.
pub open spec fn call_resolution(item: CliCall, replies: Replies, cur: Pos) -> (Step<Call>, Pos) {
    let (a, c1) = scalar_resolution(item.method_name, Field::MethodName, false, replies, cur);
    match a {
        Step::Done(n) => (Step::Done(Call { method_name: n }), c1),
        _ => (carry(a), c1),
    }
}

/// How a method kind resolves.
pub open spec fn method_resolution(item: CliMethod, replies: Replies, cur: Pos) -> (
    Step<Method>,
    Pos,
) {
    match item {
        CliMethod::ChangeMethod(c) => {
            let (s, c1) = call_resolution(c, replies, cur);
            match s {
                Step::Done(v) => (Step::Done(Method::ChangeMethod(v)), c1),
                _ => (carry(s), c1),
            }
        },
        CliMethod::ViewMethod(c) => {
            let (s, c1) = call_resolution(c, replies, cur);
            match s {
                Step::Done(v) => (Step::Done(Method::ViewMethod(v)), c1),
                _ => (carry(s), c1),
            }
        },
    }
}

/// The empty level of the variant at `index` of the method menu, in
/// declaration order.
pub open spec fn method_variant(index: usize) -> CliMethod {
    if index == 0 {
        CliMethod::ChangeMethod(CliCall { method_name: None })
    } else {
        CliMethod::ViewMethod(CliCall { method_name: None })
    }
}

/// How a missing method kind resolves: the operator picks a variant from the
/// menu, and its empty level is resolved.
pub open spec fn chosen_method(replies: Replies, cur: Pos) -> (Step<Method>, Pos) {
    let (s, c1) = selection(Menu::Method, replies, cur);
    match s {
        Step::Done(i) => method_resolution(method_variant(i), replies, c1),
        _ => (carry(s), c1),
    }
}

/// How a method level resolves.
pub open spec fn option_method_resolution(item: CliOptionMethod, replies: Replies, cur: Pos) -> (
    Step<OptionMethod>,
    Pos,
) {
    let (s, c1) = match item.method {
        Some(m) => method_resolution(m, replies, cur),
        None => chosen_method(replies, cur),
    };
    match s {
        Step::Done(m) => (Step::Done(OptionMethod { method: m }), c1),
        _ => (carry(s), c1),
    }
}

/// The payload of a resolved method.
pub open spec fn method_payload(m: Method) -> Payload {
    match m {
        Method::ChangeMethod(c) => Payload::FunctionCall { method_name: c.method_name },
        Method::ViewMethod(c) => Payload::ViewCall { method_name: c.method_name },
    }
}

impl Call {
    pub fn from(item: CliCall, replies: &Replies, cursor: &mut Cursor) -> (r: Step<Call>)
        requires
            within(*old(cursor), *replies),
        ensures
            (r, final(cursor).pos()) == call_resolution(item, *replies, old(cursor).pos()),
            within(*final(cursor), *replies),
    {
        match resolve_scalar(item.method_name, Field::MethodName, false, replies, cursor) {
            Step::Done(method_name) => Step::Done(Call { method_name }),
            Step::Need(q) => Step::Need(q),
            Step::Failed(e) => Step::Failed(e),
        }
    }
}

impl Method {
    pub fn from(item: CliMethod, replies: &Replies, cursor: &mut Cursor) -> (r: Step<Method>)
        requires
            within(*old(cursor), *replies),
        ensures
            (r, final(cursor).pos()) == method_resolution(item, *replies, old(cursor).pos()),
            within(*final(cursor), *replies),
    {
        match item {
            CliMethod::ChangeMethod(c) => match Call::from(c, replies, cursor) {
                Step::Done(v) => Step::Done(Method::ChangeMethod(v)),
                Step::Need(q) => Step::Need(q),
                Step::Failed(e) => Step::Failed(e),
            },
            CliMethod::ViewMethod(c) => match Call::from(c, replies, cursor) {
                Step::Done(v) => Step::Done(Method::ViewMethod(v)),
                Step::Need(q) => Step::Need(q),
                Step::Failed(e) => Step::Failed(e),
            },
        }
    }

    /// Resolves a missing method kind from the operator's menu choice.
    pub fn choose_method(replies: &Replies, cursor: &mut Cursor) -> (r: Step<Method>)
        requires
            within(*old(cursor), *replies),
        ensures
            (r, final(cursor).pos()) == chosen_method(*replies, old(cursor).pos()),
            within(*final(cursor), *replies),
    {
        match select(Menu::Method, replies, cursor) {
            Step::Done(i) => {
                let cli_method = if i == 0 {
                    CliMethod::ChangeMethod(CliCall { method_name: None })
                } else {
                    CliMethod::ViewMethod(CliCall { method_name: None })
                };
                Method::from(cli_method, replies, cursor)
            },
            Step::Need(q) => Step::Need(q),
            Step::Failed(e) => Step::Failed(e),
        }
    }

    /// Fills in the payload of the chosen method.
    pub fn process(self, prepopulated: TransactionBuilder) -> (r: TransactionBuilder)
        requires
            prepopulated.payload is None,
        ensures
            r == (TransactionBuilder { payload: Some(method_payload(self)), ..prepopulated }),
    {
        match self {
            Method::ChangeMethod(c) => prepopulated.set_payload(
                Payload::FunctionCall { method_name: c.method_name },
            ),
            Method::ViewMethod(c) => prepopulated.set_payload(
                Payload::ViewCall { method_name: c.method_name },
            ),
        }
    }
}

impl OptionMethod {
    /// Resolves a method level against the recorded replies.
    pub fn from(item: CliOptionMethod, replies: &Replies, cursor: &mut Cursor) -> (r: Step<
        OptionMethod,
    >)
        requires
            within(*old(cursor), *replies),
        ensures
            (r, final(cursor).pos()) == option_method_resolution(
                item,
                *replies,
                old(cursor).pos(),
            ),
            within(*final(cursor), *replies),
    {
        let method = match item.method {
            Some(cli_method) => Method::from(cli_method, replies, cursor),
            None => Method::choose_method(replies, cursor),
        };
        match method {
            Step::Done(method) => Step::Done(OptionMethod { method }),
            Step::Need(q) => Step::Need(q),
            Step::Failed(e) => Step::Failed(e),
        }
    }

    pub fn process(self, prepopulated: TransactionBuilder) -> (r: TransactionBuilder)
        requires
            prepopulated.payload is None,
        ensures
            r == (TransactionBuilder { payload: Some(method_payload(self.method)), ..prepopulated }),
    {
        self.method.process(prepopulated)
    }
}

} // verus!
