//! The top level of the command tree: which command the invocation runs.
use vstd::prelude::*;
use crate::execute_command::{option_method_resolution, CliOptionMethod, OptionMethod};
use crate::interaction::{
    carry, select, selection, within, ConnectionConfig, Cursor, Menu, Pos, Replies, Step,
};
use crate::stake_proposal as stake;
use crate::transfer_command as transfer;

verus! {

/// The command as given on the command line.
#[derive(Clone)]
pub enum CliTopLevelCommand {
    Transfer(transfer::CliSender),
    StakeProposal(stake::CliSender),
    Execute(CliOptionMethod),
}

/// A resolved command.
pub enum TopLevelCommand {
    Transfer(transfer::Sender),
    StakeProposal(stake::Sender),
    Execute(OptionMethod),
}

/// The empty command of the variant at `index` of the command menu, in
/// declaration order.
pub open spec fn command_variant(index: usize) -> CliTopLevelCommand {
    if index == 0 {
        CliTopLevelCommand::Transfer(transfer::CliSender { sender_account_id: None, send_to: None })
    } else if index == 1 {
        CliTopLevelCommand::StakeProposal(
            stake::CliSender { sender_account_id: None, transfer: None },
        )
    } else {
        CliTopLevelCommand::Execute(CliOptionMethod { method: None })
    }
}

/// How a given command resolves: its own tree, resolved in turn.
pub open spec fn command_resolution(
    item: CliTopLevelCommand,
    online: bool,
    replies: Replies,
    cur: Pos,
) -> (Step<TopLevelCommand>, Pos) {
    match item {
        CliTopLevelCommand::Transfer(c) => {
            let (s, p) = transfer::sender_resolution(c, replies, cur);
            match s {
                Step::Done(v) => (Step::Done(TopLevelCommand::Transfer(v)), p),
                _ => (carry(s), p),
            }
        },
        CliTopLevelCommand::StakeProposal(c) => {
            let (s, p) = stake::stake_resolution(c, online, replies, cur);
            match s {
                Step::Done(v) => (Step::Done(TopLevelCommand::StakeProposal(v)), p),
                _ => (carry(s), p),
            }
        },
        CliTopLevelCommand::Execute(c) => {
            let (s, p) = option_method_resolution(c, replies, cur);
            match s {
                Step::Done(v) => (Step::Done(TopLevelCommand::Execute(v)), p),
                _ => (carry(s), p),
            }
        },
    }
}

/// How the top level resolves: the given command, or the one the operator
/// picks from the command menu, started empty.
pub open spec fn top_level_resolution(
    item: Option<CliTopLevelCommand>,
    online: bool,
    replies: Replies,
    cur: Pos,
) -> (Step<TopLevelCommand>, Pos) {
    match item {
        Some(c) => command_resolution(c, online, replies, cur),
        None => {
            let (s, c1) = selection(Menu::Command, replies, cur);
            match s {
                Step::Done(i) => command_resolution(command_variant(i), online, replies, c1),
                _ => (carry(s), c1),
            }
        },
    }
}

impl TopLevelCommand {
    /// Resolves a given command against the recorded replies.
    pub fn from(
        item: CliTopLevelCommand,
        connection_config: &Option<ConnectionConfig>,
        replies: &Replies,
        cursor: &mut Cursor,
    ) -> (r: Step<TopLevelCommand>)
        requires
            within(*old(cursor), *replies),
        ensures
            (r, final(cursor).pos()) == command_resolution(
                item,
                connection_config is Some,
                *replies,
                old(cursor).pos(),
            ),
            within(*final(cursor), *replies),
    {
        match item {
            CliTopLevelCommand::Transfer(c) => match transfer::Sender::from(
                c,
                connection_config,
                replies,
                cursor,
            ) {
                Step::Done(v) => Step::Done(TopLevelCommand::Transfer(v)),
                Step::Need(q) => Step::Need(q),
                Step::Failed(e) => Step::Failed(e),
            },
            CliTopLevelCommand::StakeProposal(c) => match stake::Sender::from(
                c,
                connection_config,
                replies,
                cursor,
            ) {
                Step::Done(v) => Step::Done(TopLevelCommand::StakeProposal(v)),
                Step::Need(q) => Step::Need(q),
                Step::Failed(e) => Step::Failed(e),
            },
            CliTopLevelCommand::Execute(c) => match OptionMethod::from(c, replies, cursor) {
                Step::Done(v) => Step::Done(TopLevelCommand::Execute(v)),
                Step::Need(q) => Step::Need(q),
                Step::Failed(e) => Step::Failed(e),
            },
        }
    }

    /// Resolves the top level: the given command, or the operator's choice
    /// from the command menu.
    pub fn resolve(
        item: Option<CliTopLevelCommand>,
        connection_config: &Option<ConnectionConfig>,
        replies: &Replies,
        cursor: &mut Cursor,
    ) -> (r: Step<TopLevelCommand>)
        requires
            within(*old(cursor), *replies),
        ensures
            (r, final(cursor).pos()) == top_level_resolution(
                item,
                connection_config is Some,
                *replies,
                old(cursor).pos(),
            ),
            within(*final(cursor), *replies),
    {
        match item {
            Some(c) => TopLevelCommand::from(c, connection_config, replies, cursor),
            None => TopLevelCommand::choose_command(connection_config, replies, cursor),
        }
    }

    /// Resolves the command the operator picks from the command menu.
    pub fn choose_command(
        connection_config: &Option<ConnectionConfig>,
        replies: &Replies,
        cursor: &mut Cursor,
    ) -> (r: Step<TopLevelCommand>)
        requires
            within(*old(cursor), *replies),
        ensures
            (r, final(cursor).pos()) == top_level_resolution(
                None,
                connection_config is Some,
                *replies,
                old(cursor).pos(),
            ),
            within(*final(cursor), *replies),
    {
        match select(Menu::Command, replies, cursor) {
            Step::Done(i) => {
                let item = if i == 0 {
                    CliTopLevelCommand::Transfer(
                        transfer::CliSender { sender_account_id: None, send_to: None },
                    )
                } else if i == 1 {
                    CliTopLevelCommand::StakeProposal(
                        stake::CliSender { sender_account_id: None, transfer: None },
                    )
                } else {
                    CliTopLevelCommand::Execute(CliOptionMethod { method: None })
                };
                TopLevelCommand::from(item, connection_config, replies, cursor)
            },
            Step::Need(q) => Step::Need(q),
            Step::Failed(e) => Step::Failed(e),
        }
    }
}

} // verus!
