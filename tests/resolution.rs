use near_cli::account::not_found_notice;
use near_cli::commands::{CliTopLevelCommand, TopLevelCommand};
use near_cli::execute_command::{CliCall, CliMethod, CliOptionMethod, Method, OptionMethod};
use near_cli::interaction::{
    AccountCheck, ConnectionConfig, Cursor, Field, Menu, Replies, Request, ResolveError, Step,
};
use near_cli::transaction::{Payload, TransactionBuilder};
use near_cli::transfer_command::{CliReceiver, CliSendTo, CliSender, SendTo, Sender};
use near_cli::stake_proposal as stake;
use near_cli::transfer_near_tokens::CliTransfer;

fn testnet() -> Option<ConnectionConfig> {
    Some(ConnectionConfig {
        network_name: "testnet".to_string(),
        rpc_url: "https://rpc.testnet.near.org".to_string(),
    })
}

fn empty_sender() -> CliSender {
    CliSender { sender_account_id: None, send_to: None }
}

fn full_sender(sender: &str, receiver: &str, amount: u128) -> CliSender {
    CliSender {
        sender_account_id: Some(sender.to_string()),
        send_to: Some(CliSendTo::Receiver(CliReceiver {
            receiver_account_id: Some(receiver.to_string()),
            transfer: Some(CliTransfer { amount: Some(amount) }),
        })),
    }
}

fn run(item: CliSender, net: &Option<ConnectionConfig>, replies: &Replies) -> (Step<Sender>, Cursor) {
    let mut cursor = Cursor::start();
    let step = Sender::from(item, net, replies, &mut cursor);
    (step, cursor)
}

fn receiver_of(s: &Sender) -> (&str, u128) {
    match &s.send_to {
        SendTo::Receiver(r) => (r.receiver_account_id.as_str(), r.transfer.amount),
    }
}

#[test]
fn fully_specified_confirmed_account_needs_no_prompt() {
    let net = testnet();
    let replies = Replies::new();
    let (step, cursor) = run(full_sender("alice.near", "bob.near", 10), &net, &replies);
    assert_eq!((cursor.answer, cursor.selection, cursor.check), (0, 0, 0));
    let sender = match step {
        Step::Done(s) => s,
        _ => panic!("expected a resolved chain"),
    };
    assert_eq!(sender.sender_account_id, "alice.near");
    assert_eq!(receiver_of(&sender), ("bob.near", 10));
    let assembled = sender.process(TransactionBuilder::new(), "near transfer".to_string());
    assert_eq!(assembled.transaction.signer_id, "alice.near");
    assert_eq!(assembled.transaction.receiver_id, "bob.near");
    assert!(matches!(assembled.transaction.payload, Payload::Transfer { amount: 10 }));
    assert_eq!(assembled.console_command, "near transfer alice.near receiver bob.near 10");
}

#[test]
fn confirmed_validator_is_kept_as_supplied() {
    let net = testnet();
    let item = || stake::CliSender {
        sender_account_id: Some("validator.near".to_string()),
        transfer: Some(CliTransfer { amount: Some(10) }),
    };
    let mut replies = Replies::new();
    let mut cursor = Cursor::start();
    match stake::Sender::from(item(), &net, &replies, &mut cursor) {
        Step::Need(Request::Check { account_id }) => assert_eq!(account_id, "validator.near"),
        _ => panic!("expected an account check"),
    }
    replies.checks.push(AccountCheck::Found);
    let mut cursor = Cursor::start();
    match stake::Sender::from(item(), &net, &replies, &mut cursor) {
        Step::Done(s) => {
            assert_eq!(s.sender_account_id, "validator.near");
            assert_eq!(s.transfer.amount, 10);
        }
        _ => panic!("expected a resolved validator"),
    }
    assert_eq!((cursor.answer, cursor.selection, cursor.check), (0, 0, 1));
}

#[test]
fn transfer_sender_is_never_checked() {
    let net = testnet();
    let mut replies = Replies::new();
    replies.checks.push(AccountCheck::NotFound);
    let (step, cursor) = run(full_sender("ghost.near", "bob.near", 1), &net, &replies);
    assert_eq!(cursor.check, 0);
    match step {
        Step::Done(s) => assert_eq!(s.sender_account_id, "ghost.near"),
        _ => panic!("expected a resolved chain"),
    }
    let mut replies = Replies::new();
    replies.answers.push("typed.near".to_string());
    let item = CliSender {
        sender_account_id: None,
        send_to: Some(CliSendTo::Receiver(CliReceiver {
            receiver_account_id: Some("bob.near".to_string()),
            transfer: Some(CliTransfer { amount: Some(1) }),
        })),
    };
    let (step, cursor) = run(item, &net, &replies);
    assert_eq!((cursor.answer, cursor.check), (1, 0));
    match step {
        Step::Done(s) => assert_eq!(s.sender_account_id, "typed.near"),
        _ => panic!("expected a resolved chain"),
    }
}

#[test]
fn rejected_account_is_announced_and_asked_again() {
    let net = testnet();
    let item = || stake::CliSender {
        sender_account_id: Some("ghost.near".to_string()),
        transfer: None,
    };
    let pass = |replies: &Replies| {
        let mut cursor = Cursor::start();
        let step = stake::Sender::from(item(), &net, replies, &mut cursor);
        (step, cursor)
    };
    let mut replies = Replies::new();
    replies.checks.push(AccountCheck::NotFound);
    match pass(&replies).0 {
        Step::Need(Request::Text { field, notice }) => {
            assert!(field == Field::ValidatorAccount);
            let missing = notice.expect("a notice");
            assert_eq!(not_found_notice(&missing), "Account <ghost.near> doesn't exist");
        }
        _ => panic!("expected a prompt"),
    }
    replies.answers.push("alice.near".to_string());
    match pass(&replies).0 {
        Step::Need(Request::Check { account_id }) => assert_eq!(account_id, "alice.near"),
        _ => panic!("expected a check of the new answer"),
    }
    replies.checks.push(AccountCheck::Found);
    match pass(&replies).0 {
        Step::Need(Request::Select { menu }) => assert!(menu == Menu::Transfer),
        _ => panic!("expected the transfer menu"),
    }
    replies.selections.push(0);
    replies.answers.push("25".to_string());
    let (step, cursor) = pass(&replies);
    assert_eq!((cursor.answer, cursor.selection, cursor.check), (2, 1, 2));
    match step {
        Step::Done(s) => {
            assert_eq!(s.sender_account_id, "alice.near");
            assert_eq!(s.transfer.amount, 25);
        }
        _ => panic!("expected a resolved validator"),
    }
}

#[test]
fn menu_choice_of_second_variant_resolves_its_empty_level() {
    let mut replies = Replies::new();
    replies.selections.push(1);
    let mut cursor = Cursor::start();
    match OptionMethod::from(CliOptionMethod { method: None }, &replies, &mut cursor) {
        Step::Need(Request::Text { field, .. }) => assert!(field == Field::MethodName),
        _ => panic!("expected the method name prompt"),
    }
    replies.answers.push("get_balance".to_string());
    let mut cursor = Cursor::start();
    match OptionMethod::from(CliOptionMethod { method: None }, &replies, &mut cursor) {
        Step::Done(OptionMethod { method: Method::ViewMethod(call) }) => {
            assert_eq!(call.method_name, "get_balance")
        }
        _ => panic!("expected the view method"),
    }
}

#[test]
fn menu_first_variant_is_the_change_method() {
    let mut replies = Replies::new();
    replies.selections.push(0);
    replies.answers.push("set_greeting".to_string());
    let mut cursor = Cursor::start();
    let m = match OptionMethod::from(CliOptionMethod { method: None }, &replies, &mut cursor) {
        Step::Done(m) => m,
        _ => panic!("expected the change method"),
    };
    let b = m.process(TransactionBuilder::new());
    match b.payload {
        Some(Payload::FunctionCall { method_name }) => assert_eq!(method_name, "set_greeting"),
        _ => panic!("expected a function call"),
    }
    assert!(b.signer_id.is_none() && b.receiver_id.is_none());
}

#[test]
fn supplied_method_needs_no_menu() {
    let replies = Replies::new();
    let mut cursor = Cursor::start();
    let item = CliOptionMethod {
        method: Some(CliMethod::ChangeMethod(CliCall { method_name: Some("ping".to_string()) })),
    };
    match OptionMethod::from(item, &replies, &mut cursor) {
        Step::Done(OptionMethod { method: Method::ChangeMethod(c) }) => assert_eq!(c.method_name, "ping"),
        _ => panic!("expected the supplied method"),
    }
}

#[test]
fn menu_selection_outside_the_menu_is_fatal() {
    let mut replies = Replies::new();
    replies.selections.push(2);
    let mut cursor = Cursor::start();
    match OptionMethod::from(CliOptionMethod { method: None }, &replies, &mut cursor) {
        Step::Failed(ResolveError::InvalidSelection(2)) => {}
        _ => panic!("expected an invalid selection"),
    }
}

#[test]
fn oracle_failure_is_fatal_not_missing() {
    let net = testnet();
    let mut replies = Replies::new();
    replies.checks.push(AccountCheck::Failed("timeout".to_string()));
    let item = stake::CliSender { sender_account_id: Some("v.near".to_string()), transfer: None };
    let mut cursor = Cursor::start();
    match stake::Sender::from(item, &net, &replies, &mut cursor) {
        Step::Failed(ResolveError::Transport(cause)) => assert_eq!(cause, "timeout"),
        _ => panic!("expected a transport error"),
    }
}

#[test]
fn prompts_and_menus_have_fixed_texts() {
    assert_eq!(Field::SenderAccount.question(), "What is the account ID of the sender?");
    assert_eq!(Field::ValidatorAccount.question(), "What is the account ID of the validator?");
    assert_eq!(Menu::Method.prompt(), "Choose your method");
    assert_eq!(Menu::Method.items(), vec!["Change a method", "View a method"]);
    assert_eq!(Menu::Method.default_selection(), 0);
}

#[test]
fn offline_accepts_supplied_account_without_checks() {
    let mut replies = Replies::new();
    replies.checks.push(AccountCheck::NotFound);
    let item = stake::CliSender {
        sender_account_id: Some("anyone".to_string()),
        transfer: Some(CliTransfer { amount: Some(3) }),
    };
    let mut cursor = Cursor::start();
    let step = stake::Sender::from(item, &None, &replies, &mut cursor);
    assert_eq!(cursor.check, 0);
    match step {
        Step::Done(s) => assert_eq!(s.sender_account_id, "anyone"),
        _ => panic!("expected a resolved validator"),
    }
}

#[test]
fn empty_command_offline_asks_in_order() {
    let mut replies = Replies::new();
    match run(empty_sender(), &None, &replies).0 {
        Step::Need(Request::Text { field, .. }) => assert!(field == Field::SenderAccount),
        _ => panic!("expected the sender prompt"),
    }
    replies.answers.push("alice.near".to_string());
    replies.answers.push("bob.near".to_string());
    replies.selections.push(0);
    match run(empty_sender(), &None, &replies).0 {
        Step::Need(Request::Text { field, .. }) => assert!(field == Field::Amount),
        _ => panic!("expected the amount prompt"),
    }
    replies.answers.push("7".to_string());
    match run(empty_sender(), &None, &replies).0 {
        Step::Done(s) => assert_eq!(receiver_of(&s), ("bob.near", 7)),
        _ => panic!("expected a resolved chain"),
    }
}

#[test]
fn malformed_amount_is_fatal() {
    let mut replies = Replies::new();
    replies.answers.push("alice.near".to_string());
    replies.answers.push("bob.near".to_string());
    replies.answers.push("12x".to_string());
    replies.selections.push(0);
    match run(empty_sender(), &None, &replies).0 {
        Step::Failed(ResolveError::InvalidAmount(t)) => assert_eq!(t, "12x"),
        _ => panic!("expected an invalid amount"),
    }
}

#[test]
fn resolving_twice_gives_identical_transactions() {
    let replies = Replies::new();
    let a = match run(full_sender("a.near", "b.near", 5), &None, &replies).0 {
        Step::Done(s) => s.process(TransactionBuilder::new(), "near".to_string()),
        _ => panic!("expected a chain"),
    };
    let b = match run(full_sender("a.near", "b.near", 5), &None, &replies).0 {
        Step::Done(s) => s.process(TransactionBuilder::new(), "near".to_string()),
        _ => panic!("expected a chain"),
    };
    assert_eq!(a.transaction.signer_id, b.transaction.signer_id);
    assert_eq!(a.transaction.receiver_id, b.transaction.receiver_id);
    assert!(matches!(
        (a.transaction.payload, b.transaction.payload),
        (Payload::Transfer { amount: 5 }, Payload::Transfer { amount: 5 })
    ));
    assert_eq!(a.console_command, b.console_command);
}

#[test]
fn receiver_console_command_appends_account() {
    let replies = Replies::new();
    if let Step::Done(s) = run(full_sender("a", "b", 1), &None, &replies).0 {
        let SendTo::Receiver(r) = s.send_to;
        assert_eq!(r.get_console_command(&"near transfer a receiver".to_string()), "near transfer a receiver b");
    } else {
        panic!("expected a chain");
    }
}

#[test]
fn top_level_menu_starts_the_chosen_command_empty() {
    let mut replies = Replies::new();
    let mut cursor = Cursor::start();
    match TopLevelCommand::resolve(None, &None, &replies, &mut cursor) {
        Step::Need(Request::Select { menu }) => {
            assert!(menu == Menu::Command);
            assert_eq!(menu.items(), vec!["Transfer tokens", "Propose a stake", "Call a method"]);
        }
        _ => panic!("expected the command menu"),
    }
    replies.selections.push(1);
    let mut cursor = Cursor::start();
    match TopLevelCommand::resolve(None, &None, &replies, &mut cursor) {
        Step::Need(Request::Text { field, .. }) => assert!(field == Field::ValidatorAccount),
        _ => panic!("expected the validator prompt"),
    }
}

#[test]
fn top_level_given_command_skips_the_menu() {
    let replies = Replies::new();
    let mut cursor = Cursor::start();
    let item = CliTopLevelCommand::Transfer(full_sender("a.near", "b.near", 2));
    match TopLevelCommand::resolve(Some(item), &None, &replies, &mut cursor) {
        Step::Done(TopLevelCommand::Transfer(s)) => assert_eq!(receiver_of(&s), ("b.near", 2)),
        _ => panic!("expected the transfer"),
    }
    assert_eq!(cursor.selection, 0);
}
