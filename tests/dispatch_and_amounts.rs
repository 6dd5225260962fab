use near_cli::amount::{amount_text, parse_amount};
use near_cli::dispatch::{
    exec_result, exit_status, external_command_name, first_executable, is_executable, locate,
    not_found_message, search_directories, DispatchError, ExecOutcome, GENERIC_FAILURE,
};
use near_cli::interaction::{AccountCheck, ConnectionConfig, Cursor, Field, Replies, Request, Step};
use near_cli::stake_proposal::{CliSender, Sender};
use near_cli::transaction::{Payload, TransactionBuilder};
use near_cli::transfer_near_tokens::{CliTransfer, Transfer};

#[test]
fn external_subcommand_found_in_path_keeps_exit_code() {
    let exe = external_command_name("foo", "");
    assert_eq!(exe, "near-foo");
    let dirs = search_directories(
        "/home/u/.near/bin".to_string(),
        vec!["/usr/local/bin".to_string(), "/usr/bin".to_string()],
    );
    assert_eq!(dirs, vec!["/home/u/.near/bin", "/usr/local/bin", "/usr/bin"]);
    let found = locate(exe, &vec![false, true, true]);
    assert!(matches!(found, Ok(1)));
    let result = exec_result(ExecOutcome::ExitCode(42));
    assert!(matches!(result, Err(DispatchError::Exited(42))));
    assert_eq!(exit_status(&result), 42);
    assert_eq!(exit_status(&exec_result(ExecOutcome::Completed)), 0);
}

#[test]
fn external_subcommand_missing_is_fatal() {
    let exe = external_command_name("bar", "");
    let r = locate(exe, &vec![false, false, false]);
    match &r {
        Err(DispatchError::NotFound(name)) => {
            assert_eq!(not_found_message(name), "command near-bar does not exist")
        }
        _ => panic!("expected not found"),
    }
    let status = exit_status(&r.map(|_| ()));
    assert_eq!(status, GENERIC_FAILURE);
    assert_ne!(status, 0);
}

#[test]
fn dispatcher_prefers_primary_directory() {
    assert_eq!(first_executable(&vec![true, true, false]), Some(0));
    assert_eq!(first_executable(&vec![false, false, true]), Some(2));
    assert_eq!(first_executable(&vec![]), None);
}

#[test]
fn executable_suffix_is_appended() {
    assert_eq!(external_command_name("foo", ".exe"), "near-foo.exe");
}

#[test]
fn execution_failure_has_generic_status() {
    let r = exec_result(ExecOutcome::Failed("spawn failed".to_string()));
    assert!(matches!(&r, Err(DispatchError::Execution(m)) if m == "spawn failed"));
    assert_eq!(exit_status(&r), 1);
}

#[test]
fn execute_bits_decide_executability() {
    assert!(is_executable(true, 0o755));
    assert!(is_executable(true, 0o100));
    assert!(!is_executable(true, 0o644));
    assert!(!is_executable(false, 0o755));
}

#[test]
fn amounts_parse_as_decimal() {
    assert_eq!(parse_amount("0"), Some(0));
    assert_eq!(parse_amount("1234567890"), Some(1234567890));
    assert_eq!(parse_amount(""), None);
    assert_eq!(parse_amount("-1"), None);
    assert_eq!(parse_amount("1.5"), None);
    assert_eq!(parse_amount("340282366920938463463374607431768211455"), Some(u128::MAX));
    assert_eq!(parse_amount("340282366920938463463374607431768211456"), None);
    assert_eq!(parse_amount("99999999999999999999999999999999999999999x"), None);
}

#[test]
fn amounts_render_as_decimal() {
    assert_eq!(amount_text(0), "0");
    assert_eq!(amount_text(7), "7");
    assert_eq!(amount_text(1234567890), "1234567890");
    assert_eq!(amount_text(u128::MAX), "340282366920938463463374607431768211455");
    assert_eq!(parse_amount(&amount_text(987654321)), Some(987654321));
}

#[test]
fn stake_proposal_signs_and_receives_itself() {
    let mut replies = Replies::new();
    replies.checks.push(AccountCheck::Found);
    let net = Some(ConnectionConfig { network_name: "testnet".to_string(), rpc_url: "x".to_string() });
    let item = CliSender {
        sender_account_id: Some("validator.near".to_string()),
        transfer: Some(CliTransfer { amount: Some(100) }),
    };
    let mut cursor = Cursor::start();
    let s = match Sender::from(item, &net, &replies, &mut cursor) {
        Step::Done(s) => s,
        _ => panic!("expected a validator"),
    };
    let t = s.process(TransactionBuilder::new());
    assert_eq!(t.signer_id, "validator.near");
    assert_eq!(t.receiver_id, "validator.near");
    assert!(matches!(t.payload, Payload::Stake { amount: 100 }));
}

#[test]
fn stake_validator_prompt_after_rejection() {
    let mut replies = Replies::new();
    replies.checks.push(AccountCheck::NotFound);
    let net = Some(ConnectionConfig { network_name: "testnet".to_string(), rpc_url: "x".to_string() });
    let item = CliSender { sender_account_id: Some("nobody".to_string()), transfer: None };
    let mut cursor = Cursor::start();
    match Sender::from(item, &net, &replies, &mut cursor) {
        Step::Need(Request::Text { field, notice }) => {
            assert!(field == Field::ValidatorAccount);
            assert_eq!(notice.as_deref(), Some("nobody"));
        }
        _ => panic!("expected the validator prompt"),
    }
}

#[test]
fn stake_cli_args_round_trip() {
    let item = CliSender {
        sender_account_id: Some("v.near".to_string()),
        transfer: Some(CliTransfer { amount: Some(42) }),
    };
    assert_eq!(item.to_cli_args(), vec!["v.near", "42"]);
    let partial = CliSender { sender_account_id: None, transfer: Some(CliTransfer { amount: Some(5) }) };
    assert_eq!(partial.to_cli_args(), vec!["5"]);
    let back = CliSender::from_resolved(Sender {
        sender_account_id: "w.near".to_string(),
        transfer: Transfer { amount: 9 },
    });
    assert_eq!(back.to_cli_args(), vec!["w.near", "9"]);
}
