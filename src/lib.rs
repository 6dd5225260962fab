//! Resolution of a partly specified command tree into a complete transaction,
//! with interactive fill-in and account validation decided step by step.
pub mod account;
pub mod amount;
pub mod commands;
pub mod dispatch;
pub mod execute_command;
pub mod guarantees;
pub mod interaction;
pub mod stake_proposal;
pub mod transaction;
pub mod transfer_command;
pub mod transfer_near_tokens;
