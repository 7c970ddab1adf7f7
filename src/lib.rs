//! An atomic-swap escrow program.
//!
//! A maker locks an amount of asset A in a vault owned by an escrow record
//! and names the amount of asset B wanted in return. A taker may fulfil the
//! swap in one step, or the maker may cancel and take the deposit back.
//!
//! The handlers here decide: they check the accounts and the instruction
//! payload and return the exact plan of custody actions that the runtime
//! must carry out, all of them or none.

pub mod error;
pub mod state;
pub mod account;
pub mod instructions;
pub mod token;
pub mod make;
pub mod take;
pub mod refund;
pub mod entrypoint;
pub mod ledger;
