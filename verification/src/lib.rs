//! A program for the Solana runtime that moves a fixed amount of lamports
//! from the first account it is given to the second, through the system
//! program.
//!
//! [`handler`] holds the invocation logic, [`host`] what is taken on trust
//! about the runtime, and [`greeting`] the record that a greeted account
//! would store, with its byte format.

pub mod greeting;
pub mod handler;
pub mod host;

pub use greeting::GreetingAccount;
pub use handler::process_instruction;
