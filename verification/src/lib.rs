//! A crowdfunding program for the Solana runtime: a maker opens a fundraiser
//! for a token mint, contributors record their contributions, the maker
//! collects the vault and contributors can be refunded.
//!
//! Each instruction is split at the points where the runtime acts. The
//! functions here check the accounts and the data, read and write the state
//! that lies in account data, and name the cross-program invocations to make
//! (`Invocation`); the entrypoint makes them, reads the sysvars and hands the
//! results back.
use vstd::prelude::*;

pub mod account;
pub mod bytes;
pub mod error;
pub mod instructions;
pub mod pda;
pub mod rent;
pub mod state;

pub use account::Account;
pub use error::FundraiserError;
pub use instructions::{parse_instruction, Cpi, FundraiserInstructions, Invocation};
pub use state::contributor::Contributor;
pub use state::fundraiser::Fundraiser;


verus! {

/// The address of this program.
pub const ID: [u8; 32] = [
    235, 170, 193, 130, 121, 88, 224, 232, 193, 90, 159, 117, 210, 223, 205, 153,
    153, 106, 100, 83, 45, 53, 17, 122, 94, 187, 206, 90, 51, 94, 117, 28,
];

} // verus!
