//! A store of movie reviews kept in ledger accounts.
//!
//! Each review lives in the account whose address is derived from the
//! owner's key and the review's title. The library decodes instructions,
//! derives and checks addresses, validates reviews and writes them into the
//! account's byte buffer. Allocating an account is left to the host: the
//! library says what to allocate and writes the review once the host has done so.

pub mod account;
pub mod entrypoint;
pub mod error;
pub mod instruction;
pub mod processor;
pub mod pubkey;
pub mod state;
pub mod wire;

