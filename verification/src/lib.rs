//! Verified accounting for the WattPeak program.
//!
//! The crate holds two ledgers and what they are built on. The [`staker`]
//! ledger keeps stakes, accrues interest on them epoch by epoch, shares
//! deposited rewards out in proportion to that interest, and pays claims net
//! of a protocol fee. The [`minter`] ledger keeps the projects that WattPeak
//! is minted for and prices the minting. Both compute with the fixed-point
//! numbers of [`decimal`]. A ledger is an explicit value: a host loads it,
//! hands it to an operation together with the caller and the coins of the
//! call, and stores what the operation left.

pub mod decimal;
pub mod given;
pub mod address;
pub mod text;
pub mod response;
pub mod staker;
pub mod minter;
