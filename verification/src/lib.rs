//! A two-party escrow of a fungible asset against native currency, as the plans that
//! its three operations ask a ledger to carry out.
//!
//! A seller creates the custodial account of an asset, deposits the asset into the
//! custodial holding account, and a buyer settles: the asset is released to the
//! buyer and the price is paid to the seller. The custodial account has no key. Its
//! address is derived from the program and the asset, and the program signs for it
//! with the seeds of that derivation.
//!
//! The operations perform nothing themselves. Each returns a [`plan::Plan`]: the
//! invocations of other programs to make, in order, and how the operation ends.
//! Every plan is specified exactly, as a function of the operation's inputs.

pub mod account;
pub mod address;
pub mod codec;
pub mod error;
pub mod instruction;
pub mod instructions;
pub mod plan;
pub mod processor;
pub mod record;
