//! Covert atomic-swap protocol engine (Taker side).
//!
//! Two untrusting parties move value through two jointly controlled
//! addresses so that the final payout looks like an ordinary transfer.
//! The modules below cover the cryptographic core: distributed key
//! generation for the joint addresses, adaptor pre-signatures that bind
//! fund release to a secret witness, a sequential-work time-lock puzzle
//! as the refund safety net, and the session state machine that
//! sequences them.  Ledger submission and the message transport are
//! external collaborators: the session hands plain transactions and
//! messages to its driver and never performs I/O itself.

pub mod adaptor;
pub mod chain;
pub mod dkg;
pub mod ec;
pub mod errors;
pub mod taker;
pub mod vtc;
