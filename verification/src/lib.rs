//! An email-based one-time-code authentication loop for an identity
//! broker. A relying party asks to authenticate a user by email address;
//! a short, human-typeable code is issued, stored under a session
//! identifier derived from the (email, client) pair with an expiry, and
//! composed into a notification message. Returning the code later
//! exchanges it for an identity assertion and the original redirect
//! target. The session store is modelled in memory; carrying its writes
//! onto a remote store and dispatching the mail are a caller's side
//! effects.

use vstd::prelude::*;

pub mod code;
pub mod crypto;
pub mod email;
pub mod hex;
pub mod query;
pub mod store;
pub mod text;

verus! {

/// Length of every one-time code this crate issues.
pub const CODE_LENGTH: usize = 6;

} // verus!
