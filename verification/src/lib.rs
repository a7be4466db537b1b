//! A verified lifecycle manager for raffle records.
//!
//! The library keeps two kinds of durable records — a [`raffle::Raffle`] and a
//! [`ticket::Ticket`] — inside a key-addressed [`store::RecordStore`], and it is
//! the sole enforcer of the rules governing their creation, validity window and
//! destruction: a raffle is created only with validated metadata, a ticket is
//! admitted only while its raffle is open and only from callers satisfying the
//! raffle's authorization policy, and each record is torn down only by its
//! rightful owner.
//!
//! Identity verification, the wall clock and the durable storage substrate are
//! external collaborators: callers hand the operations already-verified signer
//! identities ([`keys::Pubkey`]) and a clock reading taken once per call.

pub mod errors;
pub mod keys;
pub mod laws;
pub mod raffle;
pub mod store;
pub mod table;
pub mod ticket;
