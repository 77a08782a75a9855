//! A crowdfunding platform for education campaigns: campaign creation,
//! contributions with caps and anomaly guards, refunds, milestone payouts,
//! revenue sharing, ownership transfers, comments, bookmarks, tags, votes and
//! paginated queries.
//!
//! The platform's whole ledger state is a [`state::Platform`]. Every
//! operation is a method that checks its preconditions, updates the state and
//! returns the effects that the host must carry out (authorization checks,
//! token transfers and events), or returns an [`errors::Error`] and leaves the
//! state exactly as it was.

pub mod errors;
pub mod constants;
pub mod types;
pub mod lifecycle;
pub mod table;
pub mod index;
pub mod state;
pub mod contributions;
pub mod campaigns;
pub mod milestones;
pub mod revenue;
pub mod comments;
pub mod bookmarks;
pub mod voting;
pub mod tags;
pub mod queries;
pub mod stats;
pub mod laws;
pub mod runs;
pub mod answers;
