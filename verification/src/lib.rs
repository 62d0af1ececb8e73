//! A directory of colleges: the verified core of a read-mostly service over
//! a relational store.
//!
//! The crate decides and the caller performs. It validates a listing
//! request, composes the filters into one predicate and renders the
//! statements that the store is to run ([`filters`], [`pagination`],
//! [`queries`], [`sql`]); it holds the store's answer to what was asked and
//! assembles the response. For the bulk import it gives the order of the
//! writes of one record as a state machine and tallies the outcomes of a
//! batch ([`import`], [`upsert`]). [`directory`] is an in-memory store with
//! the same write semantics, against which [`import_proofs`] states what an
//! import does.

pub mod directory;
pub mod errors;
pub mod filters;
pub mod import;
pub mod import_proofs;
pub mod models;
pub mod pagination;
pub mod queries;
pub mod sql;
pub mod stats;
pub mod text;
pub mod upload;
pub mod upsert;
