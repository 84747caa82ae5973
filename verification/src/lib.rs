//! A small session-state library: one record holding a counter, three text
//! fields and a bounded decimal, with verified accessors.
//!
//! The decimal is kept in fixed-point form (ten-thousandths of a unit) so that
//! its clamping rule can be stated and proved over plain integers; converting
//! between that form and a host float is left to the embedding.

pub mod laws;
pub mod state;
