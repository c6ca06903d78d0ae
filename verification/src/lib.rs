//! Apartment-availability extraction: sweep planning, strict field
//! extraction, and the bounded two-stage fetch pipeline's decisions.

pub mod text;
pub mod shorelandsearch;
pub mod rules;
pub mod page;
pub mod sweep;
pub mod table;
pub mod config;
pub mod pipeline;
pub mod retry;
