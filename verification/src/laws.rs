//! What holds of the library as a whole.
//!
//! Each public proof function states one law over the spec functions that the
//! contracts of the executable functions use.

pub mod adding;
pub mod branches;
pub mod cloning;
pub mod creation;
pub mod finding;
pub mod listing;
pub mod naming;
pub mod reading;
pub mod removing;
pub mod replies;
pub mod sessions;
pub mod texts;
pub mod tracking;
