//! Vocabulary learning core: the spaced-repetition scheduler, the rating
//! codes that feed it, the plain records around a learning item, and the
//! entries made from the bundled word list.
pub mod algorithm;
pub mod source;
pub mod error;
pub mod record;
pub mod models;
pub mod stats;
pub mod seed;
pub mod query;
