//! Practice-session bookkeeping for coding challenges: language-token
//! normalisation, the on-disk record layout, and the attribute files.
mod text;
pub mod lang;
pub mod record;
pub mod session;
