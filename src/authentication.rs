//! Password digests, bearer tokens and the request guards built on them.
pub mod gaurd;
pub mod hasher;
pub mod token_generator;

pub use gaurd::{AdminGaurd, GaurdError, Outcome, UserGaurd};


pub use token_generator::random_token;
