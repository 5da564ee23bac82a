//! Watches a clipboard for new images and shrinks them to a size resolved
//! from flags or from answers given interactively.
pub mod validation;
pub mod unit;
pub mod dimension;
pub mod args;
pub mod sample;
pub mod wizard;
pub mod fingerprint;
pub mod watch;
