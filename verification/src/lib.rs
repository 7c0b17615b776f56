//! A spelling-practice engine: a typing-validation state machine that grades
//! one keystroke at a time against a target word, and the session protocol
//! that hands words in and reports mistake counts back to a peer.

pub mod engine;
pub mod session;
