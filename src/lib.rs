//! Initial parameter generation for a phase-2 trusted-setup ceremony: how many
//! powers a circuit needs, whether a phase-1 transcript holds them, how the
//! parameter range is cut into chunks, and which files a run emits.
pub mod chunks;
pub mod error;
pub mod modes;
pub mod outputs;
pub mod sizing;
pub mod transcript;
