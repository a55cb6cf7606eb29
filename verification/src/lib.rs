//! Control layer for the BM13xx family of mining ASICs.
//!
//! The library works out how to program the clock generators of a chip,
//! tells from a nonce which core of which chip found it, and lays down the
//! commands, with the pauses between them, that bring a chain of chips into a
//! hashing state.
//!
//! - [`pll`]: the frequency of a PLL for given dividers, and the search for
//!   the dividers of a wanted frequency.
//! - [`nonce`]: the geometry of a chip generation and the fields of a nonce.
//! - [`register`]: register addresses and the fields inside register words.
//! - [`command`]: the frame that carries a register write over the bus.
//! - [`topology`]: the addresses of the chips along a chain.
//! - [`shadow`]: the fixed-capacity containers of a chip model.
//! - [`bm1366`], [`bm1370`], [`bm1397`]: the models of the three generations.
//! - [`sequence`]: the command sequences of the BM1370.
//!
//! All frequencies are in hertz.

pub mod bm1366;
pub mod bm1370;
pub mod bm1397;
pub mod command;
pub mod nonce;
pub mod pll;
pub mod register;
pub mod sequence;
pub mod shadow;
pub mod topology;
