//! A minimal execution engine for a tiny tape-based esoteric language.
//!
//! A program is a sequence of bytes; eight byte values are commands that
//! move a data cursor over a fixed-length byte tape, mutate the cell under
//! the cursor, exchange single bytes with an input source and an output
//! sink, and loop between matching brackets. All other bytes are inert.

pub mod interp;
pub mod laws;
pub mod machine;
pub mod state;
