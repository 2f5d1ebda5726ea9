//! Insertion-ordered maps and sets.
//!
//! An ordered map is modelled by the sequence of its entries. No key occurs
//! twice in it.

pub mod addrs;
pub mod entries;
pub mod slots;
