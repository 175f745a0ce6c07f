//! Conversion of postal addresses between an internal canonical model, the
//! French NF Z10-011 seven-line layout, and the ISO 20022 structured
//! postal-address element.
//!
//! Every conversion between two external formats pivots through the internal
//! [`Address`](address::Address) model; each leg is independently fallible.

use vstd::prelude::*;

pub mod address;
pub mod converter;
pub mod country;
pub mod error;
pub mod format;
pub mod french;
pub mod iso20022;
pub mod postal;
