//! A closed catalog of element identities: the 103 element symbols, decoded
//! from their canonical symbol, from the decimal spelling of their atomic
//! number or from the atomic number itself, ordered by atomic number and
//! sorted into families.
use vstd::prelude::*;

pub mod decimal;
pub mod de;
pub mod element_symbol;
pub mod error;

pub use de::{decode, decode_number, decode_text, DecodeInput, ElementSymbolDeserializer};
pub use element_symbol::{ElementFamily, ElementSymbol};
pub use error::SymbolError;

verus! {

} // verus!
