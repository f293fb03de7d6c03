//! Enum resolution for a self-describing wire format.
//!
//! The format has no enum of its own. A variant without data is written as a
//! bare scalar that names it; a variant with data is written as a map of one
//! entry, whose key names the variant and whose value is the payload. This
//! crate reads a variant's name and payload from decoded wire values, and
//! bounds how deeply such reads may nest.
//!
//! - [`wire`]: the wire values that the byte-level reader hands over.
//! - [`seed`]: what a caller asks a value to be decoded into, and what comes
//!   back.
//! - [`de`]: the decoder, which reads wire values as seeds ask and counts the
//!   enums it is inside of.
//! - [`reentrant`]: the guard that stands for one level of nesting.
//! - [`variant`]: the two accesses to a variant, keyed and bare.
//! - [`session`]: the model of a decoder's state, and of each decode as a
//!   function on it.
//! - [`laws`]: what holds of every decode.
//! - [`error`]: the ways in which a decode fails.
//!
//! Every function is verified with Verus: the contracts say what each
//! operation returns and what it leaves in the decoder.

pub mod de;
pub mod error;
pub mod laws;
pub mod reentrant;
pub mod seed;
pub mod session;
pub mod variant;
pub mod wire;

pub use de::{Deserializer, DEFAULT_RECURSION_LIMIT};
pub use error::Error;
pub use reentrant::ReentrantGuard;
pub use seed::{Decoded, Seed, VariantDecl, VariantShape};
pub use variant::{UnitVariantAccess, VariantAccess};
pub use wire::WireValue;
