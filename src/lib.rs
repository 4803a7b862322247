pub mod symbol;
mod text;
pub mod grammar;
pub mod laws;
pub mod parser;
pub mod range;

pub use parser::parse_scip_symbol;
pub use range::{decode_scip_range, BadRange, GleanRange};
pub use symbol::{Descriptor, DescriptorKind, Package, ScipSymbol};
