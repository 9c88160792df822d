//! A declarative extraction-and-validation pass over a module-shaped syntax
//! tree: it selects the instruction handler functions from a module body,
//! validates their parameter lists, splits off the leading context parameter,
//! resolves the identifier of the context's capability-set structure, and
//! assembles one instruction record per handler, in declaration order,
//! stopping at the first malformed declaration.

pub mod ast;
pub mod error;
pub mod model;
pub mod scan;
pub mod laws;
