//! A binding generator for foreign callers: annotated declarations are rewritten, type by
//! type, into functions that a C caller or a dynamic-language runtime can call.
//!
//! - `types`: the model of native type expressions, and the structural matchers over it.
//! - `mapping`, `expand`: input and output type mappings, and the expansion of arguments and
//!   return values into wire parameters and conversion statements.
//! - `lang`: the backend interface; `c`, `c_expose`, `python`, `python_expose`: the two
//!   backends.
//! - `decl`, `driver`: declarations, what is emitted for them, and the walk over a module tree.
//! - `runtime`, `common`: the ownership model of values handed across the boundary.
//! - `laws`: properties that relate the parts above.
//! - `hello`: a small sample library to expose.

pub mod c;
pub mod c_expose;
pub mod common;
pub mod decl;
pub mod dispatch;
pub mod driver;
pub mod expand;
pub mod hello;
pub mod lang;
pub mod laws;
pub mod mapping;
pub mod naming;
pub mod python;
pub mod python_expose;
pub mod runtime;
pub mod types;
