//! The intermediate representation of an annotated state-machine declaration,
//! and the analysis of which generic parameters a type expression refers to.

pub mod ident_set;
pub mod syntax;
pub mod collect;
pub mod phases;
pub mod ast;
pub mod names;
