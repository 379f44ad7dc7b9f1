//! The in-memory model of a TREE document: nodes, members, relations, and the
//! vocabulary of relation operators and literal data kinds.

pub mod member;
pub mod node;
pub mod relation;
pub mod relation_operator;
pub mod shacl_path;
pub mod value;
