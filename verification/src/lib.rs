//! Passes of a compiler from annotated C to Pulse.

pub mod check;
pub mod diag;
pub mod doc;
pub mod elab;
pub mod emit;
pub mod emit_base;
pub mod emit_exprs;
pub mod emit_fns;
pub mod emit_records;
pub mod emit_slprop;
pub mod emit_stmts;
pub mod emit_types;
pub mod env;
pub mod ir;
pub mod laws_accept;
pub mod laws_check;
pub mod laws_defined;
pub mod laws_emit;
pub mod laws_goto;
pub mod laws_merge;
pub mod laws_names;
pub mod laws_operators;
pub mod laws_order;
pub mod laws_parts;
pub mod laws_passes;
pub mod laws_permute;
pub mod laws_pure;
pub mod laws_records;
pub mod laws_rename;
pub mod laws_report;
pub mod laws_scope;
pub mod laws_step;
pub mod laws_syntax;
pub mod laws_text;
pub mod laws_twice;
pub mod laws_types;
pub mod laws_typing;
pub mod laws_written;
pub mod list;
pub mod merge;
pub mod names;
pub mod rename;
pub mod render;
pub mod report;
pub mod restructure_goto;
pub mod syntax_eq;
pub mod text;
pub mod type_deps;
