//! Semantic-analysis helpers for a Pine-compatible scripting language:
//! type acceptance rules, call-argument binding, builtin name tables and a
//! compile cache, each with a machine-checked contract.

pub mod strings;
pub mod types;
pub mod accepts;
pub mod syntax;
pub mod alerts;
pub mod signatures;
pub mod calls;
pub mod call_checks;
pub mod time_checks;
pub mod call_validation;
pub mod expression_checks;
pub mod call_helpers;
pub mod builtin_names;
pub mod udf_args;
pub mod functions;
pub mod requests;
pub mod request_expressions;
pub mod request_security;
pub mod strategy;
pub mod strategy_checks;
pub mod unsupported;
pub mod tuples;
pub mod declarations;
pub mod declaration_checks;
pub mod const_eval;
pub mod maps;
pub mod map_calls;
pub mod chart_points;
pub mod for_in;
pub mod user_types;
pub mod user_type_fields;
pub mod user_type_arrays;
pub mod user_type_constructors;
pub mod user_type_marks;
pub mod imported_user_types;
pub mod methods;
pub mod method_dispatch;
pub mod arrays;
pub mod array_checks;
pub mod history_offsets;
pub mod hir;
pub mod history;
pub mod history_iterables;
pub mod history_laws;
pub mod user_type_array_sort;
pub mod arg_facts;
pub mod drawing;
pub mod drawing_checks;
pub mod legacy_drawing;
pub mod cache;
pub mod compatibility;
pub mod statement_checks;
pub mod statements;
pub mod type_queries;
pub mod expr_analysis;
pub mod tuple_decls;
pub mod field_mutations;
pub mod operator_typing;
pub mod call_resolution;
pub mod refusal_laws;
