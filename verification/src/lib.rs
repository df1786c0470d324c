//! A source-to-source generator that turns an annotated module description of
//! an object (properties, signals, invokable methods, constructors) into two
//! synchronized artifacts: a foreign-function bridge declaration set and
//! native object-model glue code, which must agree on names and types.

pub mod cfg_eval;
pub mod clock;
pub mod constructor;
pub mod cpp_property;
pub mod cpp_signal;
pub mod cpp_types;
pub mod fragment;
pub mod naming;
pub mod obj_traits;
pub mod parser;
pub mod qdate;
pub mod qguiapplication;
pub mod qmap;
pub mod qobject;
pub mod qstring;
pub mod qtime;
pub mod qtmod;
pub mod rust_property;
pub mod rust_signal;
pub mod text;
pub mod ty;
