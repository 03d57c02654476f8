//! Native-callable wrappers for a dynamic-language object model.
//!
//! Host-implemented functions are exposed as first-class values of the
//! interpreted object graph: a [`builtinfunc::PyFuncDef`] carries the native
//! entry point together with its optional name and docstring, and is
//! consumed into either a [`builtinfunc::PyBuiltinFunction`] (a plain,
//! never-binding callable) or a [`builtinfunc::PyBuiltinMethod`] (a
//! method descriptor that manufactures bound methods on attribute
//! access through an instance of its owning class).

pub mod builtinfunc;
pub mod objmodel;
