//! Lets plugins written for an embedded scripting runtime take part in the
//! compiler's plugin lifecycle. Hooks are optional and fixed at construction,
//! compiler-generated modules never reach a path hook, and modules that a plugin
//! adds during an incremental update are merged without repeats.

pub mod adapter;
pub mod hooks;
pub mod update_modules;
pub mod virtual_module;
