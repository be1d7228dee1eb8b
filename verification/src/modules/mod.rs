//! Host modules: the registry of what a new Lua state is given.
pub mod module_builder;
