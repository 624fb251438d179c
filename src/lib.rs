//! Reflection over a foreign process's name and object tables, and scripted
//! remote invocations triggered from an intercepted dispatch function.
pub mod memory;
pub mod reflect;
pub mod catalog;
pub mod invoke;
pub mod config;
pub mod script;
pub mod hooks;
