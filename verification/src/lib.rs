//! Safe JVM TI bindings: the value types, error codes, flag sets and decision
//! logic of a JVM tool interface agent, with their contracts.

pub mod agent;
pub mod caps;
pub mod env;
pub mod errors;
pub mod events;
pub mod flags;
pub mod heap;
pub mod memory;
pub mod nonzero;
pub mod property;
pub mod text;
pub mod thread;
pub mod version;
