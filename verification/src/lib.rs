//! A minimal desktop-admin application core: a command bridge that maps
//! frontend-issued command names to native handlers, the one concrete
//! handler (`get_system_info`), and the bootstrap logic that wires the
//! bridge into a host runtime and gates the debug affordance.

pub mod bootstrap;
pub mod bridge;
pub mod commands;
