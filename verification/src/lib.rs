pub mod cpu;
pub mod opcodes;
pub mod render;
pub mod semantics;
pub mod status;
