pub mod chip8;
pub mod cpu;
pub mod executor;
pub mod instruction;
pub mod ram;
