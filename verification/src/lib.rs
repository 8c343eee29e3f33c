pub mod alu;
pub mod cartridge;
pub mod cpu;
pub mod cpu_laws;
pub mod cpu_model;
pub mod instructions;
pub mod ppu;
pub mod ppu_laws;
pub mod ppu_model;
pub mod ram;
pub mod register;
pub mod transition;
pub mod vram;
