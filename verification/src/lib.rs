//! Real-mode 8086/80186 PC emulator core: flat memory and segmented addressing,
//! instruction decoder, executor with bit-exact flag derivation, program
//! loader, static tracer and the frame composer of the video adapter.
pub mod address;
pub mod alu;
pub mod bios;
pub mod bits;
pub mod class;
pub mod consume;
pub mod cpu;
pub mod crtc;
pub mod dac;
pub mod decoder;
pub mod disasm;
pub mod encoder;
pub mod executor;
pub mod flags;
pub mod fuzz;
pub mod gpu;
pub mod hex;
pub mod independence;
pub mod instruction;
pub mod laws;
pub mod loader;
pub mod machine;
pub mod memory;
pub mod mmu;
pub mod modes;
pub mod modeset;
pub mod muldiv;
pub mod op;
pub mod opcode;
pub mod palette;
pub mod pixel;
pub mod reach;
pub mod register;
pub mod render;
pub mod roundtrip;
pub mod semantics;
pub mod state;
pub mod teletype;
pub mod tracer;
pub mod videorom;
