//! Instruction-execution core of a 32-bit RISC CPU emulator, modelled on the
//! ARM7TDMI, together with the memory bus it runs against.
//!
//! * [`mem`] owns the address space: fixed-base blocks and the rule that
//!   resolves an access to the block that owns it.
//! * [`cpu`] holds the banked register file, the instruction decoder and the
//!   executor that applies one decoded operation per step.
//! * [`gamepak`] checks a cartridge image and reads its header.
//! * [`gba`] ties a CPU and a memory bus into one console.
//!
//! Every function here is verified against its contract, and none of them
//! panics on the inputs its `requires` admits. The one exception is the call
//! into the standard library that turns header bytes into text: its contract
//! is taken on trust and says so.
pub mod fault;
pub mod mem;
pub mod cpu;
pub mod gamepak;
pub mod gba;
