//! The processor and pixel-timing core of an 8-bit handheld game console.
//!
//! * `regset`: the register file, four 16-bit slots with 8-bit halves.
//! * `mem`: the flat 64 KiB memory.
//! * `bits`: single bits of a byte and the flags byte.
//! * `isa`: instructions and operands, and how an opcode's bits name them.
//! * `dispatch`: the two instruction tables and their cycle costs.
//! * `semantics`: what each instruction does, as functions on the state of
//!   the machine.
//! * `cpu`: the processor, which executes one instruction a step.
//! * `gpu`: the timing automaton, which takes the cycles of each step.
//! * `laws`: laws of the instruction set.

pub mod bits;
pub mod cpu;
pub mod dispatch;
pub mod gpu;
pub mod isa;
pub mod laws;
pub mod mem;
pub mod regset;
pub mod semantics;
