use vstd::prelude::*;

pub mod decode;
pub mod mapper;
pub mod ppu;
pub mod mem;
pub mod cpu;
pub mod header;
pub mod system;
pub mod debug;

pub use header::NESHeaderMetadata;

verus! {

/// How the cartridge wires the two physical nametables into the four logical ones.
#[derive(Clone, Copy, Debug, PartialEq, Eq, Structural)]
pub enum Mirroring {
    Horizontal,
    Vertical,
    FourScreen,
}

/// Fatal conditions the core reports to its host.
#[derive(Clone, Copy, Debug, PartialEq, Eq, Structural)]
pub enum NesError {
    /// The opcode at `pc` is not an official 6502 instruction.
    DecodeError { pc: u16, opcode: u8 },
    /// A push would take the stack pointer below zero.
    StackUnderflow,
    /// The cartridge needs a mapper (or a mirroring) this core does not have.
    UnsupportedMapper,
}

} // verus!
