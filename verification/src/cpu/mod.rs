//! The processor: registers and flags, the opcode table, and the engine
//! that fetches, decodes and executes.

pub mod cpu;
pub mod isa;
pub mod laws;
pub mod opcode;
pub mod regs;

pub use self::cpu::Cpu;
pub use self::cpu::CpuView;
pub use self::cpu::DecodeFailure;
pub use self::opcode::Opcode;
pub use self::regs::Flag;
pub use self::regs::Regs;
