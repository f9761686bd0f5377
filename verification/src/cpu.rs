//! The processor: its registers, the decoding of opcodes and operands, the
//! meaning of each instruction, and the laws that follow.
pub mod decode;
pub mod instructions;
pub mod laws;
pub mod operand;
pub mod registers;
pub mod step;
pub mod word;

pub use self::decode::{AddressingMode, Mnemomic, Operation};
pub use self::operand::{CpuError, Operand, ResolvedOperand};
pub use self::registers::{Status, W65C02S};
