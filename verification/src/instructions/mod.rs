//! The instructions, by major opcode.
pub mod amo;
pub mod branch;
pub mod instruction;
pub mod load;
pub mod op;
pub mod op_imm;
pub mod op_immw;
pub mod opw;
pub mod store;
pub mod system;
pub mod types;

pub use self::instruction::decode_and_execute;
