//! Execution core of a dynamic binary-translation engine: an address-keyed
//! translation cache (the block table), a closed taxonomy of exception codes
//! with lossless conversions from lower-level error domains, and the contract
//! for a pluggable guest environment.

pub mod env;
pub mod exception;
pub mod regs;
pub mod storage;
pub mod table;

pub use env::Cpu;
pub use env::DebugInfo;
pub use env::EnvSnapshot;
pub use env::Environment;
pub use env::Exception;
pub use env::SourceLocation;
pub use env::VmExit;
pub use exception::DecodeError;
pub use exception::ExceptionCode;
pub use exception::InternalError;
pub use exception::MemError;
pub use regs::RegValue;
pub use regs::read_value_sxt;
pub use regs::read_value_zxt;
pub use table::Block;
pub use table::BlockGroup;
pub use table::BlockInfoRef;
pub use table::BlockKey;
pub use table::BlockTable;
pub use table::Instruction;
pub use table::Op;
pub use table::PcodeBlock;
