//! The closed exception-code taxonomy: every fault, trap or exit condition the
//! engine can report, with its numerically stable wire value, together with
//! the lossless conversions from the lower-level error domains (memory access,
//! decode) into it.

use vstd::prelude::*;

verus! {

/// The closed set of exception codes, grouped by family: control-exit,
/// fault-trap, memory read, memory write, execution-integrity,
/// decode/translation-integrity, host/environment, internal, plus one
/// catch-all for codes produced by a different build.
///
/// The numeric value of each variant (see [`ExceptionCode::as_u32`]) is part
/// of the external contract and must not be renumbered.
#[derive(Debug, PartialEq, Eq, Clone, Copy, Structural)]
pub enum ExceptionCode {
    NoException,

    InstructionLimit,
    Halt,
    Sleep,

    Syscall,
    CpuStateChanged,
    DivideByZero,

    ReadUnmapped,
    ReadPerm,
    ReadUnaligned,
    ReadWatch,
    ReadUninitialized,

    WriteUnmapped,
    WritePerm,
    WriteWatch,
    WriteUnaligned,

    ExecViolation,
    SelfModifyingCode,
    ExecUnaligned,
    OutOfMemory,
    AddressOverflow,

    InvalidInstruction,
    UnknownInterrupt,
    UnknownCpuID,
    InvalidOpSize,
    InvalidFloatSize,
    CodeNotTranslated,
    ShadowStackOverflow,
    ShadowStackInvalid,
    InvalidTarget,
    UnimplementedOp,

    ExternalAddr,
    Environment,

    JitError,
    InternalError,

    UnknownError,
}

/// The closed set of error values the external memory subsystem can report.
/// The value itself does not record whether the failing access was a load or
/// a store; that is supplied by the call site (see
/// [`ExceptionCode::from_load_error`] and [`ExceptionCode::from_store_error`]).
#[derive(Debug, PartialEq, Eq, Clone, Copy, Structural)]
pub enum MemError {
    Unmapped,
    Uninitialized,
    ReadViolation,
    WriteViolation,
    ExecViolation,
    ReadWatch,
    WriteWatch,
    Unaligned,
    OutOfMemory,
    SelfModifyingCode,
    AddressOverflow,
    Unallocated,
    Unknown,
}

/// The closed set of failures the external decoder/lifter can report while
/// translating native code.
#[derive(Debug, PartialEq, Eq, Clone, Copy, Structural)]
pub enum DecodeError {
    InvalidInstruction,
    NonExecutableMemory,
    BadAlignment,
    DisassemblyChanged,
    OptimizationError,
}

/// Internal-consistency failures of the translation cache itself.
#[derive(Debug, PartialEq, Eq, Clone, Copy, Structural)]
pub enum InternalError {
    CorruptedBlockMap,
    UnsupportedIsaMode,
}

impl ExceptionCode {
    /// The stable numeric value of each code, the engine's wire/debug
    /// representation.
    pub open spec fn as_u32_spec(self) -> u32 {
        match self {
            ExceptionCode::NoException => 0x0000,
            ExceptionCode::InstructionLimit => 0x0001,
            ExceptionCode::Halt => 0x0002,
            ExceptionCode::Sleep => 0x0003,

            ExceptionCode::Syscall => 0x0101,
            ExceptionCode::CpuStateChanged => 0x0102,
            ExceptionCode::DivideByZero => 0x0103,

            ExceptionCode::ReadUnmapped => 0x0201,
            ExceptionCode::ReadPerm => 0x0202,
            ExceptionCode::ReadUnaligned => 0x0203,
            ExceptionCode::ReadWatch => 0x0204,
            ExceptionCode::ReadUninitialized => 0x0205,

            ExceptionCode::WriteUnmapped => 0x0301,
            ExceptionCode::WritePerm => 0x0302,
            ExceptionCode::WriteWatch => 0x0303,
            ExceptionCode::WriteUnaligned => 0x0304,

            ExceptionCode::ExecViolation => 0x0401,
            ExceptionCode::SelfModifyingCode => 0x0402,
            ExceptionCode::ExecUnaligned => 0x0404,
            ExceptionCode::OutOfMemory => 0x0501,
            ExceptionCode::AddressOverflow => 0x0502,

            ExceptionCode::InvalidInstruction => 0x1001,
            ExceptionCode::UnknownInterrupt => 0x1002,
            ExceptionCode::UnknownCpuID => 0x1003,
            ExceptionCode::InvalidOpSize => 0x1004,
            ExceptionCode::InvalidFloatSize => 0x1005,
            ExceptionCode::CodeNotTranslated => 0x1006,
            ExceptionCode::ShadowStackOverflow => 0x1007,
            ExceptionCode::ShadowStackInvalid => 0x1008,
            ExceptionCode::InvalidTarget => 0x1009,
            ExceptionCode::UnimplementedOp => 0x100a,

            ExceptionCode::ExternalAddr => 0x2001,
            ExceptionCode::Environment => 0x2002,

            ExceptionCode::JitError => 0x3001,
            ExceptionCode::InternalError => 0x3002,

            ExceptionCode::UnknownError => 0x3003,
        }
    }

    /// The code a given numeric value decodes to. Every recognized value maps
    /// to its own variant; anything else falls to the catch-all.
    pub open spec fn from_u32_spec(code: u32) -> ExceptionCode {
        match code {
            0x0000u32 => ExceptionCode::NoException,
            0x0001u32 => ExceptionCode::InstructionLimit,
            0x0002u32 => ExceptionCode::Halt,
            0x0003u32 => ExceptionCode::Sleep,

            0x0101u32 => ExceptionCode::Syscall,
            0x0102u32 => ExceptionCode::CpuStateChanged,
            0x0103u32 => ExceptionCode::DivideByZero,

            0x0201u32 => ExceptionCode::ReadUnmapped,
            0x0202u32 => ExceptionCode::ReadPerm,
            0x0203u32 => ExceptionCode::ReadUnaligned,
            0x0204u32 => ExceptionCode::ReadWatch,
            0x0205u32 => ExceptionCode::ReadUninitialized,

            0x0301u32 => ExceptionCode::WriteUnmapped,
            0x0302u32 => ExceptionCode::WritePerm,
            0x0303u32 => ExceptionCode::WriteWatch,
            0x0304u32 => ExceptionCode::WriteUnaligned,

            0x0401u32 => ExceptionCode::ExecViolation,
            0x0402u32 => ExceptionCode::SelfModifyingCode,
            0x0404u32 => ExceptionCode::ExecUnaligned,
            0x0501u32 => ExceptionCode::OutOfMemory,
            0x0502u32 => ExceptionCode::AddressOverflow,

            0x1001u32 => ExceptionCode::InvalidInstruction,
            0x1002u32 => ExceptionCode::UnknownInterrupt,
            0x1003u32 => ExceptionCode::UnknownCpuID,
            0x1004u32 => ExceptionCode::InvalidOpSize,
            0x1005u32 => ExceptionCode::InvalidFloatSize,
            0x1006u32 => ExceptionCode::CodeNotTranslated,
            0x1007u32 => ExceptionCode::ShadowStackOverflow,
            0x1008u32 => ExceptionCode::ShadowStackInvalid,
            0x1009u32 => ExceptionCode::InvalidTarget,
            0x100au32 => ExceptionCode::UnimplementedOp,

            0x2001u32 => ExceptionCode::ExternalAddr,
            0x2002u32 => ExceptionCode::Environment,

            0x3001u32 => ExceptionCode::JitError,
            0x3002u32 => ExceptionCode::InternalError,

            _ => ExceptionCode::UnknownError,
        }
    }

    /// Whether `code` is one of the documented numeric values, i.e. decodes to
    /// a variant other than the catch-all.
    pub open spec fn is_documented(code: u32) -> bool {
        Self::from_u32_spec(code) != ExceptionCode::UnknownError
    }

    /// The stable numeric value of this code.
    pub fn as_u32(&self) -> (r: u32)
        ensures
            r == self.as_u32_spec(),
    {
        match self {
            ExceptionCode::NoException => 0x0000,
            ExceptionCode::InstructionLimit => 0x0001,
            ExceptionCode::Halt => 0x0002,
            ExceptionCode::Sleep => 0x0003,

            ExceptionCode::Syscall => 0x0101,
            ExceptionCode::CpuStateChanged => 0x0102,
            ExceptionCode::DivideByZero => 0x0103,

            ExceptionCode::ReadUnmapped => 0x0201,
            ExceptionCode::ReadPerm => 0x0202,
            ExceptionCode::ReadUnaligned => 0x0203,
            ExceptionCode::ReadWatch => 0x0204,
            ExceptionCode::ReadUninitialized => 0x0205,

            ExceptionCode::WriteUnmapped => 0x0301,
            ExceptionCode::WritePerm => 0x0302,
            ExceptionCode::WriteWatch => 0x0303,
            ExceptionCode::WriteUnaligned => 0x0304,

            ExceptionCode::ExecViolation => 0x0401,
            ExceptionCode::SelfModifyingCode => 0x0402,
            ExceptionCode::ExecUnaligned => 0x0404,
            ExceptionCode::OutOfMemory => 0x0501,
            ExceptionCode::AddressOverflow => 0x0502,

            ExceptionCode::InvalidInstruction => 0x1001,
            ExceptionCode::UnknownInterrupt => 0x1002,
            ExceptionCode::UnknownCpuID => 0x1003,
            ExceptionCode::InvalidOpSize => 0x1004,
            ExceptionCode::InvalidFloatSize => 0x1005,
            ExceptionCode::CodeNotTranslated => 0x1006,
            ExceptionCode::ShadowStackOverflow => 0x1007,
            ExceptionCode::ShadowStackInvalid => 0x1008,
            ExceptionCode::InvalidTarget => 0x1009,
            ExceptionCode::UnimplementedOp => 0x100a,

            ExceptionCode::ExternalAddr => 0x2001,
            ExceptionCode::Environment => 0x2002,

            ExceptionCode::JitError => 0x3001,
            ExceptionCode::InternalError => 0x3002,

            ExceptionCode::UnknownError => 0x3003,
        }
    }

    /// Decode a numeric exception code. Total: every recognized value maps to
    /// its variant, every unrecognized value to the catch-all, so a code
    /// produced by a different build can never crash the engine. A build that
    /// wants to fail loudly on unrecognized values instead uses
    /// [`ExceptionCode::try_from_u32`] and treats `None` as fatal.
    pub fn from_u32(code: u32) -> (r: Self)
        ensures
            r == Self::from_u32_spec(code),
    {
        match Self::try_from_u32(code) {
            Some(c) => c,
            None => ExceptionCode::UnknownError,
        }
    }

    /// Decode a numeric exception code, reporting an unrecognized value to the
    /// caller instead of silently mapping it to the catch-all.
    pub fn try_from_u32(code: u32) -> (r: Option<Self>)
        ensures
            r == if Self::is_documented(code) {
                Some(Self::from_u32_spec(code))
            } else {
                None::<ExceptionCode>
            },
    {
        match code {
            0x0000 => Some(ExceptionCode::NoException),
            0x0001 => Some(ExceptionCode::InstructionLimit),
            0x0002 => Some(ExceptionCode::Halt),
            0x0003 => Some(ExceptionCode::Sleep),

            0x0101 => Some(ExceptionCode::Syscall),
            0x0102 => Some(ExceptionCode::CpuStateChanged),
            0x0103 => Some(ExceptionCode::DivideByZero),

            0x0201 => Some(ExceptionCode::ReadUnmapped),
            0x0202 => Some(ExceptionCode::ReadPerm),
            0x0203 => Some(ExceptionCode::ReadUnaligned),
            0x0204 => Some(ExceptionCode::ReadWatch),
            0x0205 => Some(ExceptionCode::ReadUninitialized),

            0x0301 => Some(ExceptionCode::WriteUnmapped),
            0x0302 => Some(ExceptionCode::WritePerm),
            0x0303 => Some(ExceptionCode::WriteWatch),
            0x0304 => Some(ExceptionCode::WriteUnaligned),

            0x0401 => Some(ExceptionCode::ExecViolation),
            0x0402 => Some(ExceptionCode::SelfModifyingCode),
            0x0404 => Some(ExceptionCode::ExecUnaligned),
            0x0501 => Some(ExceptionCode::OutOfMemory),
            0x0502 => Some(ExceptionCode::AddressOverflow),

            0x1001 => Some(ExceptionCode::InvalidInstruction),
            0x1002 => Some(ExceptionCode::UnknownInterrupt),
            0x1003 => Some(ExceptionCode::UnknownCpuID),
            0x1004 => Some(ExceptionCode::InvalidOpSize),
            0x1005 => Some(ExceptionCode::InvalidFloatSize),
            0x1006 => Some(ExceptionCode::CodeNotTranslated),
            0x1007 => Some(ExceptionCode::ShadowStackOverflow),
            0x1008 => Some(ExceptionCode::ShadowStackInvalid),
            0x1009 => Some(ExceptionCode::InvalidTarget),
            0x100a => Some(ExceptionCode::UnimplementedOp),

            0x2001 => Some(ExceptionCode::ExternalAddr),
            0x2002 => Some(ExceptionCode::Environment),

            0x3001 => Some(ExceptionCode::JitError),
            0x3002 => Some(ExceptionCode::InternalError),

            _ => None,
        }
    }

    /// True exactly for the two codes under which the interpreter loop keeps
    /// running (or stops gracefully) rather than reporting a fault.
    pub fn is_running(&self) -> (r: bool)
        ensures
            r <==> (*self == ExceptionCode::NoException || *self == ExceptionCode::InstructionLimit),
    {
        matches!(self, ExceptionCode::NoException | ExceptionCode::InstructionLimit)
    }

    /// True exactly for the read/write fault family and the self-modifying
    /// code fault: the codes for which the memory subsystem can be consulted
    /// for a diagnostic.
    pub fn is_memory_error(&self) -> (r: bool)
        ensures
            r <==> (*self == ExceptionCode::ReadUnmapped
                || *self == ExceptionCode::ReadPerm
                || *self == ExceptionCode::ReadUnaligned
                || *self == ExceptionCode::ReadWatch
                || *self == ExceptionCode::ReadUninitialized
                || *self == ExceptionCode::WriteUnmapped
                || *self == ExceptionCode::WritePerm
                || *self == ExceptionCode::WriteWatch
                || *self == ExceptionCode::WriteUnaligned
                || *self == ExceptionCode::SelfModifyingCode),
    {
        matches!(
            self,
            ExceptionCode::ReadUnmapped
                | ExceptionCode::ReadPerm
                | ExceptionCode::ReadUnaligned
                | ExceptionCode::ReadWatch
                | ExceptionCode::ReadUninitialized
                | ExceptionCode::WriteUnmapped
                | ExceptionCode::WritePerm
                | ExceptionCode::WriteWatch
                | ExceptionCode::WriteUnaligned
                | ExceptionCode::SelfModifyingCode
        )
    }

    /// The direction-agnostic fallback conversion from a memory error, used
    /// where the call site cannot supply the access direction.
    pub open spec fn from_mem_error_spec(err: MemError) -> ExceptionCode {
        match err {
            MemError::Unmapped => ExceptionCode::ReadUnmapped,
            MemError::Uninitialized => ExceptionCode::ReadUninitialized,
            MemError::ReadViolation => ExceptionCode::ReadPerm,
            MemError::WriteViolation => ExceptionCode::WritePerm,
            MemError::ExecViolation => ExceptionCode::ExecViolation,
            MemError::ReadWatch => ExceptionCode::ReadWatch,
            MemError::WriteWatch => ExceptionCode::WriteWatch,
            MemError::Unaligned => ExceptionCode::ReadUnaligned,
            MemError::OutOfMemory => ExceptionCode::OutOfMemory,
            MemError::SelfModifyingCode => ExceptionCode::SelfModifyingCode,
            MemError::AddressOverflow => ExceptionCode::AddressOverflow,
            // These are expected to be handled inside the memory subsystem
            // and never to reach the taxonomy.
            MemError::Unallocated => ExceptionCode::UnknownError,
            MemError::Unknown => ExceptionCode::UnknownError,
        }
    }

    /// The code a memory error converts to when the failing access was a load.
    pub open spec fn from_load_error_spec(err: MemError) -> ExceptionCode {
        match err {
            MemError::Unmapped => ExceptionCode::ReadUnmapped,
            MemError::Uninitialized => ExceptionCode::ReadUninitialized,
            MemError::ReadViolation => ExceptionCode::ReadPerm,
            MemError::Unaligned => ExceptionCode::ReadUnaligned,
            MemError::ReadWatch => ExceptionCode::ReadWatch,
            _ => Self::from_mem_error_spec(err),
        }
    }

    /// The code a memory error converts to when the failing access was a store.
    pub open spec fn from_store_error_spec(err: MemError) -> ExceptionCode {
        match err {
            MemError::Unmapped => ExceptionCode::WriteUnmapped,
            MemError::WriteViolation => ExceptionCode::WritePerm,
            MemError::Unaligned => ExceptionCode::WriteUnaligned,
            MemError::WriteWatch => ExceptionCode::WriteWatch,
            _ => Self::from_mem_error_spec(err),
        }
    }

    /// Convert a memory error raised by a load. The error value itself does
    /// not carry the access direction, so the read-family code is picked here,
    /// at the call site that knows the operation was a load.
    pub fn from_load_error(err: MemError) -> (r: Self)
        ensures
            r == Self::from_load_error_spec(err),
    {
        match err {
            MemError::Unmapped => ExceptionCode::ReadUnmapped,
            MemError::Uninitialized => ExceptionCode::ReadUninitialized,
            MemError::ReadViolation => ExceptionCode::ReadPerm,
            MemError::Unaligned => ExceptionCode::ReadUnaligned,
            MemError::ReadWatch => ExceptionCode::ReadWatch,
            _ => Self::from_mem_error(err),
        }
    }

    /// Convert a memory error raised by a store, picking the write-family
    /// code for the direction-dependent cases.
    pub fn from_store_error(err: MemError) -> (r: Self)
        ensures
            r == Self::from_store_error_spec(err),
    {
        match err {
            MemError::Unmapped => ExceptionCode::WriteUnmapped,
            MemError::WriteViolation => ExceptionCode::WritePerm,
            MemError::Unaligned => ExceptionCode::WriteUnaligned,
            MemError::WriteWatch => ExceptionCode::WriteWatch,
            _ => Self::from_mem_error(err),
        }
    }

    /// The direction-agnostic conversion from a memory error; read-like codes
    /// are used for the cases that depend on direction.
    pub fn from_mem_error(err: MemError) -> (r: Self)
        ensures
            r == Self::from_mem_error_spec(err),
    {
        match err {
            MemError::Unmapped => ExceptionCode::ReadUnmapped,
            MemError::Uninitialized => ExceptionCode::ReadUninitialized,
            MemError::ReadViolation => ExceptionCode::ReadPerm,
            MemError::WriteViolation => ExceptionCode::WritePerm,
            MemError::ExecViolation => ExceptionCode::ExecViolation,
            MemError::ReadWatch => ExceptionCode::ReadWatch,
            MemError::WriteWatch => ExceptionCode::WriteWatch,
            MemError::Unaligned => ExceptionCode::ReadUnaligned,
            MemError::OutOfMemory => ExceptionCode::OutOfMemory,
            MemError::SelfModifyingCode => ExceptionCode::SelfModifyingCode,
            MemError::AddressOverflow => ExceptionCode::AddressOverflow,
            MemError::Unallocated => ExceptionCode::UnknownError,
            MemError::Unknown => ExceptionCode::UnknownError,
        }
    }

    /// The code a decode/translation failure converts to. An optimizer
    /// failure is not actionable by the guest, only by the engine, so it maps
    /// to the catch-all rather than to a guest-visible fault.
    pub open spec fn from_decode_error_spec(err: DecodeError) -> ExceptionCode {
        match err {
            DecodeError::InvalidInstruction => ExceptionCode::InvalidInstruction,
            DecodeError::NonExecutableMemory => ExceptionCode::ExecViolation,
            DecodeError::BadAlignment => ExceptionCode::ExecUnaligned,
            DecodeError::DisassemblyChanged => ExceptionCode::SelfModifyingCode,
            DecodeError::OptimizationError => ExceptionCode::UnknownError,
        }
    }

    /// Convert a decode/translation failure into its exception code.
    pub fn from_decode_error(err: DecodeError) -> (r: Self)
        ensures
            r == Self::from_decode_error_spec(err),
    {
        match err {
            DecodeError::InvalidInstruction => ExceptionCode::InvalidInstruction,
            DecodeError::NonExecutableMemory => ExceptionCode::ExecViolation,
            DecodeError::BadAlignment => ExceptionCode::ExecUnaligned,
            DecodeError::DisassemblyChanged => ExceptionCode::SelfModifyingCode,
            DecodeError::OptimizationError => ExceptionCode::UnknownError,
        }
    }
}

impl From<MemError> for ExceptionCode {
    /// The direction-agnostic conversion, for call sites that cannot supply
    /// the access direction (e.g. execute-fetch faults).
    fn from(err: MemError) -> (r: Self) {
        ExceptionCode::from_mem_error(err)
    }
}

impl vstd::std_specs::convert::FromSpecImpl<MemError> for ExceptionCode {
    open spec fn obeys_from_spec() -> bool {
        true
    }

    open spec fn from_spec(err: MemError) -> Self {
        ExceptionCode::from_mem_error_spec(err)
    }
}

impl From<DecodeError> for ExceptionCode {
    fn from(err: DecodeError) -> (r: Self) {
        ExceptionCode::from_decode_error(err)
    }
}

impl vstd::std_specs::convert::FromSpecImpl<DecodeError> for ExceptionCode {
    open spec fn obeys_from_spec() -> bool {
        true
    }

    open spec fn from_spec(err: DecodeError) -> Self {
        ExceptionCode::from_decode_error_spec(err)
    }
}

/// Decoding a code's stable numeric value gives the code back: `from_u32` is
/// the inverse of each documented numeric literal (and the catch-all's own
/// value, being undocumented, decodes to the catch-all as well).
pub proof fn lemma_code_round_trip(c: ExceptionCode)
    ensures
        ExceptionCode::from_u32_spec(c.as_u32_spec()) == c,
{
}

/// The numeric values are what totally orders the taxonomy: no two distinct
/// codes share one.
pub proof fn lemma_code_values_distinct(c1: ExceptionCode, c2: ExceptionCode)
    requires
        c1.as_u32_spec() == c2.as_u32_spec(),
    ensures
        c1 == c2,
{
    lemma_code_round_trip(c1);
    lemma_code_round_trip(c2);
}

/// In the other direction: every documented numeric value survives a round
/// trip through the taxonomy unchanged.
pub proof fn lemma_value_round_trip(code: u32)
    requires
        ExceptionCode::is_documented(code),
    ensures
        ExceptionCode::from_u32_spec(code).as_u32_spec() == code,
{
}

} // verus!
