use icicle_cpu::DecodeError;
use icicle_cpu::ExceptionCode;
use icicle_cpu::MemError;

fn all_codes() -> Vec<ExceptionCode> {
    vec![
        ExceptionCode::NoException,
        ExceptionCode::InstructionLimit,
        ExceptionCode::Halt,
        ExceptionCode::Sleep,
        ExceptionCode::Syscall,
        ExceptionCode::CpuStateChanged,
        ExceptionCode::DivideByZero,
        ExceptionCode::ReadUnmapped,
        ExceptionCode::ReadPerm,
        ExceptionCode::ReadUnaligned,
        ExceptionCode::ReadWatch,
        ExceptionCode::ReadUninitialized,
        ExceptionCode::WriteUnmapped,
        ExceptionCode::WritePerm,
        ExceptionCode::WriteWatch,
        ExceptionCode::WriteUnaligned,
        ExceptionCode::ExecViolation,
        ExceptionCode::SelfModifyingCode,
        ExceptionCode::ExecUnaligned,
        ExceptionCode::OutOfMemory,
        ExceptionCode::AddressOverflow,
        ExceptionCode::InvalidInstruction,
        ExceptionCode::UnknownInterrupt,
        ExceptionCode::UnknownCpuID,
        ExceptionCode::InvalidOpSize,
        ExceptionCode::InvalidFloatSize,
        ExceptionCode::CodeNotTranslated,
        ExceptionCode::ShadowStackOverflow,
        ExceptionCode::ShadowStackInvalid,
        ExceptionCode::InvalidTarget,
        ExceptionCode::UnimplementedOp,
        ExceptionCode::ExternalAddr,
        ExceptionCode::Environment,
        ExceptionCode::JitError,
        ExceptionCode::InternalError,
    ]
}

#[test]
fn code_round_trips_for_every_documented_variant() {
    for code in all_codes() {
        assert_eq!(ExceptionCode::from_u32(code.as_u32()), code);
    }
}

#[test]
fn documented_literals_decode_exactly() {
    assert_eq!(ExceptionCode::from_u32(0x0000), ExceptionCode::NoException);
    assert_eq!(ExceptionCode::from_u32(0x0001), ExceptionCode::InstructionLimit);
    assert_eq!(ExceptionCode::from_u32(0x0002), ExceptionCode::Halt);
    assert_eq!(ExceptionCode::from_u32(0x0003), ExceptionCode::Sleep);
    assert_eq!(ExceptionCode::from_u32(0x0101), ExceptionCode::Syscall);
    assert_eq!(ExceptionCode::from_u32(0x0102), ExceptionCode::CpuStateChanged);
    assert_eq!(ExceptionCode::from_u32(0x0103), ExceptionCode::DivideByZero);
    assert_eq!(ExceptionCode::from_u32(0x0201), ExceptionCode::ReadUnmapped);
    assert_eq!(ExceptionCode::from_u32(0x0202), ExceptionCode::ReadPerm);
    assert_eq!(ExceptionCode::from_u32(0x0203), ExceptionCode::ReadUnaligned);
    assert_eq!(ExceptionCode::from_u32(0x0204), ExceptionCode::ReadWatch);
    assert_eq!(ExceptionCode::from_u32(0x0205), ExceptionCode::ReadUninitialized);
    assert_eq!(ExceptionCode::from_u32(0x0301), ExceptionCode::WriteUnmapped);
    assert_eq!(ExceptionCode::from_u32(0x0302), ExceptionCode::WritePerm);
    assert_eq!(ExceptionCode::from_u32(0x0303), ExceptionCode::WriteWatch);
    assert_eq!(ExceptionCode::from_u32(0x0304), ExceptionCode::WriteUnaligned);
    assert_eq!(ExceptionCode::from_u32(0x0401), ExceptionCode::ExecViolation);
    assert_eq!(ExceptionCode::from_u32(0x0402), ExceptionCode::SelfModifyingCode);
    assert_eq!(ExceptionCode::from_u32(0x0404), ExceptionCode::ExecUnaligned);
    assert_eq!(ExceptionCode::from_u32(0x0501), ExceptionCode::OutOfMemory);
    assert_eq!(ExceptionCode::from_u32(0x0502), ExceptionCode::AddressOverflow);
    assert_eq!(ExceptionCode::from_u32(0x1001), ExceptionCode::InvalidInstruction);
    assert_eq!(ExceptionCode::from_u32(0x1002), ExceptionCode::UnknownInterrupt);
    assert_eq!(ExceptionCode::from_u32(0x1003), ExceptionCode::UnknownCpuID);
    assert_eq!(ExceptionCode::from_u32(0x1004), ExceptionCode::InvalidOpSize);
    assert_eq!(ExceptionCode::from_u32(0x1005), ExceptionCode::InvalidFloatSize);
    assert_eq!(ExceptionCode::from_u32(0x1006), ExceptionCode::CodeNotTranslated);
    assert_eq!(ExceptionCode::from_u32(0x1007), ExceptionCode::ShadowStackOverflow);
    assert_eq!(ExceptionCode::from_u32(0x1008), ExceptionCode::ShadowStackInvalid);
    assert_eq!(ExceptionCode::from_u32(0x1009), ExceptionCode::InvalidTarget);
    assert_eq!(ExceptionCode::from_u32(0x100a), ExceptionCode::UnimplementedOp);
    assert_eq!(ExceptionCode::from_u32(0x2001), ExceptionCode::ExternalAddr);
    assert_eq!(ExceptionCode::from_u32(0x2002), ExceptionCode::Environment);
    assert_eq!(ExceptionCode::from_u32(0x3001), ExceptionCode::JitError);
    assert_eq!(ExceptionCode::from_u32(0x3002), ExceptionCode::InternalError);
}

#[test]
fn unrecognized_codes_fall_to_the_catch_all() {
    assert_eq!(ExceptionCode::from_u32(0x0004), ExceptionCode::UnknownError);
    assert_eq!(ExceptionCode::from_u32(0x0403), ExceptionCode::UnknownError);
    assert_eq!(ExceptionCode::from_u32(0x3003), ExceptionCode::UnknownError);
    assert_eq!(ExceptionCode::from_u32(0xdead_beef), ExceptionCode::UnknownError);
}

#[test]
fn strict_decoding_reports_unrecognized_codes() {
    assert_eq!(ExceptionCode::try_from_u32(0x0201), Some(ExceptionCode::ReadUnmapped));
    assert_eq!(ExceptionCode::try_from_u32(0x0004), None);
    assert_eq!(ExceptionCode::try_from_u32(0x3003), None);
}

#[test]
fn is_running_holds_exactly_for_the_two_continue_codes() {
    for code in all_codes() {
        let expected = code == ExceptionCode::NoException || code == ExceptionCode::InstructionLimit;
        assert_eq!(code.is_running(), expected);
    }
    assert!(!ExceptionCode::UnknownError.is_running());
}

#[test]
fn is_memory_error_holds_exactly_for_the_access_fault_family() {
    let memory = [
        ExceptionCode::ReadUnmapped,
        ExceptionCode::ReadPerm,
        ExceptionCode::ReadUnaligned,
        ExceptionCode::ReadWatch,
        ExceptionCode::ReadUninitialized,
        ExceptionCode::WriteUnmapped,
        ExceptionCode::WritePerm,
        ExceptionCode::WriteWatch,
        ExceptionCode::WriteUnaligned,
        ExceptionCode::SelfModifyingCode,
    ];
    for code in all_codes() {
        assert_eq!(code.is_memory_error(), memory.contains(&code));
    }
}

#[test]
fn unmapped_converts_by_direction() {
    assert_eq!(ExceptionCode::from_load_error(MemError::Unmapped), ExceptionCode::ReadUnmapped);
    assert_eq!(ExceptionCode::from_store_error(MemError::Unmapped), ExceptionCode::WriteUnmapped);
}

#[test]
fn load_error_conversion_is_exhaustive() {
    assert_eq!(ExceptionCode::from_load_error(MemError::Unmapped), ExceptionCode::ReadUnmapped);
    assert_eq!(
        ExceptionCode::from_load_error(MemError::Uninitialized),
        ExceptionCode::ReadUninitialized
    );
    assert_eq!(ExceptionCode::from_load_error(MemError::ReadViolation), ExceptionCode::ReadPerm);
    assert_eq!(ExceptionCode::from_load_error(MemError::Unaligned), ExceptionCode::ReadUnaligned);
    assert_eq!(ExceptionCode::from_load_error(MemError::ReadWatch), ExceptionCode::ReadWatch);
    assert_eq!(ExceptionCode::from_load_error(MemError::WriteViolation), ExceptionCode::WritePerm);
    assert_eq!(ExceptionCode::from_load_error(MemError::WriteWatch), ExceptionCode::WriteWatch);
    assert_eq!(
        ExceptionCode::from_load_error(MemError::ExecViolation),
        ExceptionCode::ExecViolation
    );
    assert_eq!(ExceptionCode::from_load_error(MemError::OutOfMemory), ExceptionCode::OutOfMemory);
    assert_eq!(
        ExceptionCode::from_load_error(MemError::SelfModifyingCode),
        ExceptionCode::SelfModifyingCode
    );
    assert_eq!(
        ExceptionCode::from_load_error(MemError::AddressOverflow),
        ExceptionCode::AddressOverflow
    );
    assert_eq!(ExceptionCode::from_load_error(MemError::Unallocated), ExceptionCode::UnknownError);
    assert_eq!(ExceptionCode::from_load_error(MemError::Unknown), ExceptionCode::UnknownError);
}

#[test]
fn store_error_conversion_is_exhaustive() {
    assert_eq!(ExceptionCode::from_store_error(MemError::Unmapped), ExceptionCode::WriteUnmapped);
    assert_eq!(ExceptionCode::from_store_error(MemError::WriteViolation), ExceptionCode::WritePerm);
    assert_eq!(
        ExceptionCode::from_store_error(MemError::Unaligned),
        ExceptionCode::WriteUnaligned
    );
    assert_eq!(ExceptionCode::from_store_error(MemError::WriteWatch), ExceptionCode::WriteWatch);
    assert_eq!(
        ExceptionCode::from_store_error(MemError::Uninitialized),
        ExceptionCode::ReadUninitialized
    );
    assert_eq!(ExceptionCode::from_store_error(MemError::ReadViolation), ExceptionCode::ReadPerm);
    assert_eq!(ExceptionCode::from_store_error(MemError::ReadWatch), ExceptionCode::ReadWatch);
    assert_eq!(
        ExceptionCode::from_store_error(MemError::ExecViolation),
        ExceptionCode::ExecViolation
    );
    assert_eq!(ExceptionCode::from_store_error(MemError::OutOfMemory), ExceptionCode::OutOfMemory);
    assert_eq!(
        ExceptionCode::from_store_error(MemError::SelfModifyingCode),
        ExceptionCode::SelfModifyingCode
    );
    assert_eq!(
        ExceptionCode::from_store_error(MemError::AddressOverflow),
        ExceptionCode::AddressOverflow
    );
    assert_eq!(ExceptionCode::from_store_error(MemError::Unallocated), ExceptionCode::UnknownError);
    assert_eq!(ExceptionCode::from_store_error(MemError::Unknown), ExceptionCode::UnknownError);
}

#[test]
fn generic_mem_error_conversion_is_read_like() {
    assert_eq!(ExceptionCode::from(MemError::Unmapped), ExceptionCode::ReadUnmapped);
    assert_eq!(ExceptionCode::from(MemError::Unaligned), ExceptionCode::ReadUnaligned);
    assert_eq!(ExceptionCode::from(MemError::ExecViolation), ExceptionCode::ExecViolation);
}

#[test]
fn decode_error_conversion_is_exhaustive() {
    assert_eq!(
        ExceptionCode::from(DecodeError::InvalidInstruction),
        ExceptionCode::InvalidInstruction
    );
    assert_eq!(
        ExceptionCode::from(DecodeError::NonExecutableMemory),
        ExceptionCode::ExecViolation
    );
    assert_eq!(ExceptionCode::from(DecodeError::BadAlignment), ExceptionCode::ExecUnaligned);
    assert_eq!(
        ExceptionCode::from(DecodeError::DisassemblyChanged),
        ExceptionCode::SelfModifyingCode
    );
    assert_eq!(ExceptionCode::from(DecodeError::OptimizationError), ExceptionCode::UnknownError);
}
