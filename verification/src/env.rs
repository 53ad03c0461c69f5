//! The pluggable guest-environment contract: the single seam through which
//! guest-OS semantics (signals, system calls, demand paging) are layered onto
//! raw CPU faults, plus the modeled state of the external CPU collaborator
//! that the contract is expressed over.

use vstd::prelude::*;

use crate::exception::ExceptionCode;

verus! {

/// The fault/trap condition the CPU reports: a raw numeric exception code
/// (decoded through [`ExceptionCode::from_u32`]) and the value associated
/// with it, such as a faulting address.
#[derive(Copy, Clone, Debug, PartialEq, Eq, Structural)]
pub struct Exception {
    pub code: u32,
    pub value: u64,
}

/// The state of the external CPU collaborator that this core reads and
/// configures: the program counter and the pending exception. The register
/// file itself is owned by the CPU and stays outside this core.
#[derive(Copy, Clone, Debug, PartialEq, Eq, Structural)]
pub struct Cpu {
    pub pc: u64,
    pub exception: Exception,
}

/// The unified exit value handed from the core to the embedding driver when
/// execution cannot continue without an external decision.
#[derive(Clone, Debug, PartialEq, Eq)]
pub enum VmExit {
    /// Execution can continue.
    Running,
    /// The configured instruction budget was exhausted.
    InstructionLimit,
    /// A breakpoint address was hit.
    Breakpoint,
    /// The driver asked the run to stop.
    Interrupted,
    /// The guest halted cleanly.
    Halt,
    /// The guest was terminated.
    Killed,
    /// The guest can make no further progress.
    Deadlock,
    /// The guest ran out of memory.
    OutOfMemory,
    /// An exception no environment could resolve, with the value associated
    /// with it.
    UnhandledException(ExceptionCode, u64),
}

/// Best-effort source-level information about one guest address.
#[derive(Clone, Debug, PartialEq, Eq)]
pub struct SourceLocation {
    pub file: String,
    pub line: u64,
}

/// Debug information the environment can expose: named symbols and their
/// addresses.
#[derive(Clone, Debug)]
pub struct DebugInfo {
    pub symbols: Vec<(String, u64)>,
}

/// A snapshot of environment-owned state. The payload is opaque to everyone
/// but the environment that produced it; the kind tag lets a `restore`
/// validate that the snapshot came from the same kind of environment instead
/// of blindly trusting it.
#[derive(Clone, Debug)]
pub struct EnvSnapshot {
    pub kind: u64,
    pub data: Vec<u8>,
}

/// The capability set of a guest execution context: load, exception
/// delivery, timers, symbolication, snapshot/restore. Exactly one
/// environment is active per running CPU, owned by the execution engine for
/// the session.
pub trait Environment {
    /// Load the target into the environment. On success the CPU's entry
    /// state is configured; on failure a descriptive message comes back.
    fn load(&mut self, cpu: &mut Cpu, path: &[u8]) -> Result<(), String>;

    /// Called whenever the CPU raises an exception. `None` means the
    /// condition was fully resolved (e.g. a guest signal was delivered) and
    /// execution resumes; `Some(exit)` must propagate out of the engine, and
    /// the faulting instruction is not resumed after it.
    fn handle_exception(&mut self, cpu: &mut Cpu) -> Option<VmExit>;

    /// The next absolute time the environment wants to interrupt the CPU;
    /// `u64::MAX` means never.
    fn next_timer(&self) -> u64;

    /// The debug information loaded for the current target, if any.
    fn debug_info(&self) -> Option<&DebugInfo>;

    /// Best-effort source-level information about `addr`; absence is normal,
    /// not exceptional.
    fn symbolize_addr(&mut self, cpu: &mut Cpu, addr: u64) -> Option<SourceLocation>;

    /// Best-effort resolution of a symbol name to an address.
    fn lookup_symbol(&mut self, symbol: &str) -> Option<u64>;

    /// The address of the target's entry point, for introspection only:
    /// `load` itself configures the CPU with it.
    fn entry_point(&mut self) -> u64;

    /// Capture all environment-owned state (CPU and memory state are
    /// snapshotted separately by their own owners).
    fn snapshot(&mut self) -> EnvSnapshot;

    /// Reinstate previously captured environment-owned state. Handing a
    /// snapshot to a different kind of environment is a caller error.
    fn restore(&mut self, snapshot: &EnvSnapshot);
}

/// The snapshot kind tag of the no-environment configuration.
pub const EMPTY_ENV_KIND: u64 = 0;

/// "No guest environment configured": answers every operation with the most
/// conservative failure or empty result, so no call site needs a null check.
impl Environment for () {
    /// There is nothing to load into.
    fn load(&mut self, _cpu: &mut Cpu, _path: &[u8]) -> (r: Result<(), String>)
        ensures
            r matches Err(m) && m@ == "No environment loaded"@,
    {
        Err("No environment loaded".to_string())
    }

    /// Nothing is ever resolved here; the engine escalates on its own.
    fn handle_exception(&mut self, _cpu: &mut Cpu) -> (r: Option<VmExit>)
        ensures
            r is None,
    {
        None
    }

    /// Never interrupts.
    fn next_timer(&self) -> (r: u64)
        ensures
            r == u64::MAX,
    {
        u64::MAX
    }

    /// No information.
    fn debug_info(&self) -> (r: Option<&DebugInfo>)
        ensures
            r is None,
    {
        None
    }

    /// No information.
    fn symbolize_addr(&mut self, _cpu: &mut Cpu, _addr: u64) -> (r: Option<SourceLocation>)
        ensures
            r is None,
    {
        None
    }

    /// No information.
    fn lookup_symbol(&mut self, _symbol: &str) -> (r: Option<u64>)
        ensures
            r is None,
    {
        None
    }

    /// No entry point is known.
    fn entry_point(&mut self) -> (r: u64)
        ensures
            r == 0,
    {
        0
    }

    /// An empty snapshot under the no-environment tag.
    fn snapshot(&mut self) -> (r: EnvSnapshot)
        ensures
            r.kind == EMPTY_ENV_KIND,
            r.data@ == Seq::<u8>::empty(),
    {
        EnvSnapshot { kind: EMPTY_ENV_KIND, data: Vec::new() }
    }

    /// There is no state to reinstate.
    fn restore(&mut self, _snapshot: &EnvSnapshot) {
    }
}

} // verus!
