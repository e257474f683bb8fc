//! The fixed vocabulary of the OS process interface: the capability bits a
//! process handle is opened with, the snapshot flag, the distinguished
//! invalid-handle value, the raw process-entry record, and the classification
//! of raw handle values into success or typed failure.

use vstd::prelude::*;
use crate::errors::GamecheatError;

verus! {

/// Capacity of the executable-name field of a process entry, in wide units.
pub const MAX_PATH: usize = 260;

/// Snapshot flag: enumerate processes.
pub const TH32CS_SNAPPROCESS: u32 = 0x00000002;

/// The distinguished handle value that marks a failed snapshot or open.
pub const INVALID_HANDLE_VALUE: u64 = u64::MAX;

/// Capability bit: read the target's address space.
pub const PROCESS_VM_READ: u32 = 0x0010;

/// Capability bit: write the target's address space.
pub const PROCESS_VM_WRITE: u32 = 0x0020;

/// Capability bit: query information about the target.
pub const PROCESS_QUERY_INFORMATION: u32 = 0x0400;

/// The minimum capability set a process handle is requested with:
/// query-information, VM-read and VM-write.
pub const PROCESS_ACCESS_RIGHTS: u32 = PROCESS_VM_READ | PROCESS_VM_WRITE
    | PROCESS_QUERY_INFORMATION;

/// One entry of a process snapshot, laid out as the OS reports it. The
/// executable name sits in a fixed-size field, terminated by a zero unit.
#[allow(non_snake_case)]
pub struct PROCESSENTRY32W {
    pub dwSize: u32,
    pub cntUsage: u32,
    pub th32ProcessID: u32,
    pub th32DefaultHeapID: usize,
    pub th32ModuleID: u32,
    pub cntThreads: u32,
    pub th32ParentProcessID: u32,
    pub pcPriClassBase: i32,
    pub dwFlags: u32,
    pub szExeFile: [u16; MAX_PATH],
}

/// `p` is the prefix of `s` that stops at the first zero unit: every unit of
/// `p` is nonzero, and `p` ends where `s` ends or where the first zero
/// stands.
pub open spec fn wide_prefix_before_nul(s: Seq<u16>, p: Seq<u16>) -> bool {
    &&& p.len() <= s.len()
    &&& p == s.subrange(0, p.len() as int)
    &&& forall|i: int| 0 <= i < p.len() ==> s[i] != 0
    &&& p.len() < s.len() ==> s[p.len() as int] == 0
}

/// The prefix before the first zero unit is unique: the predicate pins the
/// extracted executable name completely.
pub proof fn lemma_wide_prefix_before_nul_unique(s: Seq<u16>, p: Seq<u16>, q: Seq<u16>)
    requires
        wide_prefix_before_nul(s, p),
        wide_prefix_before_nul(s, q),
    ensures
        p == q,
{
    if p.len() < q.len() {
        assert(s[p.len() as int] == 0);
        assert(s[p.len() as int] != 0);
    }
    if q.len() < p.len() {
        assert(s[q.len() as int] == 0);
        assert(s[q.len() as int] != 0);
    }
    assert(p =~= q);
}

impl PROCESSENTRY32W {
    /// The executable name of this entry: the wide units of `szExeFile`
    /// before its first zero unit (the whole field if no zero occurs).
    pub fn exe_file_name(&self) -> (name: Vec<u16>)
        ensures
            wide_prefix_before_nul(self.szExeFile@, name@),
    {
        let mut name: Vec<u16> = Vec::new();
        let mut i: usize = 0;
        while i < MAX_PATH
            invariant
                i <= MAX_PATH,
                name@.len() == i,
                name@ == self.szExeFile@.subrange(0, i as int),
                forall|j: int| 0 <= j < i ==> self.szExeFile@[j] != 0,
            decreases MAX_PATH - i,
        {
            let c = self.szExeFile[i];
            if c == 0 {
                return name;
            }
            name.push(c);
            assert(name@ =~= self.szExeFile@.subrange(0, (i + 1) as int));
            i = i + 1;
        }
        name
    }
}

/// Classifies the raw result of creating a process snapshot: the
/// distinguished invalid value (or a null handle) means the snapshot could
/// not be created, and carries the OS error code reported at that moment.
pub fn check_snapshot_handle(raw: u64, os_error: u32) -> (r: Result<u64, GamecheatError>)
    ensures
        raw == 0 || raw == INVALID_HANDLE_VALUE
            ==> r == Err::<u64, GamecheatError>((GamecheatError::EnumerationFailure { os_error })),
        raw != 0 && raw != INVALID_HANDLE_VALUE ==> r == Ok::<u64, GamecheatError>(raw),
{
    if raw == 0 || raw == INVALID_HANDLE_VALUE {
        Err(GamecheatError::EnumerationFailure { os_error })
    } else {
        Ok(raw)
    }
}

/// Classifies the raw boolean result of one enumeration step (reading the
/// first snapshot entry, filling the module list, querying a module name):
/// a failed step aborts enumeration entirely — no partial result — and
/// carries the OS error code reported at that moment.
pub fn check_enumeration_step(success: bool, os_error: u32) -> (r: Result<(), GamecheatError>)
    ensures
        success ==> r == Ok::<(), GamecheatError>(()),
        !success ==> r == Err::<(), GamecheatError>(
            (GamecheatError::EnumerationFailure { os_error }),
        ),
{
    if success {
        Ok(())
    } else {
        Err(GamecheatError::EnumerationFailure { os_error })
    }
}

/// Classifies the raw result of opening a process handle: a null or invalid
/// handle means the open was refused — commonly a privilege mismatch — and
/// carries the OS error code reported at that moment.
pub fn check_opened_handle(raw: u64, os_error: u32) -> (r: Result<u64, GamecheatError>)
    ensures
        raw == 0 || raw == INVALID_HANDLE_VALUE
            ==> r == Err::<u64, GamecheatError>((GamecheatError::AccessDenied { os_error })),
        raw != 0 && raw != INVALID_HANDLE_VALUE ==> r == Ok::<u64, GamecheatError>(raw),
{
    if raw == 0 || raw == INVALID_HANDLE_VALUE {
        Err(GamecheatError::AccessDenied { os_error })
    } else {
        Ok(raw)
    }
}

} // verus!
