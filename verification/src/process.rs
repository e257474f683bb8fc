//! The process locator: records produced by enumeration, case-insensitive
//! matching of executable names, and resolution of the matched process's
//! primary module to its load address.
//!
//! Enumeration order is OS-defined and not stable across calls, so matching
//! is first-match, not best-match. A name that matches nothing is a normal
//! outcome (`ProcessNotFound`), distinct from a failure to enumerate.

use vstd::prelude::*;
use crate::errors::GamecheatError;
use crate::wide;

verus! {

/// One running process as enumeration reports it: a numeric identifier and
/// an executable name in wide units.
pub struct ProcessInfo {
    pub pid: u32,
    pub name: Vec<u16>,
}

/// The record's executable name equals `target`, ignoring ASCII case.
pub open spec fn name_matches(p: ProcessInfo, target: Seq<u16>) -> bool {
    wide::wide_eq_ignore_ascii_case(p.name@, target)
}

/// `i` points at the first record of `list` whose name matches `target`.
pub open spec fn first_name_match(list: Seq<ProcessInfo>, target: Seq<u16>, i: int) -> bool {
    &&& 0 <= i < list.len()
    &&& name_matches(list[i], target)
    &&& forall|j: int| 0 <= j < i ==> !name_matches(list[j], target)
}

/// Matching is insensitive to the spelling of the query: two queries that
/// are equal ignoring ASCII case match exactly the same records, so a
/// process literally named one way is found by a query in any other casing.
pub proof fn lemma_equivalent_queries_match_alike(p: ProcessInfo, q1: Seq<u16>, q2: Seq<u16>)
    requires
        wide::wide_eq_ignore_ascii_case(q1, q2),
    ensures
        name_matches(p, q1) == name_matches(p, q2),
{
    if name_matches(p, q1) {
        wide::lemma_eq_ignore_ascii_case_transitive(p.name@, q1, q2);
    }
    if name_matches(p, q2) {
        wide::lemma_eq_ignore_ascii_case_symmetric(q1, q2);
        wide::lemma_eq_ignore_ascii_case_transitive(p.name@, q2, q1);
    }
}

/// The first match is unique: matching is first-match, not best-match, so
/// the record `locate_pid` selects is determined by the enumeration alone.
pub proof fn lemma_first_name_match_unique(list: Seq<ProcessInfo>, target: Seq<u16>, i: int, j: int)
    requires
        first_name_match(list, target, i),
        first_name_match(list, target, j),
    ensures
        i == j,
{
}

impl ProcessInfo {
    /// Compares this record's executable name against `other`, ignoring
    /// ASCII case.
    pub fn compare_by_name(&self, other: &[u16]) -> (r: bool)
        ensures
            r == name_matches(*self, other@),
    {
        wide::eq_ignore_ascii_case(self.name.as_slice(), other)
    }
}

/// Finds the first record of `list` whose executable name equals
/// `target_name` ignoring ASCII case, and returns its position; `None` when
/// no record matches.
pub fn find_by_name(list: &Vec<ProcessInfo>, target_name: &[u16]) -> (r: Option<usize>)
    ensures
        match r {
            Some(i) => first_name_match(list@, target_name@, i as int),
            None => forall|j: int| 0 <= j < list@.len() ==> !name_matches(list@[j], target_name@),
        },
{
    let mut i: usize = 0;
    while i < list.len()
        invariant
            i <= list@.len(),
            forall|j: int| 0 <= j < i ==> !name_matches(list@[j], target_name@),
        decreases list@.len() - i,
    {
        if list[i].compare_by_name(target_name) {
            return Some(i);
        }
        i = i + 1;
    }
    None
}

/// Selects the process to open: the identifier of the first record matching
/// `target_name`, or `ProcessNotFound` when the enumeration holds no match.
pub fn locate_pid(list: &Vec<ProcessInfo>, target_name: &[u16]) -> (r: Result<
    u32,
    GamecheatError,
>)
    ensures
        match r {
            Ok(pid) => exists|i: int|
                #[trigger] first_name_match(list@, target_name@, i) && pid == list@[i].pid,
            Err(e) => {
                &&& e == GamecheatError::ProcessNotFound
                &&& forall|j: int| 0 <= j < list@.len() ==> !name_matches(list@[j], target_name@)
            },
        },
{
    match find_by_name(list, target_name) {
        Some(i) => {
            let pid = list[i].pid;
            assert(first_name_match(list@, target_name@, i as int));
            Ok(pid)
        },
        None => Err(GamecheatError::ProcessNotFound),
    }
}

/// One loaded module of an opened process: its load address and its base
/// name in wide units.
pub struct ModuleInfo {
    pub base: u64,
    pub name: Vec<u16>,
}

/// The module's base name equals `target`, ignoring ASCII case.
pub open spec fn module_matches(m: ModuleInfo, target: Seq<u16>) -> bool {
    wide::wide_eq_ignore_ascii_case(m.name@, target)
}

/// `i` points at the first module of `modules` whose name matches `target`.
pub open spec fn first_module_match(modules: Seq<ModuleInfo>, target: Seq<u16>, i: int) -> bool {
    &&& 0 <= i < modules.len()
    &&& module_matches(modules[i], target)
    &&& forall|j: int| 0 <= j < i ==> !module_matches(modules[j], target)
}

/// The first module match is unique, so the resolved image base is
/// determined by the module list alone.
pub proof fn lemma_first_module_match_unique(
    modules: Seq<ModuleInfo>,
    target: Seq<u16>,
    i: int,
    j: int,
)
    requires
        first_module_match(modules, target, i),
        first_module_match(modules, target, j),
    ensures
        i == j,
{
}

/// Resolves the image base: the load address of the first module whose base
/// name equals `target_name` ignoring ASCII case. No matching module means
/// the process is in an inconsistent or unusual state and is reported as
/// `ModuleNotFound`, distinct from a process that was never found.
pub fn resolve_module_base(modules: &Vec<ModuleInfo>, target_name: &[u16]) -> (r: Result<
    u64,
    GamecheatError,
>)
    ensures
        match r {
            Ok(base) => exists|i: int|
                #[trigger] first_module_match(modules@, target_name@, i)
                    && base == modules@[i].base,
            Err(e) => {
                &&& e == GamecheatError::ModuleNotFound
                &&& forall|j: int|
                    0 <= j < modules@.len() ==> !module_matches(modules@[j], target_name@)
            },
        },
{
    let mut i: usize = 0;
    while i < modules.len()
        invariant
            i <= modules@.len(),
            forall|j: int| 0 <= j < i ==> !module_matches(modules@[j], target_name@),
        decreases modules@.len() - i,
    {
        if wide::eq_ignore_ascii_case(modules[i].name.as_slice(), target_name) {
            let base = modules[i].base;
            assert(first_module_match(modules@, target_name@, i as int));
            return Ok(base);
        }
        i = i + 1;
    }
    Err(GamecheatError::ModuleNotFound)
}

} // verus!
