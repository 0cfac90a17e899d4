//! Finding a runtime cabinet file among the files beside the program.

use vstd::prelude::*;
use crate::text::{
    ends_with, eq_ascii_case_insensitive, eq_ignore_ascii_case, last_field,
    last_field_before_suffix, starts_with, without_trailing,
};

verus! {

/// What the name of a runtime cabinet file begins with.
pub const CAB_PREFIX: &'static str = "Microsoft.WebView2.FixedVersionRuntime.";

/// What the name of a cabinet file ends with.
pub const CAB_SUFFIX: &'static str = ".cab";

/// A file is taken for a runtime cabinet by its name alone.
pub open spec fn is_runtime_cab(name: Seq<char>) -> bool {
    CAB_PREFIX@.is_prefix_of(name) && CAB_SUFFIX@.is_suffix_of(name)
}

/// The architecture that a cabinet's name states: its last dot-separated
/// field once the `.cab` ending is gone.
pub open spec fn cab_arch(name: Seq<char>) -> Seq<char> {
    last_field(without_trailing(name, CAB_SUFFIX@), '.')
}

/// A runtime cabinet for the architecture `arch`, compared without regard to
/// ASCII case.
pub open spec fn cab_matches(name: Seq<char>, arch: Seq<char>) -> bool {
    is_runtime_cab(name) && eq_ascii_case_insensitive(cab_arch(name), arch)
}

/// A runtime cabinet for another architecture than `arch`.
pub open spec fn cab_mismatches(name: Seq<char>, arch: Seq<char>) -> bool {
    is_runtime_cab(name) && !eq_ascii_case_insensitive(cab_arch(name), arch)
}

/// The architecture of the last cabinet among `names[..limit]` that is for
/// another architecture than `arch`, if there is one.
pub open spec fn last_mismatch(names: Seq<Seq<char>>, arch: Seq<char>, limit: int) -> Option<
    Seq<char>,
>
    decreases limit,
{
    if limit <= 0 {
        None
    } else if cab_mismatches(names[limit - 1], arch) {
        Some(cab_arch(names[limit - 1]))
    } else {
        last_mismatch(names, arch, limit - 1)
    }
}

/// Index of the first name at or after `from` that is a runtime cabinet for
/// `arch`, if there is one.
pub open spec fn first_match(names: Seq<Seq<char>>, arch: Seq<char>, from: int) -> Option<int>
    decreases names.len() - from,
{
    if from < 0 || from >= names.len() {
        None
    } else if cab_matches(names[from], arch) {
        Some(from)
    } else {
        first_match(names, arch, from + 1)
    }
}

/// What a directory listing holds in the way of runtime cabinets.
#[derive(Clone, Debug)]
pub struct CabScan {
    /// Index of the first cabinet for the wanted architecture.
    pub matched: Option<usize>,
    /// Architecture of the last cabinet for another architecture that was
    /// seen before the search ended.
    pub mismatched_arch: Option<String>,
}

/// What a [`CabScan`] says.
pub struct CabScanView {
    pub matched: Option<int>,
    pub mismatched_arch: Option<Seq<char>>,
}

impl View for CabScan {
    type V = CabScanView;

    open spec fn view(&self) -> CabScanView {
        CabScanView {
            matched: match self.matched {
                Some(i) => Some(i as int),
                None => None,
            },
            mismatched_arch: match self.mismatched_arch {
                Some(arch) => Some(arch@),
                None => None,
            },
        }
    }
}

/// The result of looking through `names` for a cabinet of architecture
/// `arch`: the first match, and the architecture of the last cabinet for
/// another architecture among the names before that match, or among all
/// names when nothing matches.
pub open spec fn cab_scan_for(names: Seq<Seq<char>>, arch: Seq<char>) -> CabScanView {
    let matched = first_match(names, arch, 0);
    let searched = match matched {
        Some(i) => i,
        None => names.len() as int,
    };
    CabScanView { matched, mismatched_arch: last_mismatch(names, arch, searched) }
}

/// The first match is a match, lies within the names, and nothing before it
/// matches; without a first match nothing matches at all.
pub proof fn lemma_first_match_is_least(names: Seq<Seq<char>>, arch: Seq<char>, from: int)
    requires
        0 <= from,
    ensures
        match first_match(names, arch, from) {
            Some(i) => {
                &&& from <= i < names.len()
                &&& cab_matches(names[i], arch)
                &&& forall|j: int| from <= j < i ==> !cab_matches(#[trigger] names[j], arch)
            },
            None => forall|j: int|
                from <= j < names.len() ==> !cab_matches(#[trigger] names[j], arch),
        },
    decreases names.len() - from,
{
    if from < names.len() && !cab_matches(names[from], arch) {
        lemma_first_match_is_least(names, arch, from + 1);
    }
}

/// Whether `name` is that of a runtime cabinet.
pub fn runtime_cab(name: &str) -> (b: bool)
    ensures
        b == is_runtime_cab(name@),
{
    starts_with(name, CAB_PREFIX) && ends_with(name, CAB_SUFFIX)
}

/// The architecture that the cabinet's name states.
pub fn arch_of_cab(name: &str) -> (arch: String)
    ensures
        arch@ == cab_arch(name@),
{
    last_field_before_suffix(name, CAB_SUFFIX, '.')
}

/// Looks through the names of a directory, in the order given, for a runtime
/// cabinet of architecture `expected_arch`. The search ends at the first
/// one. Cabinets for other architectures are noted on the way; the last one
/// noted is reported.
pub fn scan_local_cabs(names: &Vec<String>, expected_arch: &str) -> (scan: CabScan)
    ensures
        scan@ == cab_scan_for(names.deep_view(), expected_arch@),
{
    let mut mismatched_arch: Option<String> = None;
    let mut i: usize = 0;
    while i < names.len()
        invariant
            i <= names.len(),
            first_match(names.deep_view(), expected_arch@, 0) == first_match(
                names.deep_view(),
                expected_arch@,
                i as int,
            ),
            match mismatched_arch {
                Some(arch) => Some(arch@),
                None => None,
            } == last_mismatch(names.deep_view(), expected_arch@, i as int),
        decreases names.len() - i,
    {
        let name = names[i].as_str();
        assert(names.deep_view()[i as int] == name@);
        if runtime_cab(name) {
            let arch = arch_of_cab(name);
            if eq_ignore_ascii_case(arch.as_str(), expected_arch) {
                return CabScan { matched: Some(i), mismatched_arch };
            }
            mismatched_arch = Some(arch);
        }
        i += 1;
    }
    CabScan { matched: None, mismatched_arch }
}

} // verus!
