//! Naming the file that an export writes.

use vstd::prelude::*;
use vstd::string::*;
use crate::text::{append_decimal, decimal, join_path, joined};

verus! {

/// Error writing an audio file.
#[derive(Debug)]
pub struct ExportError(pub String);

impl ExportError {
    /// The error as text.
    pub fn describe(&self) -> (text: String)
        ensures
            text@ == "export error: "@ + self.0@,
    {
        let mut text = String::from_str("export error: ");
        text.append(self.0.as_str());
        text
    }
}

/// The most file names that are tried for one export.
pub const MAX_EXPORT_ATTEMPTS: u32 = 9999;

/// The `n`-th file name for an export of `stem`: `{stem}_processed.wav`
/// first, then `{stem}_processed_2.wav`, `_3` and so on.
pub open spec fn export_name(stem: Seq<char>, n: nat) -> Seq<char> {
    if n == 1 {
        stem + "_processed.wav"@
    } else {
        stem + "_processed_"@ + decimal(n) + ".wav"@
    }
}

/// Whether a file of this name is among the existing ones.
pub open spec fn taken(existing: Seq<String>, name: Seq<char>) -> bool {
    exists|i: int| 0 <= i < existing.len() && (#[trigger] existing[i])@ == name
}

/// Whether the `n`-th file name is still free.
pub open spec fn free_slot(existing: Seq<String>, stem: Seq<char>, n: nat) -> bool {
    !taken(existing, export_name(stem, n))
}

/// Builds the `n`-th file name for an export of `stem`.
pub fn export_file_name(stem: &str, n: u32) -> (name: String)
    ensures
        name@ == export_name(stem@, n as nat),
{
    let mut name = String::from_str(stem);
    if n == 1 {
        name.append("_processed.wav");
    } else {
        name.append("_processed_");
        append_decimal(&mut name, n as u64);
        name.append(".wav");
    }
    name
}

fn is_taken(existing: &Vec<String>, name: &String) -> (found: bool)
    ensures
        found == taken(existing@, name@),
{
    let mut i: usize = 0;
    while i < existing.len()
        invariant
            i <= existing.len(),
            forall|j: int| 0 <= j < i ==> (#[trigger] existing@[j])@ != name@,
        decreases existing.len() - i,
    {
        if existing[i] == *name {
            return true;
        }
        i = i + 1;
    }
    false
}

/// The default path of an export: in directory `dir`, the first of the file
/// names for `stem` that is not among `existing`, the names already present
/// in that directory. Where all of them are taken, the first name is used
/// again.
pub fn default_export_path(dir: &str, stem: &str, existing: &Vec<String>) -> (path: String)
    ensures
        exists|n: nat|
            1 <= n <= MAX_EXPORT_ATTEMPTS && path@ == joined(dir@, #[trigger] export_name(stem@, n))
                && (forall|m: nat| 1 <= m < n ==> !#[trigger] free_slot(existing@, stem@, m)) && (
            free_slot(existing@, stem@, n) || (n == 1 && forall|m: nat|
                1 <= m <= MAX_EXPORT_ATTEMPTS ==> !#[trigger] free_slot(existing@, stem@, m))),
{
    let mut n: u32 = 1;
    while n <= MAX_EXPORT_ATTEMPTS
        invariant
            1 <= n <= MAX_EXPORT_ATTEMPTS + 1,
            forall|m: nat| 1 <= m < n ==> !#[trigger] free_slot(existing@, stem@, m),
        decreases MAX_EXPORT_ATTEMPTS + 1 - n,
    {
        let name = export_file_name(stem, n);
        if !is_taken(existing, &name) {
            let path = join_path(dir, name.as_str());
            proof {
                assert(free_slot(existing@, stem@, n as nat));
                assert(path@ == joined(dir@, export_name(stem@, n as nat)));
            }
            return path;
        }
        proof {
            assert(!free_slot(existing@, stem@, n as nat));
        }
        n = n + 1;
    }
    let name = export_file_name(stem, 1);
    let path = join_path(dir, name.as_str());
    proof {
        assert(path@ == joined(dir@, export_name(stem@, 1)));
    }
    path
}

} // verus!
