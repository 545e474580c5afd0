use vstd::prelude::*;
use convert_case::Casing;
use crate::dispatch::Language;

verus! {

/// A named feature toggle a caller may switch on for a run.
#[derive(Clone, Copy, Debug, PartialEq, Eq, Structural)]
pub enum Flag {
    /// Only used by Rust. Adds ORM table-metadata derives to the code.
    Ormlite,
    /// Only used by Rust (for now). Adds fake-data derives to the code.
    Fake,
}

/// The immutable configuration every backend invocation receives. Built
/// once per run and never changed afterwards.
pub struct Config {
    /// The service name, normalized to Pascal casing.
    pub name: String,
    /// The directory the generated tree is written under.
    pub dest: String,
    /// Extra derive names to put on generated structs, kept verbatim in
    /// the caller's order, duplicates and all.
    pub derives: Vec<String>,
    /// Whether example code is generated.
    pub build_examples: bool,
    /// Whether ORM-mapping metadata is generated.
    pub ormlite: bool,
    /// The language whose backend this run targets.
    pub language: Language,
}

/// The Pascal casing of a service name. A pure function of the characters
/// alone; what it does to any given name is stated nowhere, so nothing
/// downstream depends on the casing convention's details.
pub uninterp spec fn pascal_of(s: Seq<char>) -> String;

/// Relies on convert_case's `to_case` with `Case::Pascal`: the result
/// depends on the input characters alone.
#[verifier::external_body]
pub(crate) fn pascalize(s: &str) -> (r: String)
    ensures
        r == pascal_of(s@),
{
    s.to_case(convert_case::Case::Pascal)
}

/// Whether a flag was switched on.
pub fn has_flag(flags: &Vec<Flag>, f: Flag) -> (b: bool)
    ensures
        b == flags@.contains(f),
{
    let mut i: usize = 0;
    while i < flags.len()
        invariant
            i <= flags@.len(),
            forall|j: int| 0 <= j < i ==> flags@[j] != f,
        decreases flags@.len() - i,
    {
        if flags[i] == f {
            return true;
        }
        i = i + 1;
    }
    false
}

} // verus!
