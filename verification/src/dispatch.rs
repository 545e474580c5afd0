use vstd::prelude::*;

verus! {

/// The closed set of target languages a generation run may be asked for.
/// Adding a language means adding a member here and a routing arm in
/// `spec_backend_for`: the match is exhaustive, so the compiler flags every
/// place that must change.
#[derive(Clone, Copy, Debug, PartialEq, Eq, Structural)]
pub enum Language {
    Rust,
}

/// The code-emission backend a request is routed to, one per language.
#[derive(Clone, Copy, Debug, PartialEq, Eq, Structural)]
pub enum Backend {
    /// The Rust client-library generator.
    Rust,
}

/// The backend registered for each target language.
pub open spec fn spec_backend_for(lang: Language) -> Backend {
    match lang {
        Language::Rust => Backend::Rust,
    }
}

/// Routes a target language to its registered backend. Pure routing: every
/// language has exactly one backend and nothing else is decided here.
pub fn backend_for(lang: Language) -> (b: Backend)
    ensures
        b == spec_backend_for(lang),
{
    match lang {
        Language::Rust => Backend::Rust,
    }
}

/// No two target languages share a backend: routing never collapses two
/// requests onto the same generator.
pub proof fn lemma_routing_distinct(a: Language, b: Language)
    ensures
        spec_backend_for(a) == spec_backend_for(b) ==> a == b,
{
}

} // verus!
