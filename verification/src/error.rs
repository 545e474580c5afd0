use vstd::prelude::*;
use crate::dispatch::Backend;

verus! {

/// Everything that can stop a generation run. Each stage fails fast: the
/// first failing stage's error is surfaced unchanged, with only the stage
/// context the variant itself carries.
#[derive(Debug)]
pub enum Error {
    /// The spec file could not be opened; carries the offending path.
    FileNotFound { path: String },
    /// Deserialization of a recognized format failed; carries the cause.
    ParseError { cause: String },
    /// Reserved for callers whose environment cannot safely default an
    /// ambiguous extension; this crate itself defaults to YAML instead.
    UnsupportedExtension { extension: String },
    /// The spec-extraction collaborator failed; its cause is opaque here.
    ExtractionError { cause: String },
    /// A backend failed; carries which backend and its own cause.
    GenerationError { backend: Backend, cause: String },
}

} // verus!
