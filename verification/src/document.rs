use vstd::prelude::*;

verus! {

#[verifier::external_type_specification]
#[verifier::external_body]
pub struct ExOpenApi(openapiv3::OpenAPI);

#[verifier::external_type_specification]
#[verifier::external_body]
pub struct ExOpenApiV2(openapiv3::v2::OpenAPI);

/// A deserialized API description in whatever schema version it was
/// authored: exactly one version tag is active. The payloads themselves are
/// opaque here; only the tag drives this crate's logic.
pub enum VersionedDocument {
    /// A Swagger 2.0 document.
    V2(openapiv3::v2::OpenAPI),
    /// An OpenAPI 3.x document: already the canonical shape.
    V3(openapiv3::OpenAPI),
}

/// What normalizing a versioned document requires.
///
/// A 2.0 document is not converted here: the conversion lives in the
/// openapiv3 crate and aborts on some documents its deserializer accepts
/// (a `formData` parameter, a `file` schema type, an `array` schema
/// without `items`, among others), so no contract admitting every 2.0
/// document could be honest about it. The caller owns that call and folds
/// its outcome, or its failure, back as a value.
pub enum UpgradeStep {
    /// The document was already canonical and is kept unchanged.
    Done(openapiv3::OpenAPI),
    /// A 2.0 document: the caller must run the outside conversion on
    /// exactly this payload.
    Convert(openapiv3::v2::OpenAPI),
}

/// What `upgrade` decides for each version tag.
pub open spec fn spec_upgrade(doc: VersionedDocument) -> UpgradeStep {
    match doc {
        VersionedDocument::V2(d) => UpgradeStep::Convert(d),
        VersionedDocument::V3(d) => UpgradeStep::Done(d),
    }
}

/// Decides the upgrade path of a versioned document: an already-canonical
/// document is kept unchanged, and a 2.0 document is handed back, whole,
/// for the conversion only the outside crate can perform. Total over the
/// version union, and never panics.
pub fn upgrade(doc: VersionedDocument) -> (r: UpgradeStep)
    ensures
        r == spec_upgrade(doc),
{
    match doc {
        VersionedDocument::V2(d) => UpgradeStep::Convert(d),
        VersionedDocument::V3(d) => UpgradeStep::Done(d),
    }
}

/// Upgrading is idempotent: whenever normalization completes with a
/// canonical document, wrapping that document back into the versioned
/// union and normalizing again is a no-op.
pub proof fn lemma_upgrade_idempotent(doc: VersionedDocument)
    ensures
        (spec_upgrade(doc) matches UpgradeStep::Done(c) ==> spec_upgrade(
            VersionedDocument::V3(c),
        ) == UpgradeStep::Done(c)),
{
}

} // verus!
