use vstd::prelude::*;
use crate::config::{has_flag, pascal_of, pascalize, Config, Flag};
use crate::dispatch::{backend_for, spec_backend_for, Backend, Language};
use crate::error::Error;
use crate::document::{upgrade, UpgradeStep, VersionedDocument};
use crate::reader::{read_spec, spec_format_of, spec_read_bytes};

verus! {

/// One generation request: which spec file to read, what to call the
/// service, where to put the result, and how to generate it.
pub struct Generate {
    /// The target language; its backend receives the request.
    pub language: Language,
    /// Whether to generate examples.
    pub examples: bool,
    /// Where to write the generated tree; the current directory if absent.
    pub output_dir: Option<String>,
    /// Named feature toggles.
    pub config: Vec<Flag>,
    /// Extra namespaced traits to derive on generated structs.
    pub derive: Vec<String>,
    /// The service name, e.g. "Stripe" for a Stripe client library.
    pub name: String,
    /// Path to the API description file.
    pub spec_filepath: String,
}

/// Everything the collaborators outside this crate need for one dispatch:
/// the canonical document for the extractor, the configuration and the
/// routed backend for the generator. Built once, used by exactly one call.
pub struct DispatchRequest {
    /// The canonical document the extraction collaborator consumes.
    pub document: openapiv3::OpenAPI,
    /// The configuration every backend invocation receives.
    pub config: Config,
    /// The backend this request routes to.
    pub backend: Backend,
}

/// What one run of the ingestion pipeline decided.
pub enum RunOutcome {
    /// Everything is decided: hand the request to the extraction and
    /// generation collaborators.
    Dispatch(DispatchRequest),
    /// The document was authored in the 2.0 schema. The configuration and
    /// the routed backend are already decided; the caller owns the outside
    /// conversion of the document to canonical form, because that
    /// conversion can abort on documents the deserializer accepts and so
    /// cannot stand behind an honest contract here.
    UpgradeFirst {
        /// The 2.0 document, exactly as parsed.
        document: openapiv3::v2::OpenAPI,
        /// The configuration every backend invocation receives.
        config: Config,
        /// The backend this request routes to.
        backend: Backend,
    },
}

/// How the built configuration is determined by the request: the service
/// name Pascal-cased, the destination defaulted to the current directory,
/// derives kept verbatim and in order, the toggles captured as given.
pub open spec fn spec_config_of(g: Generate, c: Config) -> bool {
    &&& c.name == pascal_of(g.name@)
    &&& (match g.output_dir {
        Some(d) => c.dest == d,
        None => c.dest@ == "."@,
    })
    &&& c.derives == g.derive
    &&& c.build_examples == g.examples
    &&& c.ormlite == g.config@.contains(Flag::Ormlite)
    &&& c.language == g.language
}

/// Building the configuration is deterministic: any two configurations
/// built from the same request agree on every field.
pub proof fn lemma_build_deterministic(g: Generate, c1: Config, c2: Config)
    requires
        spec_config_of(g, c1),
        spec_config_of(g, c2),
    ensures
        c1.name == c2.name,
        c1.dest@ == c2.dest@,
        c1.derives == c2.derives,
        c1.build_examples == c2.build_examples,
        c1.ormlite == c2.ormlite,
        c1.language == c2.language,
{
}

impl Generate {
    /// A request with every input at its default: the Rust backend,
    /// examples on, no flags, no derives, empty name and path.
    pub fn new() -> (r: Self)
        ensures
            r.language == Language::Rust,
            r.examples == true,
            r.output_dir is None,
            r.config@ == Seq::<Flag>::empty(),
            r.derive@ == Seq::<String>::empty(),
            r.name@ == Seq::<char>::empty(),
            r.spec_filepath@ == Seq::<char>::empty(),
    {
        Generate {
            language: Language::Rust,
            examples: true,
            output_dir: None,
            config: Vec::new(),
            derive: Vec::new(),
            name: String::new(),
            spec_filepath: String::new(),
        }
    }

    pub fn with_language(self, language: Language) -> (r: Self)
        ensures
            r == (Generate { language, ..self }),
    {
        Generate { language, ..self }
    }

    pub fn with_examples(self, examples: bool) -> (r: Self)
        ensures
            r == (Generate { examples, ..self }),
    {
        Generate { examples, ..self }
    }

    pub fn with_output_dir(self, output_dir: String) -> (r: Self)
        ensures
            r == (Generate { output_dir: Some(output_dir), ..self }),
    {
        Generate { output_dir: Some(output_dir), ..self }
    }

    pub fn with_name(self, name: String) -> (r: Self)
        ensures
            r == (Generate { name, ..self }),
    {
        Generate { name, ..self }
    }

    pub fn with_spec_filepath(self, spec_filepath: String) -> (r: Self)
        ensures
            r == (Generate { spec_filepath, ..self }),
    {
        Generate { spec_filepath, ..self }
    }

    /// Appends one derive name, keeping the earlier ones and their order.
    pub fn add_derive(self, derive: String) -> (r: Self)
        ensures
            r.derive@ == self.derive@.push(derive),
            r == (Generate { derive: r.derive, ..self }),
    {
        let mut d = self.derive;
        d.push(derive);
        Generate { derive: d, ..self }
    }

    pub fn with_derive(self, derive: Vec<String>) -> (r: Self)
        ensures
            r == (Generate { derive, ..self }),
    {
        Generate { derive, ..self }
    }

    /// Appends one feature flag, keeping the earlier ones and their order.
    pub fn add_config(self, config: Flag) -> (r: Self)
        ensures
            r.config@ == self.config@.push(config),
            r == (Generate { config: r.config, ..self }),
    {
        let mut c = self.config;
        c.push(config);
        Generate { config: c, ..self }
    }

    pub fn with_config(self, config: Vec<Flag>) -> (r: Self)
        ensures
            r == (Generate { config, ..self }),
    {
        Generate { config, ..self }
    }

    /// Builds the immutable configuration from this request's inputs. Pure
    /// data transformation: it cannot fail, and the result is determined
    /// by the inputs alone, so every backend invocation of a run observes
    /// the same value.
    pub fn build_config(self) -> (c: Config)
        ensures
            spec_config_of(self, c),
    {
        let name = pascalize(self.name.as_str());
        let dest = match self.output_dir {
            Some(d) => d,
            None => ".".to_owned(),
        };
        let ormlite = has_flag(&self.config, Flag::Ormlite);
        Config {
            name,
            dest,
            derives: self.derive,
            build_examples: self.examples,
            ormlite,
            language: self.language,
        }
    }

    /// Runs the ingestion half of the pipeline on the outcome of opening
    /// the spec file (`None` when it could not be opened, `Some` with its
    /// bytes otherwise): reads the document, builds the configuration, and
    /// routes the request to its backend. The caller performs the file
    /// read; on `Ok` it hands the request to the extraction and generation
    /// collaborators — after the one outside upgrade call when the
    /// document was authored in the 2.0 schema — and none of them is ever
    /// invoked when an earlier stage fails.
    pub fn run(self, contents: Option<&[u8]>) -> (r: Result<RunOutcome, Error>)
        ensures
            contents is None ==> (r matches Err(Error::FileNotFound { path: p }) && p@
                == self.spec_filepath@),
            contents matches Some(b) ==> match spec_read_bytes(
                spec_format_of(self.spec_filepath@),
                b@,
            ) {
                Ok(VersionedDocument::V3(doc)) => r matches Ok(
                    RunOutcome::Dispatch(req),
                ) && req.document == doc && spec_config_of(self, req.config) && req.backend
                    == spec_backend_for(self.language),
                Ok(VersionedDocument::V2(doc)) => r matches Ok(
                    RunOutcome::UpgradeFirst { document, config, backend },
                ) && document == doc && spec_config_of(self, config) && backend
                    == spec_backend_for(self.language),
                Err(e) => (r matches Err(e2) && e2 == e),
            },
    {
        let versioned = match read_spec(self.spec_filepath.as_str(), contents) {
            Ok(doc) => doc,
            Err(e) => {
                return Err(e);
            },
        };
        let backend = backend_for(self.language);
        let config = self.build_config();
        match upgrade(versioned) {
            UpgradeStep::Done(document) => Ok(
                RunOutcome::Dispatch(DispatchRequest { document, config, backend }),
            ),
            UpgradeStep::Convert(document) => Ok(
                RunOutcome::UpgradeFirst { document, config, backend },
            ),
        }
    }
}

} // verus!
