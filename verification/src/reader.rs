use vstd::prelude::*;
use crate::document::VersionedDocument;
use crate::error::Error;

verus! {

broadcast use vstd::string::axiom_spec_iter;

/// The serialization format a spec file is read as.
#[derive(Clone, Copy, Debug, PartialEq, Eq, Structural)]
pub enum Format {
    Yaml,
    Json,
}

/// The last position of `c` in `s`, if `c` occurs at all.
pub open spec fn spec_last_index_of(s: Seq<char>, c: char) -> Option<int>
    decreases s.len(),
{
    if s.len() == 0 {
        None
    } else if s[s.len() - 1] == c {
        Some(s.len() - 1)
    } else {
        spec_last_index_of(s.drop_last(), c)
    }
}

/// `spec_last_index_of` finds the last occurrence: `c` is at the returned
/// position and nowhere after it, and `None` means `c` does not occur.
pub proof fn lemma_last_index_of_is_last(s: Seq<char>, c: char)
    ensures
        match spec_last_index_of(s, c) {
            Some(i) => 0 <= i < s.len() && s[i] == c && (forall|j: int|
                i < j < s.len() ==> s[j] != c),
            None => forall|j: int| 0 <= j < s.len() ==> s[j] != c,
        },
    decreases s.len(),
{
    if s.len() == 0 {
    } else if s[s.len() - 1] == c {
    } else {
        let d = s.drop_last();
        lemma_last_index_of_is_last(d, c);
        assert(forall|j: int| 0 <= j < d.len() ==> d[j] == s[j]);
        match spec_last_index_of(s, c) {
            Some(i) => {
                assert(spec_last_index_of(d, c) == Some(i));
                assert(s[i] == c);
                assert(forall|j: int| i < j < s.len() - 1 ==> s[j] != c);
            },
            None => {
                assert(forall|j: int| 0 <= j < s.len() - 1 ==> s[j] != c);
            },
        }
    }
}

/// Where the path's final component begins: just after the last `/`,
/// or at the start when the path has no `/`.
pub open spec fn spec_file_name_start(path: Seq<char>) -> int {
    match spec_last_index_of(path, '/') {
        Some(i) => i + 1,
        None => 0,
    }
}

/// The path's extension: the part of the final component after its last `.`,
/// unless that dot is the component's first character (a leading-dot file
/// name has no extension) or the component has no dot at all. A path with
/// a trailing `/` has an empty final component and so no extension here;
/// such a path never names an openable file, and it is read as YAML.
pub open spec fn spec_extension(path: Seq<char>) -> Option<Seq<char>> {
    let name = path.subrange(spec_file_name_start(path), path.len() as int);
    match spec_last_index_of(name, '.') {
        Some(i) => if i > 0 {
            Some(name.subrange(i + 1, name.len() as int))
        } else {
            None
        },
        None => None,
    }
}

/// The format a path is read as: `.json` means JSON; `.yaml`, `.yml`, any
/// other extension, and no extension at all are all read as YAML.
pub open spec fn spec_format_of(path: Seq<char>) -> Format {
    match spec_extension(path) {
        Some(ext) => if ext == "json"@ {
            Format::Json
        } else {
            Format::Yaml
        },
        None => Format::Yaml,
    }
}

/// The characters of a string as a vector, for random access.
pub fn chars_vec(s: &str) -> (v: Vec<char>)
    ensures
        v@ == s@,
{
    let mut v: Vec<char> = Vec::new();
    for c in it: s.chars()
        invariant
            it.seq() == s@,
            v@ == it.seq().take(it.index() as int),
    {
        v.push(c);
    }
    proof {
        assert(v@ =~= s@);
    }
    v
}

/// The last position at or after `lo` holding `c`, if there is one.
fn last_index_at_or_after(v: &Vec<char>, lo: usize, c: char) -> (r: Option<usize>)
    requires
        lo <= v@.len(),
    ensures
        match r {
            Some(i) => lo <= i < v@.len() && v@[i as int] == c && (forall|j: int|
                i < j < v@.len() ==> v@[j] != c),
            None => forall|j: int| lo <= j < v@.len() ==> v@[j] != c,
        },
{
    let mut k: usize = v.len();
    while k > lo
        invariant
            lo <= k <= v@.len(),
            forall|j: int| k <= j < v@.len() ==> v@[j] != c,
        decreases k,
    {
        k = k - 1;
        if v[k] == c {
            return Some(k);
        }
    }
    None
}

/// Relates a found-last-position fact to `spec_last_index_of` on the
/// suffix of `s` that starts at `lo`.
proof fn lemma_last_index_in_suffix(s: Seq<char>, lo: int, c: char, r: Option<int>)
    requires
        0 <= lo <= s.len(),
        match r {
            Some(i) => lo <= i < s.len() && s[i] == c && (forall|j: int|
                i < j < s.len() ==> s[j] != c),
            None => forall|j: int| lo <= j < s.len() ==> s[j] != c,
        },
    ensures
        spec_last_index_of(s.subrange(lo, s.len() as int), c) == (match r {
            Some(i) => Some(i - lo),
            None => None::<int>,
        }),
{
    let suf = s.subrange(lo, s.len() as int);
    lemma_last_index_of_is_last(suf, c);
    match r {
        Some(i) => {
            assert(suf[i - lo] == c);
            match spec_last_index_of(suf, c) {
                Some(k) => {
                    if k < i - lo {
                        assert(s[k + lo] == c);
                        assert(false);
                    }
                    if k > i - lo {
                        assert(suf[k] != c);
                    }
                },
                None => {
                    assert(suf[i - lo] != c);
                    assert(false);
                },
            }
        },
        None => {
            match spec_last_index_of(suf, c) {
                Some(k) => {
                    assert(s[k + lo] == c);
                    assert(false);
                },
                None => {},
            }
        },
    }
}

/// Infers the serialization format from the path's extension: `.json` means
/// JSON; anything else, including no extension, is read as YAML.
pub fn infer_format(path: &str) -> (f: Format)
    ensures
        f == spec_format_of(path@),
{
    proof {
        reveal_strlit("json");
    }
    let v = chars_vec(path);
    let n = v.len();
    let slash = last_index_at_or_after(&v, 0, '/');
    proof {
        lemma_last_index_in_suffix(path@, 0, '/', match slash {
            Some(i) => Some(i as int),
            None => None,
        });
        assert(path@.subrange(0, path@.len() as int) =~= path@);
    }
    let start: usize = match slash {
        Some(i) => {
            assert(i < n);
            i + 1
        },
        None => 0,
    };
    assert(start == spec_file_name_start(path@));
    let ghost name = path@.subrange(start as int, path@.len() as int);
    let dot = last_index_at_or_after(&v, start, '.');
    proof {
        lemma_last_index_in_suffix(path@, start as int, '.', match dot {
            Some(i) => Some(i as int),
            None => None,
        });
    }
    match dot {
        Some(i) => {
            if i > start {
                // the extension runs from i + 1 to the end
                let ghost ext = name.subrange(i - start + 1, name.len() as int);
                assert(spec_extension(path@) == Some(ext));
                if n - (i + 1) == 4 && *v.get(i + 1).unwrap() == 'j' && *v.get(i + 2).unwrap() == 's'
                    && *v.get(i + 3).unwrap() == 'o' && *v.get(i + 4).unwrap() == 'n' {
                    proof {
                        assert(ext =~= "json"@);
                    }
                    Format::Json
                } else {
                    proof {
                        if ext == "json"@ {
                            assert(ext.len() == 4);
                            assert(ext[0] == 'j' && ext[1] == 's' && ext[2] == 'o' && ext[3]
                                == 'n');
                            assert(false);
                        }
                    }
                    Format::Yaml
                }
            } else {
                assert(spec_extension(path@) is None);
                Format::Yaml
            }
        },
        None => {
            assert(spec_extension(path@) is None);
            Format::Yaml
        },
    }
}

/// What deserializing the bytes as a YAML spec document yields: the
/// versioned document, or the deserializer's failure message. A pure
/// function of the bytes; its content is stated nowhere.
pub uninterp spec fn yaml_document(bytes: Seq<u8>) -> Result<VersionedDocument, String>;

/// What deserializing the bytes as a JSON spec document yields, as a pure
/// function of the bytes.
pub uninterp spec fn json_document(bytes: Seq<u8>) -> Result<VersionedDocument, String>;

/// Relies on serde_yaml::from_slice: deserializes a YAML document into the
/// versioned union; the outcome depends on the bytes alone.
#[verifier::external_body]
fn parse_yaml(bytes: &[u8]) -> (r: Result<VersionedDocument, String>)
    ensures
        r == yaml_document(bytes@),
{
    match serde_yaml::from_slice::<openapiv3::VersionedOpenAPI>(bytes) {
        Ok(openapiv3::VersionedOpenAPI::V2(d)) => Ok(VersionedDocument::V2(d)),
        Ok(openapiv3::VersionedOpenAPI::V3(d)) => Ok(VersionedDocument::V3(d)),
        Err(e) => Err(e.to_string()),
    }
}

/// Relies on serde_json::from_slice: deserializes a JSON document into the
/// versioned union; the outcome depends on the bytes alone.
#[verifier::external_body]
fn parse_json(bytes: &[u8]) -> (r: Result<VersionedDocument, String>)
    ensures
        r == json_document(bytes@),
{
    match serde_json::from_slice::<openapiv3::VersionedOpenAPI>(bytes) {
        Ok(openapiv3::VersionedOpenAPI::V2(d)) => Ok(VersionedDocument::V2(d)),
        Ok(openapiv3::VersionedOpenAPI::V3(d)) => Ok(VersionedDocument::V3(d)),
        Err(e) => Err(e.to_string()),
    }
}

/// What reading a spec's bytes in a given format yields: the versioned
/// document that format's deserializer parses, or its failure as a
/// `ParseError`.
pub open spec fn spec_read_bytes(fmt: Format, bytes: Seq<u8>) -> Result<
    VersionedDocument,
    Error,
> {
    let parsed = match fmt {
        Format::Yaml => yaml_document(bytes),
        Format::Json => json_document(bytes),
    };
    match parsed {
        Ok(d) => Ok(d),
        Err(cause) => Err(Error::ParseError { cause }),
    }
}

/// Reads an API description handed over as the outcome of opening the file
/// at `path`: `None` when the file could not be opened, `Some` with its
/// bytes otherwise. The format is inferred from the path's extension and
/// the document is deserialized, version tag and all; normalizing it is
/// the next stage's step.
pub fn read_spec(path: &str, contents: Option<&[u8]>) -> (r: Result<VersionedDocument, Error>)
    ensures
        contents is None ==> (r matches Err(Error::FileNotFound { path: p }) && p@ == path@),
        contents matches Some(b) ==> r == spec_read_bytes(spec_format_of(path@), b@),
{
    match contents {
        None => Err(Error::FileNotFound { path: path.to_owned() }),
        Some(bytes) => {
            let fmt = infer_format(path);
            let parsed = match fmt {
                Format::Yaml => parse_yaml(bytes),
                Format::Json => parse_json(bytes),
            };
            match parsed {
                Ok(d) => Ok(d),
                Err(cause) => Err(Error::ParseError { cause }),
            }
        },
    }
}

/// Reading depends on the path only through its inferred format: two paths
/// that infer the same format read any byte content identically.
pub proof fn lemma_read_is_format_blind(p1: Seq<char>, p2: Seq<char>, bytes: Seq<u8>)
    requires
        spec_format_of(p1) == spec_format_of(p2),
    ensures
        spec_read_bytes(spec_format_of(p1), bytes) == spec_read_bytes(spec_format_of(p2), bytes),
{
}

/// A path with no extension is read as YAML, exactly as a `.yaml` path is.
pub proof fn lemma_no_extension_defaults_to_yaml(path: Seq<char>)
    requires
        spec_extension(path) is None,
    ensures
        spec_format_of(path) == Format::Yaml,
{
}

/// Only a `json` extension selects JSON deserialization: every other
/// extension, like no extension at all, is read as YAML.
pub proof fn lemma_json_is_the_only_json_extension(path: Seq<char>)
    ensures
        spec_format_of(path) == Format::Json <==> spec_extension(path) == Some("json"@),
        spec_format_of(path) != Format::Json ==> spec_format_of(path) == Format::Yaml,
{
}

} // verus!
