use libninja::document::VersionedDocument;
use libninja::error::Error;
use libninja::reader::{infer_format, read_spec, Format};

const SPEC_YAML: &str = "openapi: 3.0.3\ninfo:\n  title: Pets\n  version: '1.0'\npaths: {}\n";

const SPEC_JSON: &str =
    "{\"openapi\": \"3.0.3\", \"info\": {\"title\": \"Pets\", \"version\": \"1.0\"}, \"paths\": {}}";

#[test]
fn json_extension_is_json() {
    assert_eq!(infer_format("spec.json"), Format::Json);
    assert_eq!(infer_format("a/b/spec.json"), Format::Json);
}

#[test]
fn yaml_extensions_are_yaml() {
    assert_eq!(infer_format("spec.yaml"), Format::Yaml);
    assert_eq!(infer_format("spec.yml"), Format::Yaml);
}

#[test]
fn unknown_or_missing_extension_defaults_to_yaml() {
    assert_eq!(infer_format("spec.txt"), Format::Yaml);
    assert_eq!(infer_format("spec"), Format::Yaml);
    assert_eq!(infer_format(""), Format::Yaml);
}

#[test]
fn extension_is_read_off_the_final_component_only() {
    // the dot in the directory name is not an extension dot
    assert_eq!(infer_format("dir.json/spec"), Format::Yaml);
    assert_eq!(infer_format("dir.yaml/spec.json"), Format::Json);
}

#[test]
fn leading_dot_file_has_no_extension() {
    assert_eq!(infer_format(".json"), Format::Yaml);
    assert_eq!(infer_format("a/.json"), Format::Yaml);
    assert_eq!(infer_format("spec."), Format::Yaml);
}

fn canonical(d: VersionedDocument) -> openapiv3::OpenAPI {
    match d {
        VersionedDocument::V3(doc) => doc,
        VersionedDocument::V2(_) => panic!("expected a 3.x document"),
    }
}

#[test]
fn yaml_and_json_serializations_read_equal() {
    let y = canonical(read_spec("spec.yaml", Some(SPEC_YAML.as_bytes())).unwrap());
    let j = canonical(read_spec("spec.json", Some(SPEC_JSON.as_bytes())).unwrap());
    assert_eq!(y, j);
}

#[test]
fn missing_extension_reads_as_yaml() {
    let bare = canonical(read_spec("spec", Some(SPEC_YAML.as_bytes())).unwrap());
    let yaml = canonical(read_spec("spec.yaml", Some(SPEC_YAML.as_bytes())).unwrap());
    assert_eq!(bare, yaml);
}

#[test]
fn read_yields_the_parsed_document() {
    let doc = canonical(read_spec("spec.yaml", Some(SPEC_YAML.as_bytes())).unwrap());
    assert_eq!(doc.openapi, "3.0.3");
    assert_eq!(doc.info.title, "Pets");
    assert!(doc.paths.paths.is_empty());
}

#[test]
fn read_keeps_the_authored_version_tag() {
    let v2 = "swagger: '2.0'\ninfo:\n  title: Pets\n  version: '1.0'\npaths: {}\n";
    match read_spec("spec.yaml", Some(v2.as_bytes())).unwrap() {
        VersionedDocument::V2(d) => assert_eq!(d.swagger, "2.0"),
        VersionedDocument::V3(_) => panic!("a 2.0 document must carry the 2.0 tag"),
    }
}

#[test]
fn truncated_yaml_is_a_parse_error() {
    let truncated = "openapi: 3.0.3\ninfo:\n  title: [unclosed\n";
    match read_spec("spec.yaml", Some(truncated.as_bytes())) {
        Err(Error::ParseError { cause }) => assert!(!cause.is_empty()),
        other => panic!("expected a parse error, got {:?}", other.is_ok()),
    }
}

#[test]
fn malformed_json_is_a_parse_error() {
    match read_spec("spec.json", Some(b"{\"openapi\": ".as_slice())) {
        Err(Error::ParseError { .. }) => {},
        other => panic!("expected a parse error, got {:?}", other.is_ok()),
    }
}

#[test]
fn unopened_file_is_file_not_found_with_the_path() {
    match read_spec("/does/not/exist", None) {
        Err(Error::FileNotFound { path }) => assert_eq!(path, "/does/not/exist"),
        other => panic!("expected file-not-found, got {:?}", other.is_ok()),
    }
}
