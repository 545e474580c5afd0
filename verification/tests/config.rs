use libninja::config::Flag;
use libninja::dispatch::Language;
use libninja::Generate;

fn request() -> Generate {
    Generate::new()
        .with_name("my_api".to_string())
        .with_spec_filepath("spec.yaml".to_string())
}

#[test]
fn service_name_is_pascal_cased() {
    let config = request().build_config();
    assert_eq!(config.name, "MyApi");
}

#[test]
fn build_is_deterministic() {
    let a = request()
        .with_output_dir("out".to_string())
        .add_derive("Serialize".to_string())
        .add_config(Flag::Fake)
        .build_config();
    let b = request()
        .with_output_dir("out".to_string())
        .add_derive("Serialize".to_string())
        .add_config(Flag::Fake)
        .build_config();
    assert_eq!(a.name, b.name);
    assert_eq!(a.dest, b.dest);
    assert_eq!(a.derives, b.derives);
    assert_eq!(a.build_examples, b.build_examples);
    assert_eq!(a.ormlite, b.ormlite);
    assert_eq!(a.language, b.language);
}

#[test]
fn output_dir_defaults_to_the_current_directory() {
    let config = request().build_config();
    assert_eq!(config.dest, ".");
}

#[test]
fn output_dir_is_taken_as_given() {
    let config = request().with_output_dir("gen/out".to_string()).build_config();
    assert_eq!(config.dest, "gen/out");
}

#[test]
fn derives_are_kept_verbatim_in_order_with_duplicates() {
    let config = request()
        .add_derive("ormlite::TableMeta".to_string())
        .add_derive("fake::Dummy".to_string())
        .add_derive("ormlite::TableMeta".to_string())
        .build_config();
    assert_eq!(
        config.derives,
        vec![
            "ormlite::TableMeta".to_string(),
            "fake::Dummy".to_string(),
            "ormlite::TableMeta".to_string(),
        ]
    );
}

#[test]
fn ormlite_flag_is_captured() {
    let with = request().add_config(Flag::Ormlite).build_config();
    assert!(with.ormlite);
    let without = request().add_config(Flag::Fake).build_config();
    assert!(!without.ormlite);
}

#[test]
fn examples_toggle_is_captured() {
    let on = request().build_config();
    assert!(on.build_examples);
    let off = request().with_examples(false).build_config();
    assert!(!off.build_examples);
}

#[test]
fn new_request_has_the_documented_defaults() {
    let g = Generate::new();
    assert_eq!(g.language, Language::Rust);
    assert!(g.examples);
    assert!(g.output_dir.is_none());
    assert!(g.config.is_empty());
    assert!(g.derive.is_empty());
    assert_eq!(g.name, "");
    assert_eq!(g.spec_filepath, "");
}

#[test]
fn builders_set_their_fields() {
    let g = Generate::new()
        .with_language(Language::Rust)
        .with_examples(false)
        .with_output_dir("out".to_string())
        .with_name("Stripe".to_string())
        .with_spec_filepath("stripe.yaml".to_string())
        .with_derive(vec!["a".to_string()])
        .with_config(vec![Flag::Ormlite]);
    assert_eq!(g.language, Language::Rust);
    assert!(!g.examples);
    assert_eq!(g.output_dir.as_deref(), Some("out"));
    assert_eq!(g.name, "Stripe");
    assert_eq!(g.spec_filepath, "stripe.yaml");
    assert_eq!(g.derive, vec!["a".to_string()]);
    assert_eq!(g.config, vec![Flag::Ormlite]);
}
