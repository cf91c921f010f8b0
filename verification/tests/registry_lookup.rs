use ai_lib::json::Json;
use ai_lib::registry::{FunctionDecl, ParamDecl, Registry};
use ai_lib::wire::Function;

fn rl_decl(name: &str, description: Option<&str>, schema: &str) -> FunctionDecl {
    FunctionDecl {
        name: name.to_string(),
        description: description.map(|d| d.to_string()),
        params: vec![ParamDecl { name: "premise".to_string(), required: true }],
        parameters: Json::parse(schema).unwrap(),
    }
}

fn rl_registry() -> Registry {
    let mut registry = Registry::new();
    assert!(registry.register(rl_decl(
        "write_premise",
        Some("Write a story premise"),
        "{\"type\":\"object\"}"
    )));
    assert!(registry.register(rl_decl("edit_premise", None, "{\"type\":\"string\"}")));
    registry
}

#[test]
fn new_registry_declares_nothing() {
    let registry = Registry::new();
    assert!(registry.functions.is_empty());
    assert_eq!(registry.descriptor_for("anything"), None);
    assert_eq!(registry.position("anything"), None);
}

#[test]
fn descriptor_has_name_description_and_schema() {
    let registry = rl_registry();
    assert_eq!(
        registry.descriptor_for("write_premise"),
        Some(Function {
            name: "write_premise".to_string(),
            description: "Write a story premise".to_string(),
            parameters: Json::parse("{\"type\":\"object\"}").unwrap(),
        })
    );
}

#[test]
fn description_defaults_to_the_name() {
    let registry = rl_registry();
    assert_eq!(
        registry.descriptor_for("edit_premise"),
        Some(Function {
            name: "edit_premise".to_string(),
            description: "edit_premise".to_string(),
            parameters: Json::parse("{\"type\":\"string\"}").unwrap(),
        })
    );
}

#[test]
fn unknown_name_has_no_descriptor() {
    let registry = rl_registry();
    assert_eq!(registry.descriptor_for("write_epilogue"), None);
    assert_eq!(registry.descriptor_for("Write_premise"), None);
    assert_eq!(registry.descriptor_for(""), None);
}

#[test]
fn descriptor_is_the_same_whenever_it_is_asked_for() {
    let mut registry = rl_registry();
    let first = registry.descriptor_for("write_premise");
    let _ = registry.descriptor_for("edit_premise");
    let _ = registry.descriptor_for("nothing");
    let second = registry.descriptor_for("write_premise");
    assert_eq!(first, second);
    assert!(registry.register(rl_decl("later", None, "{}")));
    assert_eq!(registry.descriptor_for("write_premise"), first);
}

#[test]
fn a_name_is_declared_once() {
    let mut registry = rl_registry();
    assert!(!registry.register(rl_decl("write_premise", Some("another"), "{}")));
    assert_eq!(registry.functions.len(), 2);
    assert_eq!(
        registry.descriptor_for("write_premise").unwrap().description,
        "Write a story premise"
    );
}

#[test]
fn position_is_the_place_of_the_declaration() {
    let registry = rl_registry();
    assert_eq!(registry.position("write_premise"), Some(0));
    assert_eq!(registry.position("edit_premise"), Some(1));
    assert_eq!(registry.position("missing"), None);
}

#[test]
fn resolve_answers_each_name_in_order() {
    let registry = rl_registry();
    let names = vec!["edit_premise".to_string(), "nope".to_string(), "write_premise".to_string()];
    let resolved = registry.resolve(&names);
    assert_eq!(resolved.len(), 3);
    assert_eq!(resolved[0].as_ref().unwrap().name, "edit_premise");
    assert_eq!(resolved[1], None);
    assert_eq!(resolved[2].as_ref().unwrap().name, "write_premise");
    assert!(registry.resolve(&vec![]).is_empty());
}

#[test]
fn declaration_gives_its_descriptor() {
    let decl = rl_decl("f", None, "{\"a\":1}");
    let d = decl.descriptor();
    assert_eq!(d.name, "f");
    assert_eq!(d.description, "f");
    assert_eq!(d.parameters, Json::parse("{\"a\":1}").unwrap());
}
