use ai_lib::json::Json;
use ai_lib::schema::{schema, simplify_at, simplify_schema, Position};

fn sf_doc(text: &str) -> Json {
    Json::parse(text).unwrap()
}

#[test]
fn root_loses_meta_schema_and_title() {
    let raw = sf_doc(
        "{\"$schema\":\"https://json-schema.org/draft/2019-09/schema\",\"title\":\"Args\",\"type\":\"object\"}",
    );
    assert_eq!(simplify_schema(&raw), sf_doc("{\"type\":\"object\"}"));
}

#[test]
fn nested_title_stays() {
    let raw = sf_doc(
        "{\"title\":\"Args\",\"type\":\"object\",\"properties\":{\"a\":{\"title\":\"A\",\"type\":\"string\"}}}",
    );
    assert_eq!(
        simplify_schema(&raw),
        sf_doc("{\"type\":\"object\",\"properties\":{\"a\":{\"title\":\"A\",\"type\":\"string\"}}}")
    );
}

#[test]
fn format_and_numeric_constraints_are_dropped_everywhere() {
    let raw = sf_doc(
        "{\"type\":\"object\",\"format\":\"x\",\"properties\":{\"n\":{\"type\":\"integer\",\"format\":\"uint32\",\"minimum\":0.0,\"maximum\":9,\"exclusiveMinimum\":1,\"exclusiveMaximum\":2,\"multipleOf\":3},\"l\":{\"type\":\"array\",\"items\":{\"type\":\"number\",\"format\":\"double\"}}}}",
    );
    assert_eq!(
        simplify_schema(&raw),
        sf_doc(
            "{\"type\":\"object\",\"properties\":{\"n\":{\"type\":\"integer\"},\"l\":{\"type\":\"array\",\"items\":{\"type\":\"number\"}}}}"
        )
    );
}

#[test]
fn a_property_may_be_called_like_a_keyword() {
    let raw = sf_doc(
        "{\"type\":\"object\",\"properties\":{\"format\":{\"type\":\"string\",\"format\":\"date\"},\"title\":{\"type\":\"string\"},\"minimum\":{\"type\":\"integer\"}},\"required\":[\"format\",\"title\"]}",
    );
    assert_eq!(
        simplify_schema(&raw),
        sf_doc(
            "{\"type\":\"object\",\"properties\":{\"format\":{\"type\":\"string\"},\"title\":{\"type\":\"string\"},\"minimum\":{\"type\":\"integer\"}},\"required\":[\"format\",\"title\"]}"
        )
    );
}

#[test]
fn single_allowed_value_becomes_a_constant() {
    let raw = sf_doc("{\"type\":\"string\",\"enum\":[\"only\"]}");
    assert_eq!(simplify_schema(&raw), sf_doc("{\"type\":\"string\",\"const\":\"only\"}"));
}

#[test]
fn several_allowed_values_stay_a_list() {
    let raw = sf_doc("{\"type\":\"string\",\"enum\":[\"a\",\"b\"]}");
    assert_eq!(simplify_schema(&raw), raw);
    let none = sf_doc("{\"type\":\"string\",\"enum\":[]}");
    assert_eq!(simplify_schema(&none), none);
}

#[test]
fn promoted_constant_replaces_an_earlier_one() {
    let raw = sf_doc("{\"const\":\"old\",\"enum\":[\"new\"],\"type\":\"string\"}");
    assert_eq!(simplify_schema(&raw), sf_doc("{\"const\":\"new\",\"type\":\"string\"}"));
}

#[test]
fn constant_without_single_enum_stays() {
    let raw = sf_doc("{\"const\":\"old\",\"enum\":[\"a\",\"b\"]}");
    assert_eq!(simplify_schema(&raw), raw);
}

#[test]
fn subschemas_are_simplified_in_every_place() {
    let raw = sf_doc(
        "{\"anyOf\":[{\"format\":\"a\",\"type\":\"string\"},true],\"allOf\":[{\"enum\":[1]}],\"oneOf\":[{\"minimum\":1}],\"not\":{\"format\":\"b\"},\"if\":{\"format\":\"c\"},\"then\":{\"format\":\"d\"},\"else\":{\"format\":\"e\"},\"items\":[{\"format\":\"f\"},{\"enum\":[\"x\"]}],\"additionalItems\":{\"format\":\"g\"},\"contains\":{\"format\":\"h\"},\"patternProperties\":{\"^a\":{\"format\":\"i\"}},\"additionalProperties\":{\"format\":\"j\"},\"propertyNames\":{\"format\":\"k\"},\"definitions\":{\"D\":{\"format\":\"l\",\"title\":\"D\"}}}",
    );
    assert_eq!(
        simplify_schema(&raw),
        sf_doc(
            "{\"anyOf\":[{\"type\":\"string\"},true],\"allOf\":[{\"const\":1}],\"oneOf\":[{}],\"not\":{},\"if\":{},\"then\":{},\"else\":{},\"items\":[{},{\"const\":\"x\"}],\"additionalItems\":{},\"contains\":{},\"patternProperties\":{\"^a\":{}},\"additionalProperties\":{},\"propertyNames\":{},\"definitions\":{\"D\":{\"title\":\"D\"}}}"
        )
    );
}

#[test]
fn values_that_are_no_schemas_stay() {
    let raw = sf_doc(
        "{\"default\":{\"format\":\"kept\",\"enum\":[1]},\"examples\":[{\"minimum\":1}],\"required\":[\"format\"],\"enum\":[{\"format\":\"kept\"},{\"title\":\"t\"}]}",
    );
    assert_eq!(simplify_schema(&raw), raw);
}

#[test]
fn nested_definitions_are_not_a_schema_place() {
    let raw = sf_doc("{\"properties\":{\"a\":{\"definitions\":{\"D\":{\"format\":\"kept\"}}}}}");
    assert_eq!(simplify_schema(&raw), raw);
}

#[test]
fn documents_that_are_no_objects_stay() {
    assert_eq!(simplify_schema(&Json::Bool(true)), Json::Bool(true));
    assert_eq!(simplify_schema(&Json::Null), Json::Null);
    assert_eq!(simplify_schema(&sf_doc("[{\"format\":\"x\"}]")), sf_doc("[{\"format\":\"x\"}]"));
}

#[test]
fn positions_decide_what_is_simplified() {
    let list = sf_doc("[{\"format\":\"x\",\"title\":\"t\"}]");
    assert_eq!(simplify_at(&list, Position::List), sf_doc("[{\"title\":\"t\"}]"));
    assert_eq!(simplify_at(&list, Position::OneOrList), sf_doc("[{\"title\":\"t\"}]"));
    assert_eq!(simplify_at(&list, Position::Schema), list);
    assert_eq!(simplify_at(&list, Position::Table), list);
    let one = sf_doc("{\"format\":\"x\",\"title\":\"t\"}");
    assert_eq!(simplify_at(&one, Position::Schema), sf_doc("{\"title\":\"t\"}"));
    assert_eq!(simplify_at(&one, Position::OneOrList), sf_doc("{\"title\":\"t\"}"));
    assert_eq!(simplify_at(&one, Position::Root), sf_doc("{}"));
    assert_eq!(simplify_at(&one, Position::List), one);
    let table = sf_doc("{\"format\":{\"format\":\"x\"}}");
    assert_eq!(simplify_at(&table, Position::Table), sf_doc("{\"format\":{}}"));
}

#[test]
fn simplifying_twice_changes_nothing_more() {
    let raw = sf_doc(
        "{\"$schema\":\"s\",\"title\":\"Args\",\"type\":\"object\",\"properties\":{\"n\":{\"type\":\"integer\",\"format\":\"int64\"},\"k\":{\"enum\":[\"only\"]}}}",
    );
    let once = simplify_schema(&raw);
    assert_eq!(simplify_schema(&once), once);
    assert_eq!(simplify_schema(&raw), once);
}

#[test]
fn generated_schema_of_a_string() {
    assert_eq!(schema::<String>(), sf_doc("{\"type\":\"string\"}"));
}

#[test]
fn generated_schema_of_an_integer_loses_format_and_bounds() {
    assert_eq!(schema::<u32>(), sf_doc("{\"type\":\"integer\"}"));
    assert_eq!(schema::<i64>(), sf_doc("{\"type\":\"integer\"}"));
}

#[test]
fn generated_schema_of_a_list_of_strings() {
    assert_eq!(
        schema::<Vec<String>>(),
        sf_doc("{\"type\":\"array\",\"items\":{\"type\":\"string\"}}")
    );
}

#[test]
fn generated_schema_of_an_optional_string() {
    assert_eq!(schema::<Option<String>>(), sf_doc("{\"type\":[\"string\",\"null\"]}"));
}

#[test]
fn generated_schema_is_the_same_each_time() {
    assert_eq!(schema::<Vec<Option<u8>>>(), schema::<Vec<Option<u8>>>());
}

#[test]
fn generated_schema_is_an_object() {
    assert!(matches!(schema::<String>(), Json::Object(_)));
    assert!(matches!(schema::<bool>(), Json::Object(_)));
    assert!(matches!(schema::<()>(), Json::Object(_)));
    assert!(matches!(schema::<Vec<Option<i64>>>(), Json::Object(_)));
    assert!(matches!(schema::<std::collections::BTreeMap<String, u8>>(), Json::Object(_)));
}
