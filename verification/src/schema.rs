//! The parameter schema of a callable function: what `schemars` generates for the argument
//! type, without what only serves presentation.

use crate::json::{Json, Member};
use vstd::prelude::*;
use vstd::string::*;

verus! {

/// Where a document stands within a schema.
#[derive(Clone, Copy, Debug, PartialEq, Eq, Structural)]
pub enum Position {
    /// The whole schema.
    Root,
    /// A schema within the schema.
    Schema,
    /// One schema, or an array of schemas.
    OneOrList,
    /// An array of schemas.
    List,
    /// An object whose values are schemas.
    Table,
}

/// What becomes of a member of a schema object.
#[derive(Clone, Copy, Debug, PartialEq, Eq, Structural)]
pub enum Action {
    /// The member is left out.
    Drop,
    /// The member lists one allowed value, which becomes the schema's constant.
    Promote,
    /// The member stays as it is.
    Keep,
    /// The member's value holds schemas, which are simplified in turn.
    Descend(Position),
}

/// Keys that only serve presentation: the format hint and the numeric constraints.
pub open spec fn is_presentation_key(key: Seq<char>) -> bool {
    key == "format"@ || key == "multipleOf"@ || key == "maximum"@ || key == "exclusiveMaximum"@
        || key == "minimum"@ || key == "exclusiveMinimum"@
}

/// Keys that are left out of the whole schema only: the meta-schema pointer and the title.
pub open spec fn is_root_only_key(key: Seq<char>) -> bool {
    key == "$schema"@ || key == "title"@
}

/// Keys whose value is one schema.
pub open spec fn holds_schema(key: Seq<char>) -> bool {
    key == "not"@ || key == "if"@ || key == "then"@ || key == "else"@ || key == "additionalItems"@
        || key == "contains"@ || key == "additionalProperties"@ || key == "propertyNames"@
}

/// Keys whose value is an array of schemas.
pub open spec fn holds_schema_list(key: Seq<char>) -> bool {
    key == "allOf"@ || key == "anyOf"@ || key == "oneOf"@
}

/// Keys whose value is an object of schemas.
pub open spec fn holds_schema_map(key: Seq<char>) -> bool {
    key == "properties"@ || key == "patternProperties"@
}

/// The one value of an array with exactly one item.
pub open spec fn single_value(value: crate::json::JsonValue) -> Option<crate::json::JsonValue> {
    match value {
        crate::json::JsonValue::Array(items) => if items.len() == 1 {
            Some(items[0])
        } else {
            None
        },
        _ => None,
    }
}

/// Whether a member lists exactly one allowed value.
pub open spec fn is_single_enum(member: crate::json::MemberValue) -> bool {
    member.key == "enum"@ && single_value(member.value) is Some
}

/// Whether a schema object lists exactly one allowed value.
pub open spec fn has_single_enum(members: Seq<crate::json::MemberValue>) -> bool {
    crate::search::first_index(members, |m: crate::json::MemberValue| is_single_enum(m)) is Some
}

/// What becomes of a member of a schema object. `promote` says that the object lists exactly
/// one allowed value, `root` that the object is the whole schema.
pub open spec fn action_for(member: crate::json::MemberValue, promote: bool, root: bool) -> Action {
    let key = member.key;
    if key == "const"@ {
        if promote {
            Action::Drop
        } else {
            Action::Keep
        }
    } else if key == "enum"@ {
        if single_value(member.value) is Some {
            Action::Promote
        } else {
            Action::Keep
        }
    } else if is_presentation_key(key) || (root && is_root_only_key(key)) {
        Action::Drop
    } else if holds_schema(key) {
        Action::Descend(Position::Schema)
    } else if holds_schema_list(key) {
        Action::Descend(Position::List)
    } else if key == "items"@ {
        Action::Descend(Position::OneOrList)
    } else if holds_schema_map(key) || (root && key == "definitions"@) {
        Action::Descend(Position::Table)
    } else {
        Action::Keep
    }
}

/// The elements that are present among the first `n`, in order.
pub open spec fn present<T>(options: Seq<Option<T>>, n: int) -> Seq<T>
    decreases n,
{
    if n <= 0 {
        Seq::empty()
    } else {
        match options[n - 1] {
            Some(x) => present(options, n - 1).push(x),
            None => present(options, n - 1),
        }
    }
}

/// A document at a place within a schema, without what only serves presentation. In every
/// schema object the format hint and the numeric constraints are left out, and a list of
/// exactly one allowed value becomes a constant. The whole schema also loses its meta-schema
/// pointer and its title. Everything else stays, in its order.
pub open spec fn simplified(doc: crate::json::JsonValue, at: Position) -> crate::json::JsonValue
    decreases doc, 0int,
{
    match doc {
        crate::json::JsonValue::Array(items) => if at is List || at is OneOrList {
            crate::json::JsonValue::Array(simplified_each(items))
        } else {
            doc
        },
        crate::json::JsonValue::Object(members) => if at is Table {
            crate::json::JsonValue::Object(simplified_values(members))
        } else if at is List {
            doc
        } else {
            crate::json::JsonValue::Object(simplified_members(members, at is Root))
        },
        _ => doc,
    }
}

/// Each schema of a sequence, simplified.
pub open spec fn simplified_each(items: Seq<crate::json::JsonValue>) -> Seq<crate::json::JsonValue>
    decreases items, 1int,
{
    Seq::new(
        items.len(),
        |i: int|
            if 0 <= i < items.len() {
                simplified(items[i], Position::Schema)
            } else {
                crate::json::JsonValue::Null
            },
    )
}

/// Each member of an object of schemas, with its schema simplified.
pub open spec fn simplified_values(members: Seq<crate::json::MemberValue>) -> Seq<
    crate::json::MemberValue,
>
    decreases members, 1int,
{
    Seq::new(
        members.len(),
        |i: int|
            if 0 <= i < members.len() {
                crate::json::MemberValue {
                    key: members[i].key,
                    value: simplified(members[i].value, Position::Schema),
                }
            } else {
                crate::json::MemberValue { key: Seq::empty(), value: crate::json::JsonValue::Null }
            },
    )
}

/// What each member of a schema object becomes: nothing where it is left out.
pub open spec fn rewritten(members: Seq<crate::json::MemberValue>, promote: bool, root: bool) -> Seq<
    Option<crate::json::MemberValue>,
>
    decreases members, 1int,
{
    Seq::new(
        members.len(),
        |i: int|
            if 0 <= i < members.len() {
                match action_for(members[i], promote, root) {
                    Action::Drop => None,
                    Action::Promote => Some(
                        crate::json::MemberValue {
                            key: "const"@,
                            value: single_value(members[i].value)->Some_0,
                        },
                    ),
                    Action::Keep => Some(members[i]),
                    Action::Descend(at) => Some(
                        crate::json::MemberValue {
                            key: members[i].key,
                            value: simplified(members[i].value, at),
                        },
                    ),
                }
            } else {
                None
            },
    )
}

/// The members of a schema object, simplified.
pub open spec fn simplified_members(members: Seq<crate::json::MemberValue>, root: bool) -> Seq<
    crate::json::MemberValue,
>
    decreases members, 2int,
{
    present(rewritten(members, has_single_enum(members), root), members.len() as int)
}

/// The parameter schema made of a generated schema.
pub open spec fn schema_form(raw: crate::json::JsonValue) -> crate::json::JsonValue {
    simplified(raw, Position::Root)
}

/// Whether a member lists exactly one allowed value.
fn lists_one_value(member: &Member) -> (r: bool)
    ensures
        r == is_single_enum(crate::json::MemberValue { key: member.key@, value: member.value@ }),
{
    match &member.value {
        Json::Array(items) => {
            proof {
                crate::json::lemma_array_view(*items);
            }
            items.len() == 1 && crate::json::same_text(member.key.as_str(), "enum")
        },
        _ => false,
    }
}

/// Whether a schema object lists exactly one allowed value.
fn promotes(members: &Vec<Member>) -> (r: bool)
    ensures
        r == has_single_enum(crate::json::members_of(members@)),
{
    let ghost values = crate::json::members_of(members@);
    let ghost pred = |m: crate::json::MemberValue| is_single_enum(m);
    let mut i: usize = 0;
    while i < members.len()
        invariant
            i <= members.len(),
            values == crate::json::members_of(members@),
            pred == (|m: crate::json::MemberValue| is_single_enum(m)),
            forall|j: int| 0 <= j < i ==> !pred(values[j]),
        decreases members.len() - i,
    {
        if lists_one_value(&members[i]) {
            proof {
                assert(pred(values[i as int]));
                crate::search::lemma_first_index_at(values, pred, i as int);
            }
            return true;
        }
        assert(!pred(values[i as int]));
        i += 1;
    }
    proof {
        crate::search::lemma_first_index_none(values, pred);
    }
    false
}

/// What becomes of a member of a schema object.
fn classify(member: &Member, promote: bool, root: bool) -> (r: Action)
    ensures
        r == action_for(
            crate::json::MemberValue { key: member.key@, value: member.value@ },
            promote,
            root,
        ),
{
    let key = member.key.as_str();
    if crate::json::same_text(key, "const") {
        if promote {
            Action::Drop
        } else {
            Action::Keep
        }
    } else if crate::json::same_text(key, "enum") {
        if lists_one_value(member) {
            Action::Promote
        } else {
            Action::Keep
        }
    } else if crate::json::same_text(key, "format") || crate::json::same_text(key, "multipleOf")
        || crate::json::same_text(key, "maximum") || crate::json::same_text(
        key,
        "exclusiveMaximum",
    ) || crate::json::same_text(key, "minimum") || crate::json::same_text(
        key,
        "exclusiveMinimum",
    ) {
        Action::Drop
    } else if root && (crate::json::same_text(key, "$schema") || crate::json::same_text(
        key,
        "title",
    )) {
        Action::Drop
    } else if crate::json::same_text(key, "not") || crate::json::same_text(key, "if")
        || crate::json::same_text(key, "then") || crate::json::same_text(key, "else")
        || crate::json::same_text(key, "additionalItems") || crate::json::same_text(
        key,
        "contains",
    ) || crate::json::same_text(key, "additionalProperties") || crate::json::same_text(
        key,
        "propertyNames",
    ) {
        Action::Descend(Position::Schema)
    } else if crate::json::same_text(key, "allOf") || crate::json::same_text(key, "anyOf")
        || crate::json::same_text(key, "oneOf") {
        Action::Descend(Position::List)
    } else if crate::json::same_text(key, "items") {
        Action::Descend(Position::OneOrList)
    } else if crate::json::same_text(key, "properties") || crate::json::same_text(
        key,
        "patternProperties",
    ) || (root && crate::json::same_text(key, "definitions")) {
        Action::Descend(Position::Table)
    } else {
        Action::Keep
    }
}

/// Each schema of a list, simplified.
fn simplify_each(items: &Vec<Json>) -> (r: Vec<Json>)
    ensures
        crate::json::values_of(r@) == simplified_each(crate::json::values_of(items@)),
    decreases items, 1int,
{
    let mut out: Vec<Json> = Vec::new();
    let mut i: usize = 0;
    while i < items.len()
        invariant
            i <= items.len(),
            out@.len() == i,
            forall|k: int| 0 <= k < i ==> out@[k]@ == simplified(items@[k]@, Position::Schema),
        decreases items.len() - i,
    {
        proof {
            assert(decreases_to!(items => items[i as int]));
        }
        let item = simplify_at(&items[i], Position::Schema);
        out.push(item);
        i += 1;
    }
    assert(crate::json::values_of(out@) =~= simplified_each(crate::json::values_of(items@)));
    out
}

/// Each member of an object of schemas, with its schema simplified.
fn simplify_values(members: &Vec<Member>) -> (r: Vec<Member>)
    ensures
        crate::json::members_of(r@) == simplified_values(crate::json::members_of(members@)),
    decreases members, 1int,
{
    let mut out: Vec<Member> = Vec::new();
    let mut i: usize = 0;
    while i < members.len()
        invariant
            i <= members.len(),
            out@.len() == i,
            forall|k: int|
                0 <= k < i ==> out@[k].key@ == members@[k].key@ && out@[k].value@ == simplified(
                    members@[k].value@,
                    Position::Schema,
                ),
        decreases members.len() - i,
    {
        proof {
            assert(decreases_to!(members => members[i as int]));
            assert(decreases_to!(members[i as int] => members[i as int].value));
        }
        let value = simplify_at(&members[i].value, Position::Schema);
        out.push(Member { key: members[i].key.clone(), value });
        i += 1;
    }
    assert(crate::json::members_of(out@) =~= simplified_values(crate::json::members_of(members@)));
    out
}

/// The members of a schema object, simplified.
fn simplify_members(members: &Vec<Member>, root: bool) -> (r: Vec<Member>)
    ensures
        crate::json::members_of(r@) == simplified_members(crate::json::members_of(members@), root),
    decreases members, 2int,
{
    let promote = promotes(members);
    let ghost values = crate::json::members_of(members@);
    let ghost fates = rewritten(values, promote, root);
    let mut out: Vec<Member> = Vec::new();
    assert(crate::json::members_of(out@) =~= present(fates, 0));
    let mut i: usize = 0;
    while i < members.len()
        invariant
            i <= members.len(),
            values == crate::json::members_of(members@),
            fates == rewritten(values, promote, root),
            crate::json::members_of(out@) == present(fates, i as int),
        decreases members.len() - i,
    {
        let ghost before = crate::json::members_of(out@);
        let member = &members[i];
        assert(values[i as int] == (crate::json::MemberValue {
            key: member.key@,
            value: member.value@,
        }));
        match classify(member, promote, root) {
            Action::Drop => {},
            Action::Promote => {
                match &member.value {
                    Json::Array(items) => {
                        proof {
                            crate::json::lemma_array_view(*items);
                        }
                        if items.len() == 1 {
                            out.push(
                                Member { key: String::from_str("const"), value: items[0].clone() },
                            );
                            assert(crate::json::members_of(out@) =~= before.push(
                                fates[i as int]->Some_0,
                            ));
                        }
                    },
                    _ => {},
                }
            },
            Action::Keep => {
                out.push(Member { key: member.key.clone(), value: member.value.clone() });
                assert(crate::json::members_of(out@) =~= before.push(fates[i as int]->Some_0));
            },
            Action::Descend(at) => {
                proof {
                    assert(decreases_to!(members => members[i as int]));
                    assert(decreases_to!(members[i as int] => members[i as int].value));
                }
                let value = simplify_at(&member.value, at);
                out.push(Member { key: member.key.clone(), value });
                assert(crate::json::members_of(out@) =~= before.push(fates[i as int]->Some_0));
            },
        }
        i += 1;
    }
    out
}

/// A document at a place within a schema, without what only serves presentation.
pub fn simplify_at(doc: &Json, at: Position) -> (r: Json)
    ensures
        r@ == simplified(doc@, at),
    decreases doc, 0int,
{
    match doc {
        Json::Array(items) => {
            proof {
                crate::json::lemma_array_view(*items);
            }
            match at {
                Position::List | Position::OneOrList => {
                    let out = simplify_each(items);
                    proof {
                        crate::json::lemma_array_view(out);
                    }
                    Json::Array(out)
                },
                _ => doc.clone(),
            }
        },
        Json::Object(members) => {
            proof {
                crate::json::lemma_object_view(*members);
            }
            match at {
                Position::Table => {
                    let out = simplify_values(members);
                    proof {
                        crate::json::lemma_object_view(out);
                    }
                    Json::Object(out)
                },
                Position::List => doc.clone(),
                Position::Root => {
                    let out = simplify_members(members, true);
                    proof {
                        crate::json::lemma_object_view(out);
                    }
                    Json::Object(out)
                },
                _ => {
                    let out = simplify_members(members, false);
                    proof {
                        crate::json::lemma_object_view(out);
                    }
                    Json::Object(out)
                },
            }
        },
        _ => doc.clone(),
    }
}

/// The parameter schema made of a generated schema: the meta-schema pointer and the title of
/// the whole schema are left out, and so are, in every schema within it, the format hint and
/// the numeric constraints; a list of exactly one allowed value becomes a constant.
pub fn simplify_schema(raw: &Json) -> (r: Json)
    ensures
        r@ == schema_form(raw@),
{
    simplify_at(raw, Position::Root)
}

/// The schema that `schemars` generates for `T` with the settings of JSON Schema 2019-09, as
/// `serde_json::to_value` writes it. A schema is made of strings, booleans, integers and plain
/// maps, so that writing it does not fail. The root schema is a struct with a flattened field,
/// which is written as a map: the value is an object.
#[verifier::external_body]
fn generated_schema<T: schemars::JsonSchema>() -> (r: serde_json::Value)
    ensures
        crate::json::value_model(r) is Object,
{
    let settings = schemars::gen::SchemaSettings::draft2019_09();
    serde_json::to_value(settings.into_generator().into_root_schema_for::<T>()).unwrap()
}

/// The parameter schema of the argument type `T`: the schema generated for `T`, simplified.
/// It is an object, the parameter schema of the object that was generated.
pub fn schema<T: schemars::JsonSchema>() -> (r: Json)
    ensures
        r@ is Object,
        exists|raw: crate::json::JsonValue| raw is Object && r@ == #[trigger] schema_form(raw),
{
    let raw = crate::json::json_from_value(&generated_schema::<T>());
    simplify_schema(&raw)
}

/// Where every element among the first `n` that is present has a property, every element of
/// `present` has it.
pub proof fn lemma_present_keeps<T>(options: Seq<Option<T>>, n: int, p: spec_fn(T) -> bool)
    requires
        0 <= n <= options.len(),
        forall|j: int| 0 <= j < n && options[j] is Some ==> p(options[j]->Some_0),
    ensures
        forall|k: int| 0 <= k < present(options, n).len() ==> p(#[trigger] present(options, n)[k]),
    decreases n,
{
    if n > 0 {
        lemma_present_keeps(options, n - 1, p);
        let before = present(options, n - 1);
        assert forall|k: int| 0 <= k < present(options, n).len() implies p(
            #[trigger] present(options, n)[k],
        ) by {
            if k < before.len() {
                assert(present(options, n)[k] == before[k]);
            } else {
                assert(present(options, n)[k] == options[n - 1]->Some_0);
            }
        }
    }
}

/// Where all of the first `n` elements are present, `present` is those elements.
pub proof fn lemma_present_all<T>(options: Seq<Option<T>>, n: int)
    requires
        0 <= n <= options.len(),
        forall|j: int| 0 <= j < n ==> options[j] is Some,
    ensures
        present(options, n).len() == n,
        forall|k: int| 0 <= k < n ==> options[k] == Some(#[trigger] present(options, n)[k]),
    decreases n,
{
    if n > 0 {
        lemma_present_all(options, n - 1);
    }
}

/// Whether simplifying leaves a member of a schema object as it is.
pub open spec fn is_settled(member: crate::json::MemberValue, root: bool) -> bool {
    &&& !is_single_enum(member)
    &&& match action_for(member, false, root) {
        Action::Drop => false,
        Action::Promote => false,
        Action::Keep => true,
        Action::Descend(at) => simplified(member.value, at) == member.value,
    }
}

/// Simplifying is idempotent: a simplified document is left as it is when it is simplified
/// once more for the same place.
pub proof fn lemma_simplified_twice(doc: crate::json::JsonValue, at: Position)
    ensures
        simplified(simplified(doc, at), at) == simplified(doc, at),
    decreases doc,
{
    match doc {
        crate::json::JsonValue::Array(items) => {
            if at is List || at is OneOrList {
                let once = simplified_each(items);
                assert forall|i: int| 0 <= i < items.len() implies simplified(
                    once[i],
                    Position::Schema,
                ) == once[i] by {
                    lemma_simplified_twice(items[i], Position::Schema);
                }
                assert(simplified_each(once) =~= once);
            }
        },
        crate::json::JsonValue::Object(members) => {
            if at is Table {
                let once = simplified_values(members);
                assert forall|i: int| 0 <= i < members.len() implies simplified(
                    once[i].value,
                    Position::Schema,
                ) == once[i].value by {
                    lemma_simplified_twice(members[i].value, Position::Schema);
                }
                assert(simplified_values(once) =~= once);
            } else if !(at is List) {
                let root = at is Root;
                let promote = has_single_enum(members);
                let fates = rewritten(members, promote, root);
                let once = simplified_members(members, root);
                let settled = |m: crate::json::MemberValue| is_settled(m, root);
                assert forall|j: int| 0 <= j < members.len() && fates[j] is Some implies settled(
                    fates[j]->Some_0,
                ) by {
                    reveal_strlit("const");
                    reveal_strlit("enum");
                    assert("const"@.len() != "enum"@.len());
                    let member = members[j];
                    let kept = fates[j]->Some_0;
                    match action_for(member, promote, root) {
                        Action::Descend(below) => {
                            lemma_simplified_twice(member.value, below);
                            assert(kept.key == member.key);
                            assert(kept.value == simplified(member.value, below));
                            assert(action_for(kept, false, root) == Action::Descend(below));
                        },
                        Action::Promote => {
                            assert(kept.key == "const"@);
                            assert(action_for(kept, false, root) == Action::Keep);
                        },
                        Action::Keep => {
                            assert(kept == member);
                            assert(action_for(kept, false, root) == Action::Keep);
                        },
                        Action::Drop => {},
                    }
                    assert(is_settled(kept, root));
                }
                lemma_present_keeps(fates, members.len() as int, settled);
                assert forall|k: int| 0 <= k < once.len() implies is_settled(once[k], root) by {
                    assert(settled(once[k]));
                }
                crate::search::lemma_first_index_none(
                    once,
                    |m: crate::json::MemberValue| is_single_enum(m),
                );
                let again = rewritten(once, false, root);
                assert forall|k: int| 0 <= k < once.len() implies again[k] == Some(once[k]) by {
                    assert(is_settled(once[k], root));
                }
                lemma_present_all(again, once.len() as int);
                assert(simplified_members(once, root) =~= once);
            }
        },
        _ => {},
    }
}

/// Making the parameter schema of a parameter schema changes nothing.
pub proof fn lemma_schema_form_twice(raw: crate::json::JsonValue)
    ensures
        schema_form(schema_form(raw)) == schema_form(raw),
{
    lemma_simplified_twice(raw, Position::Root);
}

} // verus!
