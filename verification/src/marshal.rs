//! Decoding the arguments of a call: the payload is read as JSON, each declared parameter is
//! looked up under any of its spellings, and the handler is given the arguments under the
//! declared names.

use crate::json::{Json, Member};
use crate::outcome::{AiFunctionError, AiFunctionResult};
use crate::registry::{ParamDecl, Registry};
use vstd::prelude::*;
use vstd::string::*;

verus! {

/// The snake_case spelling that `convert_case` gives a name.
pub uninterp spec fn snake_case(name: Seq<char>) -> Seq<char>;

/// The camelCase spelling that `convert_case` gives a name.
pub uninterp spec fn camel_case(name: Seq<char>) -> Seq<char>;

/// The PascalCase spelling that `convert_case` gives a name.
pub uninterp spec fn pascal_case(name: Seq<char>) -> Seq<char>;

/// `Casing::to_case` of `convert_case` with `Case::Snake`. The spelling depends on the name
/// alone.
#[verifier::external_body]
fn to_snake(name: &str) -> (r: String)
    ensures
        r@ == snake_case(name@),
{
    convert_case::Casing::to_case(&name, convert_case::Case::Snake)
}

/// `Casing::to_case` of `convert_case` with `Case::Camel`. The spelling depends on the name
/// alone.
#[verifier::external_body]
fn to_camel(name: &str) -> (r: String)
    ensures
        r@ == camel_case(name@),
{
    convert_case::Casing::to_case(&name, convert_case::Case::Camel)
}

/// `Casing::to_case` of `convert_case` with `Case::Pascal`. The spelling depends on the name
/// alone.
#[verifier::external_body]
fn to_pascal(name: &str) -> (r: String)
    ensures
        r@ == pascal_case(name@),
{
    convert_case::Casing::to_case(&name, convert_case::Case::Pascal)
}

/// The spellings under which a parameter is accepted: its declared name and the snake_case,
/// camelCase and PascalCase forms of that name.
pub open spec fn alias_texts(name: Seq<char>) -> Seq<Seq<char>> {
    seq![name, snake_case(name), camel_case(name), pascal_case(name)]
}

/// Whether a payload key spells the parameter called `name`.
pub open spec fn is_alias(key: Seq<char>, name: Seq<char>) -> bool {
    key == name || key == snake_case(name) || key == camel_case(name) || key == pascal_case(name)
}

/// The position of the first payload member whose key spells the parameter, if there is one.
pub open spec fn argument_at(members: Seq<crate::json::MemberValue>, name: Seq<char>) -> Option<
    int,
> {
    crate::search::first_index(members, |m: crate::json::MemberValue| is_alias(m.key, name))
}

/// The value that a payload gives a parameter: that of the first member whose key spells it.
/// Where several members spell one parameter, the first in the payload counts and the others
/// are passed over.
pub open spec fn argument_for(
    members: Seq<crate::json::MemberValue>,
    name: Seq<char>,
) -> Option<crate::json::JsonValue> {
    match argument_at(members, name) {
        Some(i) => Some(members[i].value),
        None => None,
    }
}

/// The message for a required parameter that the payload does not give.
pub open spec fn missing_message(name: Seq<char>) -> Seq<char> {
    "missing field `"@ + name + "`"@
}

/// The message for a payload that is not a JSON object.
pub open spec fn not_object_message() -> Seq<char> {
    "invalid type: expected a JSON object"@
}

/// The message for a call of a function that is not declared.
pub open spec fn not_found_message(name: Seq<char>) -> Seq<char> {
    "function "@ + name + " not found"@
}

/// The arguments of the first `n` declared parameters, under the declared names and in the
/// declared order; a parameter that is not required and not given is left out. The message
/// names the first required parameter that the payload does not give.
pub open spec fn resolved(
    params: Seq<crate::registry::ParamView>,
    members: Seq<crate::json::MemberValue>,
    n: int,
) -> Result<Seq<crate::json::MemberValue>, Seq<char>>
    decreases n,
{
    if n <= 0 {
        Ok(Seq::empty())
    } else {
        match resolved(params, members, n - 1) {
            Err(message) => Err(message),
            Ok(found) => match argument_for(members, params[n - 1].name) {
                Some(value) => Ok(
                    found.push(crate::json::MemberValue { key: params[n - 1].name, value }),
                ),
                None => if params[n - 1].required {
                    Err(missing_message(params[n - 1].name))
                } else {
                    Ok(found)
                },
            },
        }
    }
}

/// The arguments that a payload document gives the declared parameters, as an object, or the
/// error that is reported to the model.
pub open spec fn normalized(
    params: Seq<crate::registry::ParamView>,
    doc: crate::json::JsonValue,
) -> Result<crate::json::JsonValue, crate::outcome::ErrorView> {
    match doc {
        crate::json::JsonValue::Object(members) => match resolved(
            params,
            members,
            params.len() as int,
        ) {
            Ok(found) => Ok(crate::json::JsonValue::Object(found)),
            Err(message) => Err(crate::outcome::ErrorView::Recoverable(message)),
        },
        _ => Err(crate::outcome::ErrorView::Recoverable(not_object_message())),
    }
}

/// The arguments decoded from what the reader made of the payload text.
pub open spec fn decoded(
    params: Seq<crate::registry::ParamView>,
    parsed: Result<crate::json::JsonValue, Seq<char>>,
) -> Result<crate::json::JsonValue, crate::outcome::ErrorView> {
    match parsed {
        Ok(doc) => normalized(params, doc),
        Err(message) => Err(crate::outcome::ErrorView::Recoverable(message)),
    }
}

/// What a call is prepared to: the arguments for the handler, or the error that is reported
/// to the model. A name that is not declared is reported before the payload is looked at.
pub open spec fn prepared(
    decls: Seq<crate::registry::DeclView>,
    name: Seq<char>,
    parsed: Result<crate::json::JsonValue, Seq<char>>,
) -> Result<crate::json::JsonValue, crate::outcome::ErrorView> {
    match crate::registry::declared_at(decls, name) {
        Some(i) => decoded(decls[i].params, parsed),
        None => Err(crate::outcome::ErrorView::Recoverable(not_found_message(name))),
    }
}

/// Whether an outcome of decoding is the one that the model describes.
pub open spec fn decoding_is(
    r: Result<Json, AiFunctionError>,
    model: Result<crate::json::JsonValue, crate::outcome::ErrorView>,
) -> bool {
    match r {
        Ok(doc) => model == Ok::<crate::json::JsonValue, crate::outcome::ErrorView>(doc@),
        Err(error) => model == Err::<crate::json::JsonValue, crate::outcome::ErrorView>(error@),
    }
}

/// The spellings under which a parameter is accepted.
pub fn aliases(name: &str) -> (r: Vec<String>)
    ensures
        crate::outcome::texts_of(r@) == alias_texts(name@),
{
    let mut spellings: Vec<String> = Vec::new();
    spellings.push(String::from_str(name));
    spellings.push(to_snake(name));
    spellings.push(to_camel(name));
    spellings.push(to_pascal(name));
    assert(crate::outcome::texts_of(spellings@) =~= alias_texts(name@));
    spellings
}

/// Whether `key` is one of the given spellings.
fn spells(key: &str, spellings: &Vec<String>) -> (r: bool)
    ensures
        r == crate::outcome::texts_of(spellings@).contains(key@),
{
    let ghost texts = crate::outcome::texts_of(spellings@);
    let mut i: usize = 0;
    while i < spellings.len()
        invariant
            i <= spellings.len(),
            texts == crate::outcome::texts_of(spellings@),
            forall|j: int| 0 <= j < i ==> texts[j] != key@,
        decreases spellings.len() - i,
    {
        if crate::json::same_text(spellings[i].as_str(), key) {
            assert(texts[i as int] == key@);
            return true;
        }
        i += 1;
    }
    false
}

/// The place of the argument that a payload gives a parameter: the first member whose key is
/// one of the parameter's spellings.
pub fn find_argument(members: &Vec<Member>, name: &str) -> (r: Option<usize>)
    ensures
        match r {
            Some(i) => argument_at(crate::json::members_of(members@), name@) == Some(i as int) && i
                < members@.len(),
            None => argument_at(crate::json::members_of(members@), name@) is None,
        },
{
    let spellings = aliases(name);
    let ghost values = crate::json::members_of(members@);
    let ghost pred = |m: crate::json::MemberValue| is_alias(m.key, name@);
    proof {
        lemma_alias_texts(name@);
    }
    let mut i: usize = 0;
    while i < members.len()
        invariant
            i <= members.len(),
            values == crate::json::members_of(members@),
            pred == (|m: crate::json::MemberValue| is_alias(m.key, name@)),
            crate::outcome::texts_of(spellings@) == alias_texts(name@),
            forall|key: Seq<char>| alias_texts(name@).contains(key) == is_alias(key, name@),
            forall|j: int| 0 <= j < i ==> !pred(values[j]),
        decreases members.len() - i,
    {
        if spells(members[i].key.as_str(), &spellings) {
            proof {
                assert(pred(values[i as int]));
                crate::search::lemma_first_index_at(values, pred, i as int);
            }
            return Some(i);
        }
        assert(!pred(values[i as int]));
        i += 1;
    }
    proof {
        crate::search::lemma_first_index_none(values, pred);
    }
    None
}

/// A key is among a parameter's spellings exactly where it spells the parameter.
pub proof fn lemma_alias_texts(name: Seq<char>)
    ensures
        forall|key: Seq<char>| alias_texts(name).contains(key) == is_alias(key, name),
{
    let texts = alias_texts(name);
    assert forall|key: Seq<char>| texts.contains(key) == is_alias(key, name) by {
        if is_alias(key, name) {
            if key == name {
                assert(texts[0] == key);
            } else if key == snake_case(name) {
                assert(texts[1] == key);
            } else if key == camel_case(name) {
                assert(texts[2] == key);
            } else {
                assert(texts[3] == key);
            }
        }
    }
}

/// The message for a required parameter that the payload does not give.
fn missing_field(name: &str) -> (r: String)
    ensures
        r@ == missing_message(name@),
{
    String::from_str("missing field `").concat(name).concat("`")
}

/// The message for a call of a function that is not declared.
fn not_found(name: &str) -> (r: String)
    ensures
        r@ == not_found_message(name@),
{
    String::from_str("function ").concat(name).concat(" not found")
}

/// Looks each declared parameter up in the payload and hands back the arguments as an object
/// under the declared names. A payload that is no object, or that lacks a required parameter,
/// is a recoverable error.
pub fn normalize_arguments(params: &Vec<ParamDecl>, payload: &Json) -> (r: Result<
    Json,
    AiFunctionError,
>)
    ensures
        decoding_is(r, normalized(crate::registry::params_view(params@), payload@)),
{
    match payload {
        Json::Object(members) => {
            let ghost views = crate::registry::params_view(params@);
            let ghost values = crate::json::members_of(members@);
            proof {
                crate::json::lemma_object_view(*members);
            }
            let mut found: Vec<Member> = Vec::new();
            assert(crate::json::members_of(found@) =~= Seq::empty());
            let mut i: usize = 0;
            while i < params.len()
                invariant
                    i <= params.len(),
                    payload@ == crate::json::JsonValue::Object(values),
                    views == crate::registry::params_view(params@),
                    values == crate::json::members_of(members@),
                    resolved(views, values, i as int) == Ok::<
                        Seq<crate::json::MemberValue>,
                        Seq<char>,
                    >(crate::json::members_of(found@)),
                decreases params.len() - i,
            {
                let ghost before = crate::json::members_of(found@);
                assert(views[i as int] == params@[i as int]@);
                match find_argument(members, params[i].name.as_str()) {
                    Some(at) => {
                        assert(values[at as int].value == members@[at as int].value@);
                        found.push(
                            Member { key: params[i].name.clone(), value: members[at].value.clone() },
                        );
                        assert(crate::json::members_of(found@) =~= before.push(
                            crate::json::MemberValue {
                                key: views[i as int].name,
                                value: values[at as int].value,
                            },
                        ));
                    },
                    None => {
                        if params[i].required {
                            let message = missing_field(params[i].name.as_str());
                            proof {
                                lemma_resolved_error(views, values, i as int + 1, params@.len() as int);
                            }
                            return Err(AiFunctionError::Recoverable(message));
                        }
                    },
                }
                i += 1;
            }
            proof {
                crate::json::lemma_object_view(found);
            }
            Ok(Json::Object(found))
        },
        _ => Err(
            AiFunctionError::Recoverable(String::from_str("invalid type: expected a JSON object")),
        ),
    }
}

/// Once a required parameter is found missing, the parameters after it do not change the
/// error.
pub proof fn lemma_resolved_error(
    params: Seq<crate::registry::ParamView>,
    members: Seq<crate::json::MemberValue>,
    n: int,
    m: int,
)
    requires
        0 <= n <= m,
        resolved(params, members, n) is Err,
    ensures
        resolved(params, members, m) == resolved(params, members, n),
    decreases m - n,
{
    if n < m {
        lemma_resolved_error(params, members, n, m - 1);
    }
}

/// Reads the payload text and decodes the arguments of the declared parameters from it. A
/// text that the reader refuses is a recoverable error with the reader's message.
pub fn decode_arguments(params: &Vec<ParamDecl>, payload: &str) -> (r: Result<
    Json,
    AiFunctionError,
>)
    ensures
        decoding_is(
            r,
            decoded(crate::registry::params_view(params@), crate::json::json_parse(payload@)),
        ),
{
    match Json::parse(payload) {
        Ok(doc) => normalize_arguments(params, &doc),
        Err(message) => Err(AiFunctionError::Recoverable(message)),
    }
}

/// Prepares a call: finds the declaration by the name that the backend gave, whether or not
/// the current prompt allowed it, and decodes the arguments. A name that is not declared is a
/// recoverable error.
pub fn prepare_call(registry: &Registry, name: &str, payload: &str) -> (r: Result<
    Json,
    AiFunctionError,
>)
    ensures
        decoding_is(r, prepared(registry@, name@, crate::json::json_parse(payload@))),
{
    match registry.position(name) {
        Some(i) => {
            assert(registry@[i as int] == registry.functions@[i as int]@);
            decode_arguments(&registry.functions[i].params, payload)
        },
        None => Err(AiFunctionError::Recoverable(not_found(name))),
    }
}

/// The handlers of a state: each runs one declared function on decoded arguments, may change
/// the state, and says what comes next.
pub trait AiHandlers {
    /// Runs the handler of the function called `function_name`. The arguments are an object
    /// with the declared parameter names as keys.
    fn handle(&mut self, function_name: &str, arguments: &Json) -> AiFunctionResult;
}

/// Dispatches a call that the backend chose: prepares it and, where that succeeds, runs the
/// handler. Where it fails the handler is not run: the state is unchanged and the error is
/// the one that preparing the call gave.
pub fn dispatch<S: AiHandlers>(state: &mut S, registry: &Registry, name: &str, payload: &str) -> (r:
    AiFunctionResult)
    ensures
        prepared(registry@, name@, crate::json::json_parse(payload@)) matches Err(error) ==> (r
            matches Err(e) && e@ == error) && *final(state) == *old(state),
{
    match prepare_call(registry, name, payload) {
        Ok(arguments) => state.handle(name, &arguments),
        Err(error) => Err(error),
    }
}

/// How a payload spells a parameter does not matter to the parameter: replacing the key of a
/// member that spells it by another of its spellings leaves the argument unchanged.
pub proof fn lemma_spelling_is_immaterial(
    members: Seq<crate::json::MemberValue>,
    i: int,
    spelling: Seq<char>,
    name: Seq<char>,
)
    requires
        0 <= i < members.len(),
        is_alias(members[i].key, name),
        is_alias(spelling, name),
    ensures
        argument_for(
            members.update(i, crate::json::MemberValue { key: spelling, value: members[i].value }),
            name,
        ) == argument_for(members, name),
{
    let respelled = members.update(
        i,
        crate::json::MemberValue { key: spelling, value: members[i].value },
    );
    let pred = |m: crate::json::MemberValue| is_alias(m.key, name);
    crate::search::lemma_first_index_agrees(members, pred, respelled, pred);
    crate::search::lemma_first_index(members, pred);
}

/// A payload whose one member is keyed by the snake_case, the camelCase or the PascalCase
/// form of a parameter's name gives the parameter the same argument in all three cases.
pub proof fn lemma_case_styles_agree(name: Seq<char>, value: crate::json::JsonValue)
    ensures
        argument_for(seq![crate::json::MemberValue { key: snake_case(name), value }], name) == Some(
            value,
        ),
        argument_for(seq![crate::json::MemberValue { key: camel_case(name), value }], name) == Some(
            value,
        ),
        argument_for(seq![crate::json::MemberValue { key: pascal_case(name), value }], name)
            == Some(value),
{
    let pred = |m: crate::json::MemberValue| is_alias(m.key, name);
    crate::search::lemma_first_index_at(
        seq![crate::json::MemberValue { key: snake_case(name), value }],
        pred,
        0,
    );
    crate::search::lemma_first_index_at(
        seq![crate::json::MemberValue { key: camel_case(name), value }],
        pred,
        0,
    );
    crate::search::lemma_first_index_at(
        seq![crate::json::MemberValue { key: pascal_case(name), value }],
        pred,
        0,
    );
}

/// Respelling the key of one payload member leaves the whole decoding unchanged, provided the
/// old and the new key spell the same declared parameters.
pub proof fn lemma_respelling_keeps_arguments(
    params: Seq<crate::registry::ParamView>,
    members: Seq<crate::json::MemberValue>,
    i: int,
    spelling: Seq<char>,
    n: int,
)
    requires
        0 <= i < members.len(),
        0 <= n <= params.len(),
        forall|p: int|
            0 <= p < params.len() ==> is_alias(members[i].key, params[p].name) == is_alias(
                spelling,
                params[p].name,
            ),
    ensures
        resolved(
            params,
            members.update(i, crate::json::MemberValue { key: spelling, value: members[i].value }),
            n,
        ) == resolved(params, members, n),
    decreases n,
{
    if n > 0 {
        lemma_respelling_keeps_arguments(params, members, i, spelling, n - 1);
        let respelled = members.update(
            i,
            crate::json::MemberValue { key: spelling, value: members[i].value },
        );
        let name = params[n - 1].name;
        let pred = |m: crate::json::MemberValue| is_alias(m.key, name);
        crate::search::lemma_first_index_agrees(members, pred, respelled, pred);
        crate::search::lemma_first_index(members, pred);
    }
}

} // verus!
