//! The registry of callable functions: what a state type declares, and the descriptor that is
//! advertised for each declaration.

use crate::json::Json;
use crate::wire::Function;
use vstd::prelude::*;

verus! {

/// One declared parameter of a callable function.
#[derive(Debug, PartialEq, Eq)]
pub struct ParamDecl {
    /// The parameter's name as the handler knows it.
    pub name: String,
    /// Whether a call without the parameter is refused.
    pub required: bool,
}

/// The mathematical value of a [`ParamDecl`].
pub ghost struct ParamView {
    pub name: Seq<char>,
    pub required: bool,
}

impl View for ParamDecl {
    type V = ParamView;

    open spec fn view(&self) -> ParamView {
        ParamView { name: self.name@, required: self.required }
    }
}

/// The views of a sequence of parameters, one for one.
pub open spec fn params_view(params: Seq<ParamDecl>) -> Seq<ParamView> {
    Seq::new(params.len(), |i: int| params[i]@)
}

/// The declaration of one callable function: its name, an optional description, its
/// parameters in order and the schema of its parameters.
#[derive(Debug, PartialEq, Eq)]
pub struct FunctionDecl {
    pub name: String,
    pub description: Option<String>,
    pub params: Vec<ParamDecl>,
    pub parameters: Json,
}

/// The mathematical value of a [`FunctionDecl`].
pub ghost struct DeclView {
    pub name: Seq<char>,
    pub description: Option<Seq<char>>,
    pub params: Seq<ParamView>,
    pub parameters: crate::json::JsonValue,
}

impl View for FunctionDecl {
    type V = DeclView;

    open spec fn view(&self) -> DeclView {
        DeclView {
            name: self.name@,
            description: match self.description {
                Some(text) => Some(text@),
                None => None,
            },
            params: params_view(self.params@),
            parameters: self.parameters@,
        }
    }
}

/// The views of a sequence of declarations, one for one.
pub open spec fn decls_view(decls: Seq<FunctionDecl>) -> Seq<DeclView> {
    Seq::new(decls.len(), |i: int| decls[i]@)
}

/// The descriptor advertised for a declaration: its name, its description or, where it has
/// none, its name again, and its parameter schema.
pub open spec fn descriptor_of(decl: DeclView) -> crate::wire::FunctionView {
    crate::wire::FunctionView {
        name: decl.name,
        description: match decl.description {
            Some(text) => text,
            None => decl.name,
        },
        parameters: decl.parameters,
    }
}

/// The position of the first declaration with the given name, if there is one.
pub open spec fn declared_at(decls: Seq<DeclView>, name: Seq<char>) -> Option<int> {
    crate::search::first_index(decls, |d: DeclView| d.name == name)
}

/// The descriptor that a registry gives for a name: that of the declaration with the name, or
/// none where no function of that name is declared.
pub open spec fn descriptor_for(decls: Seq<DeclView>, name: Seq<char>) -> Option<
    crate::wire::FunctionView,
> {
    match declared_at(decls, name) {
        Some(i) => Some(descriptor_of(decls[i])),
        None => None,
    }
}

/// The callable functions that a state type declares.
#[derive(Debug, PartialEq, Eq)]
pub struct Registry {
    pub functions: Vec<FunctionDecl>,
}

impl View for Registry {
    type V = Seq<DeclView>;

    open spec fn view(&self) -> Seq<DeclView> {
        decls_view(self.functions@)
    }
}

impl FunctionDecl {
    /// The descriptor advertised for the declaration.
    pub fn descriptor(&self) -> (r: Function)
        ensures
            r@ == descriptor_of(self@),
    {
        let description = match &self.description {
            Some(text) => text.clone(),
            None => self.name.clone(),
        };
        Function { name: self.name.clone(), description, parameters: self.parameters.clone() }
    }
}

impl Registry {
    /// A registry that declares nothing.
    pub fn new() -> (r: Registry)
        ensures
            r@ == Seq::<DeclView>::empty(),
    {
        let r = Registry { functions: Vec::new() };
        assert(r@ =~= Seq::<DeclView>::empty());
        r
    }

    /// The position of the declaration with the given name, if there is one.
    pub fn position(&self, name: &str) -> (r: Option<usize>)
        ensures
            match r {
                Some(i) => declared_at(self@, name@) == Some(i as int) && i < self.functions@.len(),
                None => declared_at(self@, name@) is None,
            },
    {
        let mut i: usize = 0;
        while i < self.functions.len()
            invariant
                i <= self.functions.len(),
                forall|j: int| 0 <= j < i ==> self.functions@[j].name@ != name@,
            decreases self.functions.len() - i,
        {
            if crate::json::same_text(self.functions[i].name.as_str(), name) {
                proof {
                    crate::search::lemma_first_index_at(
                        self@,
                        |d: DeclView| d.name == name@,
                        i as int,
                    );
                }
                return Some(i);
            }
            i += 1;
        }
        proof {
            crate::search::lemma_first_index_none(self@, |d: DeclView| d.name == name@);
        }
        None
    }

    /// Adds a declaration, unless a function of that name is declared already. Says whether
    /// the declaration was added.
    pub fn register(&mut self, decl: FunctionDecl) -> (added: bool)
        ensures
            added == (declared_at(old(self)@, decl@.name) is None),
            added ==> final(self)@ == old(self)@.push(decl@),
            !added ==> final(self)@ == old(self)@,
    {
        if self.position(decl.name.as_str()).is_some() {
            false
        } else {
            self.functions.push(decl);
            assert(self@ =~= old(self)@.push(decl@));
            true
        }
    }

    /// The descriptors of the functions with the given names, in order; none stands for a
    /// name under which no function is declared.
    pub fn resolve(&self, names: &Vec<String>) -> (r: Vec<Option<Function>>)
        ensures
            r@.len() == names@.len(),
            forall|i: int|
                0 <= i < names@.len() ==> match #[trigger] r@[i] {
                    Some(function) => descriptor_for(self@, names@[i]@) == Some(function@),
                    None => descriptor_for(self@, names@[i]@) is None,
                },
    {
        let mut resolved: Vec<Option<Function>> = Vec::new();
        let mut i: usize = 0;
        while i < names.len()
            invariant
                i <= names.len(),
                resolved@.len() == i,
                forall|k: int|
                    0 <= k < i ==> match #[trigger] resolved@[k] {
                        Some(function) => descriptor_for(self@, names@[k]@) == Some(function@),
                        None => descriptor_for(self@, names@[k]@) is None,
                    },
            decreases names.len() - i,
        {
            resolved.push(self.descriptor_for(names[i].as_str()));
            i += 1;
        }
        resolved
    }

    /// The descriptor of the function with the given name, or none where no function of that
    /// name is declared. It depends on the declarations and the name alone.
    pub fn descriptor_for(&self, name: &str) -> (r: Option<Function>)
        ensures
            match r {
                Some(function) => descriptor_for(self@, name@) == Some(function@),
                None => descriptor_for(self@, name@) is None,
            },
    {
        match self.position(name) {
            Some(i) => Some(self.functions[i].descriptor()),
            None => None,
        }
    }
}

/// The descriptors that a registry gives for a sequence of names, one for one.
pub open spec fn resolved_by(decls: Seq<DeclView>, names: Seq<Seq<char>>) -> Seq<
    Option<crate::wire::FunctionView>,
> {
    Seq::new(names.len(), |i: int| descriptor_for(decls, names[i]))
}

/// The descriptor that a registry gives for a name carries that name.
pub proof fn lemma_descriptor_name(decls: Seq<DeclView>, name: Seq<char>)
    ensures
        descriptor_for(decls, name) matches Some(function) ==> function.name == name,
{
    crate::search::lemma_first_index(decls, |d: DeclView| d.name == name);
}

/// Asking twice for the descriptor of one name gives structurally identical descriptors.
pub proof fn lemma_descriptor_repeatable(
    decls: Seq<DeclView>,
    name: Seq<char>,
    first: Option<crate::wire::FunctionView>,
    second: Option<crate::wire::FunctionView>,
)
    requires
        first == descriptor_for(decls, name),
        second == descriptor_for(decls, name),
    ensures
        first == second,
{
}

/// A descriptor does not depend on what is declared later: registering another function
/// leaves the descriptor of every name that was declared before unchanged, and gives a new
/// name the descriptor of its declaration.
pub proof fn lemma_descriptor_stable(decls: Seq<DeclView>, added: DeclView, name: Seq<char>)
    ensures
        descriptor_for(decls, name) is Some ==> descriptor_for(decls.push(added), name)
            == descriptor_for(decls, name),
        descriptor_for(decls, name) is None && added.name == name ==> descriptor_for(
            decls.push(added),
            name,
        ) == Some(descriptor_of(added)),
        descriptor_for(decls, name) is None && added.name != name ==> descriptor_for(
            decls.push(added),
            name,
        ) is None,
{
    let pred = |d: DeclView| d.name == name;
    let more = decls.push(added);
    crate::search::lemma_first_index(decls, pred);
    match crate::search::first_index(decls, pred) {
        Some(i) => {
            assert(more[i] == decls[i]);
            assert forall|j: int| 0 <= j < i implies !pred(more[j]) by {
                assert(more[j] == decls[j]);
            }
            crate::search::lemma_first_index_at(more, pred, i);
        },
        None => {
            assert forall|j: int| 0 <= j < decls.len() implies !pred(more[j]) by {
                assert(more[j] == decls[j]);
            }
            if added.name == name {
                crate::search::lemma_first_index_at(more, pred, decls.len() as int);
            } else {
                crate::search::lemma_first_index_none(more, pred);
            }
        },
    }
}

} // verus!
