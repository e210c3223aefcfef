//! The declarations that a route table is made from: the methods of the
//! application that carry a route attribute, with what the attribute holds
//! and what the method takes.

use vstd::prelude::*;

use crate::path::str_eq;
use crate::router::parse::Scalar;
use crate::router::parse::Type;

verus! {

/// One item between the brackets of an attribute.
#[derive(Debug, PartialEq, Eq)]
pub enum NestedMeta {
    /// A string literal, with the bytes of its value.
    Str(Vec<u8>),
    /// Anything else.
    Other,
}

/// The shape of an attribute.
#[derive(Debug, PartialEq, Eq)]
pub enum Meta {
    /// A bare name, as in `#[get]`.
    Path,
    /// A name with a list in brackets, as in `#[get("/path")]`.
    List(Vec<NestedMeta>),
    /// A name with a value, as in `#[get = "/path"]`.
    NameValue,
    /// Nothing that an attribute may look like.
    Invalid,
}

/// An attribute of a method.
#[derive(Debug, PartialEq, Eq)]
pub struct Attribute {
    /// The name of the attribute.
    pub path: String,
    /// What follows the name.
    pub meta: Meta,
}

/// A parameter of a method, the receiver left out.
#[derive(Debug, PartialEq, Eq)]
pub struct Arg {
    /// The name of the parameter.
    pub name: String,
    /// Its type.
    pub ty: Type,
}

/// A method of the application that carries route attributes.
#[derive(Debug, PartialEq, Eq)]
pub struct Method {
    /// Its route attributes.
    pub attrs: Vec<Attribute>,
    /// Its name.
    pub name: String,
    /// Its parameters.
    pub args: Vec<Arg>,
}

/// The methods of an application that carry route attributes, in the order
/// in which they are declared.
#[derive(Debug, PartialEq, Eq)]
pub struct Extracted {
    /// The methods.
    pub methods: Vec<Method>,
}

/// Whether `path` names the attribute for routes of the method GET.
pub open spec fn is_get_spec(path: Seq<char>) -> bool {
    path == "get"@
}

/// Whether `path` names the attribute for routes of the method GET.
pub fn is_get(path: &str) -> (get: bool)
    ensures
        get == is_get_spec(path@),
{
    str_eq(path, "get")
}

/// The names that the declarations of an application are read by.
#[derive(Debug, Clone, Copy, PartialEq, Eq, Structural)]
pub struct Fixture;

impl Fixture {
    /// The names.
    pub fn new() -> Self {
        Fixture
    }

    /// Whether `path` names an attribute that gives a method a route.
    pub fn is_method_attr(&self, path: &str) -> (route: bool)
        ensures
            route == is_get_spec(path@),
    {
        is_get(path)
    }

    /// Whether `path` names an attribute that documents a parameter.
    pub fn is_arg_attr(&self, path: &str) -> (doc: bool)
        ensures
            doc == (path@ == "doc"@),
    {
        str_eq(path, "doc")
    }

    /// Whether `path` names the attribute for routes of the method GET.
    pub fn is_get(&self, path: &str) -> (get: bool)
        ensures
            get == is_get_spec(path@),
    {
        is_get(path)
    }

    /// Whether `path` names the parameter that asks for a server.
    pub fn is_server(&self, path: &str) -> (server: bool)
        ensures
            server == (path@ == "server"@),
    {
        str_eq(path, "server")
    }

    /// Whether `lifetime` is the lifetime that `async_trait` gives the
    /// methods that it has rewritten.
    pub fn is_async_trait_param(&self, lifetime: &str) -> (rewritten: bool)
        ensures
            rewritten == (lifetime@ == "'async_trait"@),
    {
        str_eq(lifetime, "'async_trait")
    }
}

/// How a parameter of a method is named.
#[derive(Debug, PartialEq, Eq)]
pub enum Pat {
    /// By a single plain name.
    Ident(String),
    /// By any other pattern.
    Other,
}

/// The type of a parameter as it is written.
#[derive(Debug, PartialEq, Eq)]
pub enum TypeDecl {
    /// A type with this name, as in `u32`.
    Named(String),
    /// `Result` of a type with this name, as in `Result<bool, Error>`.
    ResultOf(String),
    /// Any other type.
    Other,
}

/// A parameter of a method with a pattern and a type.
#[derive(Debug, PartialEq, Eq)]
pub struct PatType {
    /// The pattern.
    pub pat: Pat,
    /// The type.
    pub ty: TypeDecl,
    /// Whether the parameter is `self: Arc<Self>`.
    pub is_arc_self: bool,
}

/// A parameter of a method as it is written.
#[derive(Debug, PartialEq, Eq)]
pub enum FnArg {
    /// A receiver, as in `&self`.
    Receiver,
    /// A pattern with a type.
    Typed(PatType),
}

/// A method of the trait of an application as it is written.
#[derive(Debug, PartialEq, Eq)]
pub struct TraitItemMethod {
    /// All its attributes.
    pub attrs: Vec<Attribute>,
    /// Its name.
    pub name: String,
    /// All its parameters.
    pub inputs: Vec<FnArg>,
}

/// What is wrong with a method that carries a route attribute.
#[derive(Debug, Clone, Copy, PartialEq, Eq, Structural)]
pub enum ExtractError {
    /// The first parameter is not `self: Arc<Self>`.
    NotArcSelf,
    /// A receiver that is not the first parameter.
    Receiver,
    /// A parameter that is not named by a single name.
    NotAName,
    /// A parameter of a type that no segment of a path can be read as.
    UnreadableType,
}

/// The scalar that a type with this name is.
pub open spec fn scalar_of(name: Seq<char>) -> Option<Scalar> {
    if name == "bool"@ {
        Some(Scalar::Bool)
    } else if name == "u32"@ {
        Some(Scalar::U32)
    } else if name == "String"@ {
        Some(Scalar::Text)
    } else {
        None
    }
}

/// The scalar that a type with this name is: `bool`, `u32` or `String`.
pub fn scalar(name: &str) -> (found: Option<Scalar>)
    ensures
        found == scalar_of(name@),
{
    if str_eq(name, "bool") {
        Some(Scalar::Bool)
    } else if str_eq(name, "u32") {
        Some(Scalar::U32)
    } else if str_eq(name, "String") {
        Some(Scalar::Text)
    } else {
        None
    }
}

/// What a segment of a path is read as for a parameter of this type, if it
/// can be read for it at all.
pub open spec fn readable_spec(ty: TypeDecl) -> Option<Type> {
    match ty {
        TypeDecl::Named(name) => match scalar_of(name@) {
            Some(scalar) => Some(Type { scalar, is_result: false }),
            None => None,
        },
        TypeDecl::ResultOf(name) => match scalar_of(name@) {
            Some(scalar) => Some(Type { scalar, is_result: true }),
            None => None,
        },
        TypeDecl::Other => None,
    }
}

/// What a segment of a path is read as for a parameter of this type.
pub fn readable(ty: &TypeDecl) -> (found: Option<Type>)
    ensures
        found == readable_spec(*ty),
{
    match ty {
        TypeDecl::Named(name) => match scalar(name.as_str()) {
            Some(scalar) => Some(Type { scalar, is_result: false }),
            None => None,
        },
        TypeDecl::ResultOf(name) => match scalar(name.as_str()) {
            Some(scalar) => Some(Type { scalar, is_result: true }),
            None => None,
        },
        TypeDecl::Other => None,
    }
}

/// Those of the first `n` attributes that give a route, if `route`, or
/// those that give none, in their order.
pub open spec fn attrs_upto(attrs: Seq<Attribute>, n: int, route: bool) -> Seq<Attribute>
    decreases n,
{
    if n <= 0 {
        Seq::empty()
    } else if is_get_spec(attrs[n - 1].path@) == route {
        attrs_upto(attrs, n - 1, route).push(attrs[n - 1])
    } else {
        attrs_upto(attrs, n - 1, route)
    }
}

/// Parts the attributes of a method: those that give a route, and the
/// rest, each in their order.
pub fn split_attrs(attrs: Vec<Attribute>) -> (parts: (Vec<Attribute>, Vec<Attribute>))
    ensures
        parts.0@ == attrs_upto(attrs@, attrs@.len() as int, true),
        parts.1@ == attrs_upto(attrs@, attrs@.len() as int, false),
{
    let mut rest = attrs;
    let mut route: Vec<Attribute> = Vec::new();
    let mut other: Vec<Attribute> = Vec::new();
    let ghost all = attrs@;
    while rest.len() > 0
        invariant
            rest@.len() <= all.len(),
            rest@ == all.skip(all.len() - rest@.len()),
            route@ == attrs_upto(all, all.len() - rest@.len(), true),
            other@ == attrs_upto(all, all.len() - rest@.len(), false),
        decreases rest.len(),
    {
        let ghost at = all.len() - rest@.len();
        let attr = rest.remove(0);
        assert(attr == all[at]);
        assert(rest@ =~= all.skip(at + 1));
        if is_get(attr.path.as_str()) {
            route.push(attr);
        } else {
            other.push(attr);
        }
    }
    (route, other)
}

/// Whether the parameters of a method start with `self: Arc<Self>`.
pub open spec fn starts_with_arc_self(inputs: Seq<FnArg>) -> bool {
    inputs.len() > 0 && (inputs[0] matches FnArg::Typed(first) && first.is_arc_self)
}

/// The parameter of a handler that a parameter of a method gives, if it
/// gives one: it has to be named by a single name. A type that cannot be
/// read for is taken as text.
pub open spec fn arg_of(input: FnArg) -> Option<Arg> {
    match input {
        FnArg::Typed(typed) => match typed.pat {
            Pat::Ident(name) => Some(
                Arg {
                    name,
                    ty: match readable_spec(typed.ty) {
                        Some(ty) => ty,
                        None => Type { scalar: Scalar::Text, is_result: false },
                    },
                },
            ),
            Pat::Other => None,
        },
        FnArg::Receiver => None,
    }
}

/// What is wrong with a parameter of a method that is not its first, if
/// anything is.
pub open spec fn arg_error(input: FnArg) -> Option<ExtractError> {
    match input {
        FnArg::Receiver => Some(ExtractError::Receiver),
        FnArg::Typed(typed) => match typed.pat {
            Pat::Other => Some(ExtractError::NotAName),
            Pat::Ident(_) => if readable_spec(typed.ty) is None {
                Some(ExtractError::UnreadableType)
            } else {
                None
            },
        },
    }
}

/// The parameters of a handler that the parameters `1..n` of a method give,
/// in their order. The first parameter of the method gives none.
pub open spec fn args_upto(inputs: Seq<FnArg>, n: int) -> Seq<Arg>
    decreases n,
{
    if n <= 1 {
        Seq::empty()
    } else {
        match arg_of(inputs[n - 1]) {
            Some(arg) => args_upto(inputs, n - 1).push(arg),
            None => args_upto(inputs, n - 1),
        }
    }
}

/// The errors of the first `n` parameters of a method, each with the place
/// of its parameter: that the first is not `self: Arc<Self>`, and what is
/// wrong with each of the others.
pub open spec fn input_errors_upto(inputs: Seq<FnArg>, n: int) -> Seq<(int, ExtractError)>
    decreases n,
{
    if n <= 0 {
        Seq::empty()
    } else if n == 1 {
        if starts_with_arc_self(inputs) {
            Seq::empty()
        } else {
            seq![(0int, ExtractError::NotArcSelf)]
        }
    } else {
        match arg_error(inputs[n - 1]) {
            Some(error) => input_errors_upto(inputs, n - 1).push((n - 1, error)),
            None => input_errors_upto(inputs, n - 1),
        }
    }
}

/// The errors of a method with these parameters. A method without
/// parameters has the one error that it does not start with
/// `self: Arc<Self>`.
pub open spec fn input_errors(inputs: Seq<FnArg>) -> Seq<(int, ExtractError)> {
    if inputs.len() == 0 {
        seq![(0int, ExtractError::NotArcSelf)]
    } else {
        input_errors_upto(inputs, inputs.len() as int)
    }
}

/// What a method of a trait gives.
#[derive(Debug, PartialEq, Eq)]
pub struct Extraction {
    /// The method as a handler to be, if it carries a route attribute.
    pub method: Option<Method>,
    /// The attributes that stay on the method: all but those for routes.
    pub remaining: Vec<Attribute>,
    /// What is wrong with the method, each error with the place of the
    /// parameter that it is about.
    pub errors: Vec<(usize, ExtractError)>,
}

/// What the errors of `errors` hold.
pub open spec fn placed(errors: Seq<(usize, ExtractError)>) -> Seq<(int, ExtractError)> {
    errors.map_values(|error: (usize, ExtractError)| (error.0 as int, error.1))
}

/// Reads a method of the trait of an application. A method without a route
/// attribute is no handler and is left as it is. Any other method gives a
/// handler to be, with its route attributes taken off the method, its name,
/// and the parameters behind the first.
pub fn extract_method(method: TraitItemMethod) -> (extraction: Extraction)
    ensures
        extraction.remaining@ == attrs_upto(method.attrs@, method.attrs@.len() as int, false),
        attrs_upto(method.attrs@, method.attrs@.len() as int, true).len() == 0 ==> {
            &&& extraction.method is None
            &&& extraction.errors@.len() == 0
        },
        attrs_upto(method.attrs@, method.attrs@.len() as int, true).len() > 0 ==> {
            &&& extraction.method matches Some(found)
            &&& found.attrs@ == attrs_upto(method.attrs@, method.attrs@.len() as int, true)
            &&& found.name == method.name
            &&& found.args@ == args_upto(method.inputs@, method.inputs@.len() as int)
            &&& placed(extraction.errors@) == input_errors(method.inputs@)
        },
{
    let TraitItemMethod { attrs, name, inputs } = method;
    let ghost all = inputs@;
    assert(all.len() == inputs.len());
    let (route, remaining) = split_attrs(attrs);
    let mut errors: Vec<(usize, ExtractError)> = Vec::new();
    if route.len() == 0 {
        return Extraction { method: None, remaining, errors };
    }
    let mut rest = inputs;
    let mut args: Vec<Arg> = Vec::new();
    let mut n: usize = 0;
    if rest.len() == 0 {
        errors.push((0, ExtractError::NotArcSelf));
        assert(placed(errors@) =~= input_errors(all));
        assert(args@ =~= args_upto(all, 0));
        return Extraction { method: Some(Method { attrs: route, name, args }), remaining, errors };
    }
    let first = rest.remove(0);
    assert(first == all[0]);
    assert(rest@ =~= all.skip(1));
    let arc_self = match &first {
        FnArg::Typed(typed) => typed.is_arc_self,
        FnArg::Receiver => false,
    };
    if !arc_self {
        errors.push((0, ExtractError::NotArcSelf));
    }
    assert(placed(errors@) =~= input_errors_upto(all, 1));
    n = 1;
    while rest.len() > 0
        invariant
            1 <= n <= all.len(),
            all.len() <= usize::MAX,
            rest@.len() == all.len() - n,
            rest@ == all.skip(n as int),
            args@ == args_upto(all, n as int),
            placed(errors@) == input_errors_upto(all, n as int),
        decreases rest.len(),
    {
        let ghost errors_before = errors@;
        let input = rest.remove(0);
        assert(input == all[n as int]);
        assert(rest@ =~= all.skip(n + 1));
        match input {
            FnArg::Receiver => {
                errors.push((n, ExtractError::Receiver));
                assert(placed(errors@) =~= placed(errors_before).push(
                    (n as int, ExtractError::Receiver),
                ));
            },
            FnArg::Typed(typed) => {
                let PatType { pat, ty, is_arc_self: _ } = typed;
                match pat {
                    Pat::Ident(name) => {
                        let ty = match readable(&ty) {
                            Some(ty) => ty,
                            None => {
                                errors.push((n, ExtractError::UnreadableType));
                                assert(placed(errors@) =~= placed(errors_before).push(
                                    (n as int, ExtractError::UnreadableType),
                                ));
                                Type { scalar: Scalar::Text, is_result: false }
                            },
                        };
                        args.push(Arg { name, ty });
                    },
                    Pat::Other => {
                        errors.push((n, ExtractError::NotAName));
                        assert(placed(errors@) =~= placed(errors_before).push(
                            (n as int, ExtractError::NotAName),
                        ));
                    },
                }
            },
        }
        n = n + 1;
    }
    Extraction { method: Some(Method { attrs: route, name, args }), remaining, errors }
}

/// Whether a method carries a route attribute.
pub open spec fn has_route(item: TraitItemMethod) -> bool {
    attrs_upto(item.attrs@, item.attrs@.len() as int, true).len() > 0
}

/// Whether `method` is the handler to be that `item` gives: it has the
/// route attributes of the item, its name, and the parameters behind its
/// first.
pub open spec fn is_method_of(item: TraitItemMethod, method: Method) -> bool {
    &&& method.attrs@ == attrs_upto(item.attrs@, item.attrs@.len() as int, true)
    &&& method.name == item.name
    &&& method.args@ == args_upto(item.inputs@, item.inputs@.len() as int)
}

/// Whether `methods` are the handlers to be that the first `n` methods of
/// a trait give: one for each method that carries a route attribute, in
/// the order of the methods.
pub open spec fn extracted_upto(items: Seq<TraitItemMethod>, n: int, methods: Seq<Method>) -> bool
    decreases n,
{
    if n <= 0 {
        methods.len() == 0
    } else if has_route(items[n - 1]) {
        &&& methods.len() > 0
        &&& is_method_of(items[n - 1], methods.last())
        &&& extracted_upto(items, n - 1, methods.drop_last())
    } else {
        extracted_upto(items, n - 1, methods)
    }
}

/// What is noted of a method of a trait while the handlers are taken from
/// it.
#[derive(Debug, PartialEq, Eq)]
pub struct Note {
    /// The attributes that stay on the method: all but those for routes.
    pub remaining: Vec<Attribute>,
    /// What is wrong with the method, each error with the place of the
    /// parameter that it is about.
    pub errors: Vec<(usize, ExtractError)>,
}

/// Whether `note` is what is noted of `item`.
pub open spec fn is_note_of(item: TraitItemMethod, note: Note) -> bool {
    &&& note.remaining@ == attrs_upto(item.attrs@, item.attrs@.len() as int, false)
    &&& placed(note.errors@) == if has_route(item) {
        input_errors(item.inputs@)
    } else {
        Seq::empty()
    }
}

/// Takes the handlers to be from the methods of a trait, in the order of
/// the methods, and notes for each method what stays on it and what is
/// wrong with it.
pub fn extract(items: Vec<TraitItemMethod>) -> (read: (Extracted, Vec<Note>))
    ensures
        extracted_upto(items@, items@.len() as int, read.0.methods@),
        read.1@.len() == items@.len(),
        forall|i: int| 0 <= i < items@.len() ==> is_note_of(items@[i], #[trigger] read.1@[i]),
{
    let ghost all = items@;
    let mut rest = items;
    let mut methods: Vec<Method> = Vec::new();
    let mut notes: Vec<Note> = Vec::new();
    while rest.len() > 0
        invariant
            rest@.len() <= all.len(),
            rest@ == all.skip(all.len() - rest@.len()),
            notes@.len() == all.len() - rest@.len(),
            extracted_upto(all, all.len() - rest@.len(), methods@),
            forall|i: int| 0 <= i < notes@.len() ==> is_note_of(all[i], #[trigger] notes@[i]),
        decreases rest.len(),
    {
        let ghost at = all.len() - rest@.len();
        let ghost methods_before = methods@;
        let ghost notes_before = notes@;
        let item = rest.remove(0);
        assert(item == all[at]);
        assert(rest@ =~= all.skip(at + 1));
        let Extraction { method, remaining, errors } = extract_method(item);
        match method {
            Some(method) => {
                methods.push(method);
                assert(methods@.drop_last() =~= methods_before);
            },
            None => {},
        }
        let note = Note { remaining, errors };
        notes.push(note);
        proof {
            if !has_route(item) {
                assert(placed(note.errors@) =~= Seq::<(int, ExtractError)>::empty());
            }
            assert forall|i: int| 0 <= i < notes@.len() implies is_note_of(
                all[i],
                #[trigger] notes@[i],
            ) by {
                if i < notes_before.len() {
                    assert(notes@[i] == notes_before[i]);
                }
            }
        }
    }
    (Extracted { methods }, notes)
}

} // verus!
