use apiary::router::extract::extract;
use apiary::router::extract::extract_method;
use apiary::router::extract::readable;
use apiary::router::extract::scalar;
use apiary::router::extract::split_attrs;
use apiary::router::extract::Arg;
use apiary::router::extract::Attribute;
use apiary::router::extract::ExtractError;
use apiary::router::extract::Fixture;
use apiary::router::extract::FnArg;
use apiary::router::extract::Meta;
use apiary::router::extract::NestedMeta;
use apiary::router::extract::Pat;
use apiary::router::extract::PatType;
use apiary::router::extract::TraitItemMethod;
use apiary::router::extract::TypeDecl;
use apiary::router::parse::parse;
use apiary::router::parse::Scalar;
use apiary::router::parse::Type;
use apiary::router::parse::Value;
use apiary::router::server::parse_args;
use apiary::router::server::read_args;
use apiary::router::server::Args;
use apiary::router::server::ArgsError;
use apiary::router::server::AttributeArg;
use apiary::router::server::ServerArg;
use apiary::request::Method;

fn get(route: &str) -> Attribute {
    Attribute {
        path: String::from("get"),
        meta: Meta::List(vec![NestedMeta::Str(route.as_bytes().to_vec())]),
    }
}

fn other(name: &str) -> Attribute {
    Attribute { path: String::from(name), meta: Meta::Path }
}

fn arc_self() -> FnArg {
    FnArg::Typed(PatType {
        pat: Pat::Ident(String::from("self")),
        ty: TypeDecl::Other,
        is_arc_self: true,
    })
}

fn typed(name: &str, ty: TypeDecl) -> FnArg {
    FnArg::Typed(PatType { pat: Pat::Ident(String::from(name)), ty, is_arc_self: false })
}

fn named(name: &str) -> TypeDecl {
    TypeDecl::Named(String::from(name))
}

fn server(args: Vec<ServerArg>) -> AttributeArg {
    AttributeArg::List(String::from("server"), args)
}

fn ident(name: &str) -> ServerArg {
    ServerArg::Ident(String::from(name))
}

fn args(name: &str) -> Option<Args> {
    Some(Args { server_name: String::from(name) })
}

#[test]
fn scalar_knows_three_types() {
    assert_eq!(scalar("bool"), Some(Scalar::Bool));
    assert_eq!(scalar("u32"), Some(Scalar::U32));
    assert_eq!(scalar("String"), Some(Scalar::Text));
    assert_eq!(scalar("u64"), None);
    assert_eq!(scalar("Bool"), None);
    assert_eq!(scalar(""), None);
}

#[test]
fn readable_tells_a_result_from_a_value() {
    assert_eq!(readable(&named("u32")), Some(Type { scalar: Scalar::U32, is_result: false }));
    assert_eq!(
        readable(&TypeDecl::ResultOf(String::from("bool"))),
        Some(Type { scalar: Scalar::Bool, is_result: true })
    );
    assert_eq!(readable(&named("Vec")), None);
    assert_eq!(readable(&TypeDecl::ResultOf(String::from("f64"))), None);
    assert_eq!(readable(&TypeDecl::Other), None);
}

#[test]
fn split_attrs_keeps_both_orders() {
    let (route, rest) = split_attrs(vec![
        other("doc"),
        get("/a"),
        other("must_use"),
        get("/b"),
        other("doc"),
    ]);
    assert_eq!(route, vec![get("/a"), get("/b")]);
    assert_eq!(rest, vec![other("doc"), other("must_use"), other("doc")]);
    assert_eq!(split_attrs(vec![]), (vec![], vec![]));
}

#[test]
fn method_without_route_attribute_is_left_alone() {
    let extraction = extract_method(TraitItemMethod {
        attrs: vec![other("doc")],
        name: String::from("helper"),
        inputs: vec![FnArg::Receiver, typed("x", TypeDecl::Other)],
    });
    assert!(extraction.method.is_none());
    assert_eq!(extraction.remaining, vec![other("doc")]);
    assert!(extraction.errors.is_empty());
}

#[test]
fn handler_is_read_from_its_method() {
    let extraction = extract_method(TraitItemMethod {
        attrs: vec![other("doc"), get("/foo/{bar}/{baz}/quux")],
        name: String::from("bar"),
        inputs: vec![
            arc_self(),
            typed("bar", named("u32")),
            typed("baz", TypeDecl::ResultOf(String::from("bool"))),
        ],
    });
    assert_eq!(extraction.remaining, vec![other("doc")]);
    assert!(extraction.errors.is_empty());
    let method = extraction.method.unwrap();
    assert_eq!(method.attrs, vec![get("/foo/{bar}/{baz}/quux")]);
    assert_eq!(method.name, "bar");
    assert_eq!(
        method.args,
        vec![
            Arg { name: String::from("bar"), ty: Type { scalar: Scalar::U32, is_result: false } },
            Arg { name: String::from("baz"), ty: Type { scalar: Scalar::Bool, is_result: true } },
        ]
    );
}

#[test]
fn handler_has_to_take_arc_self_first() {
    let extraction = extract_method(TraitItemMethod {
        attrs: vec![get("/a")],
        name: String::from("a"),
        inputs: vec![],
    });
    assert_eq!(extraction.errors, vec![(0, ExtractError::NotArcSelf)]);
    assert!(extraction.method.unwrap().args.is_empty());

    let extraction = extract_method(TraitItemMethod {
        attrs: vec![get("/a/{x}")],
        name: String::from("a"),
        inputs: vec![FnArg::Receiver, typed("x", named("u32"))],
    });
    assert_eq!(extraction.errors, vec![(0, ExtractError::NotArcSelf)]);
    assert_eq!(extraction.method.unwrap().args.len(), 1);

    // the first parameter is never a parameter of the handler
    let extraction = extract_method(TraitItemMethod {
        attrs: vec![get("/a/{x}")],
        name: String::from("a"),
        inputs: vec![typed("x", named("u32")), typed("y", named("bool"))],
    });
    assert_eq!(extraction.errors, vec![(0, ExtractError::NotArcSelf)]);
    let method = extraction.method.unwrap();
    assert_eq!(method.args.len(), 1);
    assert_eq!(method.args[0].name, "y");
}

#[test]
fn parameters_that_cannot_be_taken_are_errors() {
    let extraction = extract_method(TraitItemMethod {
        attrs: vec![get("/a/{x}/{y}")],
        name: String::from("a"),
        inputs: vec![
            arc_self(),
            FnArg::Receiver,
            FnArg::Typed(PatType { pat: Pat::Other, ty: named("u32"), is_arc_self: false }),
            typed("x", named("f64")),
            typed("y", named("String")),
        ],
    });
    assert_eq!(
        extraction.errors,
        vec![
            (1, ExtractError::Receiver),
            (2, ExtractError::NotAName),
            (3, ExtractError::UnreadableType),
        ]
    );
    assert_eq!(
        extraction.method.unwrap().args,
        vec![
            Arg { name: String::from("x"), ty: Type { scalar: Scalar::Text, is_result: false } },
            Arg { name: String::from("y"), ty: Type { scalar: Scalar::Text, is_result: false } },
        ]
    );
}

#[test]
fn extract_takes_the_handlers_in_order() {
    let (extracted, notes) = extract(vec![
        TraitItemMethod {
            attrs: vec![get("/first")],
            name: String::from("first"),
            inputs: vec![arc_self()],
        },
        TraitItemMethod {
            attrs: vec![other("doc")],
            name: String::from("helper"),
            inputs: vec![FnArg::Receiver],
        },
        TraitItemMethod {
            attrs: vec![other("doc"), get("/third/{id}")],
            name: String::from("third"),
            inputs: vec![FnArg::Receiver, typed("id", named("u32"))],
        },
    ]);
    let names: Vec<&str> = extracted.methods.iter().map(|method| method.name.as_str()).collect();
    assert_eq!(names, vec!["first", "third"]);
    assert_eq!(notes.len(), 3);
    assert_eq!(notes[0].remaining, vec![]);
    assert!(notes[0].errors.is_empty());
    assert_eq!(notes[1].remaining, vec![other("doc")]);
    assert!(notes[1].errors.is_empty());
    assert_eq!(notes[2].remaining, vec![other("doc")]);
    assert_eq!(notes[2].errors, vec![(0, ExtractError::NotArcSelf)]);
}

#[test]
fn declared_trait_becomes_a_route_table() {
    let (extracted, notes) = extract(vec![TraitItemMethod {
        attrs: vec![get("/foo/{bar}/{baz}/quux")],
        name: String::from("bar"),
        inputs: vec![arc_self(), typed("bar", named("u32")), typed("baz", named("bool"))],
    }]);
    assert!(notes[0].errors.is_empty());
    let (table, diagnostics) = parse(&extracted);
    assert!(diagnostics.is_empty());
    let routed = table.route(Method::Get, b"/foo/42/true/quux").unwrap();
    assert_eq!(routed.handler, 0);
    assert_eq!(routed.arguments, vec![Ok(Value::U32(42)), Ok(Value::Bool(true))]);
    assert!(table.route(Method::Get, b"/foo/42/true/other").is_none());
}

#[test]
fn fixture_knows_the_lifetime_of_async_trait() {
    let fixture = Fixture::new();
    assert!(fixture.is_async_trait_param("'async_trait"));
    assert!(!fixture.is_async_trait_param("'a"));
    assert!(!fixture.is_async_trait_param("async_trait"));
}

#[test]
fn server_takes_one_type_name() {
    assert_eq!(parse_args(&vec![ident("FooServer")]), (args("FooServer"), vec![]));
    assert_eq!(parse_args(&vec![]), (None, vec![ArgsError::MissingTypeName]));
    assert_eq!(parse_args(&vec![ServerArg::Path]), (None, vec![ArgsError::InvalidTypeName]));
    assert_eq!(
        parse_args(&vec![ServerArg::Other, ident("X")]),
        (None, vec![ArgsError::InvalidTypeName])
    );
    assert_eq!(
        parse_args(&vec![ident("A"), ident("B")]),
        (args("A"), vec![ArgsError::TooManyParameters])
    );
}

#[test]
fn declaration_without_arguments_asks_for_nothing() {
    assert_eq!(read_args(&vec![]), (None, vec![]));
}

#[test]
fn declaration_asks_for_a_server_by_name() {
    assert_eq!(read_args(&vec![server(vec![ident("FooServer")])]), (args("FooServer"), vec![]));
}

#[test]
fn other_arguments_of_a_declaration_are_errors() {
    assert_eq!(
        read_args(&vec![
            AttributeArg::Lit,
            AttributeArg::NameValue,
            AttributeArg::Path(String::from("client")),
            AttributeArg::List(String::from("client"), vec![ident("X")]),
            server(vec![ident("S")]),
        ]),
        (
            args("S"),
            vec![
                (0, ArgsError::InvalidParameter),
                (1, ArgsError::InvalidParameter),
                (2, ArgsError::InvalidParameter),
                (3, ArgsError::InvalidParameter),
            ]
        )
    );
}

#[test]
fn second_server_is_an_error_only_after_one_that_was_read() {
    assert_eq!(
        read_args(&vec![server(vec![ident("A")]), server(vec![ident("B")])]),
        (args("A"), vec![(1, ArgsError::DuplicatedServer)])
    );
    assert_eq!(
        read_args(&vec![
            AttributeArg::Path(String::from("server")),
            server(vec![ServerArg::Other]),
            server(vec![ident("C"), ident("D")]),
            server(vec![]),
        ]),
        (
            args("C"),
            vec![
                (0, ArgsError::MissingTypeName),
                (1, ArgsError::InvalidTypeName),
                (2, ArgsError::TooManyParameters),
                (3, ArgsError::DuplicatedServer),
            ]
        )
    );
}
