use apiary::error::BoxError;
use apiary::error::Error;
use apiary::internal_helper::default_404;
use apiary::internal_helper::parse_failed;
use apiary::internal_helper::NotFound;
use apiary::internal_helper::ParseFailed;
use apiary::path::bytes_eq;
use apiary::path::find_byte;
use apiary::path::split;
use apiary::path::str_eq;
use apiary::request::Method;
use apiary::response::HttpResponse;
use apiary::router::extract::is_get;
use apiary::router::extract::Arg;
use apiary::router::extract::Attribute;
use apiary::router::extract::Extracted;
use apiary::router::extract::Fixture;
use apiary::router::extract::Meta;
use apiary::router::extract::NestedMeta;
use apiary::router::join;
use apiary::router::parse::find_param;
use apiary::router::parse::flaws_to_errors;
use apiary::router::parse::is_named_before;
use apiary::router::parse::parse;
use apiary::router::parse::parse_method;
use apiary::router::parse::parse_value;
use apiary::router::parse::route_of;
use apiary::router::parse::Diagnostic;
use apiary::router::parse::Handler;
use apiary::router::parse::Param;
use apiary::router::parse::ParamSrc;
use apiary::router::parse::ParseError;
use apiary::router::parse::Parsed;
use apiary::router::parse::Scalar;
use apiary::router::parse::Type;
use apiary::router::parse::Value;
use apiary::router::pattern::cut;
use apiary::router::pattern::literal_path;
use apiary::router::pattern::param_of;
use apiary::router::pattern::pattern_of;
use apiary::router::pattern::route_segments;
use apiary::router::pattern::Flaws;
use apiary::router::segments;
use apiary::router::ErrorJoin;

const NO_FLAWS: Flaws = Flaws { query: false, fragment: false, no_slash: false };

fn get(route: &str) -> Attribute {
    Attribute {
        path: String::from("get"),
        meta: Meta::List(vec![NestedMeta::Str(route.as_bytes().to_vec())]),
    }
}

fn arg(name: &str, scalar: Scalar, is_result: bool) -> Arg {
    Arg { name: String::from(name), ty: Type { scalar, is_result } }
}

fn method(name: &str, route: &str, args: Vec<Arg>) -> apiary::router::extract::Method {
    apiary::router::extract::Method { attrs: vec![get(route)], name: String::from(name), args }
}

fn pieces(texts: &[&str]) -> Vec<Vec<u8>> {
    texts.iter().map(|text| text.as_bytes().to_vec()).collect()
}

/// The table of one route, `GET /foo/{bar}/{baz}/quux` with `bar: u32` and
/// `baz: bool`.
fn foo_table() -> Parsed {
    let extracted = Extracted {
        methods: vec![method(
            "bar",
            "/foo/{bar}/{baz}/quux",
            vec![arg("bar", Scalar::U32, false), arg("baz", Scalar::Bool, false)],
        )],
    };
    let (parsed, diagnostics) = parse(&extracted);
    assert!(diagnostics.is_empty());
    parsed
}

#[test]
fn find_byte_gives_the_first() {
    assert_eq!(find_byte(b"a/b/c", b'/'), Some(1));
    assert_eq!(find_byte(b"/", b'/'), Some(0));
    assert_eq!(find_byte(b"abc", b'/'), None);
    assert_eq!(find_byte(b"", b'/'), None);
}

#[test]
fn split_keeps_empty_pieces() {
    assert_eq!(split(b"a/b/c", b'/'), pieces(&["a", "b", "c"]));
    assert_eq!(split(b"", b'/'), pieces(&[""]));
    assert_eq!(split(b"/", b'/'), pieces(&["", ""]));
    assert_eq!(split(b"a//b", b'/'), pieces(&["a", "", "b"]));
    assert_eq!(split(b"a/", b'/'), pieces(&["a", ""]));
    assert_eq!(split(b"abc", b'/'), pieces(&["abc"]));
}

#[test]
fn split_agrees_with_std() {
    for text in ["", "/", "//", "a", "a/b", "/a/b/", "foo/42/true/quux", "a//b///c"] {
        let expected: Vec<Vec<u8>> = text.split('/').map(|piece| piece.as_bytes().to_vec()).collect();
        assert_eq!(split(text.as_bytes(), b'/'), expected, "{:?}", text);
        assert_eq!(split(text.as_bytes(), b'/').join(&b'/'), text.as_bytes());
    }
}

#[test]
fn bytes_and_texts_compare_by_content() {
    assert!(bytes_eq(b"abc", b"abc"));
    assert!(!bytes_eq(b"abc", b"abd"));
    assert!(!bytes_eq(b"abc", b"ab"));
    assert!(bytes_eq(b"", b""));
    assert!(str_eq("get", "get"));
    assert!(!str_eq("get", "Get"));
    assert!(!str_eq("get", "gets"));
}

#[test]
fn segments_need_a_leading_slash() {
    assert_eq!(segments(b"/foo/42/true/quux"), Some(pieces(&["foo", "42", "true", "quux"])));
    assert_eq!(segments(b"/"), Some(pieces(&[""])));
    assert_eq!(segments(b"/a/"), Some(pieces(&["a", ""])));
    assert_eq!(segments(b""), None);
    assert_eq!(segments(b"foo"), None);
    assert_eq!(segments(b"*"), None);
}

#[test]
fn fixture_knows_the_names() {
    let fixture = Fixture::new();
    assert!(fixture.is_get("get"));
    assert!(!fixture.is_get("post"));
    assert!(fixture.is_method_attr("get"));
    assert!(!fixture.is_method_attr("doc"));
    assert!(fixture.is_arg_attr("doc"));
    assert!(!fixture.is_arg_attr("get"));
    assert!(fixture.is_server("server"));
    assert!(!fixture.is_server("client"));
    assert!(is_get("get"));
    assert!(!is_get("GET"));
}

#[test]
fn cut_stops_at_the_first() {
    assert_eq!(cut(b"/a?b?c", b'?'), (&b"/a"[..], true));
    assert_eq!(cut(b"/a", b'?'), (&b"/a"[..], false));
    assert_eq!(cut(b"?", b'?'), (&b""[..], true));
}

#[test]
fn route_segments_reads_a_plain_route() {
    assert_eq!(
        route_segments(b"/foo/{bar}/{baz}/quux"),
        (pieces(&["foo", "{bar}", "{baz}", "quux"]), NO_FLAWS)
    );
    assert_eq!(route_segments(b"/"), (pieces(&[""]), NO_FLAWS));
}

#[test]
fn route_segments_notes_flaws_and_reads_on() {
    assert_eq!(
        route_segments(b"/a/b?x=1"),
        (pieces(&["a", "b"]), Flaws { query: true, fragment: false, no_slash: false })
    );
    assert_eq!(
        route_segments(b"/a/b#top"),
        (pieces(&["a", "b"]), Flaws { query: false, fragment: true, no_slash: false })
    );
    assert_eq!(
        route_segments(b"/a#top?x"),
        (pieces(&["a"]), Flaws { query: true, fragment: true, no_slash: false })
    );
    assert_eq!(
        route_segments(b"/a?x#top"),
        (pieces(&["a"]), Flaws { query: true, fragment: false, no_slash: false })
    );
    assert_eq!(
        route_segments(b"a/b"),
        (pieces(&["a", "b"]), Flaws { query: false, fragment: false, no_slash: true })
    );
    assert_eq!(
        route_segments(b""),
        (pieces(&[""]), Flaws { query: false, fragment: false, no_slash: true })
    );
    assert_eq!(
        route_segments(b"?q"),
        (pieces(&[""]), Flaws { query: true, fragment: false, no_slash: true })
    );
}

#[test]
fn param_of_wants_both_braces() {
    assert_eq!(param_of(b"{bar}"), Some(b"bar".to_vec()));
    assert_eq!(param_of(b"{}"), Some(Vec::new()));
    assert_eq!(param_of(b"{a}{b}"), Some(b"a}{b".to_vec()));
    assert_eq!(param_of(b"{"), None);
    assert_eq!(param_of(b"}"), None);
    assert_eq!(param_of(b"{bar"), None);
    assert_eq!(param_of(b"bar}"), None);
    assert_eq!(param_of(b"bar"), None);
    assert_eq!(param_of(b""), None);
}

#[test]
fn pattern_has_none_for_parameters() {
    assert_eq!(
        pattern_of(&pieces(&["foo", "{bar}", "", "{", "quux"])),
        vec![Some(b"foo".to_vec()), None, Some(Vec::new()), Some(b"{".to_vec()), Some(b"quux".to_vec())]
    );
}

#[test]
fn literal_path_leaves_parameters_out() {
    assert_eq!(literal_path(&pieces(&["foo", "{bar}", "{baz}", "quux"])), b"/foo/quux".to_vec());
    assert_eq!(literal_path(&pieces(&["{bar}"])), Vec::<u8>::new());
    assert_eq!(literal_path(&pieces(&[""])), b"/".to_vec());
}

#[test]
fn find_param_takes_the_last_of_a_name() {
    let route = pieces(&["{id}", "x", "{id}", "{other}"]);
    assert_eq!(find_param(&route, b"id"), Some(2));
    assert_eq!(find_param(&route, b"other"), Some(3));
    assert_eq!(find_param(&route, b"x"), None);
    assert_eq!(find_param(&route, b"missing"), None);
}

#[test]
fn is_named_before_looks_at_earlier_parameters_only() {
    let args = vec![arg("a", Scalar::U32, false), arg("b", Scalar::U32, false)];
    assert!(!is_named_before(&args, 0, b"a"));
    assert!(is_named_before(&args, 1, b"a"));
    assert!(!is_named_before(&args, 1, b"b"));
    assert!(is_named_before(&args, 2, b"b"));
    assert!(!is_named_before(&args, 2, b"c"));
}

#[test]
fn parse_value_reads_scalars() {
    assert_eq!(parse_value(Scalar::Bool, b"true"), Some(Value::Bool(true)));
    assert_eq!(parse_value(Scalar::Bool, b"false"), Some(Value::Bool(false)));
    assert_eq!(parse_value(Scalar::Bool, b"True"), None);
    assert_eq!(parse_value(Scalar::Bool, b"1"), None);
    assert_eq!(parse_value(Scalar::Bool, b""), None);
    assert_eq!(parse_value(Scalar::U32, b"42"), Some(Value::U32(42)));
    assert_eq!(parse_value(Scalar::U32, b"4294967295"), Some(Value::U32(u32::MAX)));
    assert_eq!(parse_value(Scalar::U32, b"4294967296"), None);
    assert_eq!(parse_value(Scalar::U32, b"-1"), None);
    assert_eq!(parse_value(Scalar::Text, "zoë".as_bytes()), Some(Value::Text(String::from("zoë"))));
    assert_eq!(parse_value(Scalar::Text, b""), Some(Value::Text(String::new())));
    assert_eq!(parse_value(Scalar::Text, b"\xff"), None);
}

#[test]
fn parse_value_agrees_with_std_on_bool() {
    for text in ["true", "false", "TRUE", "t", "", " true", "true ", "0", "1", "yes"] {
        let expected = text.parse::<bool>().ok().map(Value::Bool);
        assert_eq!(parse_value(Scalar::Bool, text.as_bytes()), expected, "{:?}", text);
    }
}

#[test]
fn route_table_of_the_foo_route() {
    let parsed = foo_table();
    assert_eq!(parsed.handlers.len(), 1);
    let handler = &parsed.handlers[0];
    assert_eq!(handler.name, "bar");
    assert_eq!(handler.http_method, Method::Get);
    assert_eq!(
        handler.path,
        vec![Some(b"foo".to_vec()), None, None, Some(b"quux".to_vec())]
    );
    assert_eq!(handler.params.len(), 2);
    assert_eq!(handler.params[0].name, "bar");
    assert_eq!(handler.params[0].ty, Type { scalar: Scalar::U32, is_result: false });
    assert_eq!(handler.params[0].src, ParamSrc::Path { idx: 1, is_result: false });
    assert_eq!(handler.params[1].name, "baz");
    assert_eq!(handler.params[1].src, ParamSrc::Path { idx: 2, is_result: false });
}

#[test]
fn get_foo_42_true_quux_reaches_the_handler_with_its_parameters() {
    let routed = foo_table().route(Method::Get, b"/foo/42/true/quux").unwrap();
    assert_eq!(routed.handler, 0);
    assert_eq!(routed.arguments, vec![Ok(Value::U32(42)), Ok(Value::Bool(true))]);
}

#[test]
fn other_segment_count_is_not_found() {
    let table = foo_table();
    assert!(table.route(Method::Get, b"/foo/42/true").is_none());
    assert!(table.route(Method::Get, b"/foo/42/true/quux/").is_none());
    assert!(table.route(Method::Get, b"/foo/42/true/quux/more").is_none());
    assert!(table.route(Method::Get, b"/").is_none());
}

#[test]
fn other_literal_segment_is_not_found() {
    let table = foo_table();
    assert!(table.route(Method::Get, b"/foo/42/true/quuz").is_none());
    assert!(table.route(Method::Get, b"/fou/42/true/quux").is_none());
    assert!(table.route(Method::Get, b"/foo/42/true/QUUX").is_none());
    assert!(table.route(Method::Get, b"/foo/42/true/quu").is_none());
}

#[test]
fn segment_that_cannot_be_read_is_not_found() {
    let table = foo_table();
    assert!(table.route(Method::Get, b"/foo/x/true/quux").is_none());
    assert!(table.route(Method::Get, b"/foo/42/maybe/quux").is_none());
    assert!(table.route(Method::Get, b"/foo/-1/true/quux").is_none());
    assert!(table.route(Method::Get, b"/foo//true/quux").is_none());
}

#[test]
fn other_method_is_not_found() {
    let table = foo_table();
    assert!(table.route(Method::Post, b"/foo/42/true/quux").is_none());
    assert!(table.route(Method::Head, b"/foo/42/true/quux").is_none());
}

#[test]
fn path_without_leading_slash_is_not_found() {
    let table = foo_table();
    assert!(table.route(Method::Get, b"foo/42/true/quux").is_none());
    assert!(table.route(Method::Get, b"").is_none());
}

#[test]
fn not_found_goes_to_the_default_handler() {
    assert!(foo_table().route(Method::Get, b"/nothing/here").is_none());
    let error = default_404().unwrap_err();
    assert!(matches!(error, BoxError::NotFound(NotFound)));
    assert_eq!(error.status_code(), 404);
    assert_eq!(error.into_string(), "404 Not Found");
}

#[test]
fn first_route_that_takes_the_request_wins() {
    let extracted = Extracted {
        methods: vec![
            method("number", "/item/{id}", vec![arg("id", Scalar::U32, false)]),
            method("special", "/item/new", vec![]),
            method("named", "/item/{name}", vec![arg("name", Scalar::Text, false)]),
            method("again", "/item/{id}", vec![arg("id", Scalar::U32, false)]),
        ],
    };
    let (table, diagnostics) = parse(&extracted);
    assert!(diagnostics.is_empty());
    let routed = table.route(Method::Get, b"/item/7").unwrap();
    assert_eq!((routed.handler, routed.arguments), (0, vec![Ok(Value::U32(7))]));
    let routed = table.route(Method::Get, b"/item/new").unwrap();
    assert_eq!((routed.handler, routed.arguments), (1, vec![]));
    let routed = table.route(Method::Get, b"/item/old").unwrap();
    assert_eq!(
        (routed.handler, routed.arguments),
        (2, vec![Ok(Value::Text(String::from("old")))])
    );
}

#[test]
fn parameter_that_takes_the_outcome_lets_the_request_through() {
    let extracted = Extracted {
        methods: vec![method(
            "bar",
            "/foo/{bar}/{baz}/quux",
            vec![arg("bar", Scalar::U32, false), arg("baz", Scalar::Bool, true)],
        )],
    };
    let (table, _) = parse(&extracted);
    assert_eq!(table.handlers[0].params[1].src, ParamSrc::Path { idx: 2, is_result: true });
    let routed = table.route(Method::Get, b"/foo/42/maybe/quux").unwrap();
    assert_eq!(routed.arguments, vec![Ok(Value::U32(42)), Err(ParseFailed)]);
    let routed = table.route(Method::Get, b"/foo/42/false/quux").unwrap();
    assert_eq!(routed.arguments, vec![Ok(Value::U32(42)), Ok(Value::Bool(false))]);
    assert!(table.route(Method::Get, b"/foo/x/true/quux").is_none());
}

#[test]
fn handler_with_a_parameter_outside_its_path_takes_nothing() {
    let handler = Handler {
        name: String::from("odd"),
        http_method: Method::Get,
        path: vec![Some(b"a".to_vec())],
        params: vec![Param {
            name: String::from("p"),
            ty: Type { scalar: Scalar::Text, is_result: true },
            src: ParamSrc::Path { idx: 1, is_result: true },
        }],
    };
    assert!(handler.bind(Method::Get, &pieces(&["a"])).is_none());
}

#[test]
fn bind_checks_method_count_literals_and_parameters() {
    let table = foo_table();
    let handler = &table.handlers[0];
    assert_eq!(
        handler.bind(Method::Get, &pieces(&["foo", "+7", "false", "quux"])),
        Some(vec![Ok(Value::U32(7)), Ok(Value::Bool(false))])
    );
    assert_eq!(handler.bind(Method::Put, &pieces(&["foo", "7", "false", "quux"])), None);
    assert_eq!(handler.bind(Method::Get, &pieces(&["foo", "7", "false"])), None);
    assert_eq!(handler.bind(Method::Get, &pieces(&["bar", "7", "false", "quux"])), None);
    assert_eq!(handler.bind(Method::Get, &pieces(&["foo", "7", "no", "quux"])), None);
}

#[test]
fn route_of_takes_the_last_attribute() {
    assert_eq!(route_of(&vec![]), Ok(None));
    assert_eq!(route_of(&vec![get("/a")]), Ok(Some(&b"/a".to_vec())));
    assert_eq!(route_of(&vec![get("/a"), get("/b")]), Ok(Some(&b"/b".to_vec())));
}

#[test]
fn route_of_rejects_other_attributes_and_shapes() {
    let doc = Attribute { path: String::from("doc"), meta: Meta::NameValue };
    assert_eq!(route_of(&vec![get("/a"), doc]), Err(ParseError::UnexpectedAttribute));
    for meta in [
        Meta::Path,
        Meta::NameValue,
        Meta::Invalid,
        Meta::List(vec![]),
        Meta::List(vec![NestedMeta::Other]),
        Meta::List(vec![NestedMeta::Str(b"/a".to_vec()), NestedMeta::Str(b"/b".to_vec())]),
    ] {
        let attribute = Attribute { path: String::from("get"), meta };
        assert_eq!(route_of(&vec![attribute]), Err(ParseError::FailedToParseAttribute));
    }
}

#[test]
fn method_without_route_gives_nothing() {
    let plain = apiary::router::extract::Method {
        attrs: vec![],
        name: String::from("helper"),
        args: vec![arg("x", Scalar::U32, false)],
    };
    let (handler, errors) = parse_method(&plain);
    assert!(handler.is_none());
    assert!(errors.is_empty());
}

#[test]
fn flawed_route_still_gives_a_handler() {
    let (handler, errors) = parse_method(&method("m", "a/{x}?q=1#f", vec![arg("x", Scalar::Text, false)]));
    let handler = handler.unwrap();
    assert_eq!(handler.path, vec![Some(b"a".to_vec()), None]);
    assert_eq!(handler.params.len(), 1);
    assert_eq!(errors, vec![ParseError::QueryString, ParseError::MissingSlash]);

    let (handler, errors) = parse_method(&method("m", "/a#f", vec![]));
    assert_eq!(handler.unwrap().path, vec![Some(b"a".to_vec())]);
    assert_eq!(errors, vec![ParseError::HashFragment]);
}

#[test]
fn literal_part_that_is_no_uri_is_an_error() {
    let (handler, errors) = parse_method(&method("m", "/a b/{x}", vec![arg("x", Scalar::Text, false)]));
    assert!(handler.is_some());
    assert_eq!(errors, vec![ParseError::InvalidUri]);
    // a route of parameters only has an empty literal part, which is no URI
    let (handler, errors) = parse_method(&method("m", "/{x}", vec![arg("x", Scalar::Text, false)]));
    assert!(handler.is_some());
    assert_eq!(errors, vec![ParseError::InvalidUri]);
}

#[test]
fn parameters_and_route_have_to_agree() {
    let (handler, errors) = parse_method(&method(
        "m",
        "/a/{x}/{y}/{x}",
        vec![
            arg("x", Scalar::U32, false),
            arg("z", Scalar::U32, false),
            arg("x", Scalar::U32, false),
        ],
    ));
    let handler = handler.unwrap();
    assert_eq!(handler.path, vec![Some(b"a".to_vec()), None, None, None]);
    assert_eq!(handler.params.len(), 1);
    assert_eq!(handler.params[0].name, "x");
    assert_eq!(handler.params[0].src, ParamSrc::Path { idx: 3, is_result: false });
    assert_eq!(
        errors,
        vec![
            ParseError::UnknownArgument(String::from("z")),
            ParseError::UnknownArgument(String::from("x")),
            ParseError::UnusedParameter(b"y".to_vec()),
        ]
    );
}

#[test]
fn parse_keeps_the_order_and_places_the_errors() {
    let extracted = Extracted {
        methods: vec![
            method("first", "/a", vec![]),
            apiary::router::extract::Method {
                attrs: vec![Attribute { path: String::from("get"), meta: Meta::Path }],
                name: String::from("broken"),
                args: vec![],
            },
            method("third", "b/{p}", vec![arg("q", Scalar::Bool, false)]),
            method("fourth", "/c", vec![]),
        ],
    };
    let (table, diagnostics) = parse(&extracted);
    let names: Vec<&str> = table.handlers.iter().map(|handler| handler.name.as_str()).collect();
    assert_eq!(names, vec!["first", "third", "fourth"]);
    assert_eq!(
        diagnostics,
        vec![
            Diagnostic { method: 1, error: ParseError::FailedToParseAttribute },
            Diagnostic { method: 2, error: ParseError::MissingSlash },
            Diagnostic { method: 2, error: ParseError::UnknownArgument(String::from("q")) },
            Diagnostic { method: 2, error: ParseError::UnusedParameter(b"p".to_vec()) },
        ]
    );
}

#[test]
fn join_hands_on_what_the_handler_gave() {
    let given = join(Ok(Ok(HttpResponse::new(String::from("hi"))))).unwrap();
    assert_eq!((given.status, given.body.as_str()), (200, "hi"));
    let error = join(Ok(Err(BoxError::Other(String::from("handler said no"))))).unwrap_err();
    assert!(matches!(&error, BoxError::Other(text) if text == "handler said no"));
}

#[test]
fn join_tells_a_torn_down_task_from_a_handler_error() {
    let error = join(Err(ErrorJoin::new(String::from("task 7 was cancelled")))).unwrap_err();
    assert!(matches!(&error, BoxError::Join(e) if *e == ErrorJoin::new(String::from("task 7 was cancelled"))));
    assert_eq!(error.status_code(), 500);
    assert_eq!(error.into_string(), "task 7 was cancelled");
}

#[test]
fn parse_failed_is_an_error_of_its_own() {
    let error = parse_failed().unwrap_err();
    assert!(matches!(error, BoxError::ParseFailed(ParseFailed)));
    assert_eq!(error.status_code(), 500);
    assert_eq!(error.into_string(), "Parameter parse failed");
}

#[test]
fn flaws_become_errors_in_a_fixed_order() {
    assert_eq!(flaws_to_errors(NO_FLAWS, true), vec![]);
    assert_eq!(flaws_to_errors(NO_FLAWS, false), vec![ParseError::InvalidUri]);
    assert_eq!(
        flaws_to_errors(Flaws { query: true, fragment: true, no_slash: true }, false),
        vec![
            ParseError::QueryString,
            ParseError::HashFragment,
            ParseError::MissingSlash,
            ParseError::InvalidUri,
        ]
    );
    assert_eq!(
        flaws_to_errors(Flaws { query: false, fragment: true, no_slash: false }, true),
        vec![ParseError::HashFragment]
    );
}
