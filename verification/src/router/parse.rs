//! The route table: for each handler its method, the pattern of its path and
//! the parameters that it takes from the path.

use vstd::prelude::*;

use vstd::utf8::encode_utf8;

use crate::decimal::parse_u32;
use crate::decimal::parse_u32_spec;
use crate::internal_helper::ParseFailed;
use crate::path::bytes_eq;
use crate::path::views;
use crate::request::Method;
use crate::router::extract::is_get;
use crate::router::extract::is_get_spec;
use crate::router::extract::Arg;
use crate::router::extract::Attribute;
use crate::router::extract::Extracted;
use crate::router::extract::Meta;
use crate::router::extract::NestedMeta;
use crate::router::pattern::flaws_of;
use crate::router::pattern::is_param_segment;
use crate::router::pattern::is_uri;
use crate::router::pattern::literal_path;
use crate::router::pattern::literal_path_spec;
use crate::router::pattern::param_name;
use crate::router::pattern::param_of;
use crate::router::pattern::pattern_of;
use crate::router::pattern::pattern_spec;
use crate::router::pattern::pattern_view;
use crate::router::pattern::route_segments;
use crate::router::pattern::route_segments_spec;
use crate::router::pattern::uri_parses;
use crate::router::pattern::Flaws;
use crate::service::stringify_body::decoded;
use crate::service::stringify_body::string_from_utf8;

verus! {

/// Where a handler takes a parameter from.
#[derive(Debug, Clone, Copy, PartialEq, Eq, Structural)]
pub enum ParamSrc {
    /// From the segment `idx` of the path. With `is_result` the handler
    /// takes the outcome of reading the segment, so that a segment that
    /// cannot be read does not keep the request from the handler.
    Path { idx: usize, is_result: bool },
}

/// The types that a segment of a path can be read as.
#[derive(Debug, Clone, Copy, PartialEq, Eq, Structural)]
pub enum Scalar {
    /// `true` or `false`.
    Bool,
    /// An unsigned decimal number that fits 32 bits.
    U32,
    /// UTF-8 text.
    Text,
}

/// The type of a parameter of a handler: a scalar, or the outcome of
/// reading one.
#[derive(Debug, Clone, Copy, PartialEq, Eq, Structural)]
pub struct Type {
    /// What the segment is read as.
    pub scalar: Scalar,
    /// Whether the handler takes the outcome of the reading instead of the
    /// value.
    pub is_result: bool,
}

/// A parameter of a handler.
#[derive(Debug)]
pub struct Param {
    /// The name of the parameter.
    pub name: String,
    /// Its type.
    pub ty: Type,
    /// Where its value comes from.
    pub src: ParamSrc,
}

/// A handler with its route. A segment of `path` is `Some` literal, which a
/// request has to spell out, or `None`, which stands for any segment.
#[derive(Debug)]
pub struct Handler {
    /// The name of the handler.
    pub name: String,
    /// The method of the requests that it takes.
    pub http_method: Method,
    /// The pattern of the paths that it takes, segment by segment.
    pub path: Vec<Option<Vec<u8>>>,
    /// Its parameters, in the order in which it takes them.
    pub params: Vec<Param>,
}

/// The route table: the handlers in the order in which they were declared.
#[derive(Debug)]
pub struct Parsed {
    /// The handlers.
    pub handlers: Vec<Handler>,
}

/// A value read from a segment of a path.
#[derive(Debug, PartialEq, Eq)]
pub enum Value {
    Bool(bool),
    U32(u32),
    Text(String),
}

/// What a `Value` holds, as mathematics.
pub enum ValueView {
    Bool(bool),
    U32(u32),
    Text(Seq<char>),
}

impl View for Value {
    type V = ValueView;

    open spec fn view(&self) -> ValueView {
        match self {
            Value::Bool(b) => ValueView::Bool(*b),
            Value::U32(n) => ValueView::U32(*n),
            Value::Text(text) => ValueView::Text(text@),
        }
    }
}

/// The bytes of `true`.
pub open spec fn true_bytes() -> Seq<u8> {
    seq![116u8, 114u8, 117u8, 101u8]
}

/// The bytes of `false`.
pub open spec fn false_bytes() -> Seq<u8> {
    seq![102u8, 97u8, 108u8, 115u8, 101u8]
}

/// What `segment` is when read as `scalar`, if it can be read so: `true` or
/// `false` for a boolean, a decimal number of at most 32 bits, text in UTF-8.
pub open spec fn read_value(scalar: Scalar, segment: Seq<u8>) -> Option<ValueView> {
    match scalar {
        Scalar::Bool => if segment == true_bytes() {
            Some(ValueView::Bool(true))
        } else if segment == false_bytes() {
            Some(ValueView::Bool(false))
        } else {
            None
        },
        Scalar::U32 => match parse_u32_spec(segment) {
            Some(n) => Some(ValueView::U32(n)),
            None => None,
        },
        Scalar::Text => match decoded(segment) {
            Some(text) => Some(ValueView::Text(text)),
            None => None,
        },
    }
}

/// Reads `segment` as `scalar`.
pub fn parse_value(scalar: Scalar, segment: &[u8]) -> (value: Option<Value>)
    ensures
        match value {
            Some(v) => read_value(scalar, segment@) == Some(v@),
            None => read_value(scalar, segment@) is None,
        },
{
    match scalar {
        Scalar::Bool => {
            let yes: [u8; 4] = [116, 114, 117, 101];
            let no: [u8; 5] = [102, 97, 108, 115, 101];
            assert(yes@ =~= true_bytes());
            assert(no@ =~= false_bytes());
            if bytes_eq(segment, yes.as_slice()) {
                Some(Value::Bool(true))
            } else if bytes_eq(segment, no.as_slice()) {
                Some(Value::Bool(false))
            } else {
                None
            }
        },
        Scalar::U32 => match parse_u32(segment) {
            Some(n) => Some(Value::U32(n)),
            None => None,
        },
        Scalar::Text => match string_from_utf8(vstd::slice::slice_to_vec(segment)) {
            Ok(text) => Some(Value::Text(text)),
            Err(_) => None,
        },
    }
}

/// What a handler is given for one of its parameters: the value, or
/// `ParseFailed` where the segment could not be read and the handler takes
/// the outcome.
pub type Argument = Result<Value, ParseFailed>;

/// What the arguments of `arguments` hold.
pub open spec fn argument_views(arguments: Seq<Argument>) -> Seq<Result<ValueView, ParseFailed>> {
    arguments.map_values(
        |argument: Argument|
            match argument {
                Ok(value) => Ok(value@),
                Err(failed) => Err(failed),
            },
    )
}

impl Param {
    /// The segment that the parameter is taken from.
    pub open spec fn idx(&self) -> int {
        match self.src {
            ParamSrc::Path { idx, .. } => idx as int,
        }
    }

    /// Whether a segment that cannot be read leaves the request to the
    /// handler.
    pub open spec fn is_result(&self) -> bool {
        match self.src {
            ParamSrc::Path { is_result, .. } => is_result,
        }
    }

    /// Whether the parameter can be served from `segments`: its segment is
    /// there, and it can be read or need not be.
    pub open spec fn served_by(&self, segments: Seq<Seq<u8>>) -> bool {
        &&& self.idx() < segments.len()
        &&& (self.is_result() || read_value(self.ty.scalar, segments[self.idx()]) is Some)
    }

    /// What the handler is given for the parameter from `segments`.
    pub open spec fn argument(&self, segments: Seq<Seq<u8>>) -> Result<ValueView, ParseFailed> {
        match read_value(self.ty.scalar, segments[self.idx()]) {
            Some(value) => Ok(value),
            None => Err(ParseFailed),
        }
    }
}

impl Handler {
    /// Whether every literal segment of the pattern is spelled out at its
    /// place in `segments`.
    pub open spec fn literals_match(&self, segments: Seq<Seq<u8>>) -> bool {
        forall|i: int|
            0 <= i < self.path@.len() ==> ((#[trigger] self.path@[i]) matches Some(literal)
                ==> segments[i] == literal@)
    }

    /// Whether the handler takes a request with this method and these
    /// segments of the path: the method is the handler's, there are as many
    /// segments as the pattern has, each literal segment is spelled out, and
    /// each parameter can be served.
    pub open spec fn takes(&self, method: Method, segments: Seq<Seq<u8>>) -> bool {
        &&& method == self.http_method
        &&& segments.len() == self.path@.len()
        &&& self.literals_match(segments)
        &&& forall|k: int|
            0 <= k < self.params@.len() ==> (#[trigger] self.params@[k]).served_by(segments)
    }

    /// What the handler is given for its parameters from `segments`.
    pub open spec fn arguments(&self, segments: Seq<Seq<u8>>) -> Seq<Result<ValueView, ParseFailed>> {
        Seq::new(self.params@.len(), |k: int| self.params@[k].argument(segments))
    }

    /// Holds a request against the route of the handler. Where the handler
    /// takes it, the arguments for its parameters are returned, read from
    /// the segments of the path.
    pub fn bind(&self, method: Method, segments: &Vec<Vec<u8>>) -> (arguments: Option<Vec<Argument>>)
        ensures
            match arguments {
                Some(given) => self.takes(method, crate::path::views(segments@)) && argument_views(
                    given@,
                ) == self.arguments(crate::path::views(segments@)),
                None => !self.takes(method, crate::path::views(segments@)),
            },
    {
        let ghost segs = crate::path::views(segments@);
        if method != self.http_method {
            return None;
        }
        if segments.len() != self.path.len() {
            return None;
        }
        let mut i: usize = 0;
        while i < self.path.len()
            invariant
                i <= self.path.len(),
                segments.len() == self.path.len(),
                segs == crate::path::views(segments@),
                forall|j: int|
                    0 <= j < i ==> ((#[trigger] self.path@[j]) matches Some(literal) ==> segs[j]
                        == literal@),
            decreases self.path.len() - i,
        {
            match &self.path[i] {
                Some(literal) => {
                    if !bytes_eq(segments[i].as_slice(), literal.as_slice()) {
                        assert(segs[i as int] == segments@[i as int]@);
                        return None;
                    }
                    assert(segs[i as int] == segments@[i as int]@);
                },
                None => {},
            }
            i = i + 1;
        }
        let mut given: Vec<Argument> = Vec::new();
        let mut k: usize = 0;
        while k < self.params.len()
            invariant
                k <= self.params.len(),
                segs == crate::path::views(segments@),
                given@.len() == k,
                forall|j: int| 0 <= j < k ==> (#[trigger] self.params@[j]).served_by(segs),
                forall|j: int|
                    0 <= j < k ==> (#[trigger] argument_views(given@)[j]) == self.params@[j].argument(
                        segs,
                    ),
            decreases self.params.len() - k,
        {
            let param = &self.params[k];
            let ghost before = given@;
            match param.src {
                ParamSrc::Path { idx, is_result } => {
                    if idx >= segments.len() {
                        return None;
                    }
                    assert(segs[idx as int] == segments@[idx as int]@);
                    match parse_value(param.ty.scalar, segments[idx].as_slice()) {
                        Some(value) => {
                            given.push(Ok(value));
                        },
                        None => {
                            if is_result {
                                given.push(Err(ParseFailed));
                            } else {
                                return None;
                            }
                        },
                    }
                },
            }
            proof {
                assert forall|j: int| 0 <= j < k + 1 implies (#[trigger] argument_views(given@)[j])
                    == self.params@[j].argument(segs) by {
                    if j < k {
                        assert(argument_views(given@)[j] == argument_views(before)[j]);
                    }
                }
            }
            k = k + 1;
        }
        assert(argument_views(given@) =~= self.arguments(segs));
        Some(given)
    }
}

/// A `Param` as mathematics.
pub struct ParamView {
    pub name: Seq<char>,
    pub ty: Type,
    pub src: ParamSrc,
}

impl View for Param {
    type V = ParamView;

    open spec fn view(&self) -> ParamView {
        ParamView { name: self.name@, ty: self.ty, src: self.src }
    }
}

/// A `Handler` as mathematics.
pub struct HandlerView {
    pub name: Seq<char>,
    pub http_method: Method,
    pub path: Seq<Option<Seq<u8>>>,
    pub params: Seq<ParamView>,
}

impl View for Handler {
    type V = HandlerView;

    open spec fn view(&self) -> HandlerView {
        HandlerView {
            name: self.name@,
            http_method: self.http_method,
            path: pattern_view(self.path@),
            params: self.params@.map_values(|param: Param| param@),
        }
    }
}

/// What is wrong with the declaration of a route.
#[derive(Debug, PartialEq, Eq)]
pub enum ParseError {
    /// An attribute that is not one for routes.
    UnexpectedAttribute,
    /// A route attribute that does not hold exactly one string literal.
    FailedToParseAttribute,
    /// The route has a query.
    QueryString,
    /// The route has a fragment.
    HashFragment,
    /// The route does not start with `/`.
    MissingSlash,
    /// The literal part of the route is no URI.
    InvalidUri,
    /// The method takes a parameter of this name, and the route has none,
    /// or none that is still free.
    UnknownArgument(String),
    /// The route has a parameter of this name, and the method takes none.
    UnusedParameter(Vec<u8>),
}

/// A `ParseError` as mathematics.
pub enum ParseErrorView {
    UnexpectedAttribute,
    FailedToParseAttribute,
    QueryString,
    HashFragment,
    MissingSlash,
    InvalidUri,
    UnknownArgument(Seq<char>),
    UnusedParameter(Seq<u8>),
}

impl View for ParseError {
    type V = ParseErrorView;

    open spec fn view(&self) -> ParseErrorView {
        match self {
            ParseError::UnexpectedAttribute => ParseErrorView::UnexpectedAttribute,
            ParseError::FailedToParseAttribute => ParseErrorView::FailedToParseAttribute,
            ParseError::QueryString => ParseErrorView::QueryString,
            ParseError::HashFragment => ParseErrorView::HashFragment,
            ParseError::MissingSlash => ParseErrorView::MissingSlash,
            ParseError::InvalidUri => ParseErrorView::InvalidUri,
            ParseError::UnknownArgument(name) => ParseErrorView::UnknownArgument(name@),
            ParseError::UnusedParameter(name) => ParseErrorView::UnusedParameter(name@),
        }
    }
}

/// What the errors of `errors` hold.
pub open spec fn error_views(errors: Seq<ParseError>) -> Seq<ParseErrorView> {
    errors.map_values(|error: ParseError| error@)
}

/// The place of the last segment of a route that stands for the parameter
/// `name`, if there is one.
pub open spec fn param_index(segments: Seq<Seq<u8>>, name: Seq<u8>) -> Option<int>
    decreases segments.len(),
{
    if segments.len() == 0 {
        None
    } else if is_param_segment(segments.last()) && param_name(segments.last()) == name {
        Some(segments.len() - 1)
    } else {
        param_index(segments.drop_last(), name)
    }
}

/// Where `param_index` finds a parameter, a segment stands for it there.
pub proof fn lemma_param_index(segments: Seq<Seq<u8>>, name: Seq<u8>)
    ensures
        param_index(segments, name) matches Some(i) ==> 0 <= i < segments.len() && is_param_segment(
            segments[i],
        ) && param_name(segments[i]) == name,
    decreases segments.len(),
{
    if segments.len() > 0 && !(is_param_segment(segments.last()) && param_name(segments.last())
        == name) {
        lemma_param_index(segments.drop_last(), name);
    }
}

/// Finds the last segment of a route that stands for the parameter `name`.
pub fn find_param(segments: &Vec<Vec<u8>>, name: &[u8]) -> (found: Option<usize>)
    ensures
        match found {
            Some(i) => param_index(views(segments@), name@) == Some(i as int),
            None => param_index(views(segments@), name@) is None,
        },
{
    let mut found: Option<usize> = None;
    let mut i: usize = 0;
    let ghost segs = views(segments@);
    assert(segs.take(0) =~= Seq::<Seq<u8>>::empty());
    while i < segments.len()
        invariant
            i <= segments.len(),
            segs == views(segments@),
            match found {
                Some(at) => param_index(segs.take(i as int), name@) == Some(at as int),
                None => param_index(segs.take(i as int), name@) is None,
            },
        decreases segments.len() - i,
    {
        proof {
            assert(segs.take(i + 1).drop_last() =~= segs.take(i as int));
            assert(segs.take(i + 1).last() == segments@[i as int]@);
        }
        match param_of(segments[i].as_slice()) {
            Some(param) => {
                if bytes_eq(param.as_slice(), name) {
                    found = Some(i);
                }
            },
            None => {},
        }
        i = i + 1;
    }
    assert(segs.take(i as int) =~= segs);
    found
}

/// Whether one of the first `k` parameters of a method has the name `name`.
pub open spec fn named_before(args: Seq<Arg>, k: int, name: Seq<u8>) -> bool {
    exists|j: int| 0 <= j < k && j < args.len() && encode_utf8((#[trigger] args[j]).name@) == name
}

/// Whether one of the first `k` parameters of a method has the name `name`.
pub fn is_named_before(args: &Vec<Arg>, k: usize, name: &[u8]) -> (named: bool)
    ensures
        named == named_before(args@, k as int, name@),
{
    let end = if k <= args.len() {
        k
    } else {
        args.len()
    };
    let mut j: usize = 0;
    while j < end
        invariant
            j <= end <= args.len(),
            end <= k,
            end == k || end == args.len(),
            !named_before(args@, j as int, name@),
        decreases end - j,
    {
        if bytes_eq(args[j].name.as_str().as_bytes(), name) {
            return true;
        }
        j = j + 1;
    }
    false
}

/// The segment that the parameter `k` of a method is taken from: the last
/// segment of the route that stands for its name, unless an earlier
/// parameter of the same name has taken it.
pub open spec fn binding(segments: Seq<Seq<u8>>, args: Seq<Arg>, k: int) -> Option<int> {
    if named_before(args, k, encode_utf8(args[k].name@)) {
        None
    } else {
        param_index(segments, encode_utf8(args[k].name@))
    }
}

/// The parameters that the first `k` parameters of a method give, in their
/// order: one for each that is taken from a segment.
pub open spec fn bound_params(segments: Seq<Seq<u8>>, args: Seq<Arg>, k: int) -> Seq<ParamView>
    decreases k,
{
    if k <= 0 {
        Seq::empty()
    } else {
        let before = bound_params(segments, args, k - 1);
        match binding(segments, args, k - 1) {
            Some(idx) => before.push(
                ParamView {
                    name: args[k - 1].name@,
                    ty: args[k - 1].ty,
                    src: ParamSrc::Path { idx: idx as usize, is_result: args[k - 1].ty.is_result },
                },
            ),
            None => before,
        }
    }
}

/// Every parameter of a handler is taken from a segment of its route that
/// stands for a parameter: the segment exists, and the pattern asks nothing
/// of the path at its place.
pub proof fn lemma_params_are_taken_from_parameters(
    segments: Seq<Seq<u8>>,
    args: Seq<Arg>,
    k: int,
)
    requires
        segments.len() <= usize::MAX,
    ensures
        forall|i: int|
            0 <= i < bound_params(segments, args, k).len() ==> {
                let idx = (#[trigger] bound_params(segments, args, k)[i]).src->idx;
                idx < segments.len() && pattern_spec(segments)[idx as int] is None
            },
    decreases k,
{
    if k > 0 {
        lemma_params_are_taken_from_parameters(segments, args, k - 1);
        let before = bound_params(segments, args, k - 1);
        match binding(segments, args, k - 1) {
            Some(idx) => {
                lemma_param_index(segments, encode_utf8(args[k - 1].name@));
                assert forall|i: int| 0 <= i < bound_params(segments, args, k).len() implies {
                    let at = (#[trigger] bound_params(segments, args, k)[i]).src->idx;
                    at < segments.len() && pattern_spec(segments)[at as int] is None
                } by {
                    if i < before.len() {
                        assert(bound_params(segments, args, k)[i] == before[i]);
                    }
                }
            },
            None => {},
        }
    }
}

/// The errors that the first `k` parameters of a method give, in their
/// order: one for each that is taken from no segment.
pub open spec fn unknown_arguments(segments: Seq<Seq<u8>>, args: Seq<Arg>, k: int) -> Seq<
    ParseErrorView,
>
    decreases k,
{
    if k <= 0 {
        Seq::empty()
    } else {
        let before = unknown_arguments(segments, args, k - 1);
        match binding(segments, args, k - 1) {
            Some(_) => before,
            None => before.push(ParseErrorView::UnknownArgument(args[k - 1].name@)),
        }
    }
}

/// Whether the segment `i` of a route stands for a parameter that no
/// parameter of the method takes. A name that several segments stand for
/// counts once, at the last of them.
pub open spec fn is_unused(segments: Seq<Seq<u8>>, args: Seq<Arg>, i: int) -> bool {
    &&& is_param_segment(segments[i])
    &&& param_index(segments, param_name(segments[i])) == Some(i)
    &&& !named_before(args, args.len() as int, param_name(segments[i]))
}

/// The errors that the first `i` segments of a route give, in their order:
/// one for each parameter that the method does not take.
pub open spec fn unused_parameters(segments: Seq<Seq<u8>>, args: Seq<Arg>, i: int) -> Seq<
    ParseErrorView,
>
    decreases i,
{
    if i <= 0 {
        Seq::empty()
    } else {
        let before = unused_parameters(segments, args, i - 1);
        if is_unused(segments, args, i - 1) {
            before.push(ParseErrorView::UnusedParameter(param_name(segments[i - 1])))
        } else {
            before
        }
    }
}

/// The errors for the flaws of the text of a route, and for a literal part
/// that is no URI.
pub open spec fn flaw_errors(flaws: Flaws, uri: bool) -> Seq<ParseErrorView> {
    (if flaws.query {
        seq![ParseErrorView::QueryString]
    } else {
        Seq::empty()
    }) + (if flaws.fragment {
        seq![ParseErrorView::HashFragment]
    } else {
        Seq::empty()
    }) + (if flaws.no_slash {
        seq![ParseErrorView::MissingSlash]
    } else {
        Seq::empty()
    }) + (if uri {
        Seq::empty()
    } else {
        seq![ParseErrorView::InvalidUri]
    })
}

/// Whether every attribute of `attrs` is one for routes.
pub open spec fn all_get(attrs: Seq<Attribute>) -> bool {
    forall|i: int| 0 <= i < attrs.len() ==> is_get_spec((#[trigger] attrs[i]).path@)
}

/// The text of the route that an attribute holds: its one string literal.
pub open spec fn literal_of(meta: Meta) -> Option<Seq<u8>> {
    match meta {
        Meta::List(nested) => if nested@.len() == 1 {
            match nested@[0] {
                NestedMeta::Str(text) => Some(text@),
                NestedMeta::Other => None,
            }
        } else {
            None
        },
        _ => None,
    }
}

/// The text of the route of a method with these attributes: that of the
/// last attribute. A method without attributes has no route, which is no
/// error. An attribute that is not one for routes is an error, and so is a
/// last attribute that does not hold exactly one string literal.
pub open spec fn route_text(attrs: Seq<Attribute>) -> Result<Option<Seq<u8>>, ParseErrorView> {
    if !all_get(attrs) {
        Err(ParseErrorView::UnexpectedAttribute)
    } else if attrs.len() == 0 {
        Ok(None)
    } else {
        match literal_of(attrs.last().meta) {
            Some(text) => Ok(Some(text)),
            None => Err(ParseErrorView::FailedToParseAttribute),
        }
    }
}

/// The handler that a method with a route of these segments gives.
pub open spec fn handler_of(method: crate::router::extract::Method, segments: Seq<Seq<u8>>) -> HandlerView {
    HandlerView {
        name: method.name@,
        http_method: Method::Get,
        path: pattern_spec(segments),
        params: bound_params(segments, method.args@, method.args@.len() as int),
    }
}

/// The errors that a method with a route of this text gives: those of the
/// text, then those of the parameters of the method, then those of the
/// parameters of the route.
pub open spec fn errors_of(method: crate::router::extract::Method, text: Seq<u8>) -> Seq<ParseErrorView> {
    let segments = route_segments_spec(text);
    flaw_errors(flaws_of(text), uri_parses(literal_path_spec(segments))) + unknown_arguments(
        segments,
        method.args@,
        method.args@.len() as int,
    ) + unused_parameters(segments, method.args@, segments.len() as int)
}

/// What a method gives: a handler, if it has a route that can be read, and
/// the errors of its declaration. A route with errors still gives a handler.
pub open spec fn method_outcome(method: crate::router::extract::Method) -> (
    Option<HandlerView>,
    Seq<ParseErrorView>,
) {
    match route_text(method.attrs@) {
        Err(error) => (None, seq![error]),
        Ok(None) => (None, Seq::empty()),
        Ok(Some(text)) => (
            Some(handler_of(method, route_segments_spec(text))),
            errors_of(method, text),
        ),
    }
}

/// Reads the text of the route from the attributes of a method.
pub fn route_of(attrs: &Vec<Attribute>) -> (text: Result<Option<&Vec<u8>>, ParseError>)
    ensures
        match text {
            Ok(Some(found)) => route_text(attrs@) == Ok::<Option<Seq<u8>>, ParseErrorView>(
                Some(found@),
            ),
            Ok(None) => route_text(attrs@) == Ok::<Option<Seq<u8>>, ParseErrorView>(None),
            Err(error) => route_text(attrs@) == Err::<Option<Seq<u8>>, ParseErrorView>(error@),
        },
{
    let mut i: usize = 0;
    while i < attrs.len()
        invariant
            i <= attrs.len(),
            forall|j: int| 0 <= j < i ==> is_get_spec((#[trigger] attrs@[j]).path@),
        decreases attrs.len() - i,
    {
        if !is_get(attrs[i].path.as_str()) {
            return Err(ParseError::UnexpectedAttribute);
        }
        i = i + 1;
    }
    if attrs.len() == 0 {
        return Ok(None);
    }
    match &attrs[attrs.len() - 1].meta {
        Meta::List(nested) => {
            if nested.len() == 1 {
                match &nested[0] {
                    NestedMeta::Str(text) => Ok(Some(text)),
                    NestedMeta::Other => Err(ParseError::FailedToParseAttribute),
                }
            } else {
                Err(ParseError::FailedToParseAttribute)
            }
        },
        _ => Err(ParseError::FailedToParseAttribute),
    }
}

/// The errors for the flaws of the text of a route, and for a literal part
/// that is no URI: `uri` says whether it is one.
pub fn flaws_to_errors(flaws: Flaws, uri: bool) -> (errors: Vec<ParseError>)
    ensures
        error_views(errors@) == flaw_errors(flaws, uri),
{
    let mut errors: Vec<ParseError> = Vec::new();
    if flaws.query {
        errors.push(ParseError::QueryString);
    }
    if flaws.fragment {
        errors.push(ParseError::HashFragment);
    }
    if flaws.no_slash {
        errors.push(ParseError::MissingSlash);
    }
    if !uri {
        errors.push(ParseError::InvalidUri);
    }
    assert(error_views(errors@) =~= flaw_errors(flaws, uri));
    errors
}

/// Takes the parameters of a method from the segments of its route. What
/// it finds wrong is appended to `errors`.
fn bind_params(segments: &Vec<Vec<u8>>, args: &Vec<Arg>, errors: &mut Vec<ParseError>) -> (params:
    Vec<Param>)
    ensures
        params@.map_values(|param: Param| param@) == bound_params(
            views(segments@),
            args@,
            args@.len() as int,
        ),
        error_views(final(errors)@) == error_views(old(errors)@) + unknown_arguments(
            views(segments@),
            args@,
            args@.len() as int,
        ),
{
    let mut params: Vec<Param> = Vec::new();
    let mut k: usize = 0;
    let ghost segs = views(segments@);
    let ghost start = error_views(errors@);
    assert(params@.map_values(|param: Param| param@) =~= bound_params(segs, args@, 0));
    assert(error_views(errors@) =~= start + unknown_arguments(segs, args@, 0));
    while k < args.len()
        invariant
            k <= args.len(),
            segs == views(segments@),
            params@.map_values(|param: Param| param@) == bound_params(segs, args@, k as int),
            error_views(errors@) == start + unknown_arguments(segs, args@, k as int),
        decreases args.len() - k,
    {
        let arg = &args[k];
        let name = arg.name.as_str().as_bytes();
        let found = if is_named_before(args, k, name) {
            None
        } else {
            find_param(segments, name)
        };
        let ghost params_before = params@;
        let ghost errors_before = errors@;
        match found {
            Some(idx) => {
                let param = Param {
                    name: arg.name.clone(),
                    ty: arg.ty,
                    src: ParamSrc::Path { idx, is_result: arg.ty.is_result },
                };
                params.push(param);
                proof {
                    assert(binding(segs, args@, k as int) == Some(idx as int));
                    assert(params@.map_values(|param: Param| param@) =~= params_before.map_values(
                        |param: Param| param@,
                    ).push(param@));
                }
            },
            None => {
                let error = ParseError::UnknownArgument(arg.name.clone());
                errors.push(error);
                proof {
                    assert(binding(segs, args@, k as int) is None);
                    assert(error_views(errors@) =~= error_views(errors_before).push(error@));
                    assert(error_views(errors@) =~= start + unknown_arguments(
                        segs,
                        args@,
                        k as int + 1,
                    ));
                }
            },
        }
        k = k + 1;
    }
    params
}

/// Appends to `errors` one error for each parameter of the route that the
/// method does not take.
fn note_unused(segments: &Vec<Vec<u8>>, args: &Vec<Arg>, errors: &mut Vec<ParseError>)
    ensures
        error_views(final(errors)@) == error_views(old(errors)@) + unused_parameters(
            views(segments@),
            args@,
            segments@.len() as int,
        ),
{
    let mut i: usize = 0;
    let ghost segs = views(segments@);
    let ghost start = error_views(errors@);
    assert(error_views(errors@) =~= start + unused_parameters(segs, args@, 0));
    while i < segments.len()
        invariant
            i <= segments.len(),
            segs == views(segments@),
            error_views(errors@) == start + unused_parameters(segs, args@, i as int),
        decreases segments.len() - i,
    {
        let ghost errors_before = errors@;
        assert(segs[i as int] == segments@[i as int]@);
        let unused = match param_of(segments[i].as_slice()) {
            Some(name) => {
                let last = match find_param(segments, name.as_slice()) {
                    Some(at) => at == i,
                    None => false,
                };
                if last && !is_named_before(args, args.len(), name.as_slice()) {
                    Some(name)
                } else {
                    None
                }
            },
            None => None,
        };
        match unused {
            Some(name) => {
                let error = ParseError::UnusedParameter(name);
                errors.push(error);
                proof {
                    assert(is_unused(segs, args@, i as int));
                    assert(error_views(errors@) =~= error_views(errors_before).push(error@));
                    assert(error_views(errors@) =~= start + unused_parameters(
                        segs,
                        args@,
                        i as int + 1,
                    ));
                }
            },
            None => {
                assert(!is_unused(segs, args@, i as int));
            },
        }
        i = i + 1;
    }
}

/// Reads the declaration of one method: the handler that it gives, if its
/// route can be read, and what is wrong with the declaration.
pub fn parse_method(method: &crate::router::extract::Method) -> (outcome: (
    Option<Handler>,
    Vec<ParseError>,
))
    ensures
        match outcome.0 {
            Some(handler) => method_outcome(*method).0 == Some(handler@),
            None => method_outcome(*method).0 is None,
        },
        error_views(outcome.1@) == method_outcome(*method).1,
{
    let text = match route_of(&method.attrs) {
        Ok(Some(text)) => text,
        Ok(None) => {
            let errors: Vec<ParseError> = Vec::new();
            assert(error_views(errors@) =~= Seq::<ParseErrorView>::empty());
            return (None, errors);
        },
        Err(error) => {
            let mut errors: Vec<ParseError> = Vec::new();
            let ghost view = error@;
            errors.push(error);
            assert(error_views(errors@) =~= seq![view]);
            return (None, errors);
        },
    };
    let (segments, flaws) = route_segments(text.as_slice());
    let literal = literal_path(&segments);
    let mut errors = flaws_to_errors(flaws, is_uri(literal.as_slice()));
    let params = bind_params(&segments, &method.args, &mut errors);
    note_unused(&segments, &method.args, &mut errors);
    let handler = Handler {
        name: method.name.clone(),
        http_method: Method::Get,
        path: pattern_of(&segments),
        params,
    };
    assert(handler@ == handler_of(*method, views(segments@)));
    (Some(handler), errors)
}

/// An error of the declaration of the method at the place `method`.
#[derive(Debug, PartialEq, Eq)]
pub struct Diagnostic {
    /// The place of the method among the declared methods.
    pub method: usize,
    /// What is wrong.
    pub error: ParseError,
}

/// The handlers that the first `n` methods give, in their order.
pub open spec fn handlers_of(methods: Seq<crate::router::extract::Method>, n: int) -> Seq<
    HandlerView,
>
    decreases n,
{
    if n <= 0 {
        Seq::empty()
    } else {
        let before = handlers_of(methods, n - 1);
        match method_outcome(methods[n - 1]).0 {
            Some(handler) => before.push(handler),
            None => before,
        }
    }
}

/// `errors`, each with the place `method` of the method that it is about.
pub open spec fn tagged(method: int, errors: Seq<ParseErrorView>) -> Seq<(int, ParseErrorView)> {
    errors.map_values(|error: ParseErrorView| (method, error))
}

/// The errors of the first `n` methods, each with the place of its method,
/// in the order of the methods.
pub open spec fn diagnostics_of(methods: Seq<crate::router::extract::Method>, n: int) -> Seq<
    (int, ParseErrorView),
>
    decreases n,
{
    if n <= 0 {
        Seq::empty()
    } else {
        diagnostics_of(methods, n - 1) + tagged(n - 1, method_outcome(methods[n - 1]).1)
    }
}

/// What the diagnostics of `diagnostics` hold.
pub open spec fn diagnostic_views(diagnostics: Seq<Diagnostic>) -> Seq<(int, ParseErrorView)> {
    diagnostics.map_values(|d: Diagnostic| (d.method as int, d.error@))
}

/// Makes the route table from the declared methods: one handler for each
/// method whose route can be read, in the order of the methods, and the
/// errors of all the declarations.
pub fn parse(extracted: &Extracted) -> (read: (Parsed, Vec<Diagnostic>))
    ensures
        read.0.handlers@.map_values(|handler: Handler| handler@) == handlers_of(
            extracted.methods@,
            extracted.methods@.len() as int,
        ),
        diagnostic_views(read.1@) == diagnostics_of(
            extracted.methods@,
            extracted.methods@.len() as int,
        ),
{
    let mut handlers: Vec<Handler> = Vec::new();
    let mut diagnostics: Vec<Diagnostic> = Vec::new();
    let mut n: usize = 0;
    let ghost methods = extracted.methods@;
    assert(handlers@.map_values(|handler: Handler| handler@) =~= handlers_of(methods, 0));
    assert(diagnostic_views(diagnostics@) =~= diagnostics_of(methods, 0));
    while n < extracted.methods.len()
        invariant
            n <= extracted.methods.len(),
            methods == extracted.methods@,
            handlers@.map_values(|handler: Handler| handler@) == handlers_of(methods, n as int),
            diagnostic_views(diagnostics@) == diagnostics_of(methods, n as int),
        decreases extracted.methods.len() - n,
    {
        let (handler, mut errors) = parse_method(&extracted.methods[n]);
        let ghost handlers_before = handlers@;
        match handler {
            Some(handler) => {
                handlers.push(handler);
                assert(handlers@.map_values(|handler: Handler| handler@)
                    =~= handlers_before.map_values(|handler: Handler| handler@).push(handler@));
            },
            None => {},
        }
        let ghost found = error_views(errors@);
        let ghost before = diagnostic_views(diagnostics@);
        assert(before + tagged(n as int, found.take(0)) =~= before);
        while errors.len() > 0
            invariant
                errors@.len() <= found.len(),
                error_views(errors@) == found.skip(found.len() - errors@.len()),
                diagnostic_views(diagnostics@) == before + tagged(
                    n as int,
                    found.take(found.len() - errors@.len()),
                ),
            decreases errors.len(),
        {
            let ghost errors_before = errors@;
            let ghost diagnostics_before = diagnostics@;
            let ghost at = found.len() - errors@.len();
            let error = errors.remove(0);
            let diagnostic = Diagnostic { method: n, error };
            diagnostics.push(diagnostic);
            proof {
                assert(error@ == error_views(errors_before)[0]);
                assert(error@ == found[at]);
                assert(error_views(errors@) =~= found.skip(at + 1)) by {
                    assert forall|j: int| 0 <= j < errors@.len() implies error_views(errors@)[j]
                        == found.skip(at + 1)[j] by {
                        assert(error_views(errors@)[j] == error_views(errors_before)[j + 1]);
                    }
                }
                assert(diagnostic_views(diagnostics@) =~= diagnostic_views(diagnostics_before).push(
                    (n as int, error@),
                ));
                assert(tagged(n as int, found.take(at + 1)) =~= tagged(n as int, found.take(at)).push(
                    (n as int, found[at]),
                ));
            }
        }
        proof {
            assert(found.take(found.len() as int) =~= found);
        }
        n = n + 1;
    }
    (Parsed { handlers }, diagnostics)
}

} // verus!
