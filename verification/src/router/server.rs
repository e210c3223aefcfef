//! The arguments of the declaration of an application: whether a server is
//! asked for, and under which name.

use vstd::prelude::*;

use crate::path::str_eq;

verus! {

/// One argument of the `server` argument.
#[derive(Debug, PartialEq, Eq)]
pub enum ServerArg {
    /// A single name.
    Ident(String),
    /// A path that is no single name.
    Path,
    /// Anything else.
    Other,
}

/// One argument of the declaration.
#[derive(Debug, PartialEq, Eq)]
pub enum AttributeArg {
    /// A literal.
    Lit,
    /// A name with a value, as in `server = "x"`.
    NameValue,
    /// A bare name, as in `server`.
    Path(String),
    /// A name with a list in brackets, as in `server(FooServer)`.
    List(String, Vec<ServerArg>),
}

/// What a declaration asks of its server.
#[derive(Debug, PartialEq, Eq)]
pub struct Args {
    /// The name of the type of the server.
    pub server_name: String,
}

/// What is wrong with the arguments of a declaration.
#[derive(Debug, Clone, Copy, PartialEq, Eq, Structural)]
pub enum ArgsError {
    /// An argument that is not `server`.
    InvalidParameter,
    /// A second `server` after one that was read.
    DuplicatedServer,
    /// The first argument of `server` is not the name of a type.
    InvalidTypeName,
    /// `server` has no argument.
    MissingTypeName,
    /// `server` has more than one argument.
    TooManyParameters,
}

/// The name of the type of the server that `args` give, if they give one.
pub open spec fn server_name_of(args: Seq<ServerArg>) -> Option<Seq<char>> {
    if args.len() == 0 {
        None
    } else {
        match args[0] {
            ServerArg::Ident(name) => Some(name@),
            _ => None,
        }
    }
}

/// The errors of the arguments of `server`: that there is none, that the
/// first is no name, or that there is more than one after a name.
pub open spec fn server_errors(args: Seq<ServerArg>) -> Seq<ArgsError> {
    if args.len() == 0 {
        seq![ArgsError::MissingTypeName]
    } else if server_name_of(args) is None {
        seq![ArgsError::InvalidTypeName]
    } else if args.len() > 1 {
        seq![ArgsError::TooManyParameters]
    } else {
        Seq::empty()
    }
}

/// Reads the arguments of `server`. The first has to be the name of the
/// type of the server; further arguments are an error and do not keep the
/// name from being read.
pub fn parse_args(args: &Vec<ServerArg>) -> (read: (Option<Args>, Vec<ArgsError>))
    ensures
        match read.0 {
            Some(found) => server_name_of(args@) == Some(found.server_name@),
            None => server_name_of(args@) is None,
        },
        read.1@ == server_errors(args@),
{
    let mut errors: Vec<ArgsError> = Vec::new();
    if args.len() == 0 {
        errors.push(ArgsError::MissingTypeName);
        assert(errors@ =~= server_errors(args@));
        return (None, errors);
    }
    match &args[0] {
        ServerArg::Ident(name) => {
            if args.len() > 1 {
                errors.push(ArgsError::TooManyParameters);
            }
            assert(errors@ =~= server_errors(args@));
            (Some(Args { server_name: name.clone() }), errors)
        },
        _ => {
            errors.push(ArgsError::InvalidTypeName);
            assert(errors@ =~= server_errors(args@));
            (None, errors)
        },
    }
}

/// Whether `name` is the argument that asks for a server.
pub open spec fn is_server_spec(name: Seq<char>) -> bool {
    name == "server"@
}

/// The arguments of `server` that an argument of the declaration holds, if
/// it is `server`.
pub open spec fn server_of(arg: AttributeArg) -> Option<Seq<ServerArg>> {
    match arg {
        AttributeArg::Path(name) => if is_server_spec(name@) {
            Some(Seq::empty())
        } else {
            None
        },
        AttributeArg::List(name, nested) => if is_server_spec(name@) {
            Some(nested@)
        } else {
            None
        },
        _ => None,
    }
}

/// The name of the type of the server that the first `n` arguments of a
/// declaration give: that of the first `server` whose arguments give one.
pub open spec fn server_upto(args: Seq<AttributeArg>, n: int) -> Option<Seq<char>>
    decreases n,
{
    if n <= 0 {
        None
    } else {
        match server_upto(args, n - 1) {
            Some(name) => Some(name),
            None => match server_of(args[n - 1]) {
                Some(nested) => server_name_of(nested),
                None => None,
            },
        }
    }
}

/// The errors of the first `n` arguments of a declaration, each with the
/// place of its argument. An argument that is not `server` is an error. A
/// `server` after one that gave a name is an error; any other `server` has
/// the errors of its own arguments.
pub open spec fn errors_upto(args: Seq<AttributeArg>, n: int) -> Seq<(int, ArgsError)>
    decreases n,
{
    if n <= 0 {
        Seq::empty()
    } else {
        let before = errors_upto(args, n - 1);
        match server_of(args[n - 1]) {
            None => before.push((n - 1, ArgsError::InvalidParameter)),
            Some(nested) => if server_upto(args, n - 1) is Some {
                before.push((n - 1, ArgsError::DuplicatedServer))
            } else {
                before + server_errors(nested).map_values(|error: ArgsError| (n - 1, error))
            },
        }
    }
}

/// What the errors of `errors` hold.
pub open spec fn placed(errors: Seq<(usize, ArgsError)>) -> Seq<(int, ArgsError)> {
    errors.map_values(|error: (usize, ArgsError)| (error.0 as int, error.1))
}

/// Reads the arguments of a declaration: the server that is asked for, if
/// one is, and the errors of the arguments, each with the place of its
/// argument.
pub fn read_args(args: &Vec<AttributeArg>) -> (read: (Option<Args>, Vec<(usize, ArgsError)>))
    ensures
        match read.0 {
            Some(found) => server_upto(args@, args@.len() as int) == Some(found.server_name@),
            None => server_upto(args@, args@.len() as int) is None,
        },
        placed(read.1@) == errors_upto(args@, args@.len() as int),
{
    let mut server: Option<Args> = None;
    let mut errors: Vec<(usize, ArgsError)> = Vec::new();
    let mut n: usize = 0;
    assert(placed(errors@) =~= errors_upto(args@, 0));
    while n < args.len()
        invariant
            n <= args.len(),
            match server {
                Some(found) => server_upto(args@, n as int) == Some(found.server_name@),
                None => server_upto(args@, n as int) is None,
            },
            placed(errors@) == errors_upto(args@, n as int),
        decreases args.len() - n,
    {
        let ghost before = errors@;
        let nested: Option<&Vec<ServerArg>> = match &args[n] {
            AttributeArg::List(name, nested) => if str_eq(name.as_str(), "server") {
                Some(nested)
            } else {
                None
            },
            _ => None,
        };
        let bare = match &args[n] {
            AttributeArg::Path(name) => str_eq(name.as_str(), "server"),
            _ => false,
        };
        if bare || nested.is_some() {
            if server.is_some() {
                errors.push((n, ArgsError::DuplicatedServer));
                assert(placed(errors@) =~= placed(before).push(
                    (n as int, ArgsError::DuplicatedServer),
                ));
            } else {
                let none: Vec<ServerArg> = Vec::new();
                let (found, mut found_errors) = match nested {
                    Some(nested) => parse_args(nested),
                    None => parse_args(&none),
                };
                let ghost inner = server_of(args@[n as int])->0;
                let ghost own = found_errors@;
                assert(own == server_errors(inner));
                assert(placed(errors@) + own.take(0).map_values(|e: ArgsError| (n as int, e))
                    =~= placed(errors@));
                while found_errors.len() > 0
                    invariant
                        found_errors@.len() <= own.len(),
                        found_errors@ == own.skip(own.len() - found_errors@.len()),
                        placed(errors@) == placed(before) + own.take(
                            own.len() - found_errors@.len(),
                        ).map_values(|e: ArgsError| (n as int, e)),
                    decreases found_errors.len(),
                {
                    let ghost at = own.len() - found_errors@.len();
                    let ghost errors_before = errors@;
                    let error = found_errors.remove(0);
                    errors.push((n, error));
                    proof {
                        assert(error == own[at]);
                        assert(found_errors@ =~= own.skip(at + 1));
                        assert(placed(errors@) =~= placed(errors_before).push((n as int, error)));
                        assert(own.take(at + 1).map_values(|e: ArgsError| (n as int, e))
                            =~= own.take(at).map_values(|e: ArgsError| (n as int, e)).push(
                            (n as int, own[at]),
                        ));
                    }
                }
                assert(own.take(own.len() as int) =~= own);
                server = found;
            }
        } else {
            errors.push((n, ArgsError::InvalidParameter));
            assert(placed(errors@) =~= placed(before).push((n as int, ArgsError::InvalidParameter)));
        }
        n = n + 1;
    }
    (server, errors)
}

} // verus!
