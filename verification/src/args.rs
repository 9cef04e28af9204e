//! The command-line surface: interpret the argument list into one request.

use vstd::prelude::*;
use vstd::string::*;

use crate::status::ResponseStatus;
use crate::text::str_eq;

verus! {

/// Everything one RSVP run needs from the command line.
pub struct RunOpts {
    /// The response to apply, from the last action flag given.
    pub response: ResponseStatus,
    /// Whether an invitation email is to be read from standard input.
    pub read_email: bool,
    /// Whether a summary of each event is printed after its RSVP.
    pub verbose: bool,
    /// The event identifier tokens, in the order given.
    pub ids: Vec<String>,
}

/// What the command line asks for.
pub enum CliRequest {
    /// Print the usage text.
    Help,
    /// Print the program version.
    Version,
    /// No action flag was given: a usage error.
    MissingAction,
    /// Apply an RSVP.
    Run(RunOpts),
}

/// The spec-level image of a [`CliRequest`], argument strings viewed.
pub enum CliRequestView {
    Help,
    Version,
    MissingAction,
    Run {
        response: ResponseStatus,
        read_email: bool,
        verbose: bool,
        ids: Seq<Seq<char>>,
    },
}

/// The view of a [`CliRequest`].
pub open spec fn req_view(r: CliRequest) -> CliRequestView {
    match r {
        CliRequest::Help => CliRequestView::Help,
        CliRequest::Version => CliRequestView::Version,
        CliRequest::MissingAction => CliRequestView::MissingAction,
        CliRequest::Run(o) => CliRequestView::Run {
            response: o.response,
            read_email: o.read_email,
            verbose: o.verbose,
            ids: o.ids@.map_values(|s: String| s@),
        },
    }
}

/// The options accumulated while scanning the arguments.
pub struct ParseState {
    pub action: Option<ResponseStatus>,
    pub read_email: bool,
    pub verbose: bool,
    pub ids: Seq<Seq<char>>,
}

/// The request a finished scan yields: a run with the accumulated options,
/// or `MissingAction` where no action flag was seen.
pub open spec fn finish(st: ParseState) -> CliRequestView {
    match st.action {
        Option::Some(a) => CliRequestView::Run {
            response: a,
            read_email: st.read_email,
            verbose: st.verbose,
            ids: st.ids,
        },
        Option::None => CliRequestView::MissingAction,
    }
}

/// Scan the remaining arguments left to right. A help or version flag wins
/// immediately; an action flag replaces the action seen so far (the last one
/// wins); `--email` and `--verbose` set their options; any other argument is
/// an event identifier token.
pub open spec fn parse_from(args: Seq<Seq<char>>, st: ParseState) -> CliRequestView
    decreases args.len(),
{
    if args.len() == 0 {
        finish(st)
    } else {
        let a = args[0];
        let rest = args.drop_first();
        if a == "-y"@ || a == "--yes"@ {
            parse_from(
                rest,
                ParseState {
                    action: Option::Some(ResponseStatus::Accepted),
                    read_email: st.read_email,
                    verbose: st.verbose,
                    ids: st.ids,
                },
            )
        } else if a == "-n"@ || a == "--no"@ {
            parse_from(
                rest,
                ParseState {
                    action: Option::Some(ResponseStatus::Declined),
                    read_email: st.read_email,
                    verbose: st.verbose,
                    ids: st.ids,
                },
            )
        } else if a == "-m"@ || a == "--maybe"@ {
            parse_from(
                rest,
                ParseState {
                    action: Option::Some(ResponseStatus::Tentative),
                    read_email: st.read_email,
                    verbose: st.verbose,
                    ids: st.ids,
                },
            )
        } else if a == "--email"@ {
            parse_from(
                rest,
                ParseState {
                    action: st.action,
                    read_email: true,
                    verbose: st.verbose,
                    ids: st.ids,
                },
            )
        } else if a == "-v"@ || a == "--verbose"@ {
            parse_from(
                rest,
                ParseState {
                    action: st.action,
                    read_email: st.read_email,
                    verbose: true,
                    ids: st.ids,
                },
            )
        } else if a == "-h"@ || a == "--help"@ {
            CliRequestView::Help
        } else if a == "-V"@ || a == "--version"@ {
            CliRequestView::Version
        } else {
            parse_from(
                rest,
                ParseState {
                    action: st.action,
                    read_email: st.read_email,
                    verbose: st.verbose,
                    ids: st.ids.push(a),
                },
            )
        }
    }
}

/// What a full argument scan yields, starting from no options.
pub open spec fn parse_spec(args: Seq<Seq<char>>) -> CliRequestView {
    parse_from(
        args,
        ParseState {
            action: Option::None,
            read_email: false,
            verbose: false,
            ids: Seq::empty(),
        },
    )
}

/// Interpret the command-line arguments (the program name excluded).
///
/// Scans left to right: the first help or version flag wins immediately; the
/// last of the mutually exclusive action flags wins; `--email` and
/// `--verbose` set their options; every other argument is an event
/// identifier token, kept in order. Yields `MissingAction` where the scan
/// ends without an action flag.
pub fn parse_args(args: &Vec<String>) -> (r: CliRequest)
    ensures
        req_view(r) == parse_spec(args@.map_values(|s: String| s@)),
{
    let ghost vargs = args@.map_values(|s: String| s@);
    let mut action: Option<ResponseStatus> = Option::None;
    let mut read_email = false;
    let mut verbose = false;
    let mut ids: Vec<String> = Vec::new();
    let n = args.len();
    let mut i: usize = 0;
    proof {
        assert(vargs.skip(0) =~= vargs);
        assert(ids@.map_values(|s: String| s@) =~= Seq::<Seq<char>>::empty());
    }
    while i < n
        invariant
            i <= n,
            n == args@.len(),
            vargs == args@.map_values(|s: String| s@),
            vargs.len() == n,
            parse_spec(vargs) == parse_from(
                vargs.skip(i as int),
                ParseState {
                    action,
                    read_email,
                    verbose,
                    ids: ids@.map_values(|s: String| s@),
                },
            ),
        decreases n - i,
    {
        proof {
            assert(vargs.skip(i as int)[0] == vargs[i as int]);
            assert(vargs[i as int] == args@[i as int]@);
            assert(vargs.skip(i as int).drop_first() =~= vargs.skip(i as int + 1));
        }
        let a = &args[i];
        if str_eq(a.as_str(), "-y") || str_eq(a.as_str(), "--yes") {
            action = Option::Some(ResponseStatus::Accepted);
        } else if str_eq(a.as_str(), "-n") || str_eq(a.as_str(), "--no") {
            action = Option::Some(ResponseStatus::Declined);
        } else if str_eq(a.as_str(), "-m") || str_eq(a.as_str(), "--maybe") {
            action = Option::Some(ResponseStatus::Tentative);
        } else if str_eq(a.as_str(), "--email") {
            read_email = true;
        } else if str_eq(a.as_str(), "-v") || str_eq(a.as_str(), "--verbose") {
            verbose = true;
        } else if str_eq(a.as_str(), "-h") || str_eq(a.as_str(), "--help") {
            return CliRequest::Help;
        } else if str_eq(a.as_str(), "-V") || str_eq(a.as_str(), "--version") {
            return CliRequest::Version;
        } else {
            let ghost old_ids = ids@.map_values(|s: String| s@);
            ids.push(a.clone());
            proof {
                assert(ids@.map_values(|s: String| s@) =~= old_ids.push(a@));
            }
        }
        i += 1;
    }
    proof {
        assert(vargs.skip(n as int).len() == 0);
    }
    match action {
        Option::Some(response) => CliRequest::Run(
            RunOpts { response, read_email, verbose, ids },
        ),
        Option::None => CliRequest::MissingAction,
    }
}

} // verus!
