//! Command-line parsing.
//!
//! The token list is scanned left to right, consuming recognized option
//! tokens until the first non-option token (or `--`) is reached; that
//! token names the target program and everything after it is forwarded
//! to it verbatim. Outcomes that end the run without a command (help,
//! version, a usage error) are returned as variants, so that the one
//! place that owns process exit decides how to terminate.

use vstd::prelude::*;
use vstd::string::StrSliceExecFns;

verus! {

/// The structured command: which secrets manifest to use, whether
/// existing environment variables win, and the program to hand control
/// to with its arguments.
pub struct Args {
    pub allow_override: bool,
    pub secretfile: Option<String>,
    pub program: String,
    pub args: Vec<String>,
}

/// What parsing decided: show usage and exit cleanly, show the version
/// and exit cleanly, reject the invocation, or run a command.
pub enum ParseOutcome {
    Help,
    Version,
    UsageError,
    Run(Args),
}

/// Mathematical image of `Args`.
pub struct ArgsView {
    pub allow_override: bool,
    pub secretfile: Option<Seq<char>>,
    pub program: Seq<char>,
    pub args: Seq<Seq<char>>,
}

/// Mathematical image of `ParseOutcome`.
pub enum ParseOutcomeView {
    Help,
    Version,
    UsageError,
    Run(ArgsView),
}

impl DeepView for Args {
    type V = ArgsView;

    open spec fn deep_view(&self) -> ArgsView {
        ArgsView {
            allow_override: self.allow_override,
            secretfile: self.secretfile.deep_view(),
            program: self.program@,
            args: self.args.deep_view(),
        }
    }
}

impl DeepView for ParseOutcome {
    type V = ParseOutcomeView;

    open spec fn deep_view(&self) -> ParseOutcomeView {
        match self {
            ParseOutcome::Help => ParseOutcomeView::Help,
            ParseOutcome::Version => ParseOutcomeView::Version,
            ParseOutcome::UsageError => ParseOutcomeView::UsageError,
            ParseOutcome::Run(a) => ParseOutcomeView::Run(a.deep_view()),
        }
    }
}

/// Ends option scanning: the first remaining token must be a plain
/// word (present, non-empty, not beginning with `-`) and becomes the
/// target program; the rest are its arguments, verbatim.
pub open spec fn finish_spec(
    rest: Seq<Seq<char>>,
    secretfile: Option<Seq<char>>,
    allow_override: bool,
) -> ParseOutcomeView {
    if rest.len() == 0 || rest[0].len() == 0 || rest[0][0] == '-' {
        ParseOutcomeView::UsageError
    } else {
        ParseOutcomeView::Run(
            ArgsView {
                allow_override,
                secretfile,
                program: rest[0],
                args: rest.skip(1),
            },
        )
    }
}

/// Option scanning, left to right, with the settings gathered so far.
/// The recognized options are tried in priority order on the next
/// token; `-f` consumes the token after it and requires one to exist,
/// `--` stops scanning unconditionally, any other token beginning with
/// `-` is a usage error, and any other token ends scanning.
pub open spec fn parse_rec(
    tokens: Seq<Seq<char>>,
    secretfile: Option<Seq<char>>,
    allow_override: bool,
) -> ParseOutcomeView
    decreases tokens.len(),
{
    if tokens.len() == 0 {
        ParseOutcomeView::UsageError
    } else if tokens[0] == "--help"@ {
        ParseOutcomeView::Help
    } else if tokens[0] == "--version"@ {
        ParseOutcomeView::Version
    } else if tokens[0] == "-f"@ && tokens.len() >= 2 {
        parse_rec(tokens.skip(2), Some(tokens[1]), allow_override)
    } else if tokens[0] == "--no-env-override"@ {
        parse_rec(tokens.skip(1), secretfile, false)
    } else if tokens[0] == "--"@ {
        finish_spec(tokens.skip(1), secretfile, allow_override)
    } else if tokens[0].len() > 0 && tokens[0][0] == '-' {
        ParseOutcomeView::UsageError
    } else {
        finish_spec(tokens, secretfile, allow_override)
    }
}

/// What parsing a whole token list yields, starting from the defaults:
/// overriding allowed, no manifest path override.
pub open spec fn parse_spec(tokens: Seq<Seq<char>>) -> ParseOutcomeView {
    parse_rec(tokens, None, true)
}

/// Whether the token equals the literal.
fn str_eq(t: &String, lit: &str) -> (r: bool)
    ensures
        r == (t@ == lit@),
{
    let s: String = lit.to_owned();
    t.eq(&s)
}

/// Parses the command-line tokens (the process arguments, program name
/// excluded).
pub fn parse(tokens: &Vec<String>) -> (r: ParseOutcome)
    ensures
        r.deep_view() == parse_spec(tokens.deep_view()),
{
    let ghost full = tokens.deep_view();
    let mut i: usize = 0;
    let mut secretfile: Option<String> = None;
    let mut allow_override: bool = true;
    proof {
        assert(full.skip(0) =~= full);
    }
    loop
        invariant_except_break
            i <= tokens.len(),
            full == tokens.deep_view(),
            full.len() == tokens.len(),
            parse_spec(full) == parse_rec(
                full.skip(i as int),
                secretfile.deep_view(),
                allow_override,
            ),
        ensures
            i <= tokens.len(),
            full == tokens.deep_view(),
            parse_spec(full) == finish_spec(
                full.skip(i as int),
                secretfile.deep_view(),
                allow_override,
            ),
        decreases tokens.len() - i,
    {
        if i >= tokens.len() {
            break;
        }
        let t = &tokens[i];
        if str_eq(t, "--help") {
            return ParseOutcome::Help;
        } else if str_eq(t, "--version") {
            return ParseOutcome::Version;
        } else if str_eq(t, "-f") && i + 1 < tokens.len() {
            secretfile = Some(tokens[i + 1].clone());
            proof {
                assert(full.skip(i as int).skip(2) =~= full.skip(i as int + 2));
            }
            i += 2;
        } else if str_eq(t, "--no-env-override") {
            allow_override = false;
            proof {
                assert(full.skip(i as int).skip(1) =~= full.skip(i as int + 1));
            }
            i += 1;
        } else if str_eq(t, "--") {
            proof {
                assert(full.skip(i as int).skip(1) =~= full.skip(i as int + 1));
            }
            i += 1;
            break;
        } else {
            let s = t.as_str();
            if !s.is_empty() && s.get_char(0) == '-' {
                return ParseOutcome::UsageError;
            }
            break;
        }
    }
    if i >= tokens.len() {
        return ParseOutcome::UsageError;
    }
    let first_tok = &tokens[i];
    let s = first_tok.as_str();
    if s.is_empty() {
        return ParseOutcome::UsageError;
    }
    if s.get_char(0) == '-' {
        return ParseOutcome::UsageError;
    }
    let program = first_tok.clone();
    let mut fwd: Vec<String> = Vec::new();
    let mut j: usize = i + 1;
    while j < tokens.len()
        invariant
            i < tokens.len(),
            i + 1 <= j <= tokens.len(),
            full == tokens.deep_view(),
            full.len() == tokens.len(),
            fwd@.len() == j - i - 1,
            forall|m: int| 0 <= m < fwd@.len() ==> #[trigger] fwd@[m]@ == full[i + 1 + m],
        decreases tokens.len() - j,
    {
        fwd.push(tokens[j].clone());
        j += 1;
    }
    proof {
        assert(fwd.deep_view() =~= full.skip(i as int).skip(1));
    }
    ParseOutcome::Run(Args { allow_override, secretfile, program, args: fwd })
}

/// Every command the parser produces satisfies the command invariant:
/// the target program is non-empty and does not begin with `-`. Any
/// token list that would violate it is a usage error instead.
pub proof fn lemma_command_invariant(
    tokens: Seq<Seq<char>>,
    secretfile: Option<Seq<char>>,
    allow_override: bool,
)
    ensures
        parse_rec(tokens, secretfile, allow_override) matches ParseOutcomeView::Run(a) ==> (
        a.program.len() > 0 && a.program[0] != '-'),
    decreases tokens.len(),
{
    if tokens.len() == 0 {
    } else if tokens[0] == "--help"@ || tokens[0] == "--version"@ {
    } else if tokens[0] == "-f"@ && tokens.len() >= 2 {
        lemma_command_invariant(tokens.skip(2), Some(tokens[1]), allow_override);
    } else if tokens[0] == "--no-env-override"@ {
        lemma_command_invariant(tokens.skip(1), secretfile, false);
    }
}

/// A token list whose first token is a plain word (non-empty, not
/// beginning with `-`) runs that word as the target program directly:
/// no option is consumed, the manifest path and the override policy
/// keep their defaults, and the remaining tokens are forwarded
/// verbatim.
pub proof fn lemma_plain_first_token_runs_program(tokens: Seq<Seq<char>>)
    requires
        tokens.len() > 0,
        tokens[0].len() > 0,
        tokens[0][0] != '-',
    ensures
        parse_spec(tokens) == ParseOutcomeView::Run(
            ArgsView {
                allow_override: true,
                secretfile: None,
                program: tokens[0],
                args: tokens.skip(1),
            },
        ),
{
    reveal_strlit("--help");
    reveal_strlit("--version");
    reveal_strlit("-f");
    reveal_strlit("--no-env-override");
    reveal_strlit("--");
    assert(tokens[0] != "--help"@);
    assert(tokens[0] != "--version"@);
    assert(tokens[0] != "-f"@);
    assert(tokens[0] != "--no-env-override"@);
    assert(tokens[0] != "--"@);
}

} // verus!
