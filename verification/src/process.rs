//! The programs that are run, and what is read from what they say.

use crate::failure::Failure;
use crate::text;
use vstd::prelude::*;
use vstd::string::*;
use vstd::utf8::*;

verus! {

/// Where the output of a program goes.
#[derive(Clone, Copy, Debug, PartialEq, Eq, Structural)]
pub enum Output {
    /// It is kept and handed back.
    Capture,
    /// It goes where the output of the tool itself goes.
    Inherit,
    /// It is thrown away.
    Discard,
}

/// A program to run. `nix_path`, where it is given, is the value of `NIX_PATH`.
pub struct Invocation {
    pub program: String,
    pub args: Vec<String>,
    pub output: Output,
    pub nix_path: Option<String>,
}

/// What an invocation says.
pub struct InvocationView {
    pub program: Seq<char>,
    pub args: Seq<Seq<char>>,
    pub output: Output,
    pub nix_path: Option<Seq<char>>,
}

impl View for Invocation {
    type V = InvocationView;

    open spec fn view(&self) -> InvocationView {
        InvocationView {
            program: self.program@,
            args: text::texts(self.args@),
            output: self.output,
            nix_path: match self.nix_path {
                Some(path) => Some(path@),
                None => None,
            },
        }
    }
}

/// What a program left behind.
pub struct SpawnResult {
    pub stdout: String,
    pub stderr: String,
    pub success: bool,
}

/// What the result of a program says.
pub struct SpawnView {
    pub stdout: Seq<char>,
    pub stderr: Seq<char>,
    pub success: bool,
}

impl View for SpawnResult {
    type V = SpawnView;

    open spec fn view(&self) -> SpawnView {
        SpawnView { stdout: self.stdout@, stderr: self.stderr@, success: self.success }
    }
}

/// What running a program came to: `None` where it could not be started.
pub open spec fn ran_view(ran: Option<SpawnResult>) -> Option<SpawnView> {
    match ran {
        Some(r) => Some(r@),
        None => None,
    }
}

/// The text that `String::from_utf8_lossy` makes of bytes.
pub uninterp spec fn lossy_text(bytes: Seq<u8>) -> Seq<char>;

/// Calls `String::from_utf8_lossy`. Its result depends on the bytes alone; bytes
/// that are UTF-8 are taken as they are. What stands for bytes that are not UTF-8
/// is left unsaid.
#[verifier::external_body]
fn from_utf8_lossy(bytes: &[u8]) -> (r: String)
    ensures
        r@ == lossy_text(bytes@),
        valid_utf8(bytes@) ==> encode_utf8(r@) == bytes@,
{
    String::from_utf8_lossy(bytes).into_owned()
}

impl SpawnResult {
    /// The result of a program from the bytes that it wrote.
    pub fn from_output(stdout: &[u8], stderr: &[u8], success: bool) -> (r: SpawnResult)
        ensures
            r@ == (SpawnView {
                stdout: lossy_text(stdout@),
                stderr: lossy_text(stderr@),
                success,
            }),
            valid_utf8(stdout@) ==> encode_utf8(r.stdout@) == stdout@,
            valid_utf8(stderr@) ==> encode_utf8(r.stderr@) == stderr@,
    {
        SpawnResult { stdout: from_utf8_lossy(stdout), stderr: from_utf8_lossy(stderr), success }
    }
}

/// What is said of a program that was run: the text around its output is dropped.
pub open spec fn answer(ran: SpawnView) -> Seq<char> {
    text::trimmed(ran.stdout)
}

/// What a program that was run complains of.
pub open spec fn complaint(ran: SpawnView) -> Seq<char> {
    text::trimmed(ran.stderr)
}

/// A program whose output is kept, or goes where that of the tool goes.
pub fn spawn(cmd: &str, args: Vec<String>, capture: bool, nix_path: Option<String>) -> (r:
    Invocation)
    ensures
        r.program@ == cmd@,
        r.args == args,
        r.output == (if capture {
            Output::Capture
        } else {
            Output::Inherit
        }),
        r.nix_path == nix_path,
{
    Invocation {
        program: cmd.to_owned(),
        args,
        output: if capture {
            Output::Capture
        } else {
            Output::Inherit
        },
        nix_path,
    }
}

/// A program that speaks to the user directly.
pub fn spawn_inherit(cmd: &str, args: Vec<String>, nix_path: Option<String>) -> (r: Invocation)
    ensures
        r.program@ == cmd@,
        r.args == args,
        r.output == Output::Inherit,
        r.nix_path == nix_path,
{
    Invocation { program: cmd.to_owned(), args, output: Output::Inherit, nix_path }
}

/// The program that tells whether nix has flakes.
pub open spec fn flakes_probe() -> InvocationView {
    InvocationView {
        program: "nix"@,
        args: seq!["flake"@, "--help"@],
        output: Output::Discard,
        nix_path: None,
    }
}

/// Asks whether nix has flakes.
pub fn has_flakes() -> (r: Invocation)
    ensures
        r@ == flakes_probe(),
{
    let mut args: Vec<String> = Vec::new();
    args.push("flake".to_owned());
    args.push("--help".to_owned());
    let r = Invocation {
        program: "nix".to_owned(),
        args,
        output: Output::Discard,
        nix_path: None,
    };
    assert(r@.args =~= flakes_probe().args);
    r
}

/// A program ran and reported success.
pub open spec fn succeeded(ran: Option<SpawnView>) -> bool {
    ran matches Some(r) && r.success
}

/// Whether a program ran and reported success.
pub fn ran_well(ran: &Option<SpawnResult>) -> (r: bool)
    ensures
        r == succeeded(ran_view(*ran)),
{
    match ran {
        Some(r) => r.success,
        None => false,
    }
}

/// The program that evaluates a nix expression.
pub open spec fn evaluation(
    expr: Seq<char>,
    raw: bool,
    nix_path: Option<Seq<char>>,
) -> InvocationView {
    InvocationView {
        program: "nix"@,
        args: if raw {
            seq!["eval"@, "--raw"@, "--impure"@, "--expr"@, expr]
        } else {
            seq!["eval"@, "--impure"@, "--expr"@, expr]
        },
        output: Output::Capture,
        nix_path,
    }
}

/// Evaluates a nix expression, as plain text where `raw` is set.
pub fn nix_eval(expr: &str, raw: bool, nix_path: Option<String>) -> (r: Invocation)
    ensures
        r@ == evaluation(
            expr@,
            raw,
            match nix_path {
                Some(path) => Some(path@),
                None => None,
            },
        ),
{
    let mut args: Vec<String> = Vec::new();
    args.push("eval".to_owned());
    if raw {
        args.push("--raw".to_owned());
    }
    args.push("--impure".to_owned());
    args.push("--expr".to_owned());
    args.push(expr.to_owned());
    let r = spawn("nix", args, true, nix_path);
    assert(r@.args =~= evaluation(expr@, raw, None).args);
    r
}

/// The expression for the path of a channel.
pub open spec fn channel_path_expr(name: Seq<char>) -> Seq<char> {
    "(<"@ + name + ">)"@
}

/// The expression for the path of a flake.
pub open spec fn flake_path_expr(name: Seq<char>) -> Seq<char> {
    "(builtins.getFlake \""@ + name + "\").outPath"@
}

/// Asks nix for the path of a channel.
pub fn resolve_channel(name: &str) -> (r: Invocation)
    ensures
        r@ == evaluation(channel_path_expr(name@), true, None),
{
    let expr = "(<".to_owned().concat(name).concat(">)");
    nix_eval(expr.as_str(), true, None)
}

/// Asks nix for the path of a flake.
pub fn resolve_flake(name: &str) -> (r: Invocation)
    ensures
        r@ == evaluation(flake_path_expr(name@), true, None),
{
    let expr = "(builtins.getFlake \"".to_owned().concat(name).concat("\").outPath");
    nix_eval(expr.as_str(), true, None)
}

/// What nix answered when it was asked for a path: an absolute path is one,
/// anything else is a failure.
pub open spec fn resolved(ran: Option<SpawnView>) -> Result<Seq<char>, Failure<Seq<char>>> {
    match ran {
        None => Err(Failure::Spawn { program: "nix"@ }),
        Some(r) => if answer(r).len() > 0 && answer(r).first() == '/' {
            Ok(answer(r))
        } else {
            Err(Failure::Nix { detail: complaint(r) })
        },
    }
}

/// What a result with strings says.
pub open spec fn outcome_view(r: Result<String, Failure<String>>) -> Result<
    Seq<char>,
    Failure<Seq<char>>,
> {
    match r {
        Ok(s) => Ok(s@),
        Err(e) => Err(e@),
    }
}

/// Reads the path that nix answered.
pub fn resolved_path(ran: &Option<SpawnResult>) -> (r: Result<String, Failure<String>>)
    ensures
        outcome_view(r) == resolved(ran_view(*ran)),
{
    match ran {
        None => Err(Failure::Spawn { program: "nix".to_owned() }),
        Some(result) => {
            let path = text::trim(result.stdout.as_str());
            if path.as_str().unicode_len() > 0 && path.as_str().get_char(0) == '/' {
                Ok(path)
            } else {
                Err(Failure::Nix { detail: text::trim(result.stderr.as_str()) })
            }
        },
    }
}

/// A text between double quotes.
pub open spec fn quoted(s: Seq<char>) -> Seq<char> {
    "\""@ + s + "\""@
}

/// An attribute path with each of its names between double quotes.
pub open spec fn quoted_path(attr: Seq<char>) -> Seq<char> {
    text::joined(text::pieces(attr, '.').map_values(|name: Seq<char>| quoted(name)), "."@)
}

/// Puts the names of an attribute path between double quotes.
pub fn quote_path(attr: &str) -> (r: String)
    ensures
        r@ == quoted_path(attr@),
{
    let names = text::split(attr, '.');
    let mut out: Vec<String> = Vec::new();
    let mut i: usize = 0;
    let ghost all = text::texts(names@);
    while i < names.len()
        invariant
            i <= names@.len(),
            out@.len() == i,
            all == text::texts(names@),
            forall|j: int| 0 <= j < i ==> #[trigger] out@[j]@ == quoted(all[j]),
        decreases names@.len() - i,
    {
        out.push("\"".to_owned().concat(names[i].as_str()).concat("\""));
        i = i + 1;
    }
    assert(text::texts(out@) =~= all.map_values(|name: Seq<char>| quoted(name)));
    text::join(&out, ".")
}

/// The expression that tells whether a channel has an attribute.
pub open spec fn channel_has_expr(channel: Seq<char>, attr: Seq<char>) -> Seq<char> {
    "(let ch = (import <"@ + channel + "> {}); in ch ? "@ + quoted_path(attr) + ")"@
}

/// The expression that tells whether an output of a flake has an attribute for
/// the system at hand.
pub open spec fn flake_has_expr(flake: Seq<char>, output: Seq<char>, attr: Seq<char>) -> Seq<char> {
    "(let f = builtins.getFlake \""@ + flake + "\"; in f."@ + output
        + ".${builtins.currentSystem} ? "@ + quoted_path(attr) + ")"@
}

/// Asks nix whether a channel has an attribute.
pub fn ask_channel(channel: &str, attr: &str) -> (r: Invocation)
    ensures
        r@ == evaluation(channel_has_expr(channel@, attr@), false, None),
{
    let path = quote_path(attr);
    let expr = "(let ch = (import <".to_owned().concat(channel).concat(
        "> {}); in ch ? ",
    ).concat(path.as_str()).concat(")");
    nix_eval(expr.as_str(), false, None)
}

/// Asks nix whether an output of a flake has an attribute.
pub fn ask_flake(flake: &str, output: &str, attr: &str) -> (r: Invocation)
    ensures
        r@ == evaluation(flake_has_expr(flake@, output@, attr@), false, None),
{
    let path = quote_path(attr);
    let expr = "(let f = builtins.getFlake \"".to_owned().concat(flake).concat(
        "\"; in f.",
    ).concat(output).concat(".${builtins.currentSystem} ? ").concat(path.as_str()).concat(")");
    nix_eval(expr.as_str(), false, None)
}

/// A program answered `true`.
pub open spec fn says_true(ran: SpawnView) -> bool {
    answer(ran) == "true"@
}

/// Whether a program answered `true`.
pub fn answers_true(ran: &SpawnResult) -> (r: bool)
    ensures
        r == says_true(ran@),
{
    let said = text::trim(ran.stdout.as_str());
    text::same(said.as_str(), "true")
}

/// The program that puts a path under the protection of a root.
pub open spec fn realisation(path: Seq<char>, root: Seq<char>) -> InvocationView {
    InvocationView {
        program: "nix-store"@,
        args: seq!["--realise"@, path, "--indirect"@, "--add-root"@, root],
        output: Output::Capture,
        nix_path: None,
    }
}

/// Puts a path under the protection of a root.
pub fn realise(path: &str, root: &str) -> (r: Invocation)
    ensures
        r@ == realisation(path@, root@),
{
    let mut args: Vec<String> = Vec::new();
    args.push("--realise".to_owned());
    args.push(path.to_owned());
    args.push("--indirect".to_owned());
    args.push("--add-root".to_owned());
    args.push(root.to_owned());
    let r = spawn("nix-store", args, true, None);
    assert(r@.args =~= realisation(path@, root@).args);
    r
}

/// The program that fetches the channels of the system.
pub open spec fn channels_fetch() -> InvocationView {
    InvocationView {
        program: "nix-channel"@,
        args: seq!["--update"@, "-vv"@],
        output: Output::Inherit,
        nix_path: None,
    }
}

/// Fetches the channels of the system.
pub fn fetch_channels() -> (r: Invocation)
    ensures
        r@ == channels_fetch(),
{
    let mut args: Vec<String> = Vec::new();
    args.push("--update".to_owned());
    args.push("-vv".to_owned());
    let r = spawn_inherit("nix-channel", args, None);
    assert(r@.args =~= channels_fetch().args);
    r
}

/// The failure of fetching the channels of the system: it is one where the program
/// could not be started, whatever else it reports.
pub fn fetch_failure(ran: &Option<SpawnResult>) -> (r: Option<Failure<String>>)
    ensures
        match r {
            Some(failure) => *ran is None && failure@ == (Failure::Spawn {
                program: "nix-channel"@,
            }),
            None => *ran is Some,
        },
{
    match ran {
        Some(_) => None,
        None => Some(Failure::Spawn { program: "nix-channel".to_owned() }),
    }
}

} // verus!
