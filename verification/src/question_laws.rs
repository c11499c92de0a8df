//! What nix is asked, and what is made of its answers.

use crate::check;
use crate::check::{CheckStage, PackageCheck};
use crate::effect::{Effect, Reply, RequestView};
use crate::failure::Failure;
use crate::nix;
use crate::package;
use crate::process;
use crate::process::{InvocationView, Output, SpawnView};
use crate::text;
use crate::text_laws;
use crate::update::{SourceUpdate, Target, UpdateStage};
use vstd::prelude::*;

verus! {

/// A text ends with another.
pub open spec fn ends_with(s: Seq<char>, end: Seq<char>) -> bool {
    exists|before: Seq<char>| s == #[trigger] (before + end)
}

/// What stands between the first `open` of a text and the first `close` behind it.
pub open spec fn between(s: Seq<char>, open: char, close: char) -> Option<Seq<char>> {
    match text::cut_at(s, open) {
        Some(parts) => match text::cut_at(parts.1, close) {
            Some(inner) => Some(inner.0),
            None => None,
        },
        None => None,
    }
}

/// A value is given to a program right behind a flag.
pub open spec fn is_given(args: Seq<Seq<char>>, flag: Seq<char>, value: Seq<char>) -> bool {
    exists|i: int| 0 <= i < args.len() - 1 && #[trigger] args[i] == flag && args[i + 1] == value
}

/// Nix evaluates an expression, and what it says is kept. Plain text is asked for where
/// `raw` is set.
pub open spec fn evaluates(invocation: InvocationView, expr: Seq<char>, raw: bool) -> bool {
    &&& invocation.program == "nix"@
    &&& invocation.args.len() > 1
    &&& invocation.args.first() == "eval"@
    &&& is_given(invocation.args, "--expr"@, expr)
    &&& invocation.args.last() == expr
    &&& invocation.args.drop_last().contains("--impure"@)
    &&& invocation.args.drop_last().contains("--raw"@) <==> raw
    &&& invocation.output == Output::Capture
    &&& invocation.nix_path is None
}

/// An attribute path is written with each of its names between quotes, and with the
/// dots between them.
pub proof fn law_names_are_quoted(name: Seq<char>, a: Seq<char>, b: Seq<char>)
    ensures
        !name.contains('.') ==> process::quoted_path(name) == seq!['"'] + name + seq!['"'],
        process::quoted_path(a + seq!['.'] + b) == process::quoted_path(a) + seq!['.']
            + process::quoted_path(b),
{
    reveal_strlit("\"");
    reveal_strlit(".");
    assert("\""@ =~= seq!['"']);
    assert("."@ =~= seq!['.']);
    let f = |name: Seq<char>| process::quoted(name);
    if !name.contains('.') {
        text_laws::law_pieces(name, '.', Seq::empty());
        assert(seq![name].map_values(f) =~= seq![process::quoted(name)]);
        assert(text::joined(seq![process::quoted(name)], "."@) == process::quoted(name));
    }
    text_laws::law_pieces(a, '.', b);
    let left = text::pieces(a, '.');
    let right = text::pieces(b, '.');
    assert((left + right).map_values(f) =~= left.map_values(f) + right.map_values(f));
    lemma_pieces_not_none(a, '.');
    lemma_pieces_not_none(b, '.');
    text_laws::law_joining(left.map_values(f), right.map_values(f), name, "."@);
}

proof fn lemma_pieces_not_none(s: Seq<char>, c: char)
    ensures
        text::pieces(s, c).len() > 0,
{
}

/// What stands between the same two texts is the same only where the whole is.
proof fn lemma_glued_apart(before: Seq<char>, a: Seq<char>, b: Seq<char>, after: Seq<char>)
    requires
        before + a + after == before + b + after,
    ensures
        a == b,
{
    let s = before + a + after;
    assert(s.len() == before.len() + a.len() + after.len());
    assert(s.len() == before.len() + b.len() + after.len());
    assert(a =~= s.subrange(before.len() as int, (before.len() + a.len()) as int));
    assert(b =~= s.subrange(before.len() as int, (before.len() + b.len()) as int));
}

proof fn lemma_evaluates(expr: Seq<char>, raw: bool)
    ensures
        evaluates(process::evaluation(expr, raw, None), expr, raw),
{
    reveal_strlit("eval");
    reveal_strlit("--raw");
    reveal_strlit("--impure");
    reveal_strlit("--expr");
    let args = process::evaluation(expr, raw, None).args;
    let n = args.len() as int;
    assert(args[n - 2] == "--expr"@);
    assert(args[n - 1] == expr);
    assert(args.drop_last()[n - 3] == "--impure"@);
    if raw {
        assert(args.drop_last()[1] == "--raw"@);
    } else {
        assert(args.drop_last() =~= seq!["eval"@, "--impure"@, "--expr"@]);
        assert("eval"@.len() == 4 && "--impure"@.len() == 8 && "--expr"@.len() == 6);
        assert("--raw"@.len() == 5);
    }
}

/// Nix is asked for the package of a channel.
pub open spec fn asks_channel(
    wanted: Option<RequestView>,
    channel: Seq<char>,
    attr: Seq<char>,
) -> bool {
    wanted matches Some(Effect::Run { invocation }) && ({
        let expr = invocation.args.last();
        &&& evaluates(invocation, expr, false)
        &&& nix::occurs("(import <"@ + channel + ">"@, expr)
        &&& !channel.contains('>') ==> between(expr, '<', '>') == Some(channel)
        &&& ends_with(expr, " ch ? "@ + process::quoted_path(attr) + ")"@)
    })
}

/// Nix is asked for the package of an output of a flake.
pub open spec fn asks_flake(
    wanted: Option<RequestView>,
    flake: Seq<char>,
    output: Seq<char>,
    attr: Seq<char>,
) -> bool {
    wanted matches Some(Effect::Run { invocation }) && ({
        let expr = invocation.args.last();
        &&& evaluates(invocation, expr, false)
        &&& nix::occurs("builtins.getFlake \""@ + flake + "\""@, expr)
        &&& !flake.contains('"') ==> between(expr, '"', '"') == Some(flake)
        &&& ends_with(
            expr,
            " f."@ + output + ".${builtins.currentSystem} ? "@ + process::quoted_path(attr)
                + ")"@,
        )
    })
}

/// Nix is asked for the path of a channel.
pub open spec fn asks_channel_path(wanted: Option<RequestView>, channel: Seq<char>) -> bool {
    wanted matches Some(Effect::Run { invocation }) && ({
        let expr = invocation.args.last();
        &&& evaluates(invocation, expr, true)
        &&& nix::occurs("<"@ + channel + ">"@, expr)
        &&& !channel.contains('>') ==> between(expr, '<', '>') == Some(channel)
    })
}

/// Nix is asked for the path of a flake.
pub open spec fn asks_flake_path(wanted: Option<RequestView>, flake: Seq<char>) -> bool {
    wanted matches Some(Effect::Run { invocation }) && ({
        let expr = invocation.args.last();
        &&& evaluates(invocation, expr, true)
        &&& nix::occurs("builtins.getFlake \""@ + flake + "\""@, expr)
        &&& !flake.contains('"') ==> between(expr, '"', '"') == Some(flake)
        &&& ends_with(expr, ".outPath"@)
    })
}

/// A name between two characters is found where neither occurs before it.
proof fn lemma_between(
    before: Seq<char>,
    open: char,
    name: Seq<char>,
    close: char,
    after: Seq<char>,
)
    requires
        !before.contains(open),
        !name.contains(close),
    ensures
        between(before + seq![open] + (name + seq![close] + after), open, close) == Some(name),
{
    text::lemma_cut_at_glued(before, open, name + seq![close] + after);
    text::lemma_cut_at_glued(name, close, after);
}

proof fn lemma_channel_question(channel: Seq<char>, attr: Seq<char>)
    ensures
        asks_channel(
            Some(
                Effect::Run {
                    invocation: process::evaluation(
                        process::channel_has_expr(channel, attr),
                        false,
                        None,
                    ),
                },
            ),
            channel,
            attr,
        ),
{
    let expr = process::channel_has_expr(channel, attr);
    lemma_evaluates(expr, false);
    reveal_strlit("(let ch = (import <");
    reveal_strlit("> {}); in ch ? ");
    reveal_strlit("(import <");
    reveal_strlit(">");
    reveal_strlit(" ch ? ");
    let head = "(let ch = (import <"@;
    let middle = "> {}); in ch ? "@;
    let tail = process::quoted_path(attr) + ")"@;
    assert(head =~= head.take(10) + "(import <"@);
    assert(middle =~= ">"@ + middle.skip(1));
    assert(expr =~= head.take(10) + ("(import <"@ + channel + ">"@) + (middle.skip(1) + tail));
    assert(middle =~= middle.take(9) + " ch ? "@);
    assert(expr =~= (head + channel + middle.take(9)) + (" ch ? "@ + process::quoted_path(attr)
        + ")"@));
    if !channel.contains('>') {
        let before = head.drop_last();
        assert(!before.contains('<'));
        assert(expr =~= before + seq!['<'] + (channel + seq!['>'] + (middle.skip(1) + tail)));
        lemma_between(before, '<', channel, '>', middle.skip(1) + tail);
    }
}

proof fn lemma_flake_question(flake: Seq<char>, output: Seq<char>, attr: Seq<char>)
    ensures
        asks_flake(
            Some(
                Effect::Run {
                    invocation: process::evaluation(
                        process::flake_has_expr(flake, output, attr),
                        false,
                        None,
                    ),
                },
            ),
            flake,
            output,
            attr,
        ),
{
    let expr = process::flake_has_expr(flake, output, attr);
    lemma_evaluates(expr, false);
    reveal_strlit("(let f = builtins.getFlake \"");
    reveal_strlit("\"; in f.");
    reveal_strlit("builtins.getFlake \"");
    reveal_strlit("\"");
    reveal_strlit(" f.");
    let head = "(let f = builtins.getFlake \""@;
    let middle = "\"; in f."@;
    let tail = output + ".${builtins.currentSystem} ? "@ + process::quoted_path(attr) + ")"@;
    assert(head =~= head.take(9) + "builtins.getFlake \""@);
    assert(middle =~= "\""@ + middle.skip(1));
    assert(expr =~= head.take(9) + ("builtins.getFlake \""@ + flake + "\""@) + (middle.skip(1)
        + tail));
    assert(middle =~= middle.take(5) + " f."@);
    assert(expr =~= (head + flake + middle.take(5)) + (" f."@ + output
        + ".${builtins.currentSystem} ? "@ + process::quoted_path(attr) + ")"@));
    if !flake.contains('"') {
        let before = head.drop_last();
        assert(!before.contains('"'));
        assert(expr =~= before + seq!['"'] + (flake + seq!['"'] + (middle.skip(1) + tail)));
        lemma_between(before, '"', flake, '"', middle.skip(1) + tail);
    }
}

proof fn lemma_channel_path_question(channel: Seq<char>)
    ensures
        asks_channel_path(
            Some(
                Effect::Run {
                    invocation: process::evaluation(
                        process::channel_path_expr(channel),
                        true,
                        None,
                    ),
                },
            ),
            channel,
        ),
{
    let expr = process::channel_path_expr(channel);
    lemma_evaluates(expr, true);
    reveal_strlit("(<");
    reveal_strlit(">)");
    reveal_strlit("<");
    reveal_strlit(">");
    assert(expr =~= seq!['('] + ("<"@ + channel + ">"@) + seq![')']);
    if !channel.contains('>') {
        assert(!seq!['('].contains('<'));
        assert(expr =~= seq!['('] + seq!['<'] + (channel + seq!['>'] + seq![')']));
        lemma_between(seq!['('], '<', channel, '>', seq![')']);
    }
}

proof fn lemma_flake_path_question(flake: Seq<char>)
    ensures
        asks_flake_path(
            Some(
                Effect::Run {
                    invocation: process::evaluation(process::flake_path_expr(flake), true, None),
                },
            ),
            flake,
        ),
{
    let expr = process::flake_path_expr(flake);
    lemma_evaluates(expr, true);
    reveal_strlit("(builtins.getFlake \"");
    reveal_strlit("\").outPath");
    reveal_strlit("builtins.getFlake \"");
    reveal_strlit("\"");
    reveal_strlit(".outPath");
    let head = "(builtins.getFlake \""@;
    let tail = "\").outPath"@;
    assert(head =~= head.take(1) + "builtins.getFlake \""@);
    assert(tail =~= "\""@ + tail.skip(1));
    assert(expr =~= head.take(1) + ("builtins.getFlake \""@ + flake + "\""@) + tail.skip(1));
    assert(tail =~= tail.take(2) + ".outPath"@);
    assert(expr =~= (head + flake + tail.take(2)) + ".outPath"@);
    if !flake.contains('"') {
        let before = head.drop_last();
        assert(!before.contains('"'));
        assert(expr =~= before + seq!['"'] + (flake + seq!['"'] + tail.skip(1)));
        lemma_between(before, '"', flake, '"', tail.skip(1));
    }
}

/// The search for a package asks the very source that the package is of, and for the
/// very package: a channel once, a flake in both of its outputs.
pub proof fn law_search_asks_the_source(p: package::PackageRefView)
    ensures
        ({
            let begun = PackageCheck::begun(p);
            match p {
                package::PackageRefView::Channel { source, attr } => asks_channel(
                    begun.wants(),
                    source,
                    attr,
                ),
                package::PackageRefView::Flake { source, attr } => {
                    let legacy = PackageCheck { stage: CheckStage::Legacy, ..begun };
                    let packages = PackageCheck { stage: CheckStage::Packages, ..begun };
                    &&& asks_flake(legacy.wants(), source, "legacyPackages"@, attr)
                    &&& asks_flake(packages.wants(), source, "packages"@, attr)
                    &&& begun.stage is Support
                },
            }
        }),
{
    match p {
        package::PackageRefView::Channel { source, attr } => {
            lemma_channel_question(source, attr);
        },
        package::PackageRefView::Flake { source, attr } => {
            lemma_flake_question(source, "legacyPackages"@, attr);
            lemma_flake_question(source, "packages"@, attr);
        },
    }
}

/// What is asked of two channels differs, and so does what is asked of two flakes.
pub proof fn law_sources_are_asked_apart(a: Seq<char>, b: Seq<char>, attr: Seq<char>)
    requires
        a != b,
    ensures
        PackageCheck::begun(package::PackageRefView::Channel { source: a, attr }).wants()
            != PackageCheck::begun(package::PackageRefView::Channel { source: b, attr }).wants(),
        (PackageCheck { source: a, attr, stage: CheckStage::Legacy }).wants() != (PackageCheck {
            source: b,
            attr,
            stage: CheckStage::Legacy,
        }).wants(),
        (PackageCheck { source: a, attr, stage: CheckStage::Packages }).wants() != (PackageCheck {
            source: b,
            attr,
            stage: CheckStage::Packages,
        }).wants(),
{
    lemma_asked_apart(process::channel_has_expr(a, attr), process::channel_has_expr(b, attr));
    let legacy = "legacyPackages"@;
    let packages = "packages"@;
    lemma_asked_apart(
        process::flake_has_expr(a, legacy, attr),
        process::flake_has_expr(b, legacy, attr),
    );
    lemma_asked_apart(
        process::flake_has_expr(a, packages, attr),
        process::flake_has_expr(b, packages, attr),
    );
    let q = process::quoted_path(attr) + ")"@;
    if process::channel_has_expr(a, attr) == process::channel_has_expr(b, attr) {
        let head = "(let ch = (import <"@;
        let after = "> {}); in ch ? "@ + q;
        assert(process::channel_has_expr(a, attr) =~= head + a + after);
        assert(process::channel_has_expr(b, attr) =~= head + b + after);
        lemma_glued_apart(head, a, b, after);
    }
    lemma_flakes_asked_apart(a, b, legacy, attr);
    lemma_flakes_asked_apart(a, b, packages, attr);
}

proof fn lemma_asked_apart(a: Seq<char>, b: Seq<char>)
    ensures
        process::evaluation(a, false, None) == process::evaluation(b, false, None) ==> a == b,
{
    lemma_evaluates(a, false);
    lemma_evaluates(b, false);
}

proof fn lemma_flakes_asked_apart(
    a: Seq<char>,
    b: Seq<char>,
    output: Seq<char>,
    attr: Seq<char>,
)
    requires
        a != b,
    ensures
        process::flake_has_expr(a, output, attr) != process::flake_has_expr(b, output, attr),
{
    if process::flake_has_expr(a, output, attr) == process::flake_has_expr(b, output, attr) {
        let head = "(let f = builtins.getFlake \""@;
        let after = "\"; in f."@ + output + ".${builtins.currentSystem} ? "@
            + process::quoted_path(attr) + ")"@;
        assert(process::flake_has_expr(a, output, attr) =~= head + a + after);
        assert(process::flake_has_expr(b, output, attr) =~= head + b + after);
        lemma_glued_apart(head, a, b, after);
    }
}

/// The fetching of a source asks for the path of that very source. The global nixpkgs
/// is asked for as the channel, and then as the flake, of that name.
pub proof fn law_fetching_asks_for_the_source(
    target: Target<Seq<char>>,
    root: Seq<char>,
)
    ensures
        ({
            let asked = (SourceUpdate { target, root, stage: UpdateStage::Resolve }).wants();
            match target {
                Target::Channel { name } => asks_channel_path(asked, name),
                Target::Flake { name } => asks_flake_path(asked, name),
                Target::Nixpkgs => asks_channel_path(asked, "nixpkgs"@) && asks_flake_path(
                    (SourceUpdate { target, root, stage: UpdateStage::Fallback }).wants(),
                    "nixpkgs"@,
                ),
            }
        }),
        SourceUpdate::begun(target, root).stage == if target is Flake {
            UpdateStage::<Seq<char>>::Support
        } else {
            UpdateStage::Resolve
        },
{
    match target {
        Target::Channel { name } => lemma_channel_path_question(name),
        Target::Flake { name } => lemma_flake_path_question(name),
        Target::Nixpkgs => {
            lemma_channel_path_question("nixpkgs"@);
            lemma_flake_path_question("nixpkgs"@);
        },
    }
}

/// Two channels are resolved by different questions, and so are two flakes.
pub proof fn law_sources_are_resolved_apart(a: Seq<char>, b: Seq<char>, root: Seq<char>)
    requires
        a != b,
    ensures
        (SourceUpdate {
            target: Target::Channel { name: a },
            root,
            stage: UpdateStage::Resolve,
        }).wants() != (SourceUpdate {
            target: Target::Channel { name: b },
            root,
            stage: UpdateStage::Resolve,
        }).wants(),
        (SourceUpdate {
            target: Target::Flake { name: a },
            root,
            stage: UpdateStage::Resolve,
        }).wants() != (SourceUpdate {
            target: Target::Flake { name: b },
            root,
            stage: UpdateStage::Resolve,
        }).wants(),
{
    lemma_evaluates(process::channel_path_expr(a), true);
    lemma_evaluates(process::channel_path_expr(b), true);
    lemma_evaluates(process::flake_path_expr(a), true);
    lemma_evaluates(process::flake_path_expr(b), true);
    if process::channel_path_expr(a) == process::channel_path_expr(b) {
        lemma_glued_apart("(<"@, a, b, ">)"@);
    }
    if process::flake_path_expr(a) == process::flake_path_expr(b) {
        lemma_glued_apart("(builtins.getFlake \""@, a, b, "\").outPath"@);
    }
}

/// What a program said, with white space around it.
pub open spec fn said_with(
    before: Seq<char>,
    answer: Seq<char>,
    after: Seq<char>,
    stderr: Seq<char>,
    success: bool,
) -> Option<SpawnView> {
    Some(SpawnView { stdout: before + answer + after, stderr, success })
}

/// A path that nix gives is taken as it stands between the white space around it,
/// where it is absolute; anything else is a failure that tells what nix complained of.
pub proof fn law_answered_path(
    before: Seq<char>,
    answer: Seq<char>,
    after: Seq<char>,
    complaint: Seq<char>,
    success: bool,
)
    requires
        text_laws::all_space(before),
        text_laws::all_space(after),
        text_laws::is_tight(answer),
        text_laws::is_tight(complaint),
    ensures
        process::resolved(
            said_with(before, answer, after, before + complaint + after, success),
        ) == if answer.len() > 0 && answer[0] == '/' {
            Ok::<Seq<char>, Failure<Seq<char>>>(answer)
        } else {
            Err(Failure::Nix { detail: complaint })
        },
        process::resolved(None) is Err,
{
    text_laws::law_trimming(before, answer, after);
    text_laws::law_trimming(before, complaint, after);
}

/// A source confirms a package where nix ends well and says `true`, with nothing but
/// white space around it, and nowhere else.
pub proof fn law_confirmation(
    before: Seq<char>,
    answer: Seq<char>,
    after: Seq<char>,
    stderr: Seq<char>,
    success: bool,
)
    requires
        text_laws::all_space(before),
        text_laws::all_space(after),
        text_laws::is_tight(answer),
    ensures
        check::confirmed(said_with(before, answer, after, stderr, success)) == (success && answer
            == seq!['t', 'r', 'u', 'e']),
        !check::confirmed(None),
{
    text_laws::law_trimming(before, answer, after);
    reveal_strlit("true");
    assert("true"@ =~= seq!['t', 'r', 'u', 'e']);
}

/// A package of a flake is found exactly where nix has flakes, could be asked, and the
/// first output confirms the package or, where it does not, the second does. The
/// second is not asked where the first confirms.
pub proof fn law_flake_search(
    source: Seq<char>,
    attr: Seq<char>,
    support: Option<SpawnView>,
    legacy: Option<SpawnView>,
    packages: Option<SpawnView>,
)
    ensures
        ({
            let begun = PackageCheck::begun(package::PackageRefView::Flake { source, attr });
            let supported = begun.after(Reply::Ran(support));
            let first = supported.after(Reply::Ran(legacy));
            let second = first.after(Reply::Ran(packages));
            let has_flakes = support is Some && support.unwrap().success;
            &&& !has_flakes ==> supported.stage == (CheckStage::Known { found: false })
            &&& has_flakes && legacy is None ==> first.stage == (CheckStage::Known {
                found: false,
            })
            &&& has_flakes && check::confirmed(legacy) ==> first.stage == (CheckStage::Known {
                found: true,
            })
            &&& has_flakes && legacy is Some && !check::confirmed(legacy)
                ==> asks_flake(first.wants(), source, "packages"@, attr) && second.stage == (
            CheckStage::Known { found: check::confirmed(packages) })
            &&& has_flakes ==> asks_flake(supported.wants(), source, "legacyPackages"@, attr)
        }),
{
    law_search_asks_the_source(package::PackageRefView::Flake { source, attr });
}

/// The root that is made is made for the very path that nix gave, at the root's own
/// place, and the root from before is removed first where there is one.
pub proof fn law_root_is_made_for_the_answer(
    target: Target<Seq<char>>,
    root: Seq<char>,
    before: Seq<char>,
    path: Seq<char>,
    after: Seq<char>,
    stderr: Seq<char>,
    success: bool,
    found: bool,
)
    requires
        text_laws::all_space(before),
        text_laws::all_space(after),
        text_laws::is_tight(path),
        path.len() > 0,
        path[0] == '/',
    ensures
        ({
            let asked = SourceUpdate { target, root, stage: UpdateStage::Resolve };
            let known = asked.after(Reply::Ran(said_with(before, path, after, stderr, success)));
            let ready = if found {
                known.after(Reply::Found(true)).after(Reply::Removed)
            } else {
                known.after(Reply::Found(false))
            };
            &&& known.wants() == Some(RequestView::Exists { path: root })
            &&& known.after(Reply::Found(true)).wants() == Some(
                RequestView::RemoveFile { path: root },
            )
            &&& ready.wants() matches Some(Effect::Run { invocation })
            &&& invocation.program == "nix-store"@
            &&& is_given(invocation.args, "--realise"@, path)
            &&& is_given(invocation.args, "--add-root"@, root)
            &&& invocation.args.contains("--indirect"@)
            &&& invocation.output == Output::Capture
        }),
{
    text_laws::law_trimming(before, path, after);
    let args = process::realisation(path, root).args;
    assert(args[0] == "--realise"@ && args[1] == path);
    assert(args[2] == "--indirect"@);
    assert(args[3] == "--add-root"@ && args[4] == root);
}

/// Whatever expression is evaluated, nix is handed that expression and the `NIX_PATH` that
/// was given, and what it says is kept.
pub proof fn law_evaluation_takes_what_it_is_given(
    expr: Seq<char>,
    raw: bool,
    nix_path: Option<Seq<char>>,
)
    ensures
        ({
            let invocation = process::evaluation(expr, raw, nix_path);
            &&& invocation.nix_path == nix_path
            &&& is_given(invocation.args, "--expr"@, expr)
            &&& invocation.args[0] == "eval"@
            &&& invocation.args.contains("--impure"@)
            &&& invocation.args.contains("--raw"@) <==> raw || expr == "--raw"@
            &&& invocation.output == Output::Capture
        }),
{
    let args = process::evaluation(expr, raw, nix_path).args;
    reveal_strlit("eval");
    reveal_strlit("--raw");
    reveal_strlit("--impure");
    reveal_strlit("--expr");
    assert("eval"@.len() == 4 && "--raw"@.len() == 5 && "--impure"@.len() == 8);
    assert("--expr"@.len() == 6);
    if raw {
        assert(args[1] == "--raw"@ && args[2] == "--impure"@);
        assert(args[3] == "--expr"@ && args[4] == expr);
    } else {
        assert(args[1] == "--impure"@);
        assert(args[2] == "--expr"@ && args[3] == expr);
    }
}

/// What is said when a source is about to be fetched, and what is said when that
/// fails, tells the source.
pub proof fn law_fetching_tells_the_source(name: Seq<char>, detail: Seq<char>)
    ensures
        ends_with((Target::Channel { name }).announcement().said(), "channel: "@ + name),
        ends_with((Target::Flake { name }).announcement().said(), "flake: "@ + name),
        ends_with(
            (Target::Channel { name }).refusal(detail).said(),
            "channel "@ + name + ": "@ + detail,
        ),
        ends_with(
            (Target::Flake { name }).refusal(detail).said(),
            "flake "@ + name + ": "@ + detail,
        ),
        ends_with(Target::<Seq<char>>::Nixpkgs.refusal(detail).said(), ": "@ + detail),
{
    reveal_strlit("Updating channel: ");
    reveal_strlit("channel: ");
    reveal_strlit("Updating flake: ");
    reveal_strlit("flake: ");
    reveal_strlit("Failed to update channel ");
    reveal_strlit("channel ");
    reveal_strlit("Failed to update flake ");
    reveal_strlit("flake ");
    reveal_strlit("Failed to update global nixpkgs: ");
    reveal_strlit(": ");
    let u = "Updating "@;
    reveal_strlit("Updating ");
    let f = "Failed to update "@;
    reveal_strlit("Failed to update ");
    let g = "Failed to update global nixpkgs"@;
    reveal_strlit("Failed to update global nixpkgs");
    assert("Updating channel: "@ + name =~= u + ("channel: "@ + name));
    assert("Updating flake: "@ + name =~= u + ("flake: "@ + name));
    assert("Failed to update channel "@ + name + ": "@ + detail =~= f + ("channel "@ + name + ": "@
        + detail));
    assert("Failed to update flake "@ + name + ": "@ + detail =~= f + ("flake "@ + name + ": "@
        + detail));
    assert("Failed to update global nixpkgs: "@ + detail =~= g + (": "@ + detail));
}

} // verus!
