//! What the tool tells its user along the way.

use vstd::prelude::*;
use vstd::string::*;

verus! {

/// Something to tell the user. The texts are strings in running code and
/// sequences of characters in specifications.
#[derive(Debug)]
pub enum Notice<T> {
    /// A channel is updated.
    UpdatingChannel { name: T },
    /// A flake is updated.
    UpdatingFlake { name: T },
    /// The global nixpkgs is updated.
    UpdatingGlobal,
    /// The global nixpkgs comes from the channel.
    UsingChannel,
    /// The global nixpkgs may come from the flake.
    TryingFlake,
    /// A channel could not be asked for a package.
    ChannelCheckFailed { detail: T },
    /// A flake could not be asked for a package.
    FlakeCheckFailed { detail: T },
    /// A flake could not be asked for a package, for want of flakes.
    FlakesNotEnabled,
    /// The nix expression of an environment is made.
    GeneratingNix,
    /// The nix expression of an environment was written.
    GeneratedNix { content: T },
    /// An environment is built.
    Rebuilding { env: T },
    /// A channel is no longer needed.
    CollectingChannel { name: T },
    /// A flake is no longer needed.
    CollectingFlake { name: T },
    /// A package names no source.
    NoSourcePrefix { pkg: T },
    /// A package was found in the channel.
    FoundInChannel { pkg: T },
    /// A package was not found in the channel.
    NotInChannel { pkg: T },
    /// A package was found in the flake.
    FoundInFlake { pkg: T },
    /// A package was not found.
    NotFound { pkg: T },
    /// A source is fetched for the first time.
    AddingSource { name: T },
    /// The source of a package could not be fetched.
    SourceFailed { pkg: T, detail: T },
    /// A package is removed.
    Removing { pkg: T },
    /// A package to remove is not there.
    NotInstalled { pkg: T },
    /// The channels are fetched.
    FetchingChannels,
    /// An environment is updated.
    UpdatingEnv { env: T },
    /// The global nixpkgs was updated.
    GlobalUpdated,
    /// The command failed.
    Aborted { detail: T },
    /// There is no such environment.
    EnvMissing { env: T },
    /// An environment was not built yet.
    NeedsRebuild { env: T },
}

/// The text that `{:?}` makes of a text: between double quotes, with escapes.
pub uninterp spec fn debug_text(s: Seq<char>) -> Seq<char>;

/// Formats with `{:?}`, that is, calls `<str as Debug>::fmt`. Its result depends
/// on the text alone. Which characters are escaped is left unsaid.
#[verifier::external_body]
pub(crate) fn debug_format(s: &str) -> (r: String)
    ensures
        r@ == debug_text(s@),
{
    format!("{:?}", s)
}

/// The command line that names an environment: the default one needs no name.
pub open spec fn hint(command: Seq<char>, env: Seq<char>, rest: Seq<char>) -> Seq<char> {
    if env == "default"@ {
        " $ fhs "@ + command + rest
    } else {
        " $ fhs "@ + command + " -e "@ + env + rest
    }
}

/// What is said of an environment that is not there; `shown` is how its name is
/// shown.
pub open spec fn missing_text(shown: Seq<char>, env: Seq<char>) -> Seq<char> {
    "Environment "@ + shown + " does not exist, please create it by adding packages\n"@ + hint(
        "add"@,
        env,
        " <package>"@,
    )
}

/// What is said of an environment that was not built yet.
pub open spec fn unbuilt_text(env: Seq<char>) -> Seq<char> {
    "Environment needs rebuild, auto-rebuild disabled\n"@ + hint("rebuild"@, env, Seq::empty())
}

impl Notice<Seq<char>> {
    /// The text of a notice.
    pub open spec fn said(self) -> Seq<char> {
        match self {
            Notice::UpdatingChannel { name } => "Updating channel: "@ + name,
            Notice::UpdatingFlake { name } => "Updating flake: "@ + name,
            Notice::UpdatingGlobal => "Updating global nixpkgs"@,
            Notice::UsingChannel => "Using nixpkgs channel"@,
            Notice::TryingFlake => "Channel not found, trying nixpkgs flake"@,
            Notice::ChannelCheckFailed { detail } => "channel check failed: "@ + detail,
            Notice::FlakeCheckFailed { detail } => "flake check failed: "@ + detail,
            Notice::FlakesNotEnabled => "flake check failed: flakes are not enabled"@,
            Notice::GeneratingNix => "Generating nix expression"@,
            Notice::GeneratedNix { content } => "Generated nix:\n"@ + content,
            Notice::Rebuilding { env } => "rebuilding "@ + env + "..."@,
            Notice::CollectingChannel { name } => "GC channel: "@ + name,
            Notice::CollectingFlake { name } => "GC flake: "@ + name,
            Notice::NoSourcePrefix { pkg } => pkg + ": no source prefix, trying nixpkgs."@ + pkg,
            Notice::FoundInChannel { pkg } => pkg + ": found as nixpkgs."@ + pkg,
            Notice::NotInChannel { pkg } => pkg + ": not in channel, trying nixpkgs#"@ + pkg,
            Notice::FoundInFlake { pkg } => pkg + ": found as nixpkgs#"@ + pkg,
            Notice::NotFound { pkg } => pkg + ": does not exist or fails to evaluate"@,
            Notice::AddingSource { name } => "Adding source: "@ + name,
            Notice::SourceFailed { pkg, detail } => pkg + ": failed to add source: "@ + detail,
            Notice::Removing { pkg } => "Removing: "@ + pkg,
            Notice::NotInstalled { pkg } => pkg + ": not installed"@,
            Notice::FetchingChannels => "Fetching channels..."@,
            Notice::UpdatingEnv { env } => "Updating environment: "@ + env,
            Notice::GlobalUpdated => "Global nixpkgs updated successfully."@,
            Notice::Aborted { detail } => "Error: "@ + detail,
            Notice::EnvMissing { env } => missing_text(debug_text(env), env),
            Notice::NeedsRebuild { env } => unbuilt_text(env),
        }
    }

    /// Notices that are given only where the user wants to hear everything.
    pub open spec fn is_detail(self) -> bool {
        match self {
            Notice::UpdatingChannel { .. } => true,
            Notice::UpdatingFlake { .. } => true,
            Notice::UpdatingGlobal => true,
            Notice::UsingChannel => true,
            Notice::TryingFlake => true,
            Notice::ChannelCheckFailed { .. } => true,
            Notice::FlakeCheckFailed { .. } => true,
            Notice::FlakesNotEnabled => true,
            Notice::GeneratingNix => true,
            Notice::GeneratedNix { .. } => true,
            Notice::CollectingChannel { .. } => true,
            Notice::CollectingFlake { .. } => true,
            Notice::NoSourcePrefix { .. } => true,
            Notice::FoundInChannel { .. } => true,
            Notice::NotInChannel { .. } => true,
            Notice::FoundInFlake { .. } => true,
            Notice::AddingSource { .. } => true,
            Notice::Removing { .. } => true,
            _ => false,
        }
    }

    /// Notices that are a part of the tool's output; the others go to the error
    /// stream.
    pub open spec fn is_output(self) -> bool {
        match self {
            Notice::Rebuilding { .. } => true,
            Notice::NotInstalled { .. } => true,
            Notice::FetchingChannels => true,
            Notice::UpdatingEnv { .. } => true,
            Notice::GlobalUpdated => true,
            _ => false,
        }
    }
}

impl View for Notice<String> {
    type V = Notice<Seq<char>>;

    open spec fn view(&self) -> Notice<Seq<char>> {
        match self {
            Notice::UpdatingChannel { name } => Notice::UpdatingChannel { name: name@ },
            Notice::UpdatingFlake { name } => Notice::UpdatingFlake { name: name@ },
            Notice::UpdatingGlobal => Notice::UpdatingGlobal,
            Notice::UsingChannel => Notice::UsingChannel,
            Notice::TryingFlake => Notice::TryingFlake,
            Notice::ChannelCheckFailed { detail } => Notice::ChannelCheckFailed { detail: detail@ },
            Notice::FlakeCheckFailed { detail } => Notice::FlakeCheckFailed { detail: detail@ },
            Notice::FlakesNotEnabled => Notice::FlakesNotEnabled,
            Notice::GeneratingNix => Notice::GeneratingNix,
            Notice::GeneratedNix { content } => Notice::GeneratedNix { content: content@ },
            Notice::Rebuilding { env } => Notice::Rebuilding { env: env@ },
            Notice::CollectingChannel { name } => Notice::CollectingChannel { name: name@ },
            Notice::CollectingFlake { name } => Notice::CollectingFlake { name: name@ },
            Notice::NoSourcePrefix { pkg } => Notice::NoSourcePrefix { pkg: pkg@ },
            Notice::FoundInChannel { pkg } => Notice::FoundInChannel { pkg: pkg@ },
            Notice::NotInChannel { pkg } => Notice::NotInChannel { pkg: pkg@ },
            Notice::FoundInFlake { pkg } => Notice::FoundInFlake { pkg: pkg@ },
            Notice::NotFound { pkg } => Notice::NotFound { pkg: pkg@ },
            Notice::AddingSource { name } => Notice::AddingSource { name: name@ },
            Notice::SourceFailed { pkg, detail } => Notice::SourceFailed {
                pkg: pkg@,
                detail: detail@,
            },
            Notice::Removing { pkg } => Notice::Removing { pkg: pkg@ },
            Notice::NotInstalled { pkg } => Notice::NotInstalled { pkg: pkg@ },
            Notice::FetchingChannels => Notice::FetchingChannels,
            Notice::UpdatingEnv { env } => Notice::UpdatingEnv { env: env@ },
            Notice::GlobalUpdated => Notice::GlobalUpdated,
            Notice::Aborted { detail } => Notice::Aborted { detail: detail@ },
            Notice::EnvMissing { env } => Notice::EnvMissing { env: env@ },
            Notice::NeedsRebuild { env } => Notice::NeedsRebuild { env: env@ },
        }
    }
}

/// What a list of notices says.
pub open spec fn notices_view(list: Seq<Notice<String>>) -> Seq<Notice<Seq<char>>> {
    Seq::new(list.len(), |i: int| list[i]@)
}

/// A list of notices with one more.
pub fn append_notice(said: Vec<Notice<String>>, notice: Notice<String>) -> (r: Vec<Notice<String>>)
    ensures
        notices_view(r@) == notices_view(said@) + seq![notice@],
{
    let mut said = said;
    let ghost before = notices_view(said@);
    said.push(notice);
    assert(notices_view(said@) =~= before + seq![notice@]);
    said
}

/// Two lists of notices as one.
pub fn append_all(said: Vec<Notice<String>>, more: Vec<Notice<String>>) -> (r: Vec<Notice<String>>)
    ensures
        notices_view(r@) == notices_view(said@) + notices_view(more@),
{
    let mut said = said;
    let mut more = more;
    let ghost before = notices_view(said@);
    let ghost behind = notices_view(more@);
    said.append(&mut more);
    assert(notices_view(said@) =~= before + behind);
    said
}

fn hint_line(command: &str, env: &str, rest: &str) -> (r: String)
    ensures
        r@ == hint(command@, env@, rest@),
{
    if crate::text::same(env, "default") {
        " $ fhs ".to_owned().concat(command).concat(rest)
    } else {
        " $ fhs ".to_owned().concat(command).concat(" -e ").concat(env).concat(rest)
    }
}

/// What to say of an environment that is not there, when its name is shown as
/// `shown`.
pub fn env_not_found_as(shown: &str, env: &str) -> (r: String)
    ensures
        r@ == missing_text(shown@, env@),
{
    let line = hint_line("add", env, " <package>");
    "Environment ".to_owned().concat(shown).concat(
        " does not exist, please create it by adding packages\n",
    ).concat(line.as_str())
}

/// What to say of an environment that is not there.
pub fn env_not_found(env: &str) -> (r: String)
    ensures
        r@ == missing_text(debug_text(env@), env@),
{
    let shown = debug_format(env);
    env_not_found_as(shown.as_str(), env)
}

/// What to say of an environment that was not built yet.
pub fn env_not_built(env: &str) -> (r: String)
    ensures
        r@ == unbuilt_text(env@),
{
    let line = hint_line("rebuild", env, "");
    proof {
        reveal_strlit("");
        assert(""@ =~= Seq::<char>::empty());
    }
    "Environment needs rebuild, auto-rebuild disabled\n".to_owned().concat(line.as_str())
}

impl Notice<String> {
    /// The text of this notice.
    pub fn text(&self) -> (r: String)
        ensures
            r@ == self@.said(),
    {
        match self {
            Notice::UpdatingChannel { name } => {
                "Updating channel: ".to_owned().concat(name.as_str())
            },
            Notice::UpdatingFlake { name } => "Updating flake: ".to_owned().concat(name.as_str()),
            Notice::UpdatingGlobal => "Updating global nixpkgs".to_owned(),
            Notice::UsingChannel => "Using nixpkgs channel".to_owned(),
            Notice::TryingFlake => "Channel not found, trying nixpkgs flake".to_owned(),
            Notice::ChannelCheckFailed { detail } => {
                "channel check failed: ".to_owned().concat(detail.as_str())
            },
            Notice::FlakeCheckFailed { detail } => {
                "flake check failed: ".to_owned().concat(detail.as_str())
            },
            Notice::FlakesNotEnabled => "flake check failed: flakes are not enabled".to_owned(),
            Notice::GeneratingNix => "Generating nix expression".to_owned(),
            Notice::GeneratedNix { content } => {
                "Generated nix:\n".to_owned().concat(content.as_str())
            },
            Notice::Rebuilding { env } => {
                "rebuilding ".to_owned().concat(env.as_str()).concat("...")
            },
            Notice::CollectingChannel { name } => "GC channel: ".to_owned().concat(name.as_str()),
            Notice::CollectingFlake { name } => "GC flake: ".to_owned().concat(name.as_str()),
            Notice::NoSourcePrefix { pkg } => {
                pkg.clone().concat(": no source prefix, trying nixpkgs.").concat(pkg.as_str())
            },
            Notice::FoundInChannel { pkg } => {
                pkg.clone().concat(": found as nixpkgs.").concat(pkg.as_str())
            },
            Notice::NotInChannel { pkg } => {
                pkg.clone().concat(": not in channel, trying nixpkgs#").concat(pkg.as_str())
            },
            Notice::FoundInFlake { pkg } => {
                pkg.clone().concat(": found as nixpkgs#").concat(pkg.as_str())
            },
            Notice::NotFound { pkg } => pkg.clone().concat(": does not exist or fails to evaluate"),
            Notice::AddingSource { name } => "Adding source: ".to_owned().concat(name.as_str()),
            Notice::SourceFailed { pkg, detail } => {
                pkg.clone().concat(": failed to add source: ").concat(detail.as_str())
            },
            Notice::Removing { pkg } => "Removing: ".to_owned().concat(pkg.as_str()),
            Notice::NotInstalled { pkg } => pkg.clone().concat(": not installed"),
            Notice::FetchingChannels => "Fetching channels...".to_owned(),
            Notice::UpdatingEnv { env } => "Updating environment: ".to_owned().concat(env.as_str()),
            Notice::GlobalUpdated => "Global nixpkgs updated successfully.".to_owned(),
            Notice::Aborted { detail } => "Error: ".to_owned().concat(detail.as_str()),
            Notice::EnvMissing { env } => env_not_found(env.as_str()),
            Notice::NeedsRebuild { env } => env_not_built(env.as_str()),
        }
    }

    /// Whether this notice is to be given, to a user who wants to hear everything
    /// (`verbose`) or not.
    pub fn given(&self, verbose: bool) -> (r: bool)
        ensures
            r == (verbose || !self@.is_detail()),
    {
        verbose || match self {
            Notice::UpdatingChannel { .. } => false,
            Notice::UpdatingFlake { .. } => false,
            Notice::UpdatingGlobal => false,
            Notice::UsingChannel => false,
            Notice::TryingFlake => false,
            Notice::ChannelCheckFailed { .. } => false,
            Notice::FlakeCheckFailed { .. } => false,
            Notice::FlakesNotEnabled => false,
            Notice::GeneratingNix => false,
            Notice::GeneratedNix { .. } => false,
            Notice::CollectingChannel { .. } => false,
            Notice::CollectingFlake { .. } => false,
            Notice::NoSourcePrefix { .. } => false,
            Notice::FoundInChannel { .. } => false,
            Notice::NotInChannel { .. } => false,
            Notice::FoundInFlake { .. } => false,
            Notice::AddingSource { .. } => false,
            Notice::Removing { .. } => false,
            _ => true,
        }
    }

    /// Whether this notice is a part of the tool's output.
    pub fn to_output(&self) -> (r: bool)
        ensures
            r == self@.is_output(),
    {
        match self {
            Notice::Rebuilding { .. } => true,
            Notice::NotInstalled { .. } => true,
            Notice::FetchingChannels => true,
            Notice::UpdatingEnv { .. } => true,
            Notice::GlobalUpdated => true,
            _ => false,
        }
    }
}

} // verus!
