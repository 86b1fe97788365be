//! How the runtime is launched: the launch channel, and the environment of the subprocess.

use std::path::PathBuf;

use vstd::prelude::*;
use vstd::string::*;

use crate::client::HarnessClientOptions;
use crate::error::SdkError;
#[allow(unused_imports)]
use crate::error::SdkErrorView;
use crate::runtime::{ResolveOptions, ResolvedRuntime};
use crate::text::copy_texts;
#[allow(unused_imports)]
use crate::text::{opt_text, texts};
use crate::text_map::TextMap;
#[allow(unused_imports)]
use crate::text_map::{entries_map, text_values};
use crate::trusted::path::{copy_path, path_lossy};
#[allow(unused_imports)]
use crate::trusted::path::lossy_text;

verus! {

/// The resolved launch channel plus the default `cordis.yml` when the downloader resolved the
/// runtime.
#[derive(Debug, PartialEq)]
pub struct ResolvedLaunch {
    /// The program to run.
    pub command: String,
    /// Its arguments.
    pub args: Vec<String>,
    /// The default configuration to inject.
    pub default_config: Option<PathBuf>,
}

/// The mathematical value of a [`ResolvedLaunch`].
pub struct LaunchView {
    /// The program to run.
    pub command: Seq<char>,
    /// Its arguments.
    pub args: Seq<Seq<char>>,
    /// The default configuration to inject.
    pub default_config: Option<PathBuf>,
}

impl View for ResolvedLaunch {
    type V = LaunchView;

    open spec fn view(&self) -> LaunchView {
        LaunchView {
            command: self.command@,
            args: texts(self.args@),
            default_config: self.default_config,
        }
    }
}

/// How the runtime is launched.
#[derive(Debug, PartialEq)]
pub enum LaunchChannel {
    /// By this command.
    Launch(ResolvedLaunch),
    /// By what the downloader resolves for these options.
    Download(ResolveOptions),
}

/// How the runtime is launched, or why it cannot be.
pub enum LaunchOutcome {
    /// By this command.
    Launch(LaunchView),
    /// By the downloader.
    Download { index_url: Option<Seq<char>>, version: Option<Seq<char>>, cache_dir: Option<PathBuf> },
    /// The message of the resolution error.
    Failure(Seq<char>),
}

/// A command without arguments and without a configuration to inject.
pub open spec fn bare_launch(command: Seq<char>) -> LaunchOutcome {
    LaunchOutcome::Launch(LaunchView { command, args: seq![], default_config: None })
}

/// How the runtime is launched, the most explicit channel first: `launch_args_override`,
/// `command` with `args`, `runtime_bin`, a non-empty `$DSH_RUNTIME_BIN`, and the downloader where
/// it is enabled.
pub open spec fn launch_outcome(
    options: HarnessClientOptions,
    runtime_bin_env: Option<Seq<char>>,
    download: bool,
) -> LaunchOutcome {
    if options.launch_args_override is Some {
        let argv = texts(options.launch_args_override->0@);
        if argv.len() == 0 {
            LaunchOutcome::Failure("launch_args_override must not be empty"@)
        } else {
            LaunchOutcome::Launch(
                LaunchView { command: argv[0], args: argv.drop_first(), default_config: None },
            )
        }
    } else if options.command is Some {
        LaunchOutcome::Launch(
            LaunchView {
                command: options.command->0@,
                args: texts(options.args@),
                default_config: None,
            },
        )
    } else if options.runtime_bin is Some {
        bare_launch(lossy_text(options.runtime_bin->0))
    } else if runtime_bin_env is Some && runtime_bin_env->0.len() > 0 {
        bare_launch(runtime_bin_env->0)
    } else if download {
        LaunchOutcome::Download {
            index_url: opt_text(options.runtime_index_url),
            version: opt_text(options.runtime_version),
            cache_dir: options.runtime_cache_dir,
        }
    } else {
        LaunchOutcome::Failure(
            "no runtime specified: provide HarnessClientOptions.command/args or runtime_bin (the runtime-download feature, which resolves a bundled runtime, is disabled)"@,
        )
    }
}

/// A launch by a command alone.
fn launch_bare(command: String) -> (launch: LaunchChannel)
    ensures
        launch matches LaunchChannel::Launch(launch) && LaunchOutcome::Launch(launch@)
            == bare_launch(command@),
{
    let args: Vec<String> = Vec::new();
    assert(texts(args@) =~= seq![]);
    LaunchChannel::Launch(ResolvedLaunch { command, args, default_config: None })
}

/// A copy of an optional string.
pub(crate) fn copy_opt_text(text: &Option<String>) -> (copy: Option<String>)
    ensures
        opt_text(copy) == opt_text(*text),
{
    match text {
        Some(text) => Some(text.clone()),
        None => None,
    }
}

/// A copy of an optional path.
pub(crate) fn copy_opt_path(path: &Option<PathBuf>) -> (copy: Option<PathBuf>)
    ensures
        copy == *path,
{
    match path {
        Some(path) => Some(copy_path(path)),
        None => None,
    }
}

/// The strings of a list but the first.
fn copy_tail(lines: &Vec<String>) -> (tail: Vec<String>)
    requires
        lines@.len() > 0,
    ensures
        texts(tail@) == texts(lines@).drop_first(),
{
    let mut tail: Vec<String> = Vec::new();
    let mut i: usize = 1;
    assert(texts(tail@) =~= texts(lines@).subrange(1, 1));
    while i < lines.len()
        invariant
            1 <= i <= lines@.len(),
            texts(tail@) == texts(lines@).subrange(1, i as int),
        decreases lines@.len() - i,
    {
        let ghost before = tail@;
        tail.push(lines[i].clone());
        assert(texts(tail@) =~= texts(before).push(lines@[i as int]@));
        assert(texts(lines@).subrange(1, i + 1) =~= texts(lines@).subrange(1, i as int).push(
            lines@[i as int]@,
        ));
        i += 1;
    }
    assert(texts(lines@).subrange(1, i as int) =~= texts(lines@).drop_first());
    tail
}

impl HarnessClientOptions {
    /// Resolves the launch channel. `runtime_bin_env` is `$DSH_RUNTIME_BIN`, and `download` says
    /// whether the downloader is enabled.
    pub fn resolve_launch(&self, runtime_bin_env: Option<String>, download: bool) -> (result: Result<
        LaunchChannel,
        SdkError,
    >)
        ensures
            match (launch_outcome(*self, opt_text(runtime_bin_env), download), result) {
                (LaunchOutcome::Launch(expected), Ok(LaunchChannel::Launch(launch))) => launch@
                    == expected,
                (
                    LaunchOutcome::Download { index_url, version, cache_dir },
                    Ok(LaunchChannel::Download(options)),
                ) => opt_text(options.index_url) == index_url && opt_text(options.version)
                    == version && options.cache_dir == cache_dir,
                (LaunchOutcome::Failure(message), Err(error)) => error@ == (
                SdkErrorView::RuntimeResolve { message }),
                _ => false,
            },
    {
        if let Some(argv) = &self.launch_args_override {
            if argv.len() == 0 {
                return Err(
                    SdkError::RuntimeResolve {
                        message: "launch_args_override must not be empty".to_owned(),
                    },
                );
            }
            return Ok(
                LaunchChannel::Launch(
                    ResolvedLaunch {
                        command: argv[0].clone(),
                        args: copy_tail(argv),
                        default_config: None,
                    },
                ),
            );
        }
        if let Some(command) = &self.command {
            return Ok(
                LaunchChannel::Launch(
                    ResolvedLaunch {
                        command: command.clone(),
                        args: copy_texts(&self.args),
                        default_config: None,
                    },
                ),
            );
        }
        if let Some(bin) = &self.runtime_bin {
            return Ok(launch_bare(path_lossy(bin)));
        }
        if let Some(bin) = runtime_bin_env {
            if bin.as_str().unicode_len() > 0 {
                return Ok(launch_bare(bin));
            }
        }
        if download {
            Ok(
                LaunchChannel::Download(
                    ResolveOptions {
                        index_url: copy_opt_text(&self.runtime_index_url),
                        version: copy_opt_text(&self.runtime_version),
                        cache_dir: copy_opt_path(&self.runtime_cache_dir),
                    },
                ),
            )
        } else {
            Err(
                SdkError::RuntimeResolve {
                    message:
                        "no runtime specified: provide HarnessClientOptions.command/args or runtime_bin (the runtime-download feature, which resolves a bundled runtime, is disabled)".to_owned(),
                },
            )
        }
    }
}

/// The launch of a runtime that the downloader resolved: its argv, and its default configuration
/// to inject.
pub fn downloaded_launch(runtime: &ResolvedRuntime) -> (launch: ResolvedLaunch)
    requires
        runtime.launch_args@.len() > 0,
    ensures
        launch@ == (LaunchView {
            command: runtime.launch_args@[0]@,
            args: texts(runtime.launch_args@).drop_first(),
            default_config: Some(runtime.default_config),
        }),
{
    ResolvedLaunch {
        command: runtime.launch_args[0].clone(),
        args: copy_tail(&runtime.launch_args),
        default_config: Some(copy_path(&runtime.default_config)),
    }
}

/// The value of an environment entry.
#[derive(Debug, PartialEq)]
pub enum EnvValue {
    /// Unicode text.
    Text(String),
    /// Anything else, as it came.
    Raw(Vec<u8>),
}

/// The mathematical value of an [`EnvValue`].
pub enum EnvValueView {
    /// See [`EnvValue::Text`].
    Text(Seq<char>),
    /// See [`EnvValue::Raw`].
    Raw(Seq<u8>),
}

impl View for EnvValue {
    type V = EnvValueView;

    open spec fn view(&self) -> EnvValueView {
        match *self {
            EnvValue::Text(text) => EnvValueView::Text(text@),
            EnvValue::Raw(bytes) => EnvValueView::Raw(bytes@),
        }
    }
}

/// The contents of an environment.
pub open spec fn env_view(env: Map<Seq<char>, EnvValue>) -> Map<Seq<char>, EnvValueView> {
    env.map_values(|value: EnvValue| value@)
}

/// Text entries as an environment.
pub open spec fn env_of_texts(texts: Map<Seq<char>, Seq<char>>) -> Map<Seq<char>, EnvValueView> {
    texts.map_values(|text: Seq<char>| EnvValueView::Text(text))
}

/// An environment names a configuration that is not empty.
pub open spec fn has_config(env: Map<Seq<char>, EnvValueView>) -> bool {
    env.contains_key("DSH_CORDIS_CONFIG"@) && match env["DSH_CORDIS_CONFIG"@] {
        EnvValueView::Text(text) => text.len() > 0,
        EnvValueView::Raw(bytes) => bytes.len() > 0,
    }
}

/// The environment of the runtime: the inherited one overlaid with the extra entries, and then
/// the default configuration, only where the downloader gave one and none that is not empty
/// exists.
pub open spec fn child_env(
    inherited: Map<Seq<char>, EnvValueView>,
    extra: Option<Map<Seq<char>, Seq<char>>>,
    default_config: Option<PathBuf>,
) -> Map<Seq<char>, EnvValueView> {
    let env = match extra {
        Some(extra) => inherited.union_prefer_right(env_of_texts(extra)),
        None => inherited,
    };
    match default_config {
        Some(config) if !has_config(env) => env.insert(
            "DSH_CORDIS_CONFIG"@,
            EnvValueView::Text(lossy_text(config)),
        ),
        _ => env,
    }
}

/// The contents of optional extra entries.
pub open spec fn opt_entries(extra: Option<TextMap<String>>) -> Option<Map<Seq<char>, Seq<char>>> {
    match extra {
        Some(extra) => Some(text_values(extra@)),
        None => None,
    }
}

/// Overlays text entries on an environment.
fn overlay(env: &mut TextMap<EnvValue>, extra: &TextMap<String>)
    ensures
        env_view(final(env)@) == env_view(old(env)@).union_prefer_right(
            env_of_texts(text_values(extra@)),
        ),
{
    let ghost start = env_view(env@);
    let mut i: usize = 0;
    proof {
        assert(extra.entries@.take(0) =~= seq![]);
        assert(start.union_prefer_right(env_of_texts(text_values(entries_map(seq![])))) =~= start);
    }
    while i < extra.entries.len()
        invariant
            i <= extra.entries@.len(),
            env_view(env@) == start.union_prefer_right(
                env_of_texts(text_values(entries_map(extra.entries@.take(i as int)))),
            ),
        decreases extra.entries@.len() - i,
    {
        let ghost before = env_view(env@);
        let ghost some = entries_map(extra.entries@.take(i as int));
        let ghost key = extra.entries@[i as int].0@;
        let ghost value = extra.entries@[i as int].1;
        env.insert(extra.entries[i].0.clone(), EnvValue::Text(extra.entries[i].1.clone()));
        proof {
            assert(extra.entries@.take(i + 1).drop_last() =~= extra.entries@.take(i as int));
            assert(entries_map(extra.entries@.take(i + 1)) == some.insert(key, value));
            assert(env_view(env@) =~= before.insert(key, EnvValueView::Text(value@)));
            assert(env_of_texts(text_values(some.insert(key, value))) =~= env_of_texts(
                text_values(some),
            ).insert(key, EnvValueView::Text(value@)));
            assert(start.union_prefer_right(
                env_of_texts(text_values(some)).insert(key, EnvValueView::Text(value@)),
            ) =~= start.union_prefer_right(env_of_texts(text_values(some))).insert(
                key,
                EnvValueView::Text(value@),
            ));
        }
        i += 1;
    }
    assert(extra.entries@.take(i as int) =~= extra.entries@);
}

/// Assembles the environment of the runtime.
pub fn build_env(
    inherited: TextMap<EnvValue>,
    extra: &Option<TextMap<String>>,
    launch: &ResolvedLaunch,
) -> (env: TextMap<EnvValue>)
    ensures
        env_view(env@) == child_env(
            env_view(inherited@),
            opt_entries(*extra),
            launch.default_config,
        ),
{
    let mut env = inherited;
    if let Some(extra) = extra {
        overlay(&mut env, extra);
    }
    let ghost overlaid = env_view(env@);
    if let Some(config) = &launch.default_config {
        let configured = match env.get("DSH_CORDIS_CONFIG") {
            Some(value) => match value {
                EnvValue::Text(text) => text.as_str().unicode_len() > 0,
                EnvValue::Raw(bytes) => bytes.len() > 0,
            },
            None => false,
        };
        assert(configured == has_config(overlaid));
        if !configured {
            let text = path_lossy(config);
            env.insert("DSH_CORDIS_CONFIG".to_owned(), EnvValue::Text(text));
            assert(env_view(env@) =~= overlaid.insert(
                "DSH_CORDIS_CONFIG"@,
                EnvValueView::Text(lossy_text(*config)),
            ));
        }
    }
    env
}

/// The most explicit launch channel wins: what a channel gives does not depend on any less
/// explicit one.
pub proof fn law_the_most_explicit_channel_wins(
    options: HarnessClientOptions,
    other: HarnessClientOptions,
    bin: Option<Seq<char>>,
    other_bin: Option<Seq<char>>,
    download: bool,
    other_download: bool,
)
    requires
        options.launch_args_override == other.launch_args_override,
        options.launch_args_override is Some || (options.command == other.command && options.args
            == other.args && (options.command is Some || (options.runtime_bin == other.runtime_bin
            && (options.runtime_bin is Some || (bin == other_bin && bin is Some && bin->0.len()
            > 0))))),
    ensures
        launch_outcome(options, bin, download) == launch_outcome(other, other_bin, other_download),
        !(launch_outcome(options, bin, download) is Download),
{
}

/// An explicit launch brings no configuration to inject, so the environment of the runtime is the
/// inherited one with the extra entries laid over it, and nothing else.
pub proof fn law_explicit_launches_inject_nothing(
    options: HarnessClientOptions,
    bin: Option<Seq<char>>,
    download: bool,
    inherited: Map<Seq<char>, EnvValueView>,
    extra: Map<Seq<char>, Seq<char>>,
)
    ensures
        launch_outcome(options, bin, download) matches LaunchOutcome::Launch(launch) ==> child_env(
            inherited,
            Some(extra),
            launch.default_config,
        ) == inherited.union_prefer_right(env_of_texts(extra)),
{
}

/// Extra entries win over inherited ones, and every other inherited entry stays. Only the entry
/// that names the configuration can differ: it is the default one exactly where the downloader
/// gave it and no other that is not empty exists.
pub proof fn law_the_environment_is_overlaid(
    inherited: Map<Seq<char>, EnvValueView>,
    extra: Map<Seq<char>, Seq<char>>,
    default_config: Option<PathBuf>,
    key: Seq<char>,
)
    ensures
        ({
            let env = child_env(inherited, Some(extra), default_config);
            let overlaid = inherited.union_prefer_right(env_of_texts(extra));
            if key == "DSH_CORDIS_CONFIG"@ && default_config is Some && !has_config(overlaid) {
                env.contains_key(key) && env[key] == EnvValueView::Text(
                    lossy_text(default_config->0),
                )
            } else if extra.contains_key(key) {
                env.contains_key(key) && env[key] == EnvValueView::Text(extra[key])
            } else {
                env.contains_key(key) == inherited.contains_key(key) && (inherited.contains_key(key)
                    ==> env[key] == inherited[key])
            }
        }),
{
}

/// The launch channels in order: a given argv is split into the command and its arguments, and an
/// empty one is an error; else a given command is taken with the given arguments; else a given
/// executable, or the one that the environment names where that is not empty, without arguments.
/// None of these brings a configuration.
pub proof fn law_the_given_launch_is_taken_as_it_is(
    options: HarnessClientOptions,
    bin: Option<String>,
    download: bool,
    result: Result<LaunchChannel, SdkError>,
)
    requires
        call_ensures(HarnessClientOptions::resolve_launch, (&options, bin, download), result),
    ensures
        options.launch_args_override matches Some(argv) ==> {
            &&& argv@.len() == 0 ==> (result matches Err(error) && error@ == (
            SdkErrorView::RuntimeResolve { message: "launch_args_override must not be empty"@ }))
            &&& argv@.len() > 0 ==> (result matches Ok(LaunchChannel::Launch(launch))
                && launch.command@ == argv@[0]@ && launch.args@.len() == argv@.len() - 1
                && launch.default_config is None && forall|i: int|
                1 <= i < argv@.len() ==> (#[trigger] argv@[i])@ == launch.args@[i - 1]@)
        },
        options.launch_args_override is None ==> (options.command matches Some(command) ==> (result
            matches Ok(LaunchChannel::Launch(launch)) && launch.command@ == command@ && texts(
            launch.args@,
        ) == texts(options.args@) && launch.default_config is None)),
        options.launch_args_override is None && options.command is None ==> {
            &&& options.runtime_bin matches Some(path) ==> (result matches Ok(
                LaunchChannel::Launch(launch),
            ) && launch.command@ == lossy_text(path) && launch.args@.len() == 0
                && launch.default_config is None)
            &&& options.runtime_bin is None ==> (bin matches Some(path) ==> path@.len() > 0 ==> (
            result matches Ok(LaunchChannel::Launch(launch)) && launch.command@ == path@
                && launch.args@.len() == 0 && launch.default_config is None))
        },
{
    if let Some(argv) = options.launch_args_override {
        if argv@.len() > 0 {
            let launch = result->Ok_0->Launch_0;
            assert(texts(launch.args@) == texts(argv@).drop_first());
            assert(texts(launch.args@).len() == launch.args@.len());
            assert forall|i: int| 1 <= i < argv@.len() implies (#[trigger] argv@[i])@
                == launch.args@[i - 1]@ by {
                assert(texts(launch.args@)[i - 1] == texts(argv@)[i]);
            }
        }
    } else if options.command is None && result is Ok {
        if let Ok(LaunchChannel::Launch(launch)) = result {
            assert(texts(launch.args@).len() == launch.args@.len());
        }
    }
}

/// Without any given launch the downloader resolves one, for the configured index, version and
/// cache; where it is disabled that is an error.
pub proof fn law_the_downloader_comes_last(
    options: HarnessClientOptions,
    bin: Option<String>,
    download: bool,
    result: Result<LaunchChannel, SdkError>,
)
    requires
        call_ensures(HarnessClientOptions::resolve_launch, (&options, bin, download), result),
        options.launch_args_override is None,
        options.command is None,
        options.runtime_bin is None,
        bin matches Some(path) ==> path@.len() == 0,
    ensures
        download ==> (result matches Ok(LaunchChannel::Download(wanted)) && opt_text(
            wanted.index_url,
        ) == opt_text(options.runtime_index_url) && opt_text(wanted.version) == opt_text(
            options.runtime_version,
        ) && wanted.cache_dir == options.runtime_cache_dir),
        !download ==> (result matches Err(error) && error@ == (SdkErrorView::RuntimeResolve {
            message:
                "no runtime specified: provide HarnessClientOptions.command/args or runtime_bin (the runtime-download feature, which resolves a bundled runtime, is disabled)"@,
        })),
{
}

/// A downloaded runtime is launched by its argv, and brings its default configuration.
pub proof fn law_a_downloaded_runtime_brings_its_configuration(
    runtime: ResolvedRuntime,
    launch: ResolvedLaunch,
)
    requires
        call_ensures(downloaded_launch, (&runtime,), launch),
        runtime.launch_args@.len() > 0,
    ensures
        launch.command@ == runtime.launch_args@[0]@,
        launch.args@.len() == runtime.launch_args@.len() - 1,
        forall|i: int|
            1 <= i < runtime.launch_args@.len() ==> (#[trigger] runtime.launch_args@[i])@
                == launch.args@[i - 1]@,
        launch.default_config == Some(runtime.default_config),
{
    assert(texts(launch.args@).len() == launch.args@.len());
    assert forall|i: int| 1 <= i < runtime.launch_args@.len() implies (
    #[trigger] runtime.launch_args@[i])@ == launch.args@[i - 1]@ by {
        assert(texts(launch.args@)[i - 1] == texts(runtime.launch_args@)[i]);
    }
}

/// The environment of the runtime: an extra entry wins over an inherited one, every other inherited
/// entry stays as it came, and the configuration is the default one exactly where there is a default
/// and neither the extra nor the inherited entries name one that is not empty.
pub proof fn law_the_runtime_inherits_its_environment(
    inherited: TextMap<EnvValue>,
    extra: TextMap<String>,
    launch: ResolvedLaunch,
    env: TextMap<EnvValue>,
    key: Seq<char>,
)
    requires
        call_ensures(build_env, (inherited, &Some(extra), &launch), env),
    ensures
        ({
            let name = "DSH_CORDIS_CONFIG"@;
            let configured = if extra@.contains_key(name) {
                extra@[name]@.len() > 0
            } else {
                inherited@.contains_key(name) && match inherited@[name] {
                    EnvValue::Text(text) => text@.len() > 0,
                    EnvValue::Raw(bytes) => bytes@.len() > 0,
                }
            };
            if key == name && launch.default_config is Some && !configured {
                env@.contains_key(key) && (env@[key] matches EnvValue::Text(text) && text@
                    == lossy_text(launch.default_config->0))
            } else if extra@.contains_key(key) {
                env@.contains_key(key) && (env@[key] matches EnvValue::Text(text) && text@
                    == extra@[key]@)
            } else {
                env@.contains_key(key) == inherited@.contains_key(key) && (inherited@.contains_key(
                    key,
                ) ==> env@[key]@ == inherited@[key]@)
            }
        }),
{
    let before = env_view(inherited@);
    let over = text_values(extra@);
    let after = env_view(env@);
    law_the_environment_is_overlaid(before, over, launch.default_config, key);
    assert(after.contains_key(key) == env@.contains_key(key));
    assert(env@.contains_key(key) ==> after[key] == env@[key]@);
    assert(over.contains_key(key) == extra@.contains_key(key));
    let name = "DSH_CORDIS_CONFIG"@;
    assert(over.contains_key(name) == extra@.contains_key(name));
}

/// Without extra entries the environment is the inherited one, but for the configuration.
pub proof fn law_nothing_extra_is_nothing_laid_over(
    inherited: TextMap<EnvValue>,
    none: TextMap<String>,
    launch: ResolvedLaunch,
    env: TextMap<EnvValue>,
    same: TextMap<EnvValue>,
)
    requires
        call_ensures(build_env, (inherited, &None, &launch), env),
        call_ensures(build_env, (inherited, &Some(none), &launch), same),
        none@ == Map::<Seq<char>, String>::empty(),
    ensures
        env_view(env@) == env_view(same@),
{
    assert(env_view(inherited@).union_prefer_right(env_of_texts(text_values(none@))) =~= env_view(
        inherited@,
    ));
}

} // verus!
