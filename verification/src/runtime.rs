//! Runtime acquisition: which wheel to fetch, whether to trust it, and what to unpack from it.
//!
//! The steps follow one another by their types. [`RuntimePlan::new`] settles where everything is;
//! [`RuntimePlan::check_cache`] either ends there or asks for the index; [`IndexRequest::answer`]
//! picks the wheel; [`WheelRequest::answer`] verifies what was downloaded; and [`Extraction`]
//! gives the files to write, the completion marker last.

use std::path::PathBuf;

use vstd::prelude::*;
use vstd::string::*;

use crate::error::SdkError;
#[allow(unused_imports)]
use crate::error::SdkErrorView;
use crate::json::{parse_json_bytes, Json};
#[allow(unused_imports)]
use crate::json::{items_tree, JsonView, ParsedView};
use crate::text::{decimal_u64, ends_with, same_text, starts_with, trim_trailing};
#[allow(unused_imports)]
use crate::text::{decimal, has_prefix, has_suffix, opt_text, texts, without_trailing};
use crate::trusted::archive::{open_archive, read_entry, zip_message};
#[allow(unused_imports)]
use crate::trusted::archive::{archive_bytes, archive_entry, archive_failure, EntryView};
use crate::trusted::digest::{decode_hex, digest_sha256, hex_message, quote};
#[allow(unused_imports)]
use crate::trusted::digest::{hex_bytes, hex_failure, hex_report, is_hex, quoted, sha256};
#[allow(unused_imports)]
use crate::trusted::json::parsed_bytes;
use crate::trusted::path::{
    components, copy_path, join_path, path_exact, path_from_text, path_lossy, rename_path, PathPart,
};
#[allow(unused_imports)]
use crate::trusted::path::{
    exact_text, joined_path, lossy_text, path_parts, renamed_path, text_path,
};

verus! {

/// Ceiling on the in-memory wheel download, in bytes.
pub const RUNTIME_WHEEL_MAX_BYTES: u64 = 536_870_912;

/// Which runtime to resolve, and from where.
#[derive(Debug, PartialEq)]
pub struct ResolveOptions {
    /// PyPI-style index; default `https://pypi.org/pypi` (or `$DSH_RUNTIME_PYPI_URL`).
    pub index_url: Option<String>,
    /// Runtime wheel version; default the crate version.
    pub version: Option<String>,
    /// Cache directory; default the platform cache directory (or `$DSH_RUNTIME_CACHE_DIR`).
    pub cache_dir: Option<PathBuf>,
}

impl Default for ResolveOptions {
    fn default() -> (options: Self)
        ensures
            options.index_url is None,
            options.version is None,
            options.cache_dir is None,
    {
        ResolveOptions { index_url: None, version: None, cache_dir: None }
    }
}

/// The resolved runtime executable plus its default configuration.
#[derive(Debug, PartialEq)]
pub struct ResolvedRuntime {
    /// argv tuple launching the runtime.
    pub launch_args: Vec<String>,
    /// The extracted default `cordis.yml`.
    pub default_config: PathBuf,
}

/// What the machine and its environment say.
#[derive(Debug, PartialEq)]
pub struct Host {
    /// The operating system, as `std::env::consts::OS` names it.
    pub os: String,
    /// The architecture, as `std::env::consts::ARCH` names it.
    pub arch: String,
    /// `$DSH_RUNTIME_PYPI_URL`.
    pub index_url: Option<String>,
    /// `$DSH_RUNTIME_VERSION`.
    pub version: Option<String>,
    /// `$DSH_RUNTIME_CACHE_DIR`.
    pub cache_dir: Option<PathBuf>,
    /// The platform cache directory.
    pub platform_cache: Option<PathBuf>,
}

/// The wheel tag and the executable suffix of a supported platform.
pub open spec fn platform_tags(os: Seq<char>, arch: Seq<char>) -> Option<(Seq<char>, Seq<char>)> {
    if os == "macos"@ && arch == "aarch64"@ {
        Some(("py3-none-macosx_14_0_arm64"@, "macos-arm64"@))
    } else if os == "linux"@ && arch == "x86_64"@ {
        Some(("py3-none-manylinux_2_28_x86_64"@, "linux-x64"@))
    } else if os == "linux"@ && arch == "aarch64"@ {
        Some(("py3-none-manylinux_2_28_aarch64"@, "linux-arm64"@))
    } else {
        None
    }
}

/// The report on a platform without a wheel.
pub open spec fn unsupported_platform(os: Seq<char>, arch: Seq<char>) -> Seq<char> {
    "no deepseek-harness-runtime-bin wheel exists for this platform (os="@ + os + ", arch="@ + arch
        + "); supported: macos/arm64, linux/x64, linux/arm64. Provide HarnessClientOptions.runtime_bin instead."@
}

/// The wheel tag and the executable suffix of a platform.
pub fn platform(os: &str, arch: &str) -> (result: Result<(String, String), SdkError>)
    ensures
        match (platform_tags(os@, arch@), result) {
            (Some((wheel, exe)), Ok(tags)) => tags.0@ == wheel && tags.1@ == exe,
            (None, Err(error)) => error@ == (SdkErrorView::RuntimeResolve {
                message: unsupported_platform(os@, arch@),
            }),
            _ => false,
        },
{
    if same_text(os, "macos") && same_text(arch, "aarch64") {
        Ok(("py3-none-macosx_14_0_arm64".to_owned(), "macos-arm64".to_owned()))
    } else if same_text(os, "linux") && same_text(arch, "x86_64") {
        Ok(("py3-none-manylinux_2_28_x86_64".to_owned(), "linux-x64".to_owned()))
    } else if same_text(os, "linux") && same_text(arch, "aarch64") {
        Ok(("py3-none-manylinux_2_28_aarch64".to_owned(), "linux-arm64".to_owned()))
    } else {
        let mut message =
            "no deepseek-harness-runtime-bin wheel exists for this platform (os=".to_owned();
        message.append(os);
        message.append(", arch=");
        message.append(arch);
        message.append(
            "); supported: macos/arm64, linux/x64, linux/arm64. Provide HarnessClientOptions.runtime_bin instead.",
        );
        Err(SdkError::RuntimeResolve { message })
    }
}

/// The version of this library.
pub open spec fn crate_version_text() -> Seq<char> {
    "0.1.0-rc.6"@
}

/// The PEP 440 spelling of a version: the hyphen before a pre-release, and the dots inside it,
/// fall away.
pub open spec fn pep440(version: Seq<char>) -> Seq<char>
    decreases version.len(),
{
    if version.len() == 0 {
        seq![]
    } else if version[0] == '-' {
        without_dots(version.drop_first())
    } else {
        seq![version[0]] + pep440(version.drop_first())
    }
}

/// A text without its dots.
pub open spec fn without_dots(text: Seq<char>) -> Seq<char> {
    text.filter(|c: char| c != '.')
}

/// The wheel version that stands for a version of this library.
pub fn wheel_version(version: &str) -> (spelled: String)
    ensures
        spelled@ == pep440(version@),
{
    let size: usize = version.unicode_len();
    let mut spelled = String::new();
    let mut i: usize = 0;
    let mut pre_release = false;
    assert(version@.skip(0) =~= version@);
    assert(spelled@ + pep440(version@) =~= pep440(version@));
    while i < size
        invariant
            i <= size == version@.len(),
            pep440(version@) == spelled@ + (if pre_release {
                without_dots(version@.skip(i as int))
            } else {
                pep440(version@.skip(i as int))
            }),
        decreases size - i,
    {
        let c = version.get_char(i);
        let letter = version.substring_char(i, i + 1);
        let ghost rest = version@.skip(i + 1);
        let ghost before = spelled@;
        proof {
            assert(version@.skip(i as int).drop_first() =~= rest);
            assert(version@.skip(i as int) =~= seq![c] + rest);
            assert(letter@ =~= seq![c]);
            lemma_without_dots(c, rest);
            assert(before + seq![c] + pep440(rest) =~= before + (seq![c] + pep440(rest)));
            assert(before + seq![c] + without_dots(rest) =~= before + (seq![c] + without_dots(
                rest,
            )));
        }
        if pre_release {
            if c != '.' {
                spelled.append(letter);
            }
        } else if c == '-' {
            pre_release = true;
        } else {
            spelled.append(letter);
        }
        i += 1;
    }
    proof {
        assert(version@.skip(i as int) =~= seq![]);
        reveal(Seq::filter);
        assert(without_dots(version@.skip(i as int)) =~= seq![]);
        assert(spelled@ + seq![] =~= spelled@);
    }
    spelled
}

proof fn lemma_without_dots(c: char, rest: Seq<char>)
    ensures
        without_dots(seq![c] + rest) == if c == '.' {
            without_dots(rest)
        } else {
            seq![c] + without_dots(rest)
        },
{
    let keep = |x: char| x != '.';
    Seq::filter_distributes_over_add(seq![c], rest, keep);
    reveal(Seq::filter);
    assert(seq![c].drop_last() =~= seq![]);
    assert(seq![c].drop_last().filter(keep) =~= seq![]);
}

/// Where everything of one runtime is.
#[derive(Debug, PartialEq)]
pub struct RuntimePlan {
    /// The index, without a slash at its end.
    pub index: String,
    /// The wheel version.
    pub version: String,
    /// The tag that the wheel's file name ends with.
    pub wheel_tag: String,
    /// The file name of the executable.
    pub exe_name: String,
    /// The directory of the cache entry.
    pub cache_dir: PathBuf,
}

/// The mathematical value of a [`RuntimePlan`].
pub struct PlanView {
    /// See [`RuntimePlan::index`].
    pub index: Seq<char>,
    /// See [`RuntimePlan::version`].
    pub version: Seq<char>,
    /// See [`RuntimePlan::wheel_tag`].
    pub wheel_tag: Seq<char>,
    /// See [`RuntimePlan::exe_name`].
    pub exe_name: Seq<char>,
    /// See [`RuntimePlan::cache_dir`].
    pub cache_dir: PathBuf,
}

impl View for RuntimePlan {
    type V = PlanView;

    open spec fn view(&self) -> PlanView {
        PlanView {
            index: self.index@,
            version: self.version@,
            wheel_tag: self.wheel_tag@,
            exe_name: self.exe_name@,
            cache_dir: self.cache_dir,
        }
    }
}

/// A name inside a directory.
pub open spec fn inside(dir: PathBuf, name: Seq<char>) -> PathBuf {
    joined_path(dir, text_path(name))
}

/// The version to fetch: the caller's, the environment's, or the one of this library.
pub open spec fn planned_version(options: ResolveOptions, host: Host) -> Seq<char> {
    match (options.version, host.version) {
        (Some(version), _) => version@,
        (None, Some(version)) => version@,
        (None, None) => pep440(crate_version_text()),
    }
}

/// The index to read: the caller's or else the environment's, when it is not empty, and the public
/// one otherwise; slashes at its end fall away.
pub open spec fn planned_index(options: ResolveOptions, host: Host) -> Seq<char> {
    let given = match options.index_url {
        Some(index) => Some(index@),
        None => opt_text(host.index_url),
    };
    without_trailing(
        match given {
            Some(index) if index.len() > 0 => index,
            _ => "https://pypi.org/pypi"@,
        },
        '/',
    )
}

/// The cache directory: the caller's, the environment's, or one inside the platform's.
pub open spec fn planned_cache(options: ResolveOptions, host: Host) -> Option<PathBuf> {
    match (options.cache_dir, host.cache_dir, host.platform_cache) {
        (Some(dir), _, _) => Some(dir),
        (None, Some(dir), _) => Some(dir),
        (None, None, Some(dir)) => Some(inside(dir, "deepseek-harness-sdk-rs"@)),
        (None, None, None) => None,
    }
}

/// Where everything is, or the message of why that cannot be said.
pub enum PlanOutcome {
    /// Where everything is.
    Plan(PlanView),
    /// The message of the resolution error.
    Failure(Seq<char>),
}

/// Where everything of the runtime is for these options on this host.
pub open spec fn planned(options: ResolveOptions, host: Host) -> PlanOutcome {
    match platform_tags(host.os@, host.arch@) {
        None => PlanOutcome::Failure(unsupported_platform(host.os@, host.arch@)),
        Some((wheel_tag, exe_tag)) => match planned_cache(options, host) {
            None => PlanOutcome::Failure(
                "no cache directory for the runtime download; set $DSH_RUNTIME_CACHE_DIR"@,
            ),
            Some(cache) => PlanOutcome::Plan(
                PlanView {
                    index: planned_index(options, host),
                    version: planned_version(options, host),
                    wheel_tag,
                    exe_name: "dsh-jsonrpc-agent-pkg-"@ + exe_tag,
                    cache_dir: inside(cache, planned_version(options, host)),
                },
            ),
        },
    }
}

impl PlanView {
    /// The path of the executable.
    pub open spec fn exe_path(self) -> PathBuf {
        inside(self.cache_dir, self.exe_name)
    }

    /// The path of the default configuration.
    pub open spec fn config_path(self) -> PathBuf {
        inside(self.cache_dir, "cordis.yml"@)
    }

    /// The address of the index metadata.
    pub open spec fn metadata_url(self) -> Seq<char> {
        self.index + "/deepseek-harness-runtime-bin/"@ + self.version + "/json"@
    }

    /// The runtime, once its cache entry is complete.
    pub open spec fn is_runtime(self, runtime: ResolvedRuntime) -> bool {
        &&& texts(runtime.launch_args@) == seq![lossy_text(self.exe_path())]
        &&& runtime.default_config == self.config_path()
    }
}

/// The path of a name inside a directory.
fn join_text(dir: &PathBuf, name: &str) -> (path: PathBuf)
    ensures
        path == inside(*dir, name@),
{
    join_path(dir, &path_from_text(name))
}

/// The error that reports a failed resolution.
fn resolve_error(message: &str) -> (error: SdkError)
    ensures
        error@ == (SdkErrorView::RuntimeResolve { message: message@ }),
{
    SdkError::RuntimeResolve { message: message.to_owned() }
}

/// The index to read.
fn choose_index(options: &ResolveOptions, host: &Host) -> (index: String)
    ensures
        index@ == planned_index(*options, *host),
{
    let given = match &options.index_url {
        Some(index) => Some(index),
        None => match &host.index_url {
            Some(index) => Some(index),
            None => None,
        },
    };
    if let Some(index) = given {
        if index.as_str().unicode_len() > 0 {
            return trim_trailing(index.as_str(), '/');
        }
    }
    trim_trailing("https://pypi.org/pypi", '/')
}

/// The version to fetch.
fn choose_version(options: &ResolveOptions, host: &Host) -> (version: String)
    ensures
        version@ == planned_version(*options, *host),
{
    match &options.version {
        Some(version) => version.clone(),
        None => match &host.version {
            Some(version) => version.clone(),
            None => wheel_version("0.1.0-rc.6"),
        },
    }
}

/// The cache directory.
fn choose_cache(options: &ResolveOptions, host: &Host) -> (cache: Option<PathBuf>)
    ensures
        cache == planned_cache(*options, *host),
{
    if let Some(dir) = &options.cache_dir {
        return Some(copy_path(dir));
    }
    if let Some(dir) = &host.cache_dir {
        return Some(copy_path(dir));
    }
    match &host.platform_cache {
        Some(dir) => Some(join_text(dir, "deepseek-harness-sdk-rs")),
        None => None,
    }
}

/// What the cache says of a runtime.
#[derive(Debug, PartialEq)]
pub enum CacheCheck {
    /// It is there, complete.
    Ready(ResolvedRuntime),
    /// It has to be fetched.
    Fetch(IndexRequest),
}

/// The executable is the macOS one, which comes with a spawn helper.
pub open spec fn needs_helper(exe_name: Seq<char>) -> bool {
    has_prefix(exe_name, "dsh-jsonrpc-agent-pkg-macos-"@)
}

/// A cache entry is valid when the marker, the executable, and (on macOS) the spawn helper all
/// exist.
pub fn cache_valid(marker: bool, executable: bool, helper: bool, exe_name: &str) -> (valid: bool)
    ensures
        valid == (marker && executable && (needs_helper(exe_name@) ==> helper)),
{
    if !marker || !executable {
        return false;
    }
    if starts_with(exe_name, "dsh-jsonrpc-agent-pkg-macos-") {
        if !helper {
            return false;
        }
    }
    true
}

impl RuntimePlan {
    /// Settles where everything of the runtime is.
    pub fn new(options: &ResolveOptions, host: &Host) -> (result: Result<RuntimePlan, SdkError>)
        ensures
            match (planned(*options, *host), result) {
                (PlanOutcome::Plan(expected), Ok(plan)) => plan@ == expected,
                (PlanOutcome::Failure(message), Err(error)) => error@ == (
                SdkErrorView::RuntimeResolve { message }),
                _ => false,
            },
    {
        let (wheel_tag, exe_tag) = match platform(host.os.as_str(), host.arch.as_str()) {
            Ok(tags) => tags,
            Err(error) => return Err(error),
        };
        let version = choose_version(options, host);
        let index = choose_index(options, host);
        let cache = match choose_cache(options, host) {
            Some(cache) => cache,
            None => return Err(
                resolve_error(
                    "no cache directory for the runtime download; set $DSH_RUNTIME_CACHE_DIR",
                ),
            ),
        };
        let cache_dir = join_text(&cache, version.as_str());
        let mut exe_name = "dsh-jsonrpc-agent-pkg-".to_owned();
        exe_name.append(exe_tag.as_str());
        Ok(RuntimePlan { index, version, wheel_tag, exe_name, cache_dir })
    }

    /// The path of the completion marker.
    pub fn marker_path(&self) -> (path: PathBuf)
        ensures
            path == inside(self@.cache_dir, ".complete"@),
    {
        join_text(&self.cache_dir, ".complete")
    }

    /// The path of the executable.
    pub fn exe_path(&self) -> (path: PathBuf)
        ensures
            path == self@.exe_path(),
    {
        join_text(&self.cache_dir, self.exe_name.as_str())
    }

    /// The path of the spawn helper.
    pub fn helper_path(&self) -> (path: PathBuf)
        ensures
            path == renamed_path(
                self@.exe_path(),
                text_path(self@.exe_name + "-spawn-helper"@),
            ),
    {
        let mut helper = self.exe_name.clone();
        helper.append("-spawn-helper");
        rename_path(&self.exe_path(), &path_from_text(helper.as_str()))
    }

    /// The runtime that the cache entry holds once it is complete.
    fn runtime(&self) -> (runtime: ResolvedRuntime)
        ensures
            self@.is_runtime(runtime),
    {
        let mut launch_args: Vec<String> = Vec::new();
        launch_args.push(path_lossy(&self.exe_path()));
        assert(texts(launch_args@) =~= seq![lossy_text(self@.exe_path())]);
        ResolvedRuntime { launch_args, default_config: join_text(&self.cache_dir, "cordis.yml") }
    }

    /// Decides by what the cache holds: a valid entry is the runtime, and nothing is fetched.
    pub fn check_cache(self, marker: bool, executable: bool, helper: bool) -> (check: CacheCheck)
        ensures
            match check {
                CacheCheck::Ready(runtime) => marker && executable && (needs_helper(self@.exe_name)
                    ==> helper) && self@.is_runtime(runtime),
                CacheCheck::Fetch(request) => !(marker && executable && (needs_helper(
                    self@.exe_name,
                ) ==> helper)) && request@ == self@,
            },
    {
        if cache_valid(marker, executable, helper, self.exe_name.as_str()) {
            CacheCheck::Ready(self.runtime())
        } else {
            CacheCheck::Fetch(IndexRequest { plan: self })
        }
    }
}

/// What a fetch brought.
#[derive(Debug, PartialEq)]
pub enum Fetched {
    /// The body of the answer.
    Body(Vec<u8>),
    /// The call failed, with this message.
    CallFailed(String),
    /// Reading the body failed, with this message.
    ReadFailed(String),
}

/// The index metadata is to be fetched.
#[derive(Debug, PartialEq)]
pub struct IndexRequest {
    plan: RuntimePlan,
}

impl View for IndexRequest {
    type V = PlanView;

    closed spec fn view(&self) -> PlanView {
        self.plan@
    }
}

/// What the index says of the wheel.
pub enum WheelChoice {
    /// Its address and its digest.
    Found { url: Seq<char>, sha256: Seq<char> },
    /// The entry with this file name has no address.
    NoUrl(Seq<char>),
    /// The entry with this file name has no digest.
    NoDigest(Seq<char>),
    /// No entry is for the platform.
    Absent,
}

/// What the first entry whose file name ends as wanted says.
pub open spec fn wheel_choice(entries: Seq<JsonView>, suffix: Seq<char>) -> WheelChoice
    decreases entries.len(),
{
    if entries.len() == 0 {
        WheelChoice::Absent
    } else {
        let entry = entries[0];
        match entry.text_field("filename"@) {
            Some(filename) if has_suffix(filename, suffix) => match entry.text_field("url"@) {
                None => WheelChoice::NoUrl(filename),
                Some(url) => match entry.field("digests"@) {
                    Some(digests) => match digests.text_field("sha256"@) {
                        Some(sha256) => WheelChoice::Found { url, sha256 },
                        None => WheelChoice::NoDigest(filename),
                    },
                    None => WheelChoice::NoDigest(filename),
                },
            },
            _ => wheel_choice(entries.drop_first(), suffix),
        }
    }
}

/// What fetching the index came to.
pub enum IndexOutcome {
    /// The wheel to download.
    Wheel { url: Seq<char>, sha256: Seq<char> },
    /// The message of the resolution error.
    Failure(Seq<char>),
}

/// What the index metadata says of the wheel.
pub open spec fn metadata_outcome(plan: PlanView, metadata: JsonView) -> IndexOutcome {
    let urls = match metadata.field("urls"@) {
        Some(urls) => urls.as_items(),
        None => None,
    };
    match urls {
        None => IndexOutcome::Failure(
            "runtime index "@ + plan.metadata_url() + " has no urls array"@,
        ),
        Some(entries) => match wheel_choice(entries, plan.wheel_tag + ".whl"@) {
            WheelChoice::Found { url, sha256 } => IndexOutcome::Wheel { url, sha256 },
            WheelChoice::NoUrl(filename) => IndexOutcome::Failure(
                "wheel entry "@ + filename + " has no url"@,
            ),
            WheelChoice::NoDigest(filename) => IndexOutcome::Failure(
                "wheel entry "@ + filename + " has no sha256 digest"@,
            ),
            WheelChoice::Absent => IndexOutcome::Failure(
                "deepseek-harness-runtime-bin "@ + plan.version + " has no wheel for platform tag "@
                    + plan.wheel_tag
                    + "; provide HarnessClientOptions.runtime_bin instead"@,
            ),
        },
    }
}

/// What fetching the index came to.
pub open spec fn index_outcome(plan: PlanView, fetched: Fetched) -> IndexOutcome {
    let url = plan.metadata_url();
    match fetched {
        Fetched::CallFailed(message) => IndexOutcome::Failure(
            "failed to fetch runtime index "@ + url + ": "@ + message@,
        ),
        Fetched::ReadFailed(message) => IndexOutcome::Failure(
            "failed to read runtime index "@ + url + ": "@ + message@,
        ),
        Fetched::Body(bytes) => match parsed_bytes(bytes@) {
            ParsedView::Failure(message) => IndexOutcome::Failure(
                "runtime index "@ + url + " is not valid JSON: "@ + message,
            ),
            ParsedView::Tree(metadata) => metadata_outcome(plan, metadata),
        },
    }
}

/// The address and the digest of a wheel.
#[derive(Debug, PartialEq)]
pub struct WheelFile {
    /// Where it is.
    pub url: String,
    /// The hexadecimal spelling of its SHA-256 digest.
    pub sha256: String,
}

/// An error whose message is made of four parts.
fn error_of(first: &str, second: &str, third: &str, fourth: &str) -> (error: SdkError)
    ensures
        error@ == (SdkErrorView::RuntimeResolve { message: first@ + second@ + third@ + fourth@ }),
{
    let mut message = first.to_owned();
    message.append(second);
    message.append(third);
    message.append(fourth);
    SdkError::RuntimeResolve { message }
}

/// What one entry of the index says, where its file name ends as wanted.
fn read_wheel_entry(entry: &Json, suffix: &str) -> (result: Option<Result<WheelFile, SdkError>>)
    ensures
        match (entry@.text_field("filename"@), result) {
            (Some(filename), Some(result)) => has_suffix(filename, suffix@) && match (
                wheel_choice(seq![entry@], suffix@),
                result,
            ) {
                (WheelChoice::Found { url, sha256 }, Ok(file)) => file.url@ == url
                    && file.sha256@ == sha256,
                (WheelChoice::NoUrl(name), Err(error)) => error@ == (SdkErrorView::RuntimeResolve {
                    message: "wheel entry "@ + name + " has no url"@,
                }),
                (WheelChoice::NoDigest(name), Err(error)) => error@ == (
                SdkErrorView::RuntimeResolve {
                    message: "wheel entry "@ + name + " has no sha256 digest"@,
                }),
                _ => false,
            },
            (Some(filename), None) => !has_suffix(filename, suffix@),
            (None, result) => result is None,
        },
{
    let filename = match entry.get_str("filename") {
        Some(filename) => filename,
        None => return None,
    };
    if !ends_with(filename, suffix) {
        return None;
    }
    let url = match entry.get_str("url") {
        Some(url) => url,
        None => {
            let error = error_of("wheel entry ", filename, " has no url", "");
            proof {
                reveal_strlit("");
                assert("wheel entry "@ + filename@ + " has no url"@ + ""@ =~= "wheel entry "@
                    + filename@ + " has no url"@);
            }
            return Some(Err(error));
        },
    };
    let sha256 = match entry.get("digests") {
        Some(digests) => digests.get_str("sha256"),
        None => None,
    };
    match sha256 {
        Some(sha256) => Some(
            Ok(WheelFile { url: url.to_owned(), sha256: sha256.to_owned() }),
        ),
        None => {
            let error = error_of("wheel entry ", filename, " has no sha256 digest", "");
            proof {
                reveal_strlit("");
                assert("wheel entry "@ + filename@ + " has no sha256 digest"@ + ""@
                    =~= "wheel entry "@ + filename@ + " has no sha256 digest"@);
            }
            Some(Err(error))
        },
    }
}

/// What the first entry whose file name ends as wanted says.
fn pick_wheel(entries: &Vec<Json>, suffix: &str) -> (result: Option<Result<WheelFile, SdkError>>)
    ensures
        match (wheel_choice(items_tree(entries@), suffix@), result) {
            (WheelChoice::Found { url, sha256 }, Some(Ok(file))) => file.url@ == url && file.sha256@
                == sha256,
            (WheelChoice::NoUrl(name), Some(Err(error))) => error@ == (
            SdkErrorView::RuntimeResolve { message: "wheel entry "@ + name + " has no url"@ }),
            (WheelChoice::NoDigest(name), Some(Err(error))) => error@ == (
            SdkErrorView::RuntimeResolve {
                message: "wheel entry "@ + name + " has no sha256 digest"@,
            }),
            (WheelChoice::Absent, result) => result is None,
            _ => false,
        },
{
    let ghost trees = items_tree(entries@);
    let mut i: usize = 0;
    assert(trees.skip(0) =~= trees);
    while i < entries.len()
        invariant
            i <= entries@.len(),
            trees == items_tree(entries@),
            wheel_choice(trees, suffix@) == wheel_choice(trees.skip(i as int), suffix@),
        decreases entries@.len() - i,
    {
        let found = read_wheel_entry(&entries[i], suffix);
        proof {
            let rest = trees.skip(i as int);
            assert(rest[0] == entries@[i as int]@);
            assert(rest.drop_first() =~= trees.skip(i + 1));
        }
        if found.is_some() {
            return found;
        }
        i += 1;
    }
    assert(trees.skip(i as int) =~= seq![]);
    None
}

impl IndexRequest {
    /// The address of the index metadata.
    pub fn url(&self) -> (url: String)
        ensures
            url@ == self@.metadata_url(),
    {
        let mut url = self.plan.index.clone();
        url.append("/deepseek-harness-runtime-bin/");
        url.append(self.plan.version.as_str());
        url.append("/json");
        url
    }

    /// Takes what fetching the index brought, and picks the wheel for the platform.
    pub fn answer(self, fetched: Fetched) -> (result: Result<WheelRequest, SdkError>)
        ensures
            match (index_outcome(self@, fetched), result) {
                (IndexOutcome::Wheel { url, sha256 }, Ok(request)) => request@ == (
                WheelRequestView { plan: self@, url, sha256 }),
                (IndexOutcome::Failure(message), Err(error)) => error@ == (
                SdkErrorView::RuntimeResolve { message }),
                _ => false,
            },
    {
        let url = self.url();
        let bytes = match fetched {
            Fetched::Body(bytes) => bytes,
            Fetched::CallFailed(message) => return Err(
                error_of("failed to fetch runtime index ", url.as_str(), ": ", message.as_str()),
            ),
            Fetched::ReadFailed(message) => return Err(
                error_of("failed to read runtime index ", url.as_str(), ": ", message.as_str()),
            ),
        };
        match parse_json_bytes(bytes.as_slice()) {
            Ok(metadata) => self.pick(&metadata),
            Err(message) => Err(
                error_of("runtime index ", url.as_str(), " is not valid JSON: ", message.as_str()),
            ),
        }
    }

    /// Picks the wheel for the platform from the index metadata.
    pub fn pick(self, metadata: &Json) -> (result: Result<WheelRequest, SdkError>)
        ensures
            match (metadata_outcome(self@, metadata@), result) {
                (IndexOutcome::Wheel { url, sha256 }, Ok(request)) => request@ == (
                WheelRequestView { plan: self@, url, sha256 }),
                (IndexOutcome::Failure(message), Err(error)) => error@ == (
                SdkErrorView::RuntimeResolve { message }),
                _ => false,
            },
    {
        let entries = match metadata.get("urls") {
            Some(urls) => urls.as_array(),
            None => None,
        };
        let entries = match entries {
            Some(entries) => entries,
            None => {
                let url = self.url();
                let error = error_of("runtime index ", url.as_str(), " has no urls array", "");
                proof {
                    reveal_strlit("");
                    assert("runtime index "@ + url@ + " has no urls array"@ + ""@
                        =~= "runtime index "@ + url@ + " has no urls array"@);
                }
                return Err(error);
            },
        };
        let mut suffix = self.plan.wheel_tag.clone();
        suffix.append(".whl");
        match pick_wheel(entries, suffix.as_str()) {
            Some(Ok(file)) => Ok(WheelRequest { plan: self.plan, file }),
            Some(Err(error)) => Err(error),
            None => {
                let mut message = "deepseek-harness-runtime-bin ".to_owned();
                message.append(self.plan.version.as_str());
                message.append(" has no wheel for platform tag ");
                message.append(self.plan.wheel_tag.as_str());
                message.append("; provide HarnessClientOptions.runtime_bin instead");
                Err(SdkError::RuntimeResolve { message })
            },
        }
    }
}

/// The wheel is to be downloaded.
#[derive(Debug, PartialEq)]
pub struct WheelRequest {
    plan: RuntimePlan,
    file: WheelFile,
}

/// The mathematical value of a [`WheelRequest`].
pub struct WheelRequestView {
    /// Where everything is.
    pub plan: PlanView,
    /// The address of the wheel.
    pub url: Seq<char>,
    /// The published digest of the wheel.
    pub sha256: Seq<char>,
}

impl View for WheelRequest {
    type V = WheelRequestView;

    closed spec fn view(&self) -> WheelRequestView {
        WheelRequestView {
            plan: self.plan@,
            url: self.file.url@,
            sha256: self.file.sha256@,
        }
    }
}

/// Whether two byte sequences are equal.
fn same_bytes(a: &Vec<u8>, b: &Vec<u8>) -> (same: bool)
    ensures
        same == (a@ == b@),
{
    if a.len() != b.len() {
        return false;
    }
    let mut i: usize = 0;
    while i < a.len()
        invariant
            a@.len() == b@.len(),
            i <= a@.len(),
            forall|j: int| 0 <= j < i ==> a@[j] == b@[j],
        decreases a@.len() - i,
    {
        if a[i] != b[i] {
            return false;
        }
        i += 1;
    }
    assert(a@ =~= b@);
    true
}

/// The bytes have the digest that a hexadecimal spelling stands for.
pub open spec fn has_digest(bytes: Seq<u8>, expected: Seq<char>) -> bool {
    is_hex(expected) && sha256(bytes) == hex_bytes(expected)
}

/// The message on bytes that have not the published digest.
pub open spec fn digest_failure(expected: Seq<char>) -> Seq<char> {
    if is_hex(expected) {
        "downloaded runtime wheel failed its sha256 verification"@
    } else {
        "invalid sha256 digest "@ + quoted(expected) + ": "@ + hex_report(expected, hex_failure(expected))
    }
}

/// Verifies bytes against a published SHA-256 digest.
pub fn verify_digest(bytes: &Vec<u8>, expected: &str) -> (result: Result<(), SdkError>)
    ensures
        match result {
            Ok(_) => has_digest(bytes@, expected@),
            Err(error) => !has_digest(bytes@, expected@) && error@ == (
            SdkErrorView::RuntimeResolve { message: digest_failure(expected@) }),
        },
{
    let wanted = match decode_hex(expected) {
        Ok(wanted) => wanted,
        Err(error) => return Err(
            error_of(
                "invalid sha256 digest ",
                quote(expected).as_str(),
                ": ",
                hex_message(&error).as_str(),
            ),
        ),
    };
    compare_digest(&digest_sha256(bytes), &wanted)
}

/// Compares the digest of some bytes with the wanted one.
pub fn compare_digest(actual: &Vec<u8>, wanted: &Vec<u8>) -> (result: Result<(), SdkError>)
    ensures
        match result {
            Ok(_) => actual@ == wanted@,
            Err(error) => actual@ != wanted@ && error@ == (SdkErrorView::RuntimeResolve {
                message: "downloaded runtime wheel failed its sha256 verification"@,
            }),
        },
{
    if same_bytes(actual, wanted) {
        Ok(())
    } else {
        Err(resolve_error("downloaded runtime wheel failed its sha256 verification"))
    }
}

/// What downloading the wheel came to.
pub enum WheelOutcome {
    /// Its bytes, which have the published digest.
    Verified(Seq<u8>),
    /// The message of the resolution error.
    Failure(Seq<char>),
}

/// What downloading the wheel came to.
pub open spec fn wheel_outcome(request: WheelRequestView, fetched: Fetched) -> WheelOutcome {
    match fetched {
        Fetched::CallFailed(message) => WheelOutcome::Failure(
            "failed to download runtime wheel "@ + request.url + ": "@ + message@,
        ),
        Fetched::ReadFailed(message) => WheelOutcome::Failure(
            "failed to read runtime wheel "@ + request.url + ": "@ + message@,
        ),
        Fetched::Body(bytes) => if has_digest(bytes@, request.sha256) {
            WheelOutcome::Verified(bytes@)
        } else {
            WheelOutcome::Failure(digest_failure(request.sha256))
        },
    }
}

impl WheelRequest {
    /// The address of the wheel.
    pub fn url(&self) -> (url: String)
        ensures
            url@ == self@.url,
    {
        self.file.url.clone()
    }

    /// Takes what downloading the wheel brought, and verifies its digest.
    pub fn answer(self, fetched: Fetched) -> (result: Result<Installation, SdkError>)
        ensures
            match (wheel_outcome(self@, fetched), result) {
                (WheelOutcome::Verified(bytes), Ok(installation)) => installation@ == (
                InstallationView { plan: self@.plan, bytes, sha256: self@.sha256 }),
                (WheelOutcome::Failure(message), Err(error)) => error@ == (
                SdkErrorView::RuntimeResolve { message }),
                _ => false,
            },
    {
        let bytes = match fetched {
            Fetched::Body(bytes) => bytes,
            Fetched::CallFailed(message) => return Err(
                error_of(
                    "failed to download runtime wheel ",
                    self.file.url.as_str(),
                    ": ",
                    message.as_str(),
                ),
            ),
            Fetched::ReadFailed(message) => return Err(
                error_of(
                    "failed to read runtime wheel ",
                    self.file.url.as_str(),
                    ": ",
                    message.as_str(),
                ),
            ),
        };
        match verify_digest(&bytes, self.file.sha256.as_str()) {
            Ok(_) => Ok(Installation { plan: self.plan, bytes, sha256: self.file.sha256 }),
            Err(error) => Err(error),
        }
    }
}

/// A verified wheel, to be unpacked.
pub struct Installation {
    plan: RuntimePlan,
    bytes: Vec<u8>,
    sha256: String,
}

/// The mathematical value of an [`Installation`].
pub struct InstallationView {
    /// Where everything is.
    pub plan: PlanView,
    /// The bytes of the wheel.
    pub bytes: Seq<u8>,
    /// The published digest of the wheel.
    pub sha256: Seq<char>,
}

impl View for Installation {
    type V = InstallationView;

    closed spec fn view(&self) -> InstallationView {
        InstallationView { plan: self.plan@, bytes: self.bytes@, sha256: self.sha256@ }
    }
}

impl Installation {
    /// Only bytes with the published digest get this far.
    #[verifier::type_invariant]
    spec fn verified(self) -> bool {
        has_digest(self.bytes@, self.sha256@)
    }
}

/// The last name of a path, when it is Unicode.
pub open spec fn last_name(path: PathBuf) -> Option<Seq<char>> {
    let parts = path_parts(path);
    if parts.len() > 0 {
        match parts.last() {
            PathPart::Normal(name) => exact_text(name),
            _ => None,
        }
    } else {
        None
    }
}

/// The name of the directory into which one process unpacks.
pub open spec fn staging_name(cache_dir: PathBuf, pid: u32) -> Seq<char> {
    (match last_name(cache_dir) {
        Some(name) => name,
        None => "stage"@,
    }) + ".tmp-"@ + decimal(pid as int)
}

/// The names of the files that a wheel gives, in the order in which they are unpacked.
pub open spec fn wheel_files(exe_name: Seq<char>) -> Seq<Seq<char>> {
    if needs_helper(exe_name) {
        seq![exe_name, exe_name + "-spawn-helper"@, "cordis.yml"@]
    } else {
        seq![exe_name, "cordis.yml"@]
    }
}

/// The entry of the wheel that holds a file.
pub open spec fn wheel_entry(name: Seq<char>) -> Seq<char> {
    "deepseek_harness_runtime/runtime/"@ + name
}

/// One file of a cache entry.
#[derive(Debug, PartialEq)]
pub struct ExtractedFile {
    /// Its name inside the directory.
    pub name: String,
    /// Its contents.
    pub contents: Vec<u8>,
    /// Whether it is made executable.
    pub executable: bool,
}

/// The mathematical value of an [`ExtractedFile`].
pub struct FileView {
    /// Its name inside the directory.
    pub name: Seq<char>,
    /// Its contents.
    pub contents: Seq<u8>,
    /// Whether it is made executable.
    pub executable: bool,
}

impl View for ExtractedFile {
    type V = FileView;

    open spec fn view(&self) -> FileView {
        FileView { name: self.name@, contents: self.contents@, executable: self.executable }
    }
}

/// A wheel being unpacked, a file at a time.
pub struct Extraction {
    plan: RuntimePlan,
    archive: zip::ZipArchive<std::io::Cursor<Vec<u8>>>,
    names: Vec<String>,
    given: usize,
}

/// How far the unpacking of a wheel has come.
pub struct ExtractionView {
    /// Where everything is.
    pub plan: PlanView,
    /// The bytes of the wheel.
    pub bytes: Seq<u8>,
    /// How many files have been given out.
    pub given: int,
}

impl View for Extraction {
    type V = ExtractionView;

    closed spec fn view(&self) -> ExtractionView {
        ExtractionView {
            plan: self.plan@,
            bytes: archive_bytes(self.archive),
            given: self.given as int,
        }
    }
}

/// What the next file of an unpacking is.
pub enum FileOutcome {
    /// The next file.
    File(FileView),
    /// There is none left.
    Done,
    /// The error that getting it gives.
    Failure(SdkErrorView),
}

impl ExtractionView {
    /// The next file: those of the wheel in order, and then the empty marker that completes the
    /// cache entry.
    pub open spec fn next(self) -> FileOutcome {
        let names = wheel_files(self.plan.exe_name);
        if self.given < names.len() {
            let name = names[self.given];
            match archive_entry(self.bytes, wheel_entry(name)) {
                EntryView::Contents(contents) => FileOutcome::File(
                    FileView { name, contents, executable: true },
                ),
                EntryView::Missing(message) => FileOutcome::Failure(
                    SdkErrorView::RuntimeResolve {
                        message: "runtime wheel is missing "@ + wheel_entry(name) + ": "@ + message,
                    },
                ),
                EntryView::Unreadable(message) => FileOutcome::Failure(
                    SdkErrorView::Io { source: message },
                ),
            }
        } else if self.given == names.len() {
            FileOutcome::File(
                FileView { name: ".complete"@, contents: seq![], executable: false },
            )
        } else {
            FileOutcome::Done
        }
    }

    /// Every file has been given out, the marker included.
    pub open spec fn complete(self) -> bool {
        self.given > wheel_files(self.plan.exe_name).len()
    }
}

impl Installation {
    /// The directory into which the process with this id unpacks, beside the cache entry.
    pub fn staging_dir(&self, pid: u32) -> (path: PathBuf)
        ensures
            path == renamed_path(
                self@.plan.cache_dir,
                text_path(staging_name(self@.plan.cache_dir, pid)),
            ),
    {
        let parts = components(&self.plan.cache_dir);
        let last = if parts.len() > 0 {
            match &parts[parts.len() - 1] {
                PathPart::Normal(name) => path_exact(name),
                _ => None,
            }
        } else {
            None
        };
        let mut name = match last {
            Some(name) => name,
            None => "stage".to_owned(),
        };
        name.append(".tmp-");
        name.append(decimal_u64(pid as u64).as_str());
        rename_path(&self.plan.cache_dir, &path_from_text(name.as_str()))
    }

    /// The directory of the cache entry, which the unpacked directory becomes.
    pub fn cache_dir(&self) -> (path: PathBuf)
        ensures
            path == self@.plan.cache_dir,
    {
        copy_path(&self.plan.cache_dir)
    }

    /// Begins the unpacking.
    pub fn open(self) -> (result: Result<Extraction, SdkError>)
        ensures
            has_digest(self@.bytes, self@.sha256),
            match (archive_failure(self@.bytes), result) {
                (None, Ok(extraction)) => extraction.wf() && extraction@ == (ExtractionView {
                    plan: self@.plan,
                    bytes: self@.bytes,
                    given: 0,
                }),
                (Some(message), Err(error)) => error@ == (SdkErrorView::RuntimeResolve {
                    message: "runtime wheel is not a readable zip: "@ + message,
                }),
                _ => false,
            },
    {
        proof {
            use_type_invariant(&self);
        }
        let names = list_wheel_files(self.plan.exe_name.as_str());
        match open_archive(self.bytes) {
            Ok(archive) => Ok(Extraction { plan: self.plan, archive, names, given: 0 }),
            Err(error) => {
                let mut message = "runtime wheel is not a readable zip: ".to_owned();
                message.append(zip_message(&error).as_str());
                Err(SdkError::RuntimeResolve { message })
            },
        }
    }
}

/// The names of the files that a wheel gives.
fn list_wheel_files(exe_name: &str) -> (names: Vec<String>)
    ensures
        texts(names@) == wheel_files(exe_name@),
        names@.len() <= 3,
{
    let mut names: Vec<String> = Vec::new();
    names.push(exe_name.to_owned());
    if starts_with(exe_name, "dsh-jsonrpc-agent-pkg-macos-") {
        let mut helper = exe_name.to_owned();
        helper.append("-spawn-helper");
        names.push(helper);
    }
    names.push("cordis.yml".to_owned());
    assert(texts(names@) =~= wheel_files(exe_name@));
    names
}

impl Extraction {
    /// The state is one that the methods lead to.
    pub closed spec fn wf(self) -> bool {
        &&& texts(self.names@) == wheel_files(self.plan.exe_name@)
        &&& self.given <= self.names@.len() + 1
        &&& self.names@.len() <= 3
    }

    /// The next file to write; `None` once there is none left.
    pub fn next(&mut self) -> (result: Result<Option<ExtractedFile>, SdkError>)
        requires
            old(self).wf(),
        ensures
            final(self).wf(),
            match (old(self)@.next(), result) {
                (FileOutcome::File(expected), Ok(Some(file))) => file@ == expected && final(self)@
                    == (ExtractionView { given: old(self)@.given + 1, ..old(self)@ }),
                (FileOutcome::Done, Ok(None)) => final(self)@ == old(self)@,
                (FileOutcome::Failure(expected), Err(error)) => error@ == expected && final(self)@
                    == old(self)@,
                _ => false,
            },
    {
        let count = self.names.len();
        if self.given < count {
            assert(texts(self.names@)[self.given as int] == self.names@[self.given as int]@);
            let name = self.names[self.given].clone();
            let mut entry = "deepseek_harness_runtime/runtime/".to_owned();
            entry.append(name.as_str());
            match read_entry(&mut self.archive, entry.as_str()) {
                Ok(Ok(contents)) => {
                    self.given = self.given + 1;
                    Ok(Some(ExtractedFile { name, contents, executable: true }))
                },
                Ok(Err(message)) => Err(SdkError::Io { source: message }),
                Err(error) => Err(
                    error_of(
                        "runtime wheel is missing ",
                        entry.as_str(),
                        ": ",
                        zip_message(&error).as_str(),
                    ),
                ),
            }
        } else if self.given == count {
            self.given = self.given + 1;
            let contents: Vec<u8> = Vec::new();
            assert(contents@ =~= seq![]);
            Ok(Some(ExtractedFile { name: ".complete".to_owned(), contents, executable: false }))
        } else {
            Ok(None)
        }
    }

    /// The runtime, once every file has been given out.
    pub fn finish(&self) -> (runtime: Option<ResolvedRuntime>)
        requires
            self.wf(),
        ensures
            match runtime {
                Some(runtime) => self@.complete() && self@.plan.is_runtime(runtime),
                None => !self@.complete(),
            },
    {
        assert(texts(self.names@).len() == self.names@.len());
        if self.given > self.names.len() {
            Some(self.plan.runtime())
        } else {
            None
        }
    }
}

/// A valid cache entry is the runtime: nothing is fetched.
pub proof fn law_a_valid_cache_needs_no_network(
    plan: RuntimePlan,
    marker: bool,
    executable: bool,
    helper: bool,
    check: CacheCheck,
)
    requires
        call_ensures(RuntimePlan::check_cache, (plan, marker, executable, helper), check),
        marker && executable && (needs_helper(plan@.exe_name) ==> helper),
    ensures
        check matches CacheCheck::Ready(runtime) && plan@.is_runtime(runtime),
{
}

/// A wheel is unpacked only when its bytes have the published digest.
pub proof fn law_only_verified_wheels_are_unpacked(
    request: WheelRequest,
    fetched: Fetched,
    result: Result<Installation, SdkError>,
)
    requires
        call_ensures(WheelRequest::answer, (request, fetched), result),
    ensures
        result is Ok <==> (fetched matches Fetched::Body(bytes) && has_digest(
            bytes@,
            request@.sha256,
        )),
        result matches Ok(installation) ==> has_digest(installation@.bytes, request@.sha256),
{
}

/// The completion marker comes last: as long as it has not been given out, what has been written
/// holds no marker, and so is no valid cache entry.
pub proof fn law_the_marker_comes_last(options: ResolveOptions, host: Host, state: ExtractionView)
    requires
        planned(options, host) == PlanOutcome::Plan(state.plan),
        0 <= state.given,
    ensures
        state.next() matches FileOutcome::File(file) ==> (file.name == ".complete"@
            <==> state.given == wheel_files(state.plan.exe_name).len()),
        state.given == wheel_files(state.plan.exe_name).len() ==> (ExtractionView {
            given: state.given + 1,
            ..state
        }).next() is Done,
{
    reveal_strlit(".complete");
    reveal_strlit("cordis.yml");
    reveal_strlit("dsh-jsonrpc-agent-pkg-");
    let names = wheel_files(state.plan.exe_name);
    if state.given < names.len() {
        let name = names[state.given];
        assert(state.plan.exe_name[0] == 'd');
        assert(name[0] == 'd' || name[0] == 'c');
        assert(".complete"@[0] == '.');
    }
}

/// On every platform, an entry is unpacked for the executable, for the default configuration, and
/// on macOS for the spawn helper, and for nothing else.
pub proof fn law_the_spawn_helper_is_for_macos(options: ResolveOptions, host: Host, plan: PlanView)
    requires
        planned(options, host) == PlanOutcome::Plan(plan),
    ensures
        needs_helper(plan.exe_name) <==> host.os@ == "macos"@,
        wheel_files(plan.exe_name).contains(plan.exe_name),
        wheel_files(plan.exe_name).contains("cordis.yml"@),
        host.os@ == "macos"@ <==> wheel_files(plan.exe_name).len() == 3,
{
    reveal_strlit("macos");
    reveal_strlit("linux");
    reveal_strlit("dsh-jsonrpc-agent-pkg-");
    reveal_strlit("dsh-jsonrpc-agent-pkg-macos-");
    reveal_strlit("macos-arm64");
    reveal_strlit("linux-x64");
    reveal_strlit("linux-arm64");
    let names = wheel_files(plan.exe_name);
    assert(names[0] == plan.exe_name);
    assert(names[names.len() - 1] == "cordis.yml"@);
    let prefix = "dsh-jsonrpc-agent-pkg-macos-"@;
    assert("macos"@[0] == 'm');
    assert("linux"@[0] == 'l');
    if host.os@ == "macos"@ {
        assert(plan.exe_name.take(prefix.len() as int) =~= prefix);
    } else {
        assert(plan.exe_name[22] == 'l');
        if needs_helper(plan.exe_name) {
            assert(plan.exe_name.take(prefix.len() as int)[22] == 'm');
        }
    }
}

/// The supported platforms, each with the tag of its wheel and the suffix of its executable; any
/// other is refused with a report that names it.
pub proof fn law_three_platforms_are_supported(
    os: &str,
    arch: &str,
    result: Result<(String, String), SdkError>,
)
    requires
        call_ensures(platform, (os, arch), result),
    ensures
        os@ == "macos"@ && arch@ == "aarch64"@ ==> (result matches Ok(tags) && tags.0@
            == "py3-none-macosx_14_0_arm64"@ && tags.1@ == "macos-arm64"@),
        os@ == "linux"@ && arch@ == "x86_64"@ ==> (result matches Ok(tags) && tags.0@
            == "py3-none-manylinux_2_28_x86_64"@ && tags.1@ == "linux-x64"@),
        os@ == "linux"@ && arch@ == "aarch64"@ ==> (result matches Ok(tags) && tags.0@
            == "py3-none-manylinux_2_28_aarch64"@ && tags.1@ == "linux-arm64"@),
        result is Ok <==> (os@ == "macos"@ && arch@ == "aarch64"@) || (os@ == "linux"@ && (arch@
            == "x86_64"@ || arch@ == "aarch64"@)),
        result matches Err(error) ==> error@ == (SdkErrorView::RuntimeResolve {
            message: "no deepseek-harness-runtime-bin wheel exists for this platform (os="@ + os@
                + ", arch="@ + arch@
                + "); supported: macos/arm64, linux/x64, linux/arm64. Provide HarnessClientOptions.runtime_bin instead."@,
        }),
{
    reveal_strlit("macos");
    reveal_strlit("linux");
    reveal_strlit("x86_64");
    reveal_strlit("aarch64");
    assert("macos"@[0] == 'm');
    assert("linux"@[0] == 'l');
    assert("x86_64"@[0] == 'x');
    assert("aarch64"@[0] == 'a');
}

/// The wheel version keeps everything up to the first hyphen, drops the hyphen, and keeps everything
/// behind it but the dots.
pub proof fn law_pre_releases_are_respelled(
    release: Seq<char>,
    pre: Seq<char>,
    more: Seq<char>,
    c: char,
)
    requires
        !release.contains('-'),
    ensures
        pep440(release) == release,
        pep440(release + seq!['-'] + pre) == release + without_dots(pre),
        without_dots(pre + more) == without_dots(pre) + without_dots(more),
        without_dots(seq!['.']) == Seq::<char>::empty(),
        c != '.' ==> without_dots(seq![c]) == seq![c],
    decreases release.len(),
{
    Seq::filter_distributes_over_add(pre, more, |x: char| x != '.');
    lemma_without_dots('.', seq![]);
    lemma_without_dots(c, seq![]);
    assert(without_dots(seq![]) =~= seq![]) by {
        reveal(Seq::filter);
    }
    assert(seq!['.'] + seq![] =~= seq!['.']);
    assert(seq![c] + Seq::<char>::empty() =~= seq![c]);
    let whole = release + seq!['-'] + pre;
    if release.len() == 0 {
        assert(whole =~= seq!['-'] + pre);
        assert(whole.drop_first() =~= pre);
        assert(release + without_dots(pre) =~= without_dots(pre));
        assert(pep440(release) =~= release);
    } else {
        let rest = release.drop_first();
        assert(release[0] != '-') by {
            assert(release.contains(release[0]));
        }
        assert(!rest.contains('-')) by {
            if rest.contains('-') {
                let i = choose|i: int| 0 <= i < rest.len() && rest[i] == '-';
                assert(release[i + 1] == '-');
            }
        }
        law_pre_releases_are_respelled(rest, pre, more, c);
        assert(whole.drop_first() =~= rest + seq!['-'] + pre);
        assert(pep440(whole) =~= release + without_dots(pre));
        assert(pep440(release) =~= release);
    }
}

/// A version is spelled as its wheel is.
pub proof fn law_versions_are_spelled_as_wheels(version: &str, spelled: String)
    requires
        call_ensures(wheel_version, (version,), spelled),
    ensures
        spelled@ == pep440(version@),
{
}

/// A plan names the platform's own wheel and executable, and lies in a directory of its version
/// inside the cache. The caller's choices win over the environment's, and these over the defaults;
/// an index that is empty counts as none, and loses the slashes at its end.
pub proof fn law_a_plan_follows_the_callers_choices(
    options: ResolveOptions,
    host: Host,
    result: Result<RuntimePlan, SdkError>,
    tags: Result<(String, String), SdkError>,
    os: &str,
    arch: &str,
)
    requires
        call_ensures(RuntimePlan::new, (&options, &host), result),
        call_ensures(platform, (os, arch), tags),
        os@ == host.os@,
        arch@ == host.arch@,
    ensures
        tags is Err ==> (result matches Err(error) && error@ == tags->Err_0@),
        tags is Ok && options.cache_dir is None && host.cache_dir is None && host.platform_cache
            is None ==> (result matches Err(error) && error@ == (SdkErrorView::RuntimeResolve {
            message: "no cache directory for the runtime download; set $DSH_RUNTIME_CACHE_DIR"@,
        })),
        result is Ok <==> tags is Ok && (options.cache_dir is Some || host.cache_dir is Some
            || host.platform_cache is Some),
        result matches Ok(plan) ==> {
            let dir = if options.cache_dir is Some {
                options.cache_dir->0
            } else if host.cache_dir is Some {
                host.cache_dir->0
            } else {
                joined_path(host.platform_cache->0, text_path("deepseek-harness-sdk-rs"@))
            };
            let index = if options.index_url is Some {
                options.index_url->0@
            } else if host.index_url is Some {
                host.index_url->0@
            } else {
                seq![]
            };
            &&& plan.wheel_tag@ == tags->Ok_0.0@
            &&& plan.exe_name@ == "dsh-jsonrpc-agent-pkg-"@ + tags->Ok_0.1@
            &&& plan.cache_dir == joined_path(dir, text_path(plan.version@))
            &&& options.version matches Some(version) ==> plan.version@ == version@
            &&& options.version is None ==> (host.version matches Some(version) ==> plan.version@
                == version@)
            &&& options.version is None && host.version is None ==> plan.version@ == pep440(
                "0.1.0-rc.6"@,
            )
            &&& index.len() > 0 ==> plan.index@ == without_trailing(index, '/')
            &&& index.len() == 0 ==> plan.index@ == without_trailing("https://pypi.org/pypi"@, '/')
        },
{
}

/// The files of a runtime lie in the directory of its cache entry, under their own names, and its
/// index metadata under the package's name and version.
pub proof fn law_a_plan_says_where_everything_is(
    plan: RuntimePlan,
    marker: PathBuf,
    exe: PathBuf,
    helper: PathBuf,
    request: IndexRequest,
    url: String,
)
    requires
        call_ensures(RuntimePlan::marker_path, (&plan,), marker),
        call_ensures(RuntimePlan::exe_path, (&plan,), exe),
        call_ensures(RuntimePlan::helper_path, (&plan,), helper),
        call_ensures(IndexRequest::url, (&request,), url),
    ensures
        marker == joined_path(plan.cache_dir, text_path(".complete"@)),
        exe == joined_path(plan.cache_dir, text_path(plan.exe_name@)),
        helper == renamed_path(exe, text_path(plan.exe_name@ + "-spawn-helper"@)),
        url@ == request@.index + "/deepseek-harness-runtime-bin/"@ + request@.version + "/json"@,
{
}

/// A cache entry counts exactly where the marker and the executable are there, and on macOS the
/// spawn helper too: then the runtime is its executable with its configuration, and otherwise the
/// index is asked for the same plan.
pub proof fn law_a_cache_entry_counts_when_complete(
    plan: RuntimePlan,
    marker: bool,
    executable: bool,
    helper: bool,
    check: CacheCheck,
    name: &str,
    valid: bool,
)
    requires
        call_ensures(RuntimePlan::check_cache, (plan, marker, executable, helper), check),
        call_ensures(cache_valid, (marker, executable, helper, name), valid),
        name@ == plan.exe_name@,
    ensures
        ({
            let macos = "dsh-jsonrpc-agent-pkg-macos-"@;
            let complete = marker && executable && (helper || !(plan.exe_name@.len() >= macos.len()
                && plan.exe_name@.take(macos.len() as int) == macos));
            &&& valid <==> complete
            &&& check is Ready <==> complete
            &&& check matches CacheCheck::Ready(runtime) ==> runtime.launch_args@.len() == 1
                && runtime.launch_args@[0]@ == lossy_text(
                joined_path(plan.cache_dir, text_path(plan.exe_name@)),
            ) && runtime.default_config == joined_path(plan.cache_dir, text_path("cordis.yml"@))
            &&& check matches CacheCheck::Fetch(request) ==> request@ == plan@
        }),
{
    if let CacheCheck::Ready(runtime) = check {
        assert(texts(runtime.launch_args@).len() == 1);
        assert(texts(runtime.launch_args@)[0] == runtime.launch_args@[0]@);
    }
}

/// The wheel that is picked is the first entry of the index whose file name ends with the platform's
/// own wheel tag and `.whl`: its address and its digest are taken, and where either is missing that
/// is an error. Where no file name ends so, there is no wheel.
pub proof fn law_the_platforms_own_wheel_is_picked(
    request: IndexRequest,
    metadata: Json,
    result: Result<WheelRequest, SdkError>,
    entries: Seq<JsonView>,
    first: int,
)
    requires
        call_ensures(IndexRequest::pick, (request, &metadata), result),
        metadata@.field("urls"@) == Some(JsonView::Array(entries)),
        0 <= first <= entries.len(),
        forall|i: int|
            0 <= i < first ==> !is_wheel_for(#[trigger] entries[i], request@.wheel_tag + ".whl"@),
        first < entries.len() ==> is_wheel_for(entries[first], request@.wheel_tag + ".whl"@),
    ensures
        first == entries.len() ==> (result matches Err(error) && error@ == (
        SdkErrorView::RuntimeResolve {
            message: "deepseek-harness-runtime-bin "@ + request@.version
                + " has no wheel for platform tag "@ + request@.wheel_tag
                + "; provide HarnessClientOptions.runtime_bin instead"@,
        })),
        first < entries.len() ==> {
            let entry = entries[first];
            let url = entry.text_field("url"@);
            let digest = match entry.field("digests"@) {
                Some(digests) => digests.text_field("sha256"@),
                None => None,
            };
            &&& result is Ok <==> url is Some && digest is Some
            &&& result matches Ok(wheel) ==> Some(wheel@.url) == url && Some(wheel@.sha256)
                == digest && wheel@.plan == request@
            &&& url is None ==> (result matches Err(error) && error@ == (
            SdkErrorView::RuntimeResolve {
                message: "wheel entry "@ + entry.text_field("filename"@)->0 + " has no url"@,
            }))
            &&& url is Some && digest is None ==> (result matches Err(error) && error@ == (
            SdkErrorView::RuntimeResolve {
                message: "wheel entry "@ + entry.text_field("filename"@)->0
                    + " has no sha256 digest"@,
            }))
        },
{
    lemma_first_wheel(entries, request@.wheel_tag + ".whl"@, first);
}

/// The entry has a file name that is something and then the ending.
pub open spec fn is_wheel_for(entry: JsonView, ending: Seq<char>) -> bool {
    entry.text_field("filename"@) matches Some(name) && name.len() >= ending.len()
        && name.subrange(name.len() - ending.len(), name.len() as int) == ending
}

proof fn lemma_first_wheel(entries: Seq<JsonView>, ending: Seq<char>, first: int)
    requires
        0 <= first <= entries.len(),
        forall|i: int| 0 <= i < first ==> !is_wheel_for(#[trigger] entries[i], ending),
        first < entries.len() ==> is_wheel_for(entries[first], ending),
    ensures
        first == entries.len() ==> wheel_choice(entries, ending) is Absent,
        first < entries.len() ==> wheel_choice(entries, ending) == wheel_choice(
            seq![entries[first]],
            ending,
        ) && !(wheel_choice(entries, ending) is Absent),
    decreases entries.len(),
{
    if entries.len() > 0 {
        let name = entries[0].text_field("filename"@);
        if name is Some && name->0.len() >= ending.len() {
            assert(name->0.skip(name->0.len() - ending.len()) =~= name->0.subrange(
                name->0.len() - ending.len(),
                name->0.len() as int,
            ));
        }
        if first > 0 {
            let rest = entries.drop_first();
            assert(!is_wheel_for(entries[0], ending));
            assert forall|i: int| 0 <= i < first - 1 implies !is_wheel_for(
                #[trigger] rest[i],
                ending,
            ) by {
                assert(rest[i] == entries[i + 1]);
            }
            lemma_first_wheel(rest, ending, first - 1);
        }
    }
}

/// What the index brings is picked from where it is JSON with a list of entries; anything else is an
/// error that names the address.
pub proof fn law_the_index_is_read_or_reported(
    request: IndexRequest,
    fetched: Fetched,
    result: Result<WheelRequest, SdkError>,
    metadata: Json,
    picked: Result<WheelRequest, SdkError>,
    url: String,
)
    requires
        call_ensures(IndexRequest::answer, (request, fetched), result),
        call_ensures(IndexRequest::pick, (request, &metadata), picked),
        call_ensures(IndexRequest::url, (&request,), url),
    ensures
        fetched matches Fetched::CallFailed(message) ==> (result matches Err(error) && error@ == (
        SdkErrorView::RuntimeResolve {
            message: "failed to fetch runtime index "@ + url@ + ": "@ + message@,
        })),
        fetched matches Fetched::ReadFailed(message) ==> (result matches Err(error) && error@ == (
        SdkErrorView::RuntimeResolve {
            message: "failed to read runtime index "@ + url@ + ": "@ + message@,
        })),
        fetched matches Fetched::Body(bytes) ==> match parsed_bytes(bytes@) {
            ParsedView::Failure(message) => result matches Err(error) && error@ == (
            SdkErrorView::RuntimeResolve {
                message: "runtime index "@ + url@ + " is not valid JSON: "@ + message,
            }),
            ParsedView::Tree(tree) => tree == metadata@ ==> {
                &&& result is Ok <==> picked is Ok
                &&& result matches Ok(wheel) ==> wheel@ == picked->Ok_0@
                &&& result matches Err(error) ==> error@ == picked->Err_0@
            },
        },
        !(metadata@.field("urls"@) matches Some(JsonView::Array(_))) ==> (picked matches Err(error)
            && error@ == (SdkErrorView::RuntimeResolve {
            message: "runtime index "@ + url@ + " has no urls array"@,
        })),
{
}

/// A downloaded wheel is accepted exactly where its SHA-256 digest is the published one; it is then
/// unpacked as it came. Anything else is an error.
pub proof fn law_a_wheel_is_accepted_by_its_digest(
    request: WheelRequest,
    fetched: Fetched,
    result: Result<Installation, SdkError>,
    url: String,
)
    requires
        call_ensures(WheelRequest::answer, (request, fetched), result),
        call_ensures(WheelRequest::url, (&request,), url),
    ensures
        url@ == request@.url,
        fetched matches Fetched::Body(bytes) ==> (result is Ok <==> is_hex(request@.sha256)
            && sha256(bytes@) == hex_bytes(request@.sha256)),
        result matches Ok(installation) ==> (fetched matches Fetched::Body(bytes)
            && installation@.bytes == bytes@ && installation@.plan == request@.plan
            && installation@.sha256 == request@.sha256),
        fetched matches Fetched::Body(bytes) ==> is_hex(request@.sha256) && sha256(bytes@)
            != hex_bytes(request@.sha256) ==> (result matches Err(error) && error@ == (
        SdkErrorView::RuntimeResolve {
            message: "downloaded runtime wheel failed its sha256 verification"@,
        })),
        fetched is Body && !is_hex(request@.sha256) ==> (result matches Err(error) && error@ == (
        SdkErrorView::RuntimeResolve {
            message: "invalid sha256 digest "@ + quoted(request@.sha256) + ": "@ + hex_report(
                request@.sha256,
                hex_failure(request@.sha256),
            ),
        })),
        fetched matches Fetched::CallFailed(message) ==> (result matches Err(error) && error@ == (
        SdkErrorView::RuntimeResolve {
            message: "failed to download runtime wheel "@ + url@ + ": "@ + message@,
        })),
        fetched matches Fetched::ReadFailed(message) ==> (result matches Err(error) && error@ == (
        SdkErrorView::RuntimeResolve {
            message: "failed to read runtime wheel "@ + url@ + ": "@ + message@,
        })),
{
}

/// Bytes are verified exactly where the text is hexadecimal and spells their SHA-256 digest.
pub proof fn law_digests_are_compared_as_bytes(
    bytes: Vec<u8>,
    expected: &str,
    result: Result<(), SdkError>,
)
    requires
        call_ensures(verify_digest, (&bytes, expected), result),
    ensures
        result is Ok <==> is_hex(expected@) && sha256(bytes@) == hex_bytes(expected@),
        result matches Err(error) ==> error is RuntimeResolve,
        result matches Err(error) ==> is_hex(expected@) ==> error@ == (
        SdkErrorView::RuntimeResolve {
            message: "downloaded runtime wheel failed its sha256 verification"@,
        }),
{
}

/// A wheel is unpacked file by file: the executable, on macOS then its spawn helper, and then the
/// configuration, each made executable, with the contents of its entry in the package's directory;
/// then an empty marker that is not; and then nothing more. An entry that cannot be had is an error,
/// and is asked for again.
pub proof fn law_a_wheel_is_unpacked_in_order(
    extraction: &mut Extraction,
    result: Result<Option<ExtractedFile>, SdkError>,
    files: Seq<Seq<char>>,
)
    requires
        call_ensures(Extraction::next, (extraction,), result),
        old(extraction)@.given >= 0,
        files == (if crate::text::has_prefix(
            old(extraction)@.plan.exe_name,
            "dsh-jsonrpc-agent-pkg-macos-"@,
        ) {
            seq![
                old(extraction)@.plan.exe_name,
                old(extraction)@.plan.exe_name + "-spawn-helper"@,
                "cordis.yml"@,
            ]
        } else {
            seq![old(extraction)@.plan.exe_name, "cordis.yml"@]
        }),
    ensures
        ({
            let given = old(extraction)@.given;
            &&& given < files.len() ==> match archive_entry(
                old(extraction)@.bytes,
                "deepseek_harness_runtime/runtime/"@ + files[given],
            ) {
                EntryView::Contents(contents) => (result matches Ok(Some(file)) && file.name@
                    == files[given] && file.contents@ == contents && file.executable) && final(
                    extraction
                )@.given == given + 1,
                EntryView::Missing(message) => (result matches Err(error) && error@ == (
                SdkErrorView::RuntimeResolve {
                    message: "runtime wheel is missing "@ + (
                    "deepseek_harness_runtime/runtime/"@ + files[given]) + ": "@ + message,
                })) && final(extraction)@ == old(extraction)@,
                EntryView::Unreadable(message) => (result matches Err(error) && error@ == (
                SdkErrorView::Io { source: message })) && final(extraction)@ == old(extraction)@,
            }
            &&& given == files.len() ==> (result matches Ok(Some(file)) && file.name@ == ".complete"@
                && file.contents@.len() == 0 && !file.executable) && final(extraction)@.given
                == given + 1
            &&& given > files.len() ==> (result matches Ok(None))
            &&& final(extraction)@.plan == old(extraction)@.plan
            &&& final(extraction)@.bytes == old(extraction)@.bytes
        }),
{
}

/// The runtime is there once the marker has been given out behind all files, and not before.
pub proof fn law_the_runtime_is_there_when_all_is_unpacked(
    extraction: Extraction,
    runtime: Option<ResolvedRuntime>,
)
    requires
        call_ensures(Extraction::finish, (&extraction,), runtime),
    ensures
        runtime is Some <==> extraction@.given > (if crate::text::has_prefix(
            extraction@.plan.exe_name,
            "dsh-jsonrpc-agent-pkg-macos-"@,
        ) {
            3int
        } else {
            2int
        }),
        runtime matches Some(found) ==> found.launch_args@.len() == 1 && found.launch_args@[0]@
            == lossy_text(
            joined_path(extraction@.plan.cache_dir, text_path(extraction@.plan.exe_name)),
        ) && found.default_config == joined_path(
            extraction@.plan.cache_dir,
            text_path("cordis.yml"@),
        ),
{
    if let Some(found) = runtime {
        assert(texts(found.launch_args@).len() == 1);
        assert(texts(found.launch_args@)[0] == found.launch_args@[0]@);
    }
}

/// A process unpacks beside the cache entry, into a directory whose name is that of the entry with
/// the process id behind it, and what is unpacked becomes the entry. The archive is the wheel that
/// was verified, from its first file on.
pub proof fn law_unpacking_happens_beside_the_entry(
    installation: Installation,
    pid: u32,
    staging: PathBuf,
    entry: PathBuf,
    name: PathBuf,
    opened: Result<Extraction, SdkError>,
)
    requires
        call_ensures(Installation::staging_dir, (&installation, pid), staging),
        call_ensures(Installation::cache_dir, (&installation,), entry),
        call_ensures(Installation::open, (installation,), opened),
        path_parts(entry).len() > 0,
        path_parts(entry).last() == PathPart::Normal(name),
    ensures
        entry == installation@.plan.cache_dir,
        exact_text(name) matches Some(text) ==> staging == renamed_path(
            entry,
            text_path(text + ".tmp-"@ + decimal(pid as int)),
        ),
        exact_text(name) is None ==> staging == renamed_path(
            entry,
            text_path("stage"@ + ".tmp-"@ + decimal(pid as int)),
        ),
        archive_failure(installation@.bytes) is None ==> (opened matches Ok(extraction)
            && extraction@.bytes == installation@.bytes && extraction@.plan == installation@.plan
            && extraction@.given == 0),
        archive_failure(installation@.bytes) matches Some(message) ==> (opened matches Err(error)
            && error@ == (SdkErrorView::RuntimeResolve {
            message: "runtime wheel is not a readable zip: "@ + message,
        })),
{
}

/// Digests that differ in a byte, or in length, are refused, and no others are; unless told
/// otherwise, a resolution takes every choice from the environment.
pub proof fn law_digests_agree_in_every_byte(
    actual: Vec<u8>,
    wanted: Vec<u8>,
    result: Result<(), SdkError>,
    options: ResolveOptions,
)
    requires
        call_ensures(compare_digest, (&actual, &wanted), result),
        call_ensures(<ResolveOptions as Default>::default, (), options),
    ensures
        result is Ok <==> actual@.len() == wanted@.len() && forall|i: int|
            0 <= i < actual@.len() ==> actual@[i] == #[trigger] wanted@[i],
        options.index_url is None && options.version is None && options.cache_dir is None,
{
    if actual@.len() == wanted@.len() && forall|i: int|
        0 <= i < actual@.len() ==> actual@[i] == #[trigger] wanted@[i] {
        assert(actual@ =~= wanted@);
    }
}

} // verus!
