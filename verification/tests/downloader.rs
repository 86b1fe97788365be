//! The acquisition of a runtime, from the index to the unpacked files.

use std::io::{Cursor, Write};
use std::path::PathBuf;

use deepseek_harness_sdk_rs::api::{RunCollector, RunStep, StartStep};
use deepseek_harness_sdk_rs::client::{read_handshake, read_prompt};
use deepseek_harness_sdk_rs::fake_runtime::{FakeOutput, FakeRuntime};
use deepseek_harness_sdk_rs::json::Json;
use deepseek_harness_sdk_rs::launch::{
    build_env, downloaded_launch, EnvValue, LaunchChannel, ResolvedLaunch,
};
use deepseek_harness_sdk_rs::runtime::{
    cache_valid, platform, verify_digest, wheel_version, CacheCheck, ExtractedFile, Fetched, Host,
    IndexRequest, Installation, ResolveOptions, ResolvedRuntime, RuntimePlan, WheelRequest,
    RUNTIME_WHEEL_MAX_BYTES,
};
use deepseek_harness_sdk_rs::text_map::TextMap;
use deepseek_harness_sdk_rs::transport::{Delivery, OutgoingRequest, Received};
use deepseek_harness_sdk_rs::{
    DeepSeekHarness, DeepSeekHarnessConfig, Input, InitializeParams, SdkError,
};

fn build_wheel(exe_name: &str, exe_bytes: &[u8], macos: bool) -> Vec<u8> {
    let mut buffer = Cursor::new(Vec::new());
    {
        let mut zip = zip::ZipWriter::new(&mut buffer);
        let options = zip::write::SimpleFileOptions::default();
        zip.start_file(
            format!("deepseek_harness_runtime/runtime/{exe_name}"),
            options,
        )
        .expect("start exe");
        zip.write_all(exe_bytes).expect("write exe");
        if macos {
            zip.start_file(
                format!("deepseek_harness_runtime/runtime/{exe_name}-spawn-helper"),
                options,
            )
            .expect("start helper");
            zip.write_all(b"helper").expect("write helper");
        }
        zip.start_file("deepseek_harness_runtime/runtime/cordis.yml", options)
            .expect("start config");
        zip.write_all(b"plugins: []\n").expect("write config");
        zip.finish().expect("finish");
    }
    buffer.into_inner()
}

fn sha256_hex(bytes: &[u8]) -> String {
    hex::encode(<sha2::Sha256 as sha2::Digest>::digest(bytes))
}

fn host(os: &str, arch: &str) -> Host {
    Host {
        os: os.to_string(),
        arch: arch.to_string(),
        index_url: None,
        version: None,
        cache_dir: None,
        platform_cache: None,
    }
}

fn options() -> ResolveOptions {
    ResolveOptions {
        index_url: Some("http://localhost/pypi".to_string()),
        version: Some("9.9.9".to_string()),
        cache_dir: Some(PathBuf::from("/cache")),
    }
}

fn plan_for(os: &str, arch: &str) -> RuntimePlan {
    RuntimePlan::new(&options(), &host(os, arch)).expect("plan")
}

fn fetch(plan: RuntimePlan) -> IndexRequest {
    match plan.check_cache(false, false, false) {
        CacheCheck::Fetch(request) => request,
        CacheCheck::Ready(_) => panic!("nothing is cached"),
    }
}

fn wheel_filename() -> String {
    "deepseek_harness_runtime_bin-9.9.9-py3-none-manylinux_2_28_x86_64.whl".to_string()
}

fn index(filename: &str, sha256: &str) -> Fetched {
    Fetched::Body(
        format!(
            r#"{{"info": {{"version": "9.9.9"}}, "urls": [
                {{"filename": "{filename}", "url": "http://localhost/files/{filename}", "digests": {{"sha256": "{sha256}"}}}}
            ]}}"#
        )
        .into_bytes(),
    )
}

fn wheel_request(sha256: &str) -> WheelRequest {
    fetch(plan_for("linux", "x86_64"))
        .answer(index(&wheel_filename(), sha256))
        .expect("wheel")
}

fn unpack(installation: Installation) -> Result<(Vec<ExtractedFile>, ResolvedRuntime), SdkError> {
    let mut extraction = installation.open()?;
    let mut files = Vec::new();
    loop {
        assert_eq!(extraction.finish().is_some(), files.iter().any(|f: &ExtractedFile| f.name == ".complete"));
        match extraction.next()? {
            Some(file) => files.push(file),
            None => break,
        }
    }
    let runtime = extraction.finish().expect("complete");
    Ok((files, runtime))
}

fn resolve_message(error: SdkError) -> String {
    match error {
        SdkError::RuntimeResolve { message } => message,
        other => panic!("expected RuntimeResolve, got {other:?}"),
    }
}

/// The outcome of a request of a harness whose runtime is the scripted one.
fn outcome(
    harness: &mut DeepSeekHarness,
    fake: &mut FakeRuntime,
    request: &OutgoingRequest,
    config: &Option<String>,
) -> Result<Json, SdkError> {
    let mut result = None;
    for output in fake.take(&request.line, config) {
        if let FakeOutput::Line(line) = output {
            match harness.client_mut().receive(&line) {
                Received::Completed { outcome, .. } => result = Some(outcome),
                Received::Notification(notification) => {
                    harness.client_mut().deliver(notification, &vec![])
                }
                _ => {}
            }
        }
    }
    result.expect("the request has an outcome")
}

fn start(harness: &mut DeepSeekHarness, fake: &mut FakeRuntime, config: &Option<String>) {
    assert_eq!(harness.start(), StartStep::Launch);
    assert!(harness.attach());
    match harness.start() {
        StartStep::Handshake(request) => {
            let outcome = outcome(harness, fake, &request, config);
            harness.finish_start(outcome).0.expect("start");
        }
        other => panic!("expected the handshake, got {other:?}"),
    }
}

/// The version that the runtime reports when it is launched so: it is the configuration that its
/// environment names.
fn reported_version(harness: &mut DeepSeekHarness, launch: &ResolvedLaunch) -> String {
    let env = build_env(TextMap::new(), &harness.client().options().env, launch);
    let config = match env.get("DSH_CORDIS_CONFIG") {
        Some(EnvValue::Text(text)) => Some(text.clone()),
        _ => None,
    };
    let mut fake = FakeRuntime::new("env");
    start(harness, &mut fake, &config);
    let request = harness
        .client_mut()
        .initialize(&InitializeParams {
            cwd: PathBuf::from("/work"),
            provider: "p".to_string(),
            model: "m".to_string(),
            max_tokens: None,
        })
        .expect("second initialize");
    let response = outcome(harness, &mut fake, &request, &config).expect("second initialize");
    read_handshake(&response)
        .server_info
        .expect("serverInfo")
        .version
        .expect("version")
}

fn config_with(entries: &[(&str, &str)]) -> DeepSeekHarnessConfig {
    let mut config = DeepSeekHarnessConfig::default();
    for (key, value) in entries {
        config.env.insert(key.to_string(), value.to_string());
    }
    config
}

#[test]
fn zero_config_injects_the_extracted_default_config() {
    let wheel = build_wheel("dsh-jsonrpc-agent-pkg-linux-x64", b"exe", false);
    let config = DeepSeekHarnessConfig {
        runtime_index_url: Some("http://localhost/pypi".to_string()),
        runtime_version: Some("9.9.9".to_string()),
        runtime_cache_dir: Some(PathBuf::from("/cache")),
        ..config_with(&[("DSH_CORDIS_CONFIG", "")])
    };
    let mut harness = DeepSeekHarness::new(config, PathBuf::from("/work"), None);
    let options = match harness.client().options().resolve_launch(None, true) {
        Ok(LaunchChannel::Download(options)) => options,
        other => panic!("expected a download, got {other:?}"),
    };
    let plan = RuntimePlan::new(&options, &host("linux", "x86_64")).expect("plan");
    let installation = fetch(plan)
        .answer(index(&wheel_filename(), &sha256_hex(&wheel)))
        .expect("wheel")
        .answer(Fetched::Body(wheel))
        .expect("verified");
    let (_, runtime) = unpack(installation).expect("unpacked");
    let version = reported_version(&mut harness, &downloaded_launch(&runtime));
    assert_eq!(version, "/cache/9.9.9/cordis.yml");
}

#[test]
fn explicit_launch_skips_default_config_injection() {
    let config = DeepSeekHarnessConfig {
        launch_args_override: Some(vec!["fake".to_string(), "env".to_string()]),
        ..config_with(&[("DSH_CORDIS_CONFIG", "")])
    };
    let mut harness = DeepSeekHarness::new(config, PathBuf::from("/work"), None);
    let launch = match harness.client().options().resolve_launch(None, true) {
        Ok(LaunchChannel::Launch(launch)) => launch,
        other => panic!("expected a launch, got {other:?}"),
    };
    assert_eq!(
        reported_version(&mut harness, &launch),
        "",
        "no default config may be injected for an explicit launch"
    );
}

#[test]
fn resolver_extracts_verified_runtime_and_drives_a_turn() {
    let exe = "dsh-jsonrpc-agent-pkg-linux-x64";
    let wheel = build_wheel(exe, b"#!/bin/true", false);
    let request = wheel_request(&sha256_hex(&wheel));
    assert_eq!(
        request.url(),
        format!("http://localhost/files/{}", wheel_filename())
    );
    let installation = request.answer(Fetched::Body(wheel)).expect("verified");
    assert_eq!(installation.cache_dir(), PathBuf::from("/cache/9.9.9"));
    assert_eq!(
        installation.staging_dir(77),
        PathBuf::from("/cache/9.9.9.tmp-77")
    );
    let (files, resolved) = unpack(installation).expect("unpacked");
    let file = |name: &str, contents: &[u8], executable| ExtractedFile {
        name: name.to_string(),
        contents: contents.to_vec(),
        executable,
    };
    assert_eq!(
        files,
        vec![
            file(exe, b"#!/bin/true", true),
            file("cordis.yml", b"plugins: []\n", true),
            file(".complete", b"", false),
        ]
    );
    assert_eq!(resolved.launch_args, vec![format!("/cache/9.9.9/{exe}")]);
    assert_eq!(
        resolved.default_config,
        PathBuf::from("/cache/9.9.9/cordis.yml")
    );

    // The downloaded "runtime" is the scripted runtime: a full turn runs through it.
    let config = DeepSeekHarnessConfig {
        runtime_bin: Some(PathBuf::from(&resolved.launch_args[0])),
        ..DeepSeekHarnessConfig::default()
    };
    let mut harness = DeepSeekHarness::new(config, PathBuf::from("/work"), None);
    let mut fake = FakeRuntime::new("basic");
    start(&mut harness, &mut fake, &None);
    let mut run = harness.run(None, Input::from("hi")).expect("run");
    let answer = outcome(&mut harness, &mut fake, &run.request, &None);
    let message = read_prompt(answer).expect("message id");
    let mut collector = RunCollector::new(&run.session_id, &message);
    while let Delivery::Ready(notification) = harness.client_mut().next(&mut run.subscription) {
        if collector.take(&notification) == RunStep::Finished {
            break;
        }
    }
    let result = collector.finish(None).expect("run via resolved runtime");
    assert_eq!(result.final_response, "hello from fake");
}

#[test]
fn the_macos_wheel_carries_a_spawn_helper() {
    let exe = "dsh-jsonrpc-agent-pkg-macos-arm64";
    let wheel = build_wheel(exe, b"exe", true);
    let filename = "runtime-py3-none-macosx_14_0_arm64.whl";
    let plan = plan_for("macos", "aarch64");
    assert_eq!(
        plan.helper_path(),
        PathBuf::from(format!("/cache/9.9.9/{exe}-spawn-helper"))
    );
    let request = fetch(plan)
        .answer(index(filename, &sha256_hex(&wheel)))
        .expect("wheel");
    let (files, _) = unpack(request.answer(Fetched::Body(wheel)).expect("verified")).expect("unpacked");
    let names: Vec<&str> = files.iter().map(|file| file.name.as_str()).collect();
    assert_eq!(
        names,
        vec![
            exe,
            "dsh-jsonrpc-agent-pkg-macos-arm64-spawn-helper",
            "cordis.yml",
            ".complete"
        ]
    );

    // Without the helper the wheel is incomplete.
    let wheel = build_wheel(exe, b"exe", false);
    let request = fetch(plan_for("macos", "aarch64"))
        .answer(index(filename, &sha256_hex(&wheel)))
        .expect("wheel");
    let error = unpack(request.answer(Fetched::Body(wheel)).expect("verified")).unwrap_err();
    assert_eq!(
        resolve_message(error),
        format!(
            "runtime wheel is missing deepseek_harness_runtime/runtime/{exe}-spawn-helper: \
             specified file not found in archive"
        )
    );
}

#[test]
fn resolver_reuses_a_verified_cache() {
    let plan = plan_for("linux", "aarch64");
    assert_eq!(plan.marker_path(), PathBuf::from("/cache/9.9.9/.complete"));
    let exe = plan.exe_path();
    assert_eq!(
        exe,
        PathBuf::from("/cache/9.9.9/dsh-jsonrpc-agent-pkg-linux-arm64")
    );
    match plan.check_cache(true, true, false) {
        CacheCheck::Ready(runtime) => {
            assert_eq!(runtime.launch_args, vec![exe.to_str().expect("text")]);
            assert_eq!(
                runtime.default_config,
                PathBuf::from("/cache/9.9.9/cordis.yml")
            );
        }
        CacheCheck::Fetch(_) => panic!("the cache is complete"),
    }
}

#[test]
fn a_cache_entry_needs_all_its_files() {
    let linux = "dsh-jsonrpc-agent-pkg-linux-x64";
    let macos = "dsh-jsonrpc-agent-pkg-macos-arm64";
    assert!(cache_valid(true, true, false, linux));
    assert!(cache_valid(true, true, true, macos));
    assert!(!cache_valid(true, true, false, macos));
    assert!(!cache_valid(false, true, true, linux));
    assert!(!cache_valid(true, false, true, linux));
}

#[test]
fn resolver_rejects_a_digest_mismatch() {
    let wheel = build_wheel("dsh-jsonrpc-agent-pkg-linux-x64", b"exe", false);
    let bad_digest = "ab".repeat(32);
    let error = wheel_request(&bad_digest)
        .answer(Fetched::Body(wheel))
        .err()
        .expect("refused");
    assert_eq!(
        resolve_message(error),
        "downloaded runtime wheel failed its sha256 verification"
    );
}

#[test]
fn digests_are_compared_as_bytes() {
    let empty = "E3B0C44298FC1C149AFBF4C8996FB92427AE41E4649B934CA495991B7852B855";
    assert_eq!(verify_digest(&vec![], empty), Ok(()));
    assert_eq!(verify_digest(&vec![], &empty.to_lowercase()), Ok(()));
    assert!(verify_digest(&vec![0], empty).is_err());
    assert_eq!(
        verify_digest(&vec![], "abc").unwrap_err().message(),
        "invalid sha256 digest \"abc\": Odd number of digits"
    );
    assert_eq!(
        verify_digest(&vec![], "a\"zz").unwrap_err().message(),
        "invalid sha256 digest \"a\\\"zz\": Invalid character '\"' at position 1"
    );
    assert_eq!(
        verify_digest(&vec![], "\u{e9}").unwrap_err().message(),
        "invalid sha256 digest \"\u{e9}\": Invalid character '\u{c3}' at position 0"
    );
    assert_eq!(
        verify_digest(&vec![], "0'").unwrap_err().message(),
        "invalid sha256 digest \"0'\": Invalid character '\\'' at position 1"
    );
    assert_eq!(
        verify_digest(&vec![], "").unwrap_err().message(),
        "downloaded runtime wheel failed its sha256 verification"
    );
}

#[test]
fn resolver_fails_loud_without_a_matching_wheel() {
    let foreign = "deepseek_harness_runtime_bin-9.9.9-py3-none-fake_platform.whl";
    let error = fetch(plan_for("linux", "x86_64"))
        .answer(index(foreign, "00"))
        .unwrap_err();
    assert_eq!(
        resolve_message(error),
        "deepseek-harness-runtime-bin 9.9.9 has no wheel for platform tag \
         py3-none-manylinux_2_28_x86_64; provide HarnessClientOptions.runtime_bin instead"
    );
}

#[test]
fn index_failures_say_what_went_wrong() {
    let url = "http://localhost/pypi/deepseek-harness-runtime-bin/9.9.9/json";
    let answer = |fetched: Fetched| {
        let request = fetch(plan_for("linux", "x86_64"));
        assert_eq!(request.url(), url);
        resolve_message(request.answer(fetched).unwrap_err())
    };
    let body = |text: &str| Fetched::Body(text.as_bytes().to_vec());
    assert_eq!(
        answer(Fetched::CallFailed("refused".to_string())),
        format!("failed to fetch runtime index {url}: refused")
    );
    assert_eq!(
        answer(Fetched::ReadFailed("cut off".to_string())),
        format!("failed to read runtime index {url}: cut off")
    );
    assert_eq!(
        answer(body("{")),
        format!(
            "runtime index {url} is not valid JSON: EOF while parsing an object at line 1 column 1"
        )
    );
    for text in ["{}", "[]", r#"{"urls": {}}"#] {
        assert_eq!(
            answer(body(text)),
            format!("runtime index {url} has no urls array")
        );
    }
    let name = wheel_filename();
    assert_eq!(
        answer(body(&format!(r#"{{"urls": [7, {{}}, {{"filename": "{name}"}}]}}"#))),
        format!("wheel entry {name} has no url")
    );
    for digests in ["", r#", "digests": null"#, r#", "digests": {"sha256": 1}"#] {
        let text = format!(r#"{{"urls": [{{"filename": "{name}", "url": "u"{digests}}}]}}"#);
        assert_eq!(
            answer(body(&text)),
            format!("wheel entry {name} has no sha256 digest")
        );
    }
}

#[test]
fn the_first_matching_wheel_is_taken() {
    let name = wheel_filename();
    let text = format!(
        r#"{{"urls": [
            {{"filename": "other.whl", "url": "wrong"}},
            {{"filename": "{name}", "url": "right", "digests": {{"sha256": "00"}}}},
            {{"filename": "{name}"}}
        ]}}"#
    );
    let request = fetch(plan_for("linux", "x86_64"))
        .answer(Fetched::Body(text.into_bytes()))
        .expect("wheel");
    assert_eq!(request.url(), "right");
}

#[test]
fn download_failures_say_what_went_wrong() {
    let url = format!("http://localhost/files/{}", wheel_filename());
    let call = wheel_request("00").answer(Fetched::CallFailed("refused".to_string()));
    assert_eq!(
        resolve_message(call.err().expect("failed")),
        format!("failed to download runtime wheel {url}: refused")
    );
    let read = wheel_request("00").answer(Fetched::ReadFailed("too large".to_string()));
    assert_eq!(
        resolve_message(read.err().expect("failed")),
        format!("failed to read runtime wheel {url}: too large")
    );
    assert_eq!(RUNTIME_WHEEL_MAX_BYTES, 512 * 1024 * 1024);
}

#[test]
fn a_wheel_that_is_no_archive_is_refused() {
    let bytes = b"not a zip".to_vec();
    let installation = wheel_request(&sha256_hex(&bytes))
        .answer(Fetched::Body(bytes))
        .expect("verified");
    let message = resolve_message(installation.open().err().expect("refused"));
    assert!(
        message.starts_with("runtime wheel is not a readable zip: invalid Zip archive"),
        "{message}"
    );
}

#[test]
fn a_damaged_entry_is_an_io_error() {
    let mut wheel = build_wheel("dsh-jsonrpc-agent-pkg-linux-x64", &[7; 64], false);
    // Damage the checksum of the first entry, in its local and its central header.
    let local = u32::from_le_bytes([wheel[14], wheel[15], wheel[16], wheel[17]]).to_le_bytes();
    let places: Vec<usize> = (0..wheel.len() - 4)
        .filter(|at| wheel[*at..*at + 4] == local)
        .collect();
    for at in places {
        wheel[at] ^= 1;
    }
    let installation = wheel_request(&sha256_hex(&wheel))
        .answer(Fetched::Body(wheel))
        .expect("verified");
    let error = unpack(installation).unwrap_err();
    assert_eq!(error.message(), "io error: Invalid checksum");
}

#[test]
fn platforms_have_their_tags() {
    let tags = |os, arch| platform(os, arch).expect("supported");
    assert_eq!(
        tags("macos", "aarch64"),
        ("py3-none-macosx_14_0_arm64".to_string(), "macos-arm64".to_string())
    );
    assert_eq!(
        tags("linux", "x86_64"),
        ("py3-none-manylinux_2_28_x86_64".to_string(), "linux-x64".to_string())
    );
    assert_eq!(
        tags("linux", "aarch64"),
        ("py3-none-manylinux_2_28_aarch64".to_string(), "linux-arm64".to_string())
    );
    assert_eq!(
        resolve_message(platform("windows", "x86_64").unwrap_err()),
        "no deepseek-harness-runtime-bin wheel exists for this platform (os=windows, \
         arch=x86_64); supported: macos/arm64, linux/x64, linux/arm64. \
         Provide HarnessClientOptions.runtime_bin instead."
    );
    assert!(platform("macos", "x86_64").is_err());
}

#[test]
fn options_win_over_the_environment() {
    let none = ResolveOptions::default();
    let mut here = host("linux", "x86_64");
    assert_eq!(
        resolve_message(RuntimePlan::new(&none, &here).unwrap_err()),
        "no cache directory for the runtime download; set $DSH_RUNTIME_CACHE_DIR"
    );
    here.platform_cache = Some(PathBuf::from("/home/me/.cache"));
    let plan = RuntimePlan::new(&none, &here).expect("plan");
    assert_eq!(plan.index, "https://pypi.org/pypi");
    assert_eq!(plan.version, "0.1.0rc6");
    assert_eq!(
        plan.cache_dir,
        PathBuf::from("/home/me/.cache/deepseek-harness-sdk-rs/0.1.0rc6")
    );
    here.index_url = Some("http://mirror///".to_string());
    here.version = Some("2.0".to_string());
    here.cache_dir = Some(PathBuf::from("/env"));
    let plan = RuntimePlan::new(&none, &here).expect("plan");
    assert_eq!(plan.index, "http://mirror");
    assert_eq!(plan.cache_dir, PathBuf::from("/env/2.0"));
    let plan = RuntimePlan::new(&options(), &here).expect("plan");
    assert_eq!(plan.index, "http://localhost/pypi");
    assert_eq!(plan.cache_dir, PathBuf::from("/cache/9.9.9"));
    // An empty option hides the environment and falls back to the public index.
    let emptied = ResolveOptions {
        index_url: Some(String::new()),
        ..options()
    };
    let plan = RuntimePlan::new(&emptied, &here).expect("plan");
    assert_eq!(plan.index, "https://pypi.org/pypi");
}

#[test]
fn versions_are_spelled_for_the_index() {
    assert_eq!(wheel_version("0.1.0-rc.6"), "0.1.0rc6");
    assert_eq!(wheel_version("1.2.3"), "1.2.3");
    assert_eq!(wheel_version("1.0.0-alpha.1.2"), "1.0.0alpha12");
}

#[test]
fn a_cache_directory_without_a_name_is_staged() {
    let exe = "dsh-jsonrpc-agent-pkg-linux-x64";
    let wheel = build_wheel(exe, b"exe", false);
    let options = ResolveOptions {
        version: Some("..".to_string()),
        ..options()
    };
    let plan = RuntimePlan::new(&options, &host("linux", "x86_64")).expect("plan");
    let installation = fetch(plan)
        .answer(index(&wheel_filename(), &sha256_hex(&wheel)))
        .expect("wheel")
        .answer(Fetched::Body(wheel))
        .expect("verified");
    assert_eq!(
        installation.staging_dir(5),
        PathBuf::from("/cache/../stage.tmp-5")
    );
}
