//! Launch channels and the environment of the runtime.

use std::path::PathBuf;

use deepseek_harness_sdk_rs::launch::{
    build_env, downloaded_launch, EnvValue, LaunchChannel, ResolvedLaunch,
};
use deepseek_harness_sdk_rs::runtime::{ResolveOptions, ResolvedRuntime};
use deepseek_harness_sdk_rs::text_map::TextMap;
use deepseek_harness_sdk_rs::{HarnessClientOptions, SdkError};

fn launch(command: &str, args: &[&str]) -> LaunchChannel {
    LaunchChannel::Launch(ResolvedLaunch {
        command: command.to_string(),
        args: args.iter().map(|arg| arg.to_string()).collect(),
        default_config: None,
    })
}

fn every_channel() -> HarnessClientOptions {
    HarnessClientOptions {
        launch_args_override: Some(vec!["over".to_string(), "ride".to_string()]),
        command: Some("command".to_string()),
        args: vec!["arg".to_string()],
        runtime_bin: Some(PathBuf::from("/bin/runtime")),
        ..HarnessClientOptions::default()
    }
}

fn from_env() -> Option<String> {
    Some("/env/runtime".to_string())
}

#[test]
fn the_most_explicit_launch_channel_wins() {
    let mut options = every_channel();
    assert_eq!(
        options.resolve_launch(from_env(), true),
        Ok(launch("over", &["ride"]))
    );
    options.launch_args_override = None;
    assert_eq!(
        options.resolve_launch(from_env(), true),
        Ok(launch("command", &["arg"]))
    );
    options.command = None;
    assert_eq!(
        options.resolve_launch(from_env(), true),
        Ok(launch("/bin/runtime", &[]))
    );
    options.runtime_bin = None;
    assert_eq!(
        options.resolve_launch(from_env(), false),
        Ok(launch("/env/runtime", &[]))
    );
    options.runtime_version = Some("1.2.3".to_string());
    assert_eq!(
        options.resolve_launch(Some(String::new()), true),
        Ok(LaunchChannel::Download(ResolveOptions {
            index_url: None,
            version: Some("1.2.3".to_string()),
            cache_dir: None,
        }))
    );
}

#[test]
fn an_empty_override_is_refused() {
    let options = HarnessClientOptions {
        launch_args_override: Some(vec![]),
        ..every_channel()
    };
    assert_eq!(
        options.resolve_launch(from_env(), true),
        Err(SdkError::RuntimeResolve {
            message: "launch_args_override must not be empty".to_string()
        })
    );
}

#[test]
fn without_any_channel_the_launch_fails() {
    let options = HarnessClientOptions::default();
    let error = options.resolve_launch(None, false).unwrap_err();
    assert_eq!(
        error.message(),
        "no runtime specified: provide HarnessClientOptions.command/args or runtime_bin \
         (the runtime-download feature, which resolves a bundled runtime, is disabled)"
    );
}

#[test]
fn a_downloaded_runtime_brings_its_configuration() {
    let runtime = ResolvedRuntime {
        launch_args: vec!["/cache/exe".to_string(), "--flag".to_string()],
        default_config: PathBuf::from("/cache/cordis.yml"),
    };
    assert_eq!(
        downloaded_launch(&runtime),
        ResolvedLaunch {
            command: "/cache/exe".to_string(),
            args: vec!["--flag".to_string()],
            default_config: Some(PathBuf::from("/cache/cordis.yml")),
        }
    );
}

fn text(value: &str) -> EnvValue {
    EnvValue::Text(value.to_string())
}

fn inherited(entries: &[(&str, EnvValue)]) -> TextMap<EnvValue> {
    let mut env = TextMap::new();
    for (key, value) in entries {
        let value = match value {
            EnvValue::Text(text) => EnvValue::Text(text.clone()),
            EnvValue::Raw(bytes) => EnvValue::Raw(bytes.clone()),
        };
        env.insert(key.to_string(), value);
    }
    env
}

fn extra(entries: &[(&str, &str)]) -> Option<TextMap<String>> {
    let mut env = TextMap::new();
    for (key, value) in entries {
        env.insert(key.to_string(), value.to_string());
    }
    Some(env)
}

fn resolved(config: Option<&str>) -> ResolvedLaunch {
    ResolvedLaunch {
        command: "runtime".to_string(),
        args: vec![],
        default_config: config.map(PathBuf::from),
    }
}

#[test]
fn extra_entries_overlay_the_inherited_ones() {
    let env = build_env(
        inherited(&[("A", text("1")), ("B", text("2")), ("C", EnvValue::Raw(vec![255]))]),
        &extra(&[("B", "3"), ("D", "4")]),
        &resolved(None),
    );
    assert_eq!(env.get("A"), Some(&text("1")));
    assert_eq!(env.get("B"), Some(&text("3")));
    assert_eq!(env.get("C"), Some(&EnvValue::Raw(vec![255])));
    assert_eq!(env.get("D"), Some(&text("4")));
    assert_eq!(env.get("E"), None);
    assert_eq!(env.keys().len(), 4);
}

#[test]
fn the_default_configuration_fills_in_for_none_or_an_empty_one() {
    let key = "DSH_CORDIS_CONFIG";
    let config = Some("/cache/cordis.yml");
    let injected = text("/cache/cordis.yml");
    let get = |env: TextMap<EnvValue>| match env.get(key) {
        Some(EnvValue::Text(value)) => Some(EnvValue::Text(value.clone())),
        Some(EnvValue::Raw(bytes)) => Some(EnvValue::Raw(bytes.clone())),
        None => None,
    };
    let none = get(build_env(inherited(&[]), &None, &resolved(config)));
    assert_eq!(none.as_ref(), Some(&injected));
    let emptied = get(build_env(
        inherited(&[(key, text("/mine.yml"))]),
        &extra(&[(key, "")]),
        &resolved(config),
    ));
    assert_eq!(emptied.as_ref(), Some(&injected));
    let raw = get(build_env(
        inherited(&[(key, EnvValue::Raw(vec![47, 255]))]),
        &None,
        &resolved(config),
    ));
    assert_eq!(raw, Some(EnvValue::Raw(vec![47, 255])));
    let void = get(build_env(
        inherited(&[(key, EnvValue::Raw(vec![]))]),
        &None,
        &resolved(config),
    ));
    assert_eq!(void.as_ref(), Some(&injected));
    let mine = get(build_env(
        inherited(&[(key, text("/mine.yml"))]),
        &None,
        &resolved(config),
    ));
    assert_eq!(mine, Some(text("/mine.yml")));
    let explicit = get(build_env(
        inherited(&[]),
        &extra(&[(key, "")]),
        &resolved(None),
    ));
    assert_eq!(explicit, Some(text("")));
}
