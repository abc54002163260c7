//! The launch decision engine end to end: precedence, graceful degradation
//! on malformed arguments, error propagation, and idempotence.

use scala_bootstrap::config::collect_args;
use scala_bootstrap::config::ArgEntry;
use scala_bootstrap::config::Settings;
use scala_bootstrap::error::ResolveError;
use scala_bootstrap::launch::resolve;
use scala_bootstrap::launch::resolve_overrides;
use scala_bootstrap::launch::EnvSnapshot;
use scala_bootstrap::launch::OverrideOutcome;
use scala_bootstrap::Os;

fn no_overrides() -> Settings {
    Settings { server_path: None, lsp_server_path: None, lsp_server_args: Vec::new(), options: None }
}

fn env(os: Os, release: Result<&str, &str>) -> EnvSnapshot {
    EnvSnapshot {
        os,
        volt_uri: "file:///plugins/volt/".to_string(),
        release: release.map(str::to_string).map_err(str::to_string),
    }
}

#[test]
fn top_override_wins_regardless_of_registry() {
    let cfg = Settings {
        server_path: Some("my-server".to_string()),
        lsp_server_path: Some("other-server".to_string()),
        lsp_server_args: vec![ArgEntry::Text("--x".to_string())],
        options: Some(serde_json::Value::String("payload".to_string())),
    };
    // The registry is down; the override must still resolve.
    let d = resolve(cfg, env(Os::Linux, Err("registry down"))).unwrap();
    assert_eq!(d.server_uri, "urn:my-server");
    assert!(d.server_args.is_empty());
    assert_eq!(d.options, Some(serde_json::Value::String("payload".to_string())));
}

#[test]
fn lsp_override_beats_auto_provision_and_keeps_valid_args() {
    let cfg = Settings {
        server_path: Some("".to_string()),
        lsp_server_path: Some("lsp-server".to_string()),
        lsp_server_args: vec![
            ArgEntry::Text("--first".to_string()),
            ArgEntry::Malformed,
            ArgEntry::Text("--second".to_string()),
        ],
        options: None,
    };
    let d = resolve(cfg, env(Os::Windows, Err("unreachable"))).unwrap();
    assert_eq!(d.server_uri, "urn:lsp-server");
    assert_eq!(d.server_args, vec!["--first".to_string(), "--second".to_string()]);
}

#[test]
fn malformed_args_are_dropped_in_order() {
    let entries = vec![
        ArgEntry::Malformed,
        ArgEntry::Text("-a".to_string()),
        ArgEntry::Malformed,
        ArgEntry::Text("-b".to_string()),
        ArgEntry::Text("-c".to_string()),
    ];
    assert_eq!(collect_args(&entries), vec!["-a".to_string(), "-b".to_string(), "-c".to_string()]);
    assert_eq!(collect_args(&Vec::new()), Vec::<String>::new());
}

#[test]
fn no_override_hands_configuration_back() {
    let cfg = Settings {
        server_path: Some("".to_string()),
        lsp_server_path: None,
        lsp_server_args: Vec::new(),
        options: Some(serde_json::Value::Bool(true)),
    };
    match resolve_overrides(cfg) {
        OverrideOutcome::Provision(c) => {
            assert_eq!(c.server_path, Some("".to_string()));
            assert_eq!(c.options, Some(serde_json::Value::Bool(true)));
        }
        _ => panic!("expected fall-through to auto-provision"),
    }
}

#[test]
fn auto_provision_end_to_end_on_windows() {
    // Empty top-level serverPath, no lsp block, registry answers 21.0.2+13.
    let cfg = Settings {
        server_path: Some("".to_string()),
        lsp_server_path: None,
        lsp_server_args: Vec::new(),
        options: None,
    };
    let d = resolve(cfg, env(Os::Windows, Ok("21.0.2+13"))).unwrap();
    let expected = url::Url::parse("file:///plugins/volt/")
        .unwrap()
        .join("[filename]")
        .unwrap()
        .to_string();
    assert_eq!(d.server_uri, expected);
    assert_ne!(d.server_uri, "file:///plugins/volt/");
    assert!(d.server_args.is_empty());
    let plan = scala_bootstrap::asset::select_asset("21.0.2+13", Os::Windows).unwrap();
    assert_eq!(plan.major_version_tag, "OpenJDK21U");
}

#[test]
fn auto_provision_directive_carries_fixed_selector() {
    let d = resolve(no_overrides(), env(Os::Macos, Ok("21.0.2+13"))).unwrap();
    assert_eq!(d.document_selector.len(), 1);
    assert_eq!(d.document_selector[0].language, Some("scala".to_string()));
    assert_eq!(d.document_selector[0].scheme, None);
    assert_eq!(d.document_selector[0].pattern, Some("**/*.{scala}".to_string()));
}

#[test]
fn registry_failure_surfaces_with_its_description() {
    let e = resolve(no_overrides(), env(Os::Linux, Err("host unreachable"))).unwrap_err();
    match &e {
        ResolveError::Registry(m) => assert_eq!(m, "host unreachable"),
        other => panic!("expected a registry error, got {:?}", other),
    }
    assert_eq!(e.describe(), "release registry lookup failed: host unreachable");
}

#[test]
fn malformed_release_fails_auto_provision() {
    let e = resolve(no_overrides(), env(Os::Linux, Ok("nightly-build"))).unwrap_err();
    assert!(matches!(e, ResolveError::AssetFormat));
    assert_eq!(
        e.describe(),
        "release string does not have the expected MAJOR.MINOR.PATCH+BUILD shape"
    );
}

#[test]
fn unparsable_override_path_is_a_configuration_error() {
    let cfg = Settings {
        server_path: Some("//bad-port:99999999999999999999".to_string()),
        lsp_server_path: None,
        lsp_server_args: Vec::new(),
        options: None,
    };
    // url::Url::parse("urn://bad-port:99999...") rejects the port.
    let e = resolve(cfg, env(Os::Linux, Ok("21.0.2+13"))).unwrap_err();
    assert!(matches!(e, ResolveError::Configuration));
    assert_eq!(e.describe(), "could not form a URL from the configured location");
}

#[test]
fn resolution_is_idempotent_for_identical_inputs() {
    let make_cfg = || Settings {
        server_path: None,
        lsp_server_path: Some("srv".to_string()),
        lsp_server_args: vec![ArgEntry::Text("--a".to_string()), ArgEntry::Malformed],
        options: Some(serde_json::Value::String("opts".to_string())),
    };
    let d1 = resolve(make_cfg(), env(Os::Windows, Ok("21.0.2+13"))).unwrap();
    let d2 = resolve(make_cfg(), env(Os::Windows, Ok("21.0.2+13"))).unwrap();
    assert_eq!(d1, d2);
    let d3 = resolve(no_overrides(), env(Os::Linux, Ok("21.0.2+13"))).unwrap();
    let d4 = resolve(no_overrides(), env(Os::Linux, Ok("21.0.2+13"))).unwrap();
    assert_eq!(d3, d4);
}
