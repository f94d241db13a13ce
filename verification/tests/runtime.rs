use z8run::install::{
    install_step, InstallAction, InstallEvent, InstallState, Location, RemovalAction, RemovalEvent,
    RemovalState,
};
use z8run::error::RuntimeError;
use z8run::json::Json;
use z8run::manifest::{
    generated_manifest, is_valid_plugin_name, plugin_name_from_stem, ManifestPort, PathPart,
    PluginCapabilities, PluginManifest,
};
use z8run::plugins::{
    check_module, check_not_installed, check_removal_target, check_reserved, classify_source,
    PluginRegistry, RegisteredPlugin, SourceKind,
};

fn manifest(name: &str, wasm: &str, config: Json) -> PluginManifest {
    PluginManifest {
        name: name.to_string(),
        version: "0.1.0".to_string(),
        description: "test".to_string(),
        author: "test".to_string(),
        license: String::new(),
        category: "transform".to_string(),
        icon: String::new(),
        inputs: vec![],
        outputs: vec![ManifestPort {
            name: "out".to_string(),
            port_type: "any".to_string(),
            description: String::new(),
            required: false,
        }],
        capabilities: PluginCapabilities::default(),
        wasm_file: wasm.to_string(),
        min_runtime_version: String::new(),
        config,
    }
}

fn plugin(name: &str, dir: &str) -> RegisteredPlugin {
    RegisteredPlugin {
        manifest: manifest(name, "plugin.wasm", Json::Null),
        dir: dir.to_string(),
        wasm_path: format!("{dir}/plugin.wasm"),
        preloaded: false,
    }
}

fn strings(v: &[&str]) -> Vec<String> {
    v.iter().map(|s| s.to_string()).collect()
}

fn text(e: RuntimeError) -> String {
    match e {
        RuntimeError::ModuleLoad(m) | RuntimeError::ModuleNotFound(m) | RuntimeError::Manifest(m) => m,
    }
}

#[test]
fn plugin_names_are_lowercase_identifiers_of_at_most_64_bytes() {
    for ok in ["a", "0", "my-transform", "row_scorer2", &"a".repeat(64)] {
        assert!(is_valid_plugin_name(ok), "{ok}");
    }
    for bad in ["", "-a", "_a", "A", "my transform", "dot.ted", "ümlaut", &"a".repeat(65), "../x"] {
        assert!(!is_valid_plugin_name(bad), "{bad}");
    }
}

#[test]
fn validate_checks_name_path_and_config() {
    let ok = manifest("my-transform", "plugin.wasm", Json::Null);
    assert_eq!(ok.validate(), Ok(()));
    let table = manifest("my-transform", "bin/plugin.wasm", Json::Object(vec![]));
    assert_eq!(table.validate(), Ok(()));

    let bad_name = manifest("My Plugin", "plugin.wasm", Json::Null);
    assert_eq!(
        bad_name.validate().unwrap_err(),
        "invalid plugin name 'My Plugin': use 1-64 lowercase letters, digits, '-' or '_', starting with a letter or digit"
    );
    for wasm in ["", "/etc/plugin.wasm", "../plugin.wasm", "a/../../b.wasm", "./plugin.wasm"] {
        let m = manifest("p", wasm, Json::Null);
        assert_eq!(
            m.validate().unwrap_err(),
            format!("wasm_file '{wasm}' must be a relative path inside the plugin directory")
        );
    }
    let bad_config = manifest("p", "plugin.wasm", Json::Bool(true));
    assert_eq!(bad_config.validate().unwrap_err(), "[config] must be a table");
}

#[test]
fn validate_parts_decides_from_the_components() {
    let m = manifest("p", "x.wasm", Json::Null);
    assert_eq!(m.validate_parts(&vec![PathPart::Normal]), Ok(()));
    assert!(m.validate_parts(&vec![PathPart::Normal, PathPart::ParentDir]).is_err());
    assert!(m.validate_parts(&vec![PathPart::RootDir, PathPart::Normal]).is_err());
}

#[test]
fn names_derived_from_file_stems() {
    assert_eq!(plugin_name_from_stem("Row Scorer.v2").unwrap(), "row-scorer-v2");
    assert_eq!(plugin_name_from_stem("my_plugin").unwrap(), "my_plugin");
    let e = plugin_name_from_stem("été").unwrap_err();
    assert_eq!(
        text(e),
        "cannot derive a plugin name from 'été'; rename the file (lowercase letters, digits, '-' or '_')"
    );
    assert!(plugin_name_from_stem(".hidden").is_err());
}

#[test]
fn generated_manifests_have_one_port_each_way() {
    let m = generated_manifest("row-scorer", "Row Scorer.wasm");
    assert_eq!(m.name, "row-scorer");
    assert_eq!(m.version, "0.1.0");
    assert_eq!(m.description, "Installed from Row Scorer.wasm");
    assert_eq!(m.category, "plugin");
    assert_eq!(m.wasm_file, "plugin.wasm");
    assert_eq!(m.inputs.len(), 1);
    assert_eq!(m.inputs[0].name, "input");
    assert_eq!(m.inputs[0].port_type, "any");
    assert_eq!(m.outputs[0].name, "output");
    assert!(!m.outputs[0].required);
    assert!(m.config.is_null());
    assert_eq!(m.validate(), Ok(()));
}

#[test]
fn check_reserved_refuses_built_in_names() {
    let reserved = strings(&["http-request", "debug"]);
    let e = check_reserved("http-request", &reserved).unwrap_err();
    assert_eq!(text(e), "'http-request' is the name of a built-in node; rename the plugin");
    assert!(check_reserved("my-transform", &reserved).is_ok());
}

#[test]
fn modules_need_the_node_exports() {
    assert!(check_module(&strings(&["memory", "z8_alloc", "z8_process", "extra"])).is_ok());
    let e = check_module(&strings(&["z8_alloc"])).unwrap_err();
    assert!(matches!(e, RuntimeError::ModuleLoad(_)));
    assert_eq!(text(e), "not a z8run plugin: missing exports memory, z8_process");
    let e = check_module(&vec![]).unwrap_err();
    assert_eq!(text(e), "not a z8run plugin: missing exports memory, z8_alloc, z8_process");
}

#[test]
fn install_sources_are_directories_or_wasm_files() {
    assert_eq!(classify_source(true, true, false, "d").unwrap(), SourceKind::Directory);
    assert_eq!(classify_source(true, false, true, "f.wasm").unwrap(), SourceKind::WasmFile);
    match classify_source(false, false, true, "/nowhere/f.wasm").unwrap_err() {
        RuntimeError::ModuleNotFound(m) => assert_eq!(m, "/nowhere/f.wasm"),
        e => panic!("{e:?}"),
    }
    assert_eq!(
        text(classify_source(true, false, false, "f.txt").unwrap_err()),
        "Source must be a .wasm file or a directory with manifest.toml"
    );
    assert!(check_not_installed("p", false).is_ok());
    assert_eq!(
        text(check_not_installed("p", true).unwrap_err()),
        "A plugin named 'p' is already installed. Remove it first."
    );
}

#[test]
fn only_direct_children_of_the_plugins_directory_are_removed() {
    let root = strings(&["/", "srv", "plugins"]);
    assert!(check_removal_target(&root, &strings(&["/", "srv", "plugins", "p"]), "/srv/plugins", "/srv/plugins/p").is_ok());
    let e = check_removal_target(&root, &strings(&["/", "srv", "p"]), "/srv/plugins", "/srv/p").unwrap_err();
    assert_eq!(text(e), "Refusing to remove /srv/p: not inside /srv/plugins");
    assert!(check_removal_target(&root, &strings(&["/", "srv", "plugins", "p", "q"]), "r", "d").is_err());
    assert!(check_removal_target(&root, &root, "r", "d").is_err());
}

#[test]
fn the_plugin_table_is_keyed_by_name() {
    let mut reg = PluginRegistry::new("/srv/plugins");
    assert_eq!(reg.plugins_dir(), "/srv/plugins");
    assert_eq!(reg.count(), 0);
    reg.register(plugin("a", "/srv/plugins/a"));
    reg.register(plugin("b", "/srv/plugins/b"));
    reg.register(plugin("a", "/srv/plugins/a2"));
    assert_eq!(reg.count(), 2);
    assert_eq!(reg.get("a").unwrap().dir, "/srv/plugins/a2");
    assert_eq!(reg.list().len(), 2);
    assert!(reg.get("c").is_none());
    assert_eq!(text(reg.installed("c").unwrap_err()), "Plugin 'c' is not installed");
    let gone = reg.unregister("a").unwrap();
    assert_eq!(gone.dir, "/srv/plugins/a2");
    assert!(reg.get("a").is_none());
    assert!(reg.unregister("a").is_none());
    assert_eq!(reg.installed("b").unwrap().manifest.name, "b");
    assert_eq!(reg.count(), 1);
}


fn source(exists: bool, is_dir: bool, wasm: bool, stem: &str) -> InstallEvent {
    InstallEvent::Source {
        exists,
        is_dir,
        wasm_extension: wasm,
        display: format!("/src/{stem}"),
        stem: stem.to_string(),
        file_name: format!("{stem}.wasm"),
    }
}

fn finished(a: InstallAction) -> Result<String, String> {
    match a {
        InstallAction::Finish(r) => r.map_err(text),
        _ => Err("not finished".to_string()),
    }
}

#[test]
fn an_install_checks_in_order_and_writes_last() {
    let reserved = strings(&["debug"]);
    let (s, a) = install_step(InstallState::Start, source(true, false, true, "Row Scorer"), &reserved);
    assert!(matches!(a, InstallAction::ReadModule));
    match &s {
        InstallState::ReadingModule(SourceKind::WasmFile, m) => {
            assert_eq!(m.name, "row-scorer");
            assert_eq!(m.description, "Installed from Row Scorer.wasm");
        }
        _ => panic!("expected the module to be read"),
    }
    let (s, a) = install_step(s, InstallEvent::ModuleRead(Ok(())), &reserved);
    assert!(matches!(a, InstallAction::Compile));
    let (s, a) = install_step(s, InstallEvent::Compiled(Ok(strings(&["memory", "z8_alloc", "z8_process"]))), &reserved);
    assert!(matches!(a, InstallAction::Probe));
    let (s, a) = install_step(s, InstallEvent::Probed(false), &reserved);
    assert!(matches!(a, InstallAction::Write));
    let (s, a) = install_step(s, InstallEvent::Written(Ok(())), &reserved);
    assert!(matches!(a, InstallAction::Register));
    let (s, a) = install_step(s, InstallEvent::Registered(Ok("row-scorer".to_string())), &reserved);
    assert!(matches!(s, InstallState::Done));
    assert_eq!(finished(a), Ok("row-scorer".to_string()));
}

#[test]
fn an_install_stops_at_the_first_refusal() {
    let reserved = strings(&["debug"]);
    let (_, a) = install_step(InstallState::Start, source(false, false, true, "x"), &reserved);
    assert_eq!(finished(a), Err("/src/x".to_string()));
    let (_, a) = install_step(InstallState::Start, source(true, false, false, "x"), &reserved);
    assert_eq!(finished(a), Err("Source must be a .wasm file or a directory with manifest.toml".to_string()));
    let (s, a) = install_step(InstallState::Start, source(true, true, false, "dir"), &reserved);
    assert!(matches!(a, InstallAction::ReadManifest));
    let (_, a) = install_step(s, InstallEvent::ManifestRead(Ok(manifest("debug", "../x.wasm", Json::Null))), &reserved);
    assert_eq!(
        finished(a),
        Err("wasm_file '../x.wasm' must be a relative path inside the plugin directory".to_string())
    );
    let (s, _) = install_step(InstallState::Start, source(true, true, false, "dir"), &reserved);
    let (s, a) = install_step(s, InstallEvent::ManifestRead(Ok(manifest("debug", "plugin.wasm", Json::Null))), &reserved);
    assert!(matches!(a, InstallAction::ReadModule));
    let (_, a) = install_step(s, InstallEvent::ModuleRead(Ok(())), &reserved);
    assert_eq!(finished(a), Err("'debug' is the name of a built-in node; rename the plugin".to_string()));
    let m = manifest("scorer", "plugin.wasm", Json::Null);
    let (_, a) = install_step(InstallState::Compiling(m), InstallEvent::Compiled(Ok(strings(&["memory"]))), &reserved);
    assert_eq!(finished(a), Err("not a z8run plugin: missing exports z8_alloc, z8_process".to_string()));
    let m = manifest("scorer", "plugin.wasm", Json::Null);
    let (_, a) = install_step(InstallState::Probing(m), InstallEvent::Probed(true), &reserved);
    assert_eq!(finished(a), Err("A plugin named 'scorer' is already installed. Remove it first.".to_string()));
    let m = manifest("scorer", "plugin.wasm", Json::Null);
    let (_, a) = install_step(InstallState::Writing(m), InstallEvent::Written(Err(RuntimeError::ModuleLoad("disk".to_string()))), &reserved);
    assert!(matches!(a, InstallAction::Discard(RuntimeError::ModuleLoad(ref m)) if m == "disk"));
    let m = manifest("scorer", "plugin.wasm", Json::Null);
    let (_, a) = install_step(InstallState::Registering(m), InstallEvent::Registered(Err(RuntimeError::Manifest("bad".to_string()))), &reserved);
    assert!(matches!(a, InstallAction::Discard(RuntimeError::Manifest(ref m)) if m == "bad"));
}

#[test]
fn a_removal_forgets_the_plugin_only_once_its_directory_is_deleted() {
    let mut reg = PluginRegistry::new("/plugins");
    reg.register(plugin("scorer", "/plugins/scorer"));
    let (s, a) = reg.removal_step("scorer", RemovalState::Start, RemovalEvent::Begin);
    assert!(matches!(a, RemovalAction::Resolve(ref d) if d == "/plugins/scorer"));
    let here = Location {
        root: strings(&["/", "plugins"]),
        dir: strings(&["/", "plugins", "scorer"]),
        root_display: "/plugins".to_string(),
        dir_display: "/plugins/scorer".to_string(),
    };
    let (s, a) = reg.removal_step("scorer", s, RemovalEvent::Located(Ok(here)));
    assert!(matches!(a, RemovalAction::Delete));
    assert_eq!(reg.count(), 1);
    let (_, a) = reg.removal_step("scorer", s, RemovalEvent::Deleted(Err(RuntimeError::ModuleLoad("busy".to_string()))));
    assert!(matches!(a, RemovalAction::Finish(Err(_))));
    assert_eq!(reg.count(), 1);
    let (_, a) = reg.removal_step("scorer", RemovalState::Deleting, RemovalEvent::Deleted(Ok(())));
    assert!(matches!(a, RemovalAction::Finish(Ok(()))));
    assert_eq!(reg.count(), 0);
    let (_, a) = reg.removal_step("scorer", RemovalState::Start, RemovalEvent::Begin);
    assert!(matches!(a, RemovalAction::Finish(Err(RuntimeError::ModuleNotFound(ref m))) if m == "Plugin 'scorer' is not installed"));
    let outside = Location {
        root: strings(&["/", "plugins"]),
        dir: strings(&["/", "etc"]),
        root_display: "/plugins".to_string(),
        dir_display: "/etc".to_string(),
    };
    let (_, a) = reg.removal_step("x", RemovalState::Locating, RemovalEvent::Located(Ok(outside)));
    assert!(matches!(a, RemovalAction::Finish(Err(RuntimeError::ModuleLoad(_)))));
}
