//! The order of the decisions that install and remove a plugin. Each is a
//! state machine: the caller does what an action asks on disk or in the
//! WASM sandbox and steps the machine with what came of it.
use vstd::prelude::*;
use vstd::utf8::encode_utf8;
use crate::error::RuntimeError;
use crate::manifest::{
    PluginManifest, derived_name, generated_manifest, is_generated, path_components,
    plainly_split, plugin_name_from_stem, underivable_message, valid_plugin_name,
};
use crate::plugins::{
    PluginRegistry, SourceKind, already_installed_message, check_module, check_not_installed,
    check_removal_target, check_reserved, classify_source, direct_child, has_plugin,
    missing_exports, missing_exports_message, not_installed_message, plugin_named,
    refuse_removal_message, reserved_message, unsupported_source_message, views,
};

verus! {

/// Where an install stands.
pub enum InstallState {
    /// Nothing is known of the source yet.
    Start,
    /// The source is a plugin directory; its `manifest.toml` is being read.
    ReadingManifest,
    /// The manifest is known; the module is being read from the source.
    ReadingModule(SourceKind, PluginManifest),
    /// The module is being compiled to list its exports.
    Compiling(PluginManifest),
    /// It is being looked up whether the plugin's directory exists.
    Probing(PluginManifest),
    /// The manifest and the module are being written into the plugin's
    /// directory.
    Writing(PluginManifest),
    /// The written plugin is being registered from its directory.
    Registering(PluginManifest),
    /// The install has ended.
    Done,
}

/// What came of the last action.
pub enum InstallEvent {
    /// What the source path is: whether it exists, is a directory, has the
    /// `wasm` extension; how it is shown, its file stem and its file name.
    Source {
        exists: bool,
        is_dir: bool,
        wasm_extension: bool,
        display: String,
        stem: String,
        file_name: String,
    },
    /// The directory's manifest, read and parsed.
    ManifestRead(Result<PluginManifest, RuntimeError>),
    /// Whether the module could be read.
    ModuleRead(Result<(), RuntimeError>),
    /// The names the compiled module exports.
    Compiled(Result<Vec<String>, RuntimeError>),
    /// Whether the plugin's directory already exists.
    Probed(bool),
    /// Whether the manifest and the module were written.
    Written(Result<(), RuntimeError>),
    /// What registering the written plugin answered.
    Registered(Result<String, RuntimeError>),
}

/// What the caller is to do next.
pub enum InstallAction {
    /// Read and parse the directory's `manifest.toml`.
    ReadManifest,
    /// Read the module: the file the manifest names inside the directory,
    /// or the source file itself.
    ReadModule,
    /// Compile the module and list its exports.
    Compile,
    /// Look up whether the plugin's directory exists.
    Probe,
    /// Write the manifest and the module into the plugin's directory.
    Write,
    /// Register the plugin from its directory.
    Register,
    /// Remove the plugin's directory, then answer with the error.
    Discard(RuntimeError),
    /// Answer.
    Finish(Result<String, RuntimeError>),
}

/// The event is the answer to what `state` waits for.
pub open spec fn install_fits(state: InstallState, event: InstallEvent) -> bool {
    match state {
        InstallState::Start => event is Source,
        InstallState::ReadingManifest => event is ManifestRead,
        InstallState::ReadingModule(..) => event is ModuleRead,
        InstallState::Compiling(_) => event is Compiled,
        InstallState::Probing(_) => event is Probed,
        InstallState::Writing(_) => event is Written,
        InstallState::Registering(_) => event is Registered,
        InstallState::Done => false,
    }
}

/// A manifest that passed validation: a valid name, a `wasm_file`, and a
/// configuration that is absent or a table.
pub open spec fn admissible(m: PluginManifest) -> bool {
    &&& valid_plugin_name(encode_utf8(m.name@))
    &&& m.wasm_file@.len() > 0
    &&& (m.config.spec_is_null() || m.config.spec_is_object())
}

/// What each state holds of its manifest: once read, it is admissible;
/// once the module is to be compiled, its name is not a reserved one.
pub open spec fn install_invariant(state: InstallState, reserved: Seq<Seq<char>>) -> bool {
    match state {
        InstallState::ReadingModule(_, m) => admissible(m),
        InstallState::Compiling(m) => admissible(m) && !reserved.contains(m.name@),
        InstallState::Probing(m) => admissible(m) && !reserved.contains(m.name@),
        InstallState::Writing(m) => admissible(m) && !reserved.contains(m.name@),
        InstallState::Registering(m) => admissible(m) && !reserved.contains(m.name@),
        _ => true,
    }
}

/// The install stops with an error of the given kind and message.
pub open spec fn stops_with(r: (InstallState, InstallAction), kind: u8, msg: Seq<char>) -> bool {
    &&& r.0 is Done
    &&& match r.1 {
        InstallAction::Finish(Err(RuntimeError::ModuleLoad(m))) => kind == 0 && m@ == msg,
        InstallAction::Finish(Err(RuntimeError::ModuleNotFound(m))) => kind == 1 && m@ == msg,
        InstallAction::Finish(Err(RuntimeError::Manifest(m))) => kind == 2 && m@ == msg,
        _ => false,
    }
}

/// The step from the start: the source is classified; a directory's
/// manifest is read next, a bare module is named after its file stem.
pub open spec fn install_begins(
    exists: bool,
    is_dir: bool,
    wasm_extension: bool,
    display: Seq<char>,
    stem: Seq<char>,
    file_name: Seq<char>,
    r: (InstallState, InstallAction),
) -> bool {
    if !exists {
        stops_with(r, 1, display)
    } else if is_dir {
        r.0 is ReadingManifest && r.1 is ReadManifest
    } else if !wasm_extension {
        stops_with(r, 0, unsupported_source_message())
    } else if !valid_plugin_name(encode_utf8(derived_name(stem))) {
        stops_with(r, 2, underivable_message(stem))
    } else {
        &&& (r.0 matches InstallState::ReadingModule(SourceKind::WasmFile, m) && is_generated(
            m,
            derived_name(stem),
            file_name,
        ))
        &&& r.1 is ReadModule
    }
}

/// The step once the directory's manifest is read: a manifest that fails
/// validation stops the install; where no platform decides how its
/// `wasm_file` splits, exactly when `validation` says so.
pub open spec fn install_validates(m: PluginManifest, r: (InstallState, InstallAction)) -> bool {
    &&& (r.0 == InstallState::ReadingModule(SourceKind::Directory, m) && r.1 is ReadModule
        && admissible(m)) || (r.0 is Done && r.1 matches InstallAction::Finish(
        Err(RuntimeError::Manifest(_)),
    ))
    &&& plainly_split(m.wasm_file@) ==> match m.validation(path_components(m.wasm_file@)) {
        Ok(()) => r.0 == InstallState::ReadingModule(SourceKind::Directory, m),
        Err(msg) => stops_with(r, 2, msg),
    }
}

/// Steps an install: given where it stands, the names of the built-in
/// nodes and what came of the last action, where it stands next and what
/// to do. The checks come in the order: source, name or manifest, module
/// read, reserved name, module exports, existing directory; the plugin is
/// written only after all of them pass, registered only once written, and
/// its directory is removed if writing or registering fails.
pub fn install_step(state: InstallState, event: InstallEvent, reserved: &Vec<String>) -> (r: (
    InstallState,
    InstallAction,
))
    requires
        install_fits(state, event),
    ensures
        install_invariant(state, views(reserved@)) ==> install_invariant(r.0, views(reserved@)),
        r.1 is Write ==> (r.0 matches InstallState::Writing(m) && state == InstallState::Probing(m)),
        match state {
            InstallState::Start => match event {
                InstallEvent::Source { exists, is_dir, wasm_extension, display, stem, file_name } =>
                    install_begins(
                    exists,
                    is_dir,
                    wasm_extension,
                    display@,
                    stem@,
                    file_name@,
                    r,
                ),
                _ => false,
            },
            InstallState::ReadingManifest => match event {
                InstallEvent::ManifestRead(Err(e)) => r == (
                    InstallState::Done,
                    InstallAction::Finish(Err(e)),
                ),
                InstallEvent::ManifestRead(Ok(m)) => install_validates(m, r),
                _ => false,
            },
            InstallState::ReadingModule(_, m) => match event {
                InstallEvent::ModuleRead(Err(e)) => r == (
                    InstallState::Done,
                    InstallAction::Finish(Err(e)),
                ),
                InstallEvent::ModuleRead(Ok(())) => if views(reserved@).contains(m.name@) {
                    stops_with(r, 2, reserved_message(m.name@))
                } else {
                    r.0 == InstallState::Compiling(m) && r.1 is Compile
                },
                _ => false,
            },
            InstallState::Compiling(m) => match event {
                InstallEvent::Compiled(Err(e)) => r == (
                    InstallState::Done,
                    InstallAction::Finish(Err(e)),
                ),
                InstallEvent::Compiled(Ok(exports)) => if missing_exports(views(exports@)).len()
                    > 0 {
                    stops_with(r, 0, missing_exports_message(views(exports@)))
                } else {
                    r.0 == InstallState::Probing(m) && r.1 is Probe
                },
                _ => false,
            },
            InstallState::Probing(m) => match event {
                InstallEvent::Probed(exists) => if exists {
                    stops_with(r, 2, already_installed_message(m.name@))
                } else {
                    r.0 == InstallState::Writing(m) && r.1 is Write
                },
                _ => false,
            },
            InstallState::Writing(m) => match event {
                InstallEvent::Written(Err(e)) => r == (
                    InstallState::Done,
                    InstallAction::Discard(e),
                ),
                InstallEvent::Written(Ok(())) => r == (
                    InstallState::Registering(m),
                    InstallAction::Register,
                ),
                _ => false,
            },
            InstallState::Registering(_) => match event {
                InstallEvent::Registered(Err(e)) => r == (
                    InstallState::Done,
                    InstallAction::Discard(e),
                ),
                InstallEvent::Registered(Ok(name)) => r == (
                    InstallState::Done,
                    InstallAction::Finish(Ok(name)),
                ),
                _ => false,
            },
            InstallState::Done => false,
        },
{
    match state {
        InstallState::Start => match event {
            InstallEvent::Source { exists, is_dir, wasm_extension, display, stem, file_name } => {
                match classify_source(exists, is_dir, wasm_extension, display.as_str()) {
                    Err(e) => (InstallState::Done, InstallAction::Finish(Err(e))),
                    Ok(SourceKind::Directory) => (
                        InstallState::ReadingManifest,
                        InstallAction::ReadManifest,
                    ),
                    Ok(SourceKind::WasmFile) => match plugin_name_from_stem(stem.as_str()) {
                        Err(e) => (InstallState::Done, InstallAction::Finish(Err(e))),
                        Ok(name) => {
                            let m = generated_manifest(name.as_str(), file_name.as_str());
                            proof {
                                lemma_generated_admissible(m, name@, file_name@);
                            }
                            (
                                InstallState::ReadingModule(SourceKind::WasmFile, m),
                                InstallAction::ReadModule,
                            )
                        },
                    },
                }
            },
            _ => (InstallState::Done, InstallAction::ReadManifest),
        },
        InstallState::ReadingManifest => match event {
            InstallEvent::ManifestRead(Err(e)) => (InstallState::Done, InstallAction::Finish(Err(e))),
            InstallEvent::ManifestRead(Ok(m)) => match m.validate() {
                Err(msg) => (
                    InstallState::Done,
                    InstallAction::Finish(Err(RuntimeError::Manifest(msg))),
                ),
                Ok(()) => (
                    InstallState::ReadingModule(SourceKind::Directory, m),
                    InstallAction::ReadModule,
                ),
            },
            _ => (InstallState::Done, InstallAction::ReadManifest),
        },
        InstallState::ReadingModule(_, m) => match event {
            InstallEvent::ModuleRead(Err(e)) => (InstallState::Done, InstallAction::Finish(Err(e))),
            InstallEvent::ModuleRead(Ok(())) => match check_reserved(m.name.as_str(), reserved) {
                Err(e) => (InstallState::Done, InstallAction::Finish(Err(e))),
                Ok(()) => (InstallState::Compiling(m), InstallAction::Compile),
            },
            _ => (InstallState::Done, InstallAction::ReadManifest),
        },
        InstallState::Compiling(m) => match event {
            InstallEvent::Compiled(Err(e)) => (InstallState::Done, InstallAction::Finish(Err(e))),
            InstallEvent::Compiled(Ok(exports)) => match check_module(&exports) {
                Err(e) => (InstallState::Done, InstallAction::Finish(Err(e))),
                Ok(()) => (InstallState::Probing(m), InstallAction::Probe),
            },
            _ => (InstallState::Done, InstallAction::ReadManifest),
        },
        InstallState::Probing(m) => match event {
            InstallEvent::Probed(exists) => match check_not_installed(m.name.as_str(), exists) {
                Err(e) => (InstallState::Done, InstallAction::Finish(Err(e))),
                Ok(()) => (InstallState::Writing(m), InstallAction::Write),
            },
            _ => (InstallState::Done, InstallAction::ReadManifest),
        },
        InstallState::Writing(m) => match event {
            InstallEvent::Written(Err(e)) => (InstallState::Done, InstallAction::Discard(e)),
            InstallEvent::Written(Ok(())) => (InstallState::Registering(m), InstallAction::Register),
            _ => (InstallState::Done, InstallAction::ReadManifest),
        },
        InstallState::Registering(_) => match event {
            InstallEvent::Registered(Err(e)) => (InstallState::Done, InstallAction::Discard(e)),
            InstallEvent::Registered(Ok(name)) => (InstallState::Done, InstallAction::Finish(Ok(name))),
            _ => (InstallState::Done, InstallAction::ReadManifest),
        },
        InstallState::Done => (InstallState::Done, InstallAction::ReadManifest),
    }
}

/// A manifest generated under a valid plugin name is admissible.
proof fn lemma_generated_admissible(m: PluginManifest, name: Seq<char>, file_name: Seq<char>)
    requires
        is_generated(m, name, file_name),
        valid_plugin_name(encode_utf8(name)),
    ensures
        admissible(m),
{
    reveal_strlit("plugin.wasm");
}

/// Where a removal stands.
pub enum RemovalState {
    /// The plugin is being looked up in the table.
    Start,
    /// The directory it was loaded from is being resolved, with the plugins
    /// directory.
    Locating,
    /// The directory is being deleted.
    Deleting,
    /// The removal has ended.
    Done,
}

/// The plugins directory and the plugin's directory, both resolved: as
/// components, and as they are shown.
pub struct Location {
    pub root: Vec<String>,
    pub dir: Vec<String>,
    pub root_display: String,
    pub dir_display: String,
}

/// What came of the last action.
pub enum RemovalEvent {
    /// The removal is asked for.
    Begin,
    /// The two directories, resolved.
    Located(Result<Location, RuntimeError>),
    /// Whether the directory was deleted.
    Deleted(Result<(), RuntimeError>),
}

/// What the caller is to do next.
pub enum RemovalAction {
    /// Resolve this directory, the one the plugin was loaded from, and the
    /// plugins directory.
    Resolve(String),
    /// Delete the resolved directory.
    Delete,
    /// Answer.
    Finish(Result<(), RuntimeError>),
}

/// The event is the answer to what `state` waits for.
pub open spec fn removal_fits(state: RemovalState, event: RemovalEvent) -> bool {
    match state {
        RemovalState::Start => event is Begin,
        RemovalState::Locating => event is Located,
        RemovalState::Deleting => event is Deleted,
        RemovalState::Done => false,
    }
}

impl PluginRegistry {
    /// Steps the removal of the plugin `name`: it must be installed, its
    /// directory must be a direct child of the plugins directory, and it is
    /// forgotten only once its directory is deleted.
    pub fn removal_step(&mut self, name: &str, state: RemovalState, event: RemovalEvent) -> (r: (
        RemovalState,
        RemovalAction,
    ))
        requires
            removal_fits(state, event),
        ensures
            final(self).dir() == old(self).dir(),
            !(state is Deleting && event matches RemovalEvent::Deleted(Ok(())))
                ==> final(self).plugins() == old(self).plugins(),
            match state {
                RemovalState::Start => if has_plugin(old(self).plugins(), name@) {
                    r.0 is Locating && (r.1 matches RemovalAction::Resolve(d) && d@ == plugin_named(
                        old(self).plugins(),
                        name@,
                    ).dir@)
                } else {
                    r.0 is Done && (r.1 matches RemovalAction::Finish(
                        Err(RuntimeError::ModuleNotFound(m)),
                    ) && m@ == not_installed_message(name@))
                },
                RemovalState::Locating => match event {
                    RemovalEvent::Located(Err(e)) => r == (
                        RemovalState::Done,
                        RemovalAction::Finish(Err(e)),
                    ),
                    RemovalEvent::Located(Ok(l)) => if direct_child(views(l.root@), views(l.dir@)) {
                        r.0 is Deleting && r.1 is Delete
                    } else {
                        r.0 is Done && (r.1 matches RemovalAction::Finish(
                            Err(RuntimeError::ModuleLoad(m)),
                        ) && m@ == refuse_removal_message(l.dir_display@, l.root_display@))
                    },
                    _ => false,
                },
                RemovalState::Deleting => match event {
                    RemovalEvent::Deleted(Err(e)) => r == (
                        RemovalState::Done,
                        RemovalAction::Finish(Err(e)),
                    ),
                    RemovalEvent::Deleted(Ok(())) => {
                        &&& r.0 is Done
                        &&& r.1 matches RemovalAction::Finish(Ok(()))
                        &&& !has_plugin(final(self).plugins(), name@)
                        &&& forall|n: Seq<char>|
                            n != name@ ==> (#[trigger] has_plugin(final(self).plugins(), n)
                                == has_plugin(old(self).plugins(), n))
                    },
                    _ => false,
                },
                RemovalState::Done => false,
            },
    {
        match state {
            RemovalState::Start => match self.installed(name) {
                Ok(p) => (RemovalState::Locating, RemovalAction::Resolve(String::from_str(p.dir.as_str()))),
                Err(e) => (RemovalState::Done, RemovalAction::Finish(Err(e))),
            },
            RemovalState::Locating => match event {
                RemovalEvent::Located(Err(e)) => (RemovalState::Done, RemovalAction::Finish(Err(e))),
                RemovalEvent::Located(Ok(l)) => match check_removal_target(
                    &l.root,
                    &l.dir,
                    l.root_display.as_str(),
                    l.dir_display.as_str(),
                ) {
                    Err(e) => (RemovalState::Done, RemovalAction::Finish(Err(e))),
                    Ok(()) => (RemovalState::Deleting, RemovalAction::Delete),
                },
                _ => (RemovalState::Done, RemovalAction::Delete),
            },
            RemovalState::Deleting => match event {
                RemovalEvent::Deleted(Err(e)) => (RemovalState::Done, RemovalAction::Finish(Err(e))),
                RemovalEvent::Deleted(Ok(())) => {
                    self.unregister(name);
                    (RemovalState::Done, RemovalAction::Finish(Ok(())))
                },
                _ => (RemovalState::Done, RemovalAction::Delete),
            },
            RemovalState::Done => (RemovalState::Done, RemovalAction::Delete),
        }
    }
}

} // verus!
