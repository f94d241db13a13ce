//! The table of registered WASM plugins and the checks that admit a plugin
//! into it.
use vstd::prelude::*;
use vstd::string::*;
use crate::error::RuntimeError;
use crate::manifest::PluginManifest;
use crate::text::{concat3, str_eq};

verus! {

/// A plugin known to the registry.
#[derive(Debug)]
pub struct RegisteredPlugin {
    /// Its manifest.
    pub manifest: PluginManifest,
    /// The directory it was loaded from.
    pub dir: String,
    /// The path of its WASM file.
    pub wasm_path: String,
    /// Whether the module is preloaded in memory.
    pub preloaded: bool,
}

/// The name a plugin is registered under.
pub open spec fn plugin_name(p: RegisteredPlugin) -> Seq<char> {
    p.manifest.name@
}

/// Some plugin in `s` is registered under `name`.
pub open spec fn has_plugin(s: Seq<RegisteredPlugin>, name: Seq<char>) -> bool {
    exists|i: int| 0 <= i < s.len() && plugin_name(#[trigger] s[i]) == name
}

/// The plugin registered under `name` (meaningful when there is one).
pub open spec fn plugin_named(s: Seq<RegisteredPlugin>, name: Seq<char>) -> RegisteredPlugin {
    s[choose|i: int| 0 <= i < s.len() && plugin_name(#[trigger] s[i]) == name]
}

/// No two plugins share a name.
pub open spec fn unique_names(s: Seq<RegisteredPlugin>) -> bool {
    forall|i: int, j: int|
        0 <= i < s.len() && 0 <= j < s.len() && plugin_name(#[trigger] s[i]) == plugin_name(
            #[trigger] s[j],
        ) ==> i == j
}

/// In a table with unique names, the plugin at `i` is the one named by
/// its name.
pub proof fn lemma_named_at(s: Seq<RegisteredPlugin>, i: int)
    requires
        unique_names(s),
        0 <= i < s.len(),
    ensures
        has_plugin(s, plugin_name(s[i])),
        plugin_named(s, plugin_name(s[i])) == s[i],
{
    let n = plugin_name(s[i]);
    assert(0 <= i < s.len() && plugin_name(s[i]) == n);
    let k = choose|k: int| 0 <= k < s.len() && plugin_name(#[trigger] s[k]) == n;
    assert(k == i);
}

/// The registry of available WASM plugins, by name.
pub struct PluginRegistry {
    plugins: Vec<RegisteredPlugin>,
    plugins_dir: String,
}

impl PluginRegistry {
    #[verifier::type_invariant]
    spec fn names_unique(self) -> bool {
        unique_names(self.plugins@)
    }

    /// The registered plugins.
    pub closed spec fn plugins(self) -> Seq<RegisteredPlugin> {
        self.plugins@
    }

    /// The base directory where plugins are stored.
    pub closed spec fn dir(self) -> Seq<char> {
        self.plugins_dir@
    }

    /// A registry over `plugins_dir` that knows no plugin yet.
    pub fn new(plugins_dir: &str) -> (r: Self)
        ensures
            r.plugins().len() == 0,
            r.dir() == plugins_dir@,
            unique_names(r.plugins()),
    {
        PluginRegistry { plugins: Vec::new(), plugins_dir: String::from_str(plugins_dir) }
    }

    /// The position of the plugin named `name`, if any.
    fn position(&self, name: &str) -> (r: Option<usize>)
        ensures
            r.is_some() == has_plugin(self.plugins(), name@),
            r matches Some(i) ==> i < self.plugins().len() && plugin_name(self.plugins()[i as int])
                == name@,
    {
        let n = self.plugins.len();
        let mut i: usize = 0;
        while i < n
            invariant
                n == self.plugins@.len(),
                i <= n,
                forall|j: int| 0 <= j < i ==> plugin_name(#[trigger] self.plugins@[j]) != name@,
            decreases n - i,
        {
            if str_eq(self.plugins[i].manifest.name.as_str(), name) {
                return Some(i);
            }
            i = i + 1;
        }
        None
    }

    /// The plugin registered under `name`.
    pub fn get(&self, name: &str) -> (r: Option<&RegisteredPlugin>)
        ensures
            r.is_some() == has_plugin(self.plugins(), name@),
            r.is_some() ==> *r.unwrap() == plugin_named(self.plugins(), name@),
    {
        proof {
            use_type_invariant(self);
        }
        match self.position(name) {
            Some(i) => {
                proof {
                    lemma_named_at(self.plugins@, i as int);
                }
                Some(&self.plugins[i])
            },
            None => None,
        }
    }

    /// All registered plugins.
    pub fn list(&self) -> (r: &Vec<RegisteredPlugin>)
        ensures
            r@ == self.plugins(),
    {
        &self.plugins
    }

    /// The number of registered plugins.
    pub fn count(&self) -> (r: usize)
        ensures
            r == self.plugins().len(),
    {
        self.plugins.len()
    }

    /// The plugins directory.
    pub fn plugins_dir(&self) -> (r: &str)
        ensures
            r@ == self.dir(),
    {
        self.plugins_dir.as_str()
    }

    /// Registers `plugin` under its manifest's name, replacing any plugin
    /// registered under that name before.
    pub fn register(&mut self, plugin: RegisteredPlugin)
        ensures
            final(self).dir() == old(self).dir(),
            unique_names(final(self).plugins()),
            has_plugin(final(self).plugins(), plugin_name(plugin)),
            plugin_named(final(self).plugins(), plugin_name(plugin)) == plugin,
            forall|n: Seq<char>|
                n != plugin_name(plugin) ==> (#[trigger] has_plugin(final(self).plugins(), n)
                    == has_plugin(old(self).plugins(), n)),
            forall|n: Seq<char>|
                n != plugin_name(plugin) && has_plugin(old(self).plugins(), n) ==> #[trigger] plugin_named(
                    final(self).plugins(),
                    n,
                ) == plugin_named(old(self).plugins(), n),
            final(self).plugins().len() == old(self).plugins().len() + if has_plugin(
                old(self).plugins(),
                plugin_name(plugin),
            ) {
                0int
            } else {
                1int
            },
    {
        proof {
            use_type_invariant(&*self);
        }
        let ghost old_s = self.plugins@;
        let ghost pname = plugin_name(plugin);
        let pos = self.position(plugin.manifest.name.as_str());
        let mut v = Vec::new();
        std::mem::swap(&mut v, &mut self.plugins);
        match pos {
            Some(i) => {
                v.set(i, plugin);
            },
            None => {
                v.push(plugin);
            },
        }
        let ghost new_s = v@;
        assert(unique_names(new_s));
        self.plugins = v;
        proof {
            assert(forall|k: int| 0 <= k < old_s.len() && plugin_name(old_s[k]) != pname ==> new_s[k] == old_s[k]);
            let last: int = match pos { Some(i) => i as int, None => old_s.len() as int };
            assert(new_s[last] == plugin);
            lemma_named_at(new_s, last);
            assert forall|n: Seq<char>| n != pname implies #[trigger] has_plugin(new_s, n) == has_plugin(old_s, n) by {
                if has_plugin(old_s, n) {
                    let k = choose|k: int| 0 <= k < old_s.len() && plugin_name(#[trigger] old_s[k]) == n;
                    assert(new_s[k] == old_s[k]);
                }
                if has_plugin(new_s, n) {
                    let k = choose|k: int| 0 <= k < new_s.len() && plugin_name(#[trigger] new_s[k]) == n;
                    assert(k != last);
                    assert(old_s[k] == new_s[k]);
                }
            }
            assert forall|n: Seq<char>| n != pname && has_plugin(old_s, n) implies #[trigger] plugin_named(new_s, n) == plugin_named(old_s, n) by {
                let k = choose|k: int| 0 <= k < old_s.len() && plugin_name(#[trigger] old_s[k]) == n;
                lemma_named_at(old_s, k);
                assert(new_s[k] == old_s[k]);
                lemma_named_at(new_s, k);
            }
        }
    }

    /// Forgets the plugin registered under `name`, and hands it back.
    pub fn unregister(&mut self, name: &str) -> (r: Option<RegisteredPlugin>)
        ensures
            final(self).dir() == old(self).dir(),
            unique_names(final(self).plugins()),
            r.is_some() == has_plugin(old(self).plugins(), name@),
            r.is_some() ==> r.unwrap() == plugin_named(old(self).plugins(), name@),
            r.is_some() ==> final(self).plugins().len() == old(self).plugins().len() - 1,
            r.is_none() ==> final(self).plugins().len() == old(self).plugins().len(),
            !has_plugin(final(self).plugins(), name@),
            forall|n: Seq<char>|
                n != name@ ==> (#[trigger] has_plugin(final(self).plugins(), n) == has_plugin(
                    old(self).plugins(),
                    n,
                )),
            forall|n: Seq<char>|
                n != name@ && has_plugin(old(self).plugins(), n) ==> #[trigger] plugin_named(
                    final(self).plugins(),
                    n,
                ) == plugin_named(old(self).plugins(), n),
    {
        proof {
            use_type_invariant(&*self);
        }
        let ghost old_s = self.plugins@;
        match self.position(name) {
            None => None,
            Some(i) => {
                let mut v = Vec::new();
                std::mem::swap(&mut v, &mut self.plugins);
                let p = v.remove(i);
                let ghost new_s = v@;
                proof {
                    lemma_named_at(old_s, i as int);
                    assert(new_s =~= old_s.remove(i as int));
                    assert forall|a: int, b: int|
                        0 <= a < new_s.len() && 0 <= b < new_s.len() && plugin_name(#[trigger] new_s[a]) == plugin_name(#[trigger] new_s[b]) implies a == b by {
                        let a0 = if a < i { a } else { a + 1 };
                        let b0 = if b < i { b } else { b + 1 };
                        assert(new_s[a] == old_s[a0]);
                        assert(new_s[b] == old_s[b0]);
                    }
                }
                self.plugins = v;
                proof {
                    assert(!has_plugin(new_s, name@)) by {
                        if has_plugin(new_s, name@) {
                            let k = choose|k: int| 0 <= k < new_s.len() && plugin_name(#[trigger] new_s[k]) == name@;
                            let k0 = if k < i { k } else { k + 1 };
                            assert(new_s[k] == old_s[k0]);
                        }
                    }
                    assert forall|n: Seq<char>| n != name@ implies #[trigger] has_plugin(new_s, n) == has_plugin(old_s, n) by {
                        if has_plugin(old_s, n) {
                            let k = choose|k: int| 0 <= k < old_s.len() && plugin_name(#[trigger] old_s[k]) == n;
                            assert(k != i);
                            let k1 = if k < i { k } else { k - 1 };
                            assert(new_s[k1] == old_s[k]);
                        }
                        if has_plugin(new_s, n) {
                            let k = choose|k: int| 0 <= k < new_s.len() && plugin_name(#[trigger] new_s[k]) == n;
                            let k0 = if k < i { k } else { k + 1 };
                            assert(new_s[k] == old_s[k0]);
                        }
                    }
                    assert forall|n: Seq<char>| n != name@ && has_plugin(old_s, n) implies #[trigger] plugin_named(new_s, n) == plugin_named(old_s, n) by {
                        let k = choose|k: int| 0 <= k < old_s.len() && plugin_name(#[trigger] old_s[k]) == n;
                        assert(k != i);
                        let k1 = if k < i { k } else { k - 1 };
                        assert(new_s[k1] == old_s[k]);
                        lemma_named_at(old_s, k);
                        lemma_named_at(new_s, k1);
                    }
                }
                Some(p)
            },
        }
    }
}

} // verus!

verus! {

/// The character views of a list of strings.
pub open spec fn views(v: Seq<String>) -> Seq<Seq<char>> {
    v.map_values(|s: String| s@)
}

/// Whether `s` is among `v`.
pub fn contains_str(v: &Vec<String>, s: &str) -> (r: bool)
    ensures
        r == views(v@).contains(s@),
{
    let n = v.len();
    let mut i: usize = 0;
    while i < n
        invariant
            n == v@.len(),
            i <= n,
            forall|j: int| 0 <= j < i ==> v@[j]@ != s@,
        decreases n - i,
    {
        if str_eq(v[i].as_str(), s) {
            assert(views(v@)[i as int] == s@);
            return true;
        }
        i = i + 1;
    }
    assert forall|j: int| 0 <= j < views(v@).len() implies views(v@)[j] != s@ by {
        assert(views(v@)[j] == v@[j]@);
    }
    false
}

/// The refusal of a plugin whose name is that of a built-in node.
pub open spec fn reserved_message(name: Seq<char>) -> Seq<char> {
    "'"@ + name + "' is the name of a built-in node; rename the plugin"@
}

/// Refuses a plugin named like one of the `reserved` built-in node types,
/// since the server would not load a plugin that shadows one.
pub fn check_reserved(name: &str, reserved: &Vec<String>) -> (r: Result<(), RuntimeError>)
    ensures
        !views(reserved@).contains(name@) ==> r is Ok,
        views(reserved@).contains(name@) ==> (r matches Err(RuntimeError::Manifest(m)) && m@
            == reserved_message(name@)),
{
    if contains_str(reserved, name) {
        return Err(
            RuntimeError::Manifest(
                concat3("'", name, "' is the name of a built-in node; rename the plugin"),
            ),
        );
    }
    Ok(())
}

/// The exports a module needs to work as a node.
pub open spec fn required_exports() -> Seq<Seq<char>> {
    seq!["memory"@, "z8_alloc"@, "z8_process"@]
}

/// The required exports that `exports` lacks, in the order they are
/// required.
pub open spec fn missing_exports(exports: Seq<Seq<char>>) -> Seq<Seq<char>> {
    required_exports().filter(|e: Seq<char>| !exports.contains(e))
}

/// The items of `list`, separated by `sep`.
pub open spec fn joined(list: Seq<Seq<char>>, sep: Seq<char>) -> Seq<char>
    decreases list.len(),
{
    if list.len() == 0 {
        Seq::empty()
    } else if list.len() == 1 {
        list[0]
    } else {
        joined(list.drop_last(), sep) + sep + list.last()
    }
}

pub open spec fn missing_exports_message(exports: Seq<Seq<char>>) -> Seq<char> {
    "not a z8run plugin: missing exports "@ + joined(missing_exports(exports), ", "@)
}

/// Checks that a compiled module has the exports a node needs, given the
/// names it exports, so that a broken plugin is refused at install.
pub fn check_module(exports: &Vec<String>) -> (r: Result<(), RuntimeError>)
    ensures
        missing_exports(views(exports@)).len() == 0 ==> r is Ok,
        missing_exports(views(exports@)).len() > 0 ==> (r matches Err(
            RuntimeError::ModuleLoad(m),
        ) && m@ == missing_exports_message(views(exports@))),
{
    let ghost ex = views(exports@);
    let required: [&str; 3] = ["memory", "z8_alloc", "z8_process"];
    let ghost req = seq![required[0]@, required[1]@, required[2]@];
    assert(req =~= required_exports());
    let mut missing: Vec<&str> = Vec::new();
    let mut k: usize = 0;
    while k < 3
        invariant
            k <= 3,
            req == required_exports(),
            req == seq![required[0]@, required[1]@, required[2]@],
            ex == views(exports@),
            missing@.map_values(|s: &str| s@) == req.take(k as int).filter(
                |e: Seq<char>| !ex.contains(e),
            ),
        decreases 3 - k,
    {
        let name = required[k];
        assert(req.take(k + 1).drop_last() =~= req.take(k as int));
        reveal_with_fuel(Seq::filter, 1);
        if !contains_str(exports, name) {
            missing.push(name);
        }
        assert(missing@.map_values(|s: &str| s@) =~= req.take(k + 1).filter(
            |e: Seq<char>| !ex.contains(e),
        ));
        k = k + 1;
    }
    assert(req.take(3) =~= req);
    if missing.len() == 0 {
        return Ok(());
    }
    let mut msg = String::from_str("not a z8run plugin: missing exports ");
    let ghost head = msg@;
    let ghost items = missing@.map_values(|s: &str| s@);
    let n = missing.len();
    let mut i: usize = 0;
    while i < n
        invariant
            n == missing@.len(),
            items == missing@.map_values(|s: &str| s@),
            i <= n,
            msg@ == head + joined(items.take(i as int), ", "@),
        decreases n - i,
    {
        assert(items.take(i + 1).drop_last() =~= items.take(i as int));
        if i > 0 {
            msg.append(", ");
        }
        msg.append(missing[i]);
        assert(items[i as int] == missing@[i as int]@);
        i = i + 1;
    }
    assert(items.take(n as int) =~= items);
    Err(RuntimeError::ModuleLoad(msg))
}

/// What an install is asked to install from.
#[derive(Debug, PartialEq, Eq, Structural, Clone, Copy)]
pub enum SourceKind {
    /// A plugin directory holding `manifest.toml` and the module it names.
    Directory,
    /// A bare `.wasm` file.
    WasmFile,
}

pub open spec fn unsupported_source_message() -> Seq<char> {
    "Source must be a .wasm file or a directory with manifest.toml"@
}

/// Decides what an install source is: it must exist, and be a directory
/// or a file with the `wasm` extension. `display` is how the source path
/// is shown in the error when it does not exist.
pub fn classify_source(exists: bool, is_dir: bool, wasm_extension: bool, display: &str) -> (r:
    Result<SourceKind, RuntimeError>)
    ensures
        !exists ==> (r matches Err(RuntimeError::ModuleNotFound(m)) && m@ == display@),
        exists && is_dir ==> r == Ok::<SourceKind, RuntimeError>(SourceKind::Directory),
        exists && !is_dir && wasm_extension ==> r == Ok::<SourceKind, RuntimeError>(
            SourceKind::WasmFile,
        ),
        exists && !is_dir && !wasm_extension ==> (r matches Err(RuntimeError::ModuleLoad(m)) && m@
            == unsupported_source_message()),
{
    if !exists {
        return Err(RuntimeError::ModuleNotFound(String::from_str(display)));
    }
    if is_dir {
        Ok(SourceKind::Directory)
    } else if wasm_extension {
        Ok(SourceKind::WasmFile)
    } else {
        Err(
            RuntimeError::ModuleLoad(
                String::from_str("Source must be a .wasm file or a directory with manifest.toml"),
            ),
        )
    }
}

pub open spec fn already_installed_message(name: Seq<char>) -> Seq<char> {
    "A plugin named '"@ + name + "' is already installed. Remove it first."@
}

/// Refuses to install over a plugin directory that already exists.
pub fn check_not_installed(name: &str, destination_exists: bool) -> (r: Result<(), RuntimeError>)
    ensures
        !destination_exists ==> r is Ok,
        destination_exists ==> (r matches Err(RuntimeError::Manifest(m)) && m@
            == already_installed_message(name@)),
{
    if destination_exists {
        return Err(
            RuntimeError::Manifest(
                concat3("A plugin named '", name, "' is already installed. Remove it first."),
            ),
        );
    }
    Ok(())
}

/// `dir` is a direct child of `root`: one more component, after the same
/// ones.
pub open spec fn direct_child(root: Seq<Seq<char>>, dir: Seq<Seq<char>>) -> bool {
    dir.len() == root.len() + 1 && dir.take(root.len() as int) == root
}

pub open spec fn refuse_removal_message(dir: Seq<char>, root: Seq<char>) -> Seq<char> {
    "Refusing to remove "@ + dir + ": not inside "@ + root
}

/// Allows removing only a direct child of the plugins directory, given the
/// components of both canonical paths and how each is shown.
pub fn check_removal_target(
    root_parts: &Vec<String>,
    dir_parts: &Vec<String>,
    root_display: &str,
    dir_display: &str,
) -> (r: Result<(), RuntimeError>)
    ensures
        direct_child(views(root_parts@), views(dir_parts@)) ==> r is Ok,
        !direct_child(views(root_parts@), views(dir_parts@)) ==> (r matches Err(
            RuntimeError::ModuleLoad(m),
        ) && m@ == refuse_removal_message(dir_display@, root_display@)),
{
    let ghost root = views(root_parts@);
    let ghost dir = views(dir_parts@);
    let mut child = root_parts.len() < dir_parts.len() && dir_parts.len() - root_parts.len() == 1;
    if child {
        let n = root_parts.len();
        let mut i: usize = 0;
        while i < n
            invariant
                n == root_parts@.len(),
                dir_parts@.len() == n + 1,
                root == views(root_parts@),
                dir == views(dir_parts@),
                i <= n,
                child == forall|j: int| 0 <= j < i ==> dir[j] == root[j],
            decreases n - i,
        {
            assert(dir[i as int] == dir_parts@[i as int]@);
            assert(root[i as int] == root_parts@[i as int]@);
            if !str_eq(dir_parts[i].as_str(), root_parts[i].as_str()) {
                child = false;
            }
            i = i + 1;
        }
        assert(child == (dir.take(root.len() as int) =~= root));
    }
    if !child {
        let mut m = String::from_str("Refusing to remove ");
        m.append(dir_display);
        m.append(": not inside ");
        m.append(root_display);
        return Err(RuntimeError::ModuleLoad(m));
    }
    Ok(())
}

pub open spec fn not_installed_message(name: Seq<char>) -> Seq<char> {
    "Plugin '"@ + name + "' is not installed"@
}

impl PluginRegistry {
    /// The installed plugin registered under `name`, or the error that
    /// says it is not installed.
    pub fn installed(&self, name: &str) -> (r: Result<&RegisteredPlugin, RuntimeError>)
        ensures
            has_plugin(self.plugins(), name@) ==> (r matches Ok(p) && *p == plugin_named(
                self.plugins(),
                name@,
            )),
            !has_plugin(self.plugins(), name@) ==> (r matches Err(RuntimeError::ModuleNotFound(m))
                && m@ == not_installed_message(name@)),
    {
        match self.get(name) {
            Some(p) => Ok(p),
            None => Err(RuntimeError::ModuleNotFound(concat3("Plugin '", name, "' is not installed"))),
        }
    }
}

} // verus!
