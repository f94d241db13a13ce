//! The WASM plugin manifest and the rules on the fields that become
//! identifiers and paths on the server.
use vstd::prelude::*;
use vstd::string::*;
use vstd::utf8::encode_utf8;
use crate::json::Json;
use crate::text::{concat3, push_char};

verus! {

/// A port declared in the manifest.
#[derive(Debug, Clone)]
pub struct ManifestPort {
    pub name: String,
    pub port_type: String,
    pub description: String,
    pub required: bool,
}

/// Host capabilities that a plugin requests.
#[derive(Debug, Clone)]
pub struct PluginCapabilities {
    /// Network access.
    pub network: bool,
    /// Filesystem access.
    pub filesystem: bool,
    /// Allowed directories when `filesystem` is set.
    pub allowed_paths: Vec<String>,
    /// Environment variable access.
    pub env_vars: bool,
    /// Environment variables allowed.
    pub allowed_env: Vec<String>,
    /// Memory limit in MB (0 = the system default).
    pub memory_limit_mb: u64,
}

impl PluginCapabilities {
    /// Whether these are the capabilities of a plugin that asks for nothing.
    pub open spec fn is_none(self) -> bool {
        &&& !self.network
        &&& !self.filesystem
        &&& self.allowed_paths@.len() == 0
        &&& !self.env_vars
        &&& self.allowed_env@.len() == 0
        &&& self.memory_limit_mb == 0
    }
}

impl Default for PluginCapabilities {
    fn default() -> (r: Self)
        ensures
            r.is_none(),
    {
        PluginCapabilities {
            network: false,
            filesystem: false,
            allowed_paths: Vec::new(),
            env_vars: false,
            allowed_env: Vec::new(),
            memory_limit_mb: 0,
        }
    }
}

/// A WASM plugin/node manifest.
#[derive(Debug)]
pub struct PluginManifest {
    /// Unique plugin name (the node type and the plugin's directory name).
    pub name: String,
    /// Semantic version of the plugin.
    pub version: String,
    /// Human-readable description.
    pub description: String,
    /// Plugin author.
    pub author: String,
    /// License.
    pub license: String,
    /// Category for the editor.
    pub category: String,
    /// Node icon in the editor.
    pub icon: String,
    /// Input ports.
    pub inputs: Vec<ManifestPort>,
    /// Output ports.
    pub outputs: Vec<ManifestPort>,
    /// Requested capabilities.
    pub capabilities: PluginCapabilities,
    /// The WASM file, relative to the manifest.
    pub wasm_file: String,
    /// Minimum runtime version required.
    pub min_runtime_version: String,
    /// Default node configuration (`null` when absent, else a table).
    pub config: Json,
}

/// One component of a path, as the platform's path parser splits it.
#[derive(Debug, PartialEq, Eq, Structural, Clone, Copy)]
pub enum PathPart {
    Prefix,
    RootDir,
    CurDir,
    ParentDir,
    Normal,
}

pub open spec fn is_lower(b: u8) -> bool {
    97 <= b <= 122
}

pub open spec fn is_digit(b: u8) -> bool {
    48 <= b <= 57
}

/// A byte that may appear in a plugin name: a lowercase letter, a digit,
/// `-` or `_`.
pub open spec fn is_name_byte(b: u8) -> bool {
    is_lower(b) || is_digit(b) || b == 45 || b == 95
}

/// A valid plugin name: 1 to 64 bytes, each a lowercase letter, a digit,
/// `-` or `_`, the first a letter or a digit.
pub open spec fn valid_plugin_name(b: Seq<u8>) -> bool {
    &&& 0 < b.len() <= 64
    &&& (is_lower(b[0]) || is_digit(b[0]))
    &&& forall|i: int| 0 <= i < b.len() ==> is_name_byte(#[trigger] b[i])
}

/// Whether `name` can be used as a plugin name.
pub fn is_valid_plugin_name(name: &str) -> (r: bool)
    ensures
        r == valid_plugin_name(name.spec_bytes()),
{
    let bytes = name.as_bytes();
    let n = bytes.len();
    if n == 0 || n > 64 {
        return false;
    }
    let first = bytes[0];
    if !((first >= 97 && first <= 122) || (first >= 48 && first <= 57)) {
        return false;
    }
    let mut i: usize = 0;
    while i < n
        invariant
            n == bytes@.len(),
            bytes@ == name.spec_bytes(),
            i <= n,
            forall|j: int| 0 <= j < i ==> is_name_byte(#[trigger] bytes@[j]),
        decreases n - i,
    {
        let b = bytes[i];
        if !((b >= 97 && b <= 122) || (b >= 48 && b <= 57) || b == 45 || b == 95) {
            return false;
        }
        i = i + 1;
    }
    true
}

/// The segments of `p` between its `/` separators, empty ones included.
pub open spec fn split_slash(p: Seq<char>) -> Seq<Seq<char>>
    decreases p.len(),
{
    if p.len() == 0 {
        seq![Seq::<char>::empty()]
    } else {
        let before = split_slash(p.drop_last());
        if p.last() == '/' {
            before.push(Seq::<char>::empty())
        } else {
            before.update(before.len() - 1, before.last().push(p.last()))
        }
    }
}

/// The component a segment that is neither empty nor `.` stands for.
pub open spec fn segment_part(s: Seq<char>) -> PathPart {
    if s == seq!['.', '.'] {
        PathPart::ParentDir
    } else {
        PathPart::Normal
    }
}

/// The components of the segments that are neither empty nor `.`, in order.
pub open spec fn named_parts(segs: Seq<Seq<char>>) -> Seq<PathPart>
    decreases segs.len(),
{
    if segs.len() == 0 {
        Seq::empty()
    } else {
        let s = segs.last();
        let before = named_parts(segs.drop_last());
        if s.len() == 0 || s == seq!['.'] {
            before
        } else {
            before.push(segment_part(s))
        }
    }
}

/// A path whose splitting no platform decides differently: it holds no
/// `\` and no `:`, and does not start with `//`.
pub open spec fn plainly_split(p: Seq<char>) -> bool {
    &&& !p.contains('\\')
    &&& !p.contains(':')
    &&& !(p.len() >= 2 && p[0] == '/' && p[1] == '/')
}

/// The components of a path, as `Path::components` documents them: a
/// leading `/` is the root, a leading `.` segment of a relative path is the
/// current directory, empty and other `.` segments are dropped, `..` is the
/// parent directory and every other segment a normal name.
pub open spec fn path_components(p: Seq<char>) -> Seq<PathPart> {
    let segs = split_slash(p);
    let rooted = p.len() > 0 && p[0] == '/';
    let root = if rooted { seq![PathPart::RootDir] } else { Seq::empty() };
    let cur = if !rooted && segs[0] == seq!['.'] { seq![PathPart::CurDir] } else { Seq::empty() };
    root + cur + named_parts(segs)
}

/// Splits a path into its components, with `std::path::Path::components`.
/// For a path that holds no `\` and no `:` and does not start with `//`,
/// the components are those that the method's documentation gives; of
/// other paths only this is claimed: one that starts with `/` not followed
/// by a separator starts with the root directory. Where `\`, `:` or a
/// leading `//` can mark a Windows prefix, nothing more is said.
#[verifier::external_body]
pub(crate) fn path_parts(p: &str) -> (r: Vec<PathPart>)
    ensures
        plainly_split(p@) ==> r@ == path_components(p@),
        p@.len() > 0 && p@[0] == '/' && (p@.len() == 1 || (p@[1] != '/' && p@[1] != '\\')) ==> r@.len()
            > 0 && r@[0] == PathPart::RootDir,
{
    let mut out = Vec::new();
    for c in std::path::Path::new(p).components() {
        out.push(match c {
            std::path::Component::Prefix(_) => PathPart::Prefix,
            std::path::Component::RootDir => PathPart::RootDir,
            std::path::Component::CurDir => PathPart::CurDir,
            std::path::Component::ParentDir => PathPart::ParentDir,
            std::path::Component::Normal(_) => PathPart::Normal,
        });
    }
    out
}

/// A segment of a path with no `/` is the whole path.
proof fn lemma_split_without_slash(p: Seq<char>)
    requires
        !p.contains('/'),
    ensures
        split_slash(p) == seq![p],
    decreases p.len(),
{
    if p.len() == 0 {
        assert(p =~= Seq::<char>::empty());
    } else {
        assert(!p.drop_last().contains('/')) by {
            if p.drop_last().contains('/') {
                let i = choose|i: int| 0 <= i < p.drop_last().len() && p.drop_last()[i] == '/';
                assert(p[i] == '/');
            }
        }
        lemma_split_without_slash(p.drop_last());
        assert(p.last() != '/') by {
            assert(p[p.len() - 1] == p.last());
        }
        assert(p.drop_last().push(p.last()) =~= p);
        let before = split_slash(p.drop_last());
        assert(before == seq![p.drop_last()]);
        assert(before.update(0, before.last().push(p.last())) =~= seq![p]);
    }
}

/// A file name with no separator, no `:` and other than `.` and `..` is
/// one normal component.
proof fn lemma_single_name(p: Seq<char>)
    requires
        p.len() > 0,
        !p.contains('/'),
        !p.contains('\\'),
        !p.contains(':'),
        p != seq!['.'],
        p != seq!['.', '.'],
    ensures
        plainly_split(p),
        path_components(p) == seq![PathPart::Normal],
{
    lemma_split_without_slash(p);
    let segs = split_slash(p);
    assert(p[0] != '/') by {
        if p[0] == '/' {
            assert(p.contains('/'));
        }
    }
    assert(segs.drop_last() =~= Seq::<Seq<char>>::empty());
    assert(segs.last() == p);
    assert(named_parts(segs.drop_last()) == Seq::<PathPart>::empty());
    assert(segment_part(p) == PathPart::Normal);
    assert(named_parts(segs) =~= seq![PathPart::Normal]);
    assert(Seq::<PathPart>::empty() + Seq::<PathPart>::empty() + seq![PathPart::Normal] =~= seq![
        PathPart::Normal,
    ]);
}

/// Every component is a normal name: no root, prefix, `.` or `..`.
pub open spec fn all_normal(parts: Seq<PathPart>) -> bool {
    forall|i: int| 0 <= i < parts.len() ==> parts[i] == PathPart::Normal
}

pub open spec fn invalid_name_message(name: Seq<char>) -> Seq<char> {
    "invalid plugin name '"@ + name
        + "': use 1-64 lowercase letters, digits, '-' or '_', starting with a letter or digit"@
}

pub open spec fn wasm_outside_message(wasm_file: Seq<char>) -> Seq<char> {
    "wasm_file '"@ + wasm_file + "' must be a relative path inside the plugin directory"@
}

pub open spec fn config_not_table_message() -> Seq<char> {
    "[config] must be a table"@
}

impl PluginManifest {
    /// What `validate` answers, given the components of `wasm_file`.
    pub open spec fn validation(self, wasm_parts: Seq<PathPart>) -> Result<(), Seq<char>> {
        if !valid_plugin_name(encode_utf8(self.name@)) {
            Err(invalid_name_message(self.name@))
        } else if self.wasm_file@.len() == 0 || !all_normal(wasm_parts) {
            Err(wasm_outside_message(self.wasm_file@))
        } else if !(self.config.spec_is_null() || self.config.spec_is_object()) {
            Err(config_not_table_message())
        } else {
            Ok(())
        }
    }
}

} // verus!

verus! {

/// The plain form of a validation outcome.
pub open spec fn outcome(r: Result<(), String>) -> Result<(), Seq<char>> {
    match r {
        Ok(()) => Ok(()),
        Err(m) => Err(m@),
    }
}

impl PluginManifest {
    /// Checks the manifest, given the components of its `wasm_file`.
    pub fn validate_parts(&self, wasm_parts: &Vec<PathPart>) -> (r: Result<(), String>)
        ensures
            outcome(r) == self.validation(wasm_parts@),
    {
        if !is_valid_plugin_name(self.name.as_str()) {
            return Err(concat3(
                "invalid plugin name '",
                self.name.as_str(),
                "': use 1-64 lowercase letters, digits, '-' or '_', starting with a letter or digit",
            ));
        }
        let mut inside = self.wasm_file.as_str().unicode_len() != 0;
        let n = wasm_parts.len();
        let mut i: usize = 0;
        while i < n
            invariant
                n == wasm_parts@.len(),
                i <= n,
                inside == (self.wasm_file@.len() != 0 && forall|j: int|
                    0 <= j < i ==> wasm_parts@[j] == PathPart::Normal),
            decreases n - i,
        {
            if wasm_parts[i] != PathPart::Normal {
                inside = false;
            }
            i = i + 1;
        }
        if !inside {
            return Err(concat3(
                "wasm_file '",
                self.wasm_file.as_str(),
                "' must be a relative path inside the plugin directory",
            ));
        }
        if !(self.config.is_null() || self.config.is_object()) {
            return Err(String::from_str("[config] must be a table"));
        }
        Ok(())
    }

    /// Checks the fields that become identifiers and paths on the server:
    /// the name is a valid plugin name, `wasm_file` is a relative path
    /// inside the plugin directory, and the configuration is absent or a
    /// table.
    pub fn validate(&self) -> (r: Result<(), String>)
        ensures
            plainly_split(self.wasm_file@) ==> outcome(r) == self.validation(
                path_components(self.wasm_file@),
            ),
            single_file_name(self.wasm_file@) ==> outcome(r) == self.validation(
                seq![PathPart::Normal],
            ),
            exists|parts: Seq<PathPart>|
                {
                    &&& (self.wasm_file@.len() > 0 && self.wasm_file@[0] == '/' && (
                    self.wasm_file@.len() == 1 || (self.wasm_file@[1] != '/' && self.wasm_file@[1]
                        != '\\'))) ==> (parts.len() > 0 && parts[0] == PathPart::RootDir)
                    &&& outcome(r) == #[trigger] self.validation(parts)
                },
    {
        let parts = path_parts(self.wasm_file.as_str());
        let r = self.validate_parts(&parts);
        proof {
            if single_file_name(self.wasm_file@) {
                lemma_single_name(self.wasm_file@);
            }
        }
        assert(outcome(r) == self.validation(parts@));
        r
    }
}

/// A file name directly inside a directory: not empty, with no separator
/// and no `:`, and neither `.` nor `..`.
pub open spec fn single_file_name(p: Seq<char>) -> bool {
    &&& p.len() > 0
    &&& !p.contains('/')
    &&& !p.contains('\\')
    &&& !p.contains(':')
    &&& p != seq!['.']
    &&& p != seq!['.', '.']
}

/// The character a file stem's character becomes in a derived plugin name:
/// ASCII uppercase is lowered, spaces and dots become `-`.
pub open spec fn name_char(c: char) -> char {
    if 'A' <= c <= 'Z' {
        (c as u8 + 32) as char
    } else if c == ' ' || c == '.' {
        '-'
    } else {
        c
    }
}

/// The plugin name derived from a file stem.
pub open spec fn derived_name(stem: Seq<char>) -> Seq<char> {
    stem.map_values(|c: char| name_char(c))
}

pub open spec fn underivable_message(stem: Seq<char>) -> Seq<char> {
    "cannot derive a plugin name from '"@ + stem
        + "'; rename the file (lowercase letters, digits, '-' or '_')"@
}

/// Lowers ASCII letters and turns spaces and dots into `-`.
pub fn derive_name(stem: &str) -> (r: String)
    ensures
        r@ == derived_name(stem@),
{
    let n = stem.unicode_len();
    let mut out = String::new();
    let mut i: usize = 0;
    while i < n
        invariant
            n == stem@.len(),
            i <= n,
            out@ == derived_name(stem@.take(i as int)),
        decreases n - i,
    {
        let c = stem.get_char(i);
        let d = if 'A' <= c && c <= 'Z' {
            (c as u8 + 32) as char
        } else if c == ' ' || c == '.' {
            '-'
        } else {
            c
        };
        push_char(&mut out, d);
        assert(stem@.take(i + 1) =~= stem@.take(i as int).push(c));
        assert(derived_name(stem@.take(i + 1)) =~= derived_name(stem@.take(i as int)).push(d));
        i = i + 1;
    }
    assert(stem@.take(n as int) =~= stem@);
    out
}

/// The name of a plugin installed from a bare `.wasm` file with the given
/// stem: the derived name when it is a valid plugin name, else a manifest
/// error that asks for the file to be renamed.
pub fn plugin_name_from_stem(stem: &str) -> (r: Result<String, crate::error::RuntimeError>)
    ensures
        valid_plugin_name(encode_utf8(derived_name(stem@))) ==> (r matches Ok(name) && name@
            == derived_name(stem@)),
        !valid_plugin_name(encode_utf8(derived_name(stem@))) ==> (r matches Err(
            crate::error::RuntimeError::Manifest(m),
        ) && m@ == underivable_message(stem@)),
{
    let name = derive_name(stem);
    if !is_valid_plugin_name(name.as_str()) {
        return Err(
            crate::error::RuntimeError::Manifest(
                concat3(
                    "cannot derive a plugin name from '",
                    stem,
                    "'; rename the file (lowercase letters, digits, '-' or '_')",
                ),
            ),
        );
    }
    Ok(name)
}

/// A port of any type with the given name, optional and undescribed.
pub open spec fn is_any_port(p: ManifestPort, name: Seq<char>) -> bool {
    &&& p.name@ == name
    &&& p.port_type@ == "any"@
    &&& p.description@.len() == 0
    &&& !p.required
}

fn any_port(name: &str) -> (p: ManifestPort)
    ensures
        is_any_port(p, name@),
{
    ManifestPort {
        name: String::from_str(name),
        port_type: String::from_str("any"),
        description: String::new(),
        required: false,
    }
}

/// The manifest generated for a bare `.wasm` file named `source_file`,
/// under the plugin name `name`.
pub open spec fn is_generated(m: PluginManifest, name: Seq<char>, source_file: Seq<char>) -> bool {
    &&& m.name@ == name
    &&& m.version@ == "0.1.0"@
    &&& m.description@ == "Installed from "@ + source_file
    &&& m.author@.len() == 0
    &&& m.license@.len() == 0
    &&& m.category@ == "plugin"@
    &&& m.icon@.len() == 0
    &&& m.inputs@.len() == 1 && is_any_port(m.inputs@[0], "input"@)
    &&& m.outputs@.len() == 1 && is_any_port(m.outputs@[0], "output"@)
    &&& m.capabilities.is_none()
    &&& m.wasm_file@ == "plugin.wasm"@
    &&& m.min_runtime_version@.len() == 0
    &&& m.config is Null
}

/// The manifest of a plugin installed from a bare `.wasm` file: one
/// `input` and one `output` port of any type, and the module stored as
/// `plugin.wasm`. `source_file` is the file name it was installed from.
pub fn generated_manifest(name: &str, source_file: &str) -> (m: PluginManifest)
    ensures
        is_generated(m, name@, source_file@),
{
    let mut inputs = Vec::new();
    inputs.push(any_port("input"));
    let mut outputs = Vec::new();
    outputs.push(any_port("output"));
    PluginManifest {
        name: String::from_str(name),
        version: String::from_str("0.1.0"),
        description: crate::text::concat2("Installed from ", source_file),
        author: String::new(),
        license: String::new(),
        category: String::from_str("plugin"),
        icon: String::new(),
        inputs,
        outputs,
        capabilities: PluginCapabilities::default(),
        wasm_file: String::from_str("plugin.wasm"),
        min_runtime_version: String::new(),
        config: Json::Null,
    }
}

} // verus!

verus! {

/// A manifest generated for a bare `.wasm` file under a valid name passes
/// validation: `plugin.wasm` is a single normal component.
pub proof fn law_generated_manifest_validates(m: PluginManifest)
    requires
        valid_plugin_name(encode_utf8(m.name@)),
        m.wasm_file@ == "plugin.wasm"@,
        m.config is Null,
    ensures
        single_file_name(m.wasm_file@),
        m.validation(path_components(m.wasm_file@)) == Ok::<(), Seq<char>>(()),
{
    reveal_strlit("plugin.wasm");
    let w = m.wasm_file@;
    assert(w[0] == 'p' && w[1] == 'l' && w[2] == 'u' && w[3] == 'g' && w[4] == 'i' && w[5] == 'n'
        && w[6] == '.' && w[7] == 'w' && w[8] == 'a' && w[9] == 's' && w[10] == 'm');
    assert(!w.contains('/') && !w.contains('\\') && !w.contains(':'));
    assert(w != seq!['.'] && w != seq!['.', '.']);
    lemma_single_name(w);
}

} // verus!

verus! {

/// A valid plugin name is safe as a directory name: it holds no path
/// separator and no dot, so it is never `.` or `..` nor leaves the
/// plugins directory.
pub proof fn law_valid_names_are_single_components(b: Seq<u8>)
    requires
        valid_plugin_name(b),
    ensures
        forall|i: int| 0 <= i < b.len() ==> b[i] != 47u8 && b[i] != 92u8 && b[i] != 46u8,
{
    assert forall|i: int| 0 <= i < b.len() implies b[i] != 47u8 && b[i] != 92u8 && b[i] != 46u8 by {
        assert(is_name_byte(b[i]));
    }
}

} // verus!
