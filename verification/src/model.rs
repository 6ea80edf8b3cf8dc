//! The configuration model: a passive schema describing the shell setup to
//! generate. Every field has an explicit default, so an empty document maps
//! to an all-default configuration; absence of a field means "no entries".

use vstd::prelude::*;

verus! {

/// Holds for an association list when no key occurs twice. The maps of the
/// configuration (exports, aliases, tools) carry their entries as ordered
/// key/value lists so that rendering order is deterministic; parsing is
/// expected to hand over unique keys.
pub open spec fn keys_unique<T>(s: Seq<(String, T)>) -> bool {
    forall|i: int, j: int| 0 <= i < j < s.len() ==> s[i].0@ != s[j].0@
}

/// An ordered unit of raw shell code (one string per dialect) plus an ordered
/// list of plugin identifiers. Rendered once per dialect, in declaration
/// order: plugin-manager statements first, then the raw code verbatim.
#[derive(Debug)]
pub struct Module {
    pub zsh_code: String,
    pub fish_code: String,
    pub plugins: Vec<String>,
}

/// Exported variables: a common mapping applied to every dialect, plus
/// dialect-specific entries that supplement (never remove) the common set.
#[derive(Debug)]
pub struct Exports {
    pub common: Vec<(String, String)>,
    pub zsh: Vec<(String, String)>,
    pub fish: Vec<(String, String)>,
}

/// PATH amendments: entries to place before the existing PATH value and
/// entries to place after it. Order within each list is preserved.
#[derive(Debug)]
pub struct Path {
    pub prepend: Vec<String>,
    pub append: Vec<String>,
}

/// One alias: the command it expands to, an optional raw condition expression
/// and an optional required tool. When both guards are present they are
/// combined with logical AND; when neither is, the alias is unconditional.
#[derive(Debug)]
pub struct AliasConfig {
    pub cmd: String,
    pub if_condition: Option<String>,
    pub if_tool: Option<String>,
}

/// Options for the plugin manager: an alternative location for its own
/// sources. Carried as configuration data; the generator emits plugin
/// statements through the manager's standard invocation.
#[derive(Debug)]
pub struct ZnapConfig {
    pub custom_path: String,
}

/// A named, guard-activated bundle: its exports, PATH entries and raw code
/// are only emitted inside a conditional on the tool's availability
/// (command existence, file existence, or both combined with AND).
#[derive(Debug)]
pub struct ToolConfig {
    pub if_cmd: Option<String>,
    pub if_file: Option<String>,
    pub zsh_code: String,
    pub fish_code: String,
    pub exports: Vec<(String, String)>,
    pub path: Path,
}

/// The root aggregate: ordered modules, the export set, PATH amendments,
/// aliases, the optional plugin-manager options and the tool map. The
/// generator only reads it.
#[derive(Debug)]
pub struct Config {
    pub modules: Vec<Module>,
    pub exports: Exports,
    pub path: Path,
    pub aliases: Vec<(String, AliasConfig)>,
    pub znap: Option<ZnapConfig>,
    pub tools: Vec<(String, ToolConfig)>,
}

impl Config {
    /// Well-formedness of a parsed configuration: every mapping carries
    /// unique keys. Nothing else is constrained; snippet and guard contents
    /// are passed through verbatim by the generator.
    pub open spec fn wf(self) -> bool {
        &&& keys_unique(self.exports.common@)
        &&& keys_unique(self.exports.zsh@)
        &&& keys_unique(self.exports.fish@)
        &&& keys_unique(self.aliases@)
        &&& keys_unique(self.tools@)
        &&& forall|i: int|
            0 <= i < self.tools@.len() ==> keys_unique(#[trigger] self.tools@[i].1.exports@)
    }
}

impl Default for Module {
    /// A module with no code and no plugins.
    fn default() -> (r: Module)
        ensures
            r.zsh_code@ =~= Seq::<char>::empty(),
            r.fish_code@ =~= Seq::<char>::empty(),
            r.plugins@ =~= Seq::<String>::empty(),
    {
        Module { zsh_code: String::new(), fish_code: String::new(), plugins: Vec::new() }
    }
}

impl Default for Exports {
    /// No exported variables at all.
    fn default() -> (r: Exports)
        ensures
            r.common@ =~= Seq::<(String, String)>::empty(),
            r.zsh@ =~= Seq::<(String, String)>::empty(),
            r.fish@ =~= Seq::<(String, String)>::empty(),
    {
        Exports { common: Vec::new(), zsh: Vec::new(), fish: Vec::new() }
    }
}

impl Default for Path {
    /// No PATH amendments.
    fn default() -> (r: Path)
        ensures
            r.prepend@ =~= Seq::<String>::empty(),
            r.append@ =~= Seq::<String>::empty(),
    {
        Path { prepend: Vec::new(), append: Vec::new() }
    }
}

impl Default for ZnapConfig {
    /// The plugin manager at its conventional location.
    fn default() -> (r: ZnapConfig)
        ensures
            r.custom_path@ =~= Seq::<char>::empty(),
    {
        ZnapConfig { custom_path: String::new() }
    }
}

impl Default for ToolConfig {
    /// A tool with no guards and no effects.
    fn default() -> (r: ToolConfig)
        ensures
            r.if_cmd is None,
            r.if_file is None,
            r.zsh_code@ =~= Seq::<char>::empty(),
            r.fish_code@ =~= Seq::<char>::empty(),
            r.exports@ =~= Seq::<(String, String)>::empty(),
            r.path.prepend@ =~= Seq::<String>::empty(),
            r.path.append@ =~= Seq::<String>::empty(),
    {
        ToolConfig {
            if_cmd: None,
            if_file: None,
            zsh_code: String::new(),
            fish_code: String::new(),
            exports: Vec::new(),
            path: Path::default(),
        }
    }
}

impl Default for Config {
    /// The all-default configuration an empty document parses to: no
    /// modules, no exports, no PATH entries, no aliases, no tools.
    fn default() -> (r: Config)
        ensures
            r.modules@ =~= Seq::<Module>::empty(),
            r.exports.common@ =~= Seq::<(String, String)>::empty(),
            r.exports.zsh@ =~= Seq::<(String, String)>::empty(),
            r.exports.fish@ =~= Seq::<(String, String)>::empty(),
            r.path.prepend@ =~= Seq::<String>::empty(),
            r.path.append@ =~= Seq::<String>::empty(),
            r.aliases@ =~= Seq::<(String, AliasConfig)>::empty(),
            r.znap is None,
            r.tools@ =~= Seq::<(String, ToolConfig)>::empty(),
            r.wf(),
    {
        Config {
            modules: Vec::new(),
            exports: Exports::default(),
            path: Path::default(),
            aliases: Vec::new(),
            znap: None,
            tools: Vec::new(),
        }
    }
}

} // verus!
