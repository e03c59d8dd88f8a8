//! Configuration for a conversion run: the resolved image and highlight
//! settings, the raw values read from a configuration file, the values
//! given on the command line or in the environment, and the merge of
//! all of them with CLI-over-environment-over-file-over-default
//! precedence, tracking where each tracked setting came from.
//!
//! Reading the configuration file and the environment is the
//! application's job; the merge itself is decided and verified here.

use vstd::prelude::*;

use crate::table::{lemma_pairs_map_contains, lemma_pairs_map_value, pairs_map};
use crate::text::{
    bool_str, bool_text, dec_of, eq_ignore_ascii_case_spec, join_path, joined_path, push_dec_u32,
    str_eq, str_eq_ignore_ascii_case,
};

verus! {

/// Resolved image embedding and optimization policy, immutable for one
/// conversion run.
#[derive(Debug, Clone)]
pub struct ImageConfig {
    pub embed_local: bool,
    pub embed_remote: bool,
    pub optimize_local: bool,
    pub optimize_remote: bool,
    pub max_dimension: u32,
    pub quality: u8,
}

impl Default for ImageConfig {
    /// Local images are embedded and optimized; remote images are left
    /// alone; images are capped at 1200 pixels and re-encoded at
    /// quality 80.
    fn default() -> (r: Self)
        ensures
            r.embed_local == true,
            r.embed_remote == false,
            r.optimize_local == true,
            r.optimize_remote == false,
            r.max_dimension == 1200,
            r.quality == 80,
    {
        ImageConfig {
            embed_local: true,
            embed_remote: false,
            optimize_local: true,
            optimize_remote: false,
            max_dimension: 1200,
            quality: 80,
        }
    }
}

/// Language-alias mappings: aliases such as `js` to the syntax names a
/// highlighter knows, a later entry for the same alias winning.
#[derive(Debug, Clone)]
pub struct LanguageMappings {
    pairs: Vec<(String, String)>,
}

impl View for LanguageMappings {
    type V = Map<Seq<char>, Seq<char>>;

    closed spec fn view(&self) -> Map<Seq<char>, Seq<char>> {
        pairs_map(self.pairs@)
    }
}

impl LanguageMappings {
    /// An empty mapping.
    pub fn new() -> (r: Self)
        ensures
            r@ == Map::<Seq<char>, Seq<char>>::empty(),
    {
        LanguageMappings { pairs: Vec::new() }
    }

    /// Adds one alias, overriding an earlier entry for it.
    pub fn insert(&mut self, alias: &str, name: &str)
        ensures
            final(self)@ == old(self)@.insert(alias@, name@),
    {
        self.pairs.push((String::from_str(alias), String::from_str(name)));
        proof {
            assert(self.pairs@.drop_last() =~= old(self).pairs@);
        }
    }

    /// The syntax name recorded for an alias.
    pub fn get(&self, alias: &str) -> (r: Option<String>)
        ensures
            match r {
                Some(v) => self@.contains_key(alias@) && v@ == self@[alias@],
                None => !self@.contains_key(alias@),
            },
    {
        let n = self.pairs.len();
        let mut i: usize = n;
        while i > 0
            invariant
                0 <= i <= n,
                n == self.pairs@.len(),
                forall|j: int| i <= j < n ==> self.pairs@[j].0@ != alias@,
            decreases i,
        {
            i = i - 1;
            let e = &self.pairs[i];
            if str_eq(e.0.as_str(), alias) {
                proof {
                    lemma_pairs_map_value(self.pairs@, i as int);
                }
                return Some(e.1.clone());
            }
        }
        proof {
            lemma_pairs_map_contains(self.pairs@, alias@);
        }
        None
    }

    /// Takes every entry of `other` over, later entries winning over
    /// this mapping's own.
    pub fn merge_from(&mut self, other: LanguageMappings)
        ensures
            final(self)@ == old(self)@.union_prefer_right(other@),
    {
        let n = other.pairs.len();
        let mut i: usize = 0;
        while i < n
            invariant
                0 <= i <= n,
                n == other.pairs@.len(),
                self.pairs@ == old(self).pairs@ + other.pairs@.take(i as int),
            decreases n - i,
        {
            let e = &other.pairs[i];
            self.pairs.push((e.0.clone(), e.1.clone()));
            proof {
                assert(self.pairs@ =~= old(self).pairs@ + other.pairs@.take(i + 1));
            }
            i = i + 1;
        }
        proof {
            assert(other.pairs@.take(n as int) =~= other.pairs@);
            lemma_pairs_map_concat(old(self).pairs@, other.pairs@);
        }
    }
}

/// Concatenating pair lists unions their maps, the right side winning.
proof fn lemma_pairs_map_concat(a: Seq<(String, String)>, b: Seq<(String, String)>)
    ensures
        pairs_map(a + b) == pairs_map(a).union_prefer_right(pairs_map(b)),
    decreases b.len(),
{
    if b.len() == 0 {
        assert(a + b =~= a);
        assert(pairs_map(a).union_prefer_right(pairs_map(b)) =~= pairs_map(a));
    } else {
        lemma_pairs_map_concat(a, b.drop_last());
        assert((a + b).drop_last() =~= a + b.drop_last());
        assert((a + b).last() == b.last());
        assert(pairs_map(a).union_prefer_right(pairs_map(b.drop_last())).insert(
            b.last().0@,
            b.last().1@,
        ) =~= pairs_map(a).union_prefer_right(
            pairs_map(b.drop_last()).insert(b.last().0@, b.last().1@),
        ));
    }
}

/// The default alias table: common shorthands for syntax names.
pub open spec fn default_language_map() -> Map<Seq<char>, Seq<char>> {
    Map::<Seq<char>, Seq<char>>::empty().insert("js"@, "JavaScript"@).insert(
        "ts"@,
        "TypeScript"@,
    ).insert("py"@, "Python"@).insert("rb"@, "Ruby"@).insert("rs"@, "Rust"@).insert(
        "sh"@,
        "Bourne Again Shell (bash)"@,
    ).insert("bash"@, "Bourne Again Shell (bash)"@).insert(
        "zsh"@,
        "Bourne Again Shell (bash)"@,
    ).insert("yml"@, "YAML"@).insert("md"@, "Markdown"@).insert("dockerfile"@, "Dockerfile"@)
}

/// The default language-alias mappings.
pub fn default_language_mappings() -> (r: LanguageMappings)
    ensures
        r@ == default_language_map(),
{
    let mut m = LanguageMappings::new();
    m.insert("js", "JavaScript");
    m.insert("ts", "TypeScript");
    m.insert("py", "Python");
    m.insert("rb", "Ruby");
    m.insert("rs", "Rust");
    m.insert("sh", "Bourne Again Shell (bash)");
    m.insert("bash", "Bourne Again Shell (bash)");
    m.insert("zsh", "Bourne Again Shell (bash)");
    m.insert("yml", "YAML");
    m.insert("md", "Markdown");
    m.insert("dockerfile", "Dockerfile");
    m
}

/// Highlight configuration as read from a file: every setting optional.
pub struct FileHighlightConfig {
    pub enable: Option<bool>,
    pub theme: Option<String>,
    pub themes_dir: Option<String>,
    pub syntaxes_dir: Option<String>,
    pub languages: LanguageMappings,
}

impl Default for FileHighlightConfig {
    fn default() -> (r: Self)
        ensures
            r.enable is None,
            r.theme is None,
            r.themes_dir is None,
            r.syntaxes_dir is None,
            r.languages@ == Map::<Seq<char>, Seq<char>>::empty(),
    {
        FileHighlightConfig {
            enable: None,
            theme: None,
            themes_dir: None,
            syntaxes_dir: None,
            languages: LanguageMappings::new(),
        }
    }
}

/// Image embed configuration as read from a file.
pub struct FileImageEmbedConfig {
    pub local: Option<bool>,
    pub remote: Option<bool>,
    pub optimize_local: Option<bool>,
    pub optimize_remote: Option<bool>,
    pub max_dimension: Option<u32>,
    pub quality: Option<u8>,
}

impl Default for FileImageEmbedConfig {
    fn default() -> (r: Self)
        ensures
            r.local is None,
            r.remote is None,
            r.optimize_local is None,
            r.optimize_remote is None,
            r.max_dimension is None,
            r.quality is None,
    {
        FileImageEmbedConfig {
            local: None,
            remote: None,
            optimize_local: None,
            optimize_remote: None,
            max_dimension: None,
            quality: None,
        }
    }
}

/// Image configuration as read from a file, wrapping the nested embed
/// table.
pub struct FileImageConfig {
    pub embed: FileImageEmbedConfig,
}

impl Default for FileImageConfig {
    fn default() -> (r: Self)
        ensures
            r.embed.local is None,
            r.embed.remote is None,
            r.embed.optimize_local is None,
            r.embed.optimize_remote is None,
            r.embed.max_dimension is None,
            r.embed.quality is None,
    {
        FileImageConfig { embed: FileImageEmbedConfig::default() }
    }
}

/// A whole configuration file: every setting optional.
pub struct FileConfig {
    pub input: Option<String>,
    pub output: Option<String>,
    pub root: Option<String>,
    pub strict: Option<bool>,
    pub prosemirror: Option<bool>,
    pub highlight: FileHighlightConfig,
    pub image: FileImageConfig,
}

impl Default for FileConfig {
    fn default() -> (r: Self)
        ensures
            r.input is None,
            r.output is None,
            r.root is None,
            r.strict is None,
            r.prosemirror is None,
            r.highlight.enable is None,
            r.highlight.theme is None,
            r.highlight.themes_dir is None,
            r.highlight.syntaxes_dir is None,
            r.highlight.languages@ == Map::<Seq<char>, Seq<char>>::empty(),
            r.image.embed.local is None,
            r.image.embed.remote is None,
            r.image.embed.optimize_local is None,
            r.image.embed.optimize_remote is None,
            r.image.embed.max_dimension is None,
            r.image.embed.quality is None,
    {
        FileConfig {
            input: None,
            output: None,
            root: None,
            strict: None,
            prosemirror: None,
            highlight: FileHighlightConfig::default(),
            image: FileImageConfig::default(),
        }
    }
}

/// Resolved highlight configuration.
#[derive(Debug)]
pub struct HighlightConfig {
    pub enable: bool,
    pub theme: String,
    pub themes_dir: Option<String>,
    pub syntaxes_dir: Option<String>,
    pub languages: LanguageMappings,
}

impl Default for HighlightConfig {
    /// Highlighting on, with the stock dark theme and the default
    /// alias table.
    fn default() -> (r: Self)
        ensures
            r.enable == true,
            r.theme@ == "base16-ocean.dark"@,
            r.themes_dir is None,
            r.syntaxes_dir is None,
            r.languages@ == default_language_map(),
    {
        HighlightConfig {
            enable: true,
            theme: String::from_str("base16-ocean.dark"),
            themes_dir: None,
            syntaxes_dir: None,
            languages: default_language_mappings(),
        }
    }
}

/// Where a configuration value came from.
#[derive(Debug, Clone)]
pub enum ConfigSource {
    /// The built-in default.
    Default,
    /// A configuration file; holds its path.
    File(String),
    /// An environment variable; holds its name.
    Env(String),
    /// A command-line argument.
    Cli,
}

/// The display text for a source.
pub open spec fn source_text(s: ConfigSource) -> Seq<char> {
    match s {
        ConfigSource::Default => "default"@,
        ConfigSource::File(p) => "config: "@ + p@,
        ConfigSource::Env(v) => "env: "@ + v@,
        ConfigSource::Cli => "cli"@,
    }
}

impl ConfigSource {
    /// The display text: `default`, `config: <path>`, `env: <name>`,
    /// or `cli`.
    pub fn describe(&self) -> (r: String)
        ensures
            r@ == source_text(*self),
    {
        match self {
            ConfigSource::Default => String::from_str("default"),
            ConfigSource::File(p) => {
                let mut out = String::from_str("config: ");
                out.append(p.as_str());
                out
            },
            ConfigSource::Env(v) => {
                let mut out = String::from_str("env: ");
                out.append(v.as_str());
                out
            },
            ConfigSource::Cli => String::from_str("cli"),
        }
    }
}

/// The source of each tracked configuration value.
#[derive(Debug, Clone)]
pub struct ConfigSources {
    pub embed_local: ConfigSource,
    pub embed_remote: ConfigSource,
    pub optimize_local: ConfigSource,
    pub optimize_remote: ConfigSource,
    pub max_dimension: ConfigSource,
    pub quality: ConfigSource,
    pub strict: ConfigSource,
    pub highlight_enable: ConfigSource,
    pub highlight_theme: ConfigSource,
}

impl Default for ConfigSources {
    fn default() -> (r: Self)
        ensures
            r.embed_local is Default,
            r.embed_remote is Default,
            r.optimize_local is Default,
            r.optimize_remote is Default,
            r.max_dimension is Default,
            r.quality is Default,
            r.strict is Default,
            r.highlight_enable is Default,
            r.highlight_theme is Default,
    {
        ConfigSources {
            embed_local: ConfigSource::Default,
            embed_remote: ConfigSource::Default,
            optimize_local: ConfigSource::Default,
            optimize_remote: ConfigSource::Default,
            max_dimension: ConfigSource::Default,
            quality: ConfigSource::Default,
            strict: ConfigSource::Default,
            highlight_enable: ConfigSource::Default,
            highlight_theme: ConfigSource::Default,
        }
    }
}

/// The fully resolved configuration.
#[derive(Debug)]
pub struct Config {
    pub input: String,
    pub output: Option<String>,
    pub root: Option<String>,
    pub strict: bool,
    /// Emit a ProseMirror slice marker for paste compatibility.
    pub prosemirror: bool,
    pub highlight: HighlightConfig,
    pub image: ImageConfig,
}

impl Default for Config {
    /// Read from standard input, graceful failure handling, defaults
    /// everywhere else.
    fn default() -> (r: Self)
        ensures
            r.input@ == "-"@,
            r.output is None,
            r.root is None,
            r.strict == false,
            r.prosemirror == true,
            r.highlight.enable == true,
            r.highlight.theme@ == "base16-ocean.dark"@,
            r.highlight.themes_dir is None,
            r.highlight.syntaxes_dir is None,
            r.highlight.languages@ == default_language_map(),
            r.image.embed_local == true,
            r.image.embed_remote == false,
            r.image.optimize_local == true,
            r.image.optimize_remote == false,
            r.image.max_dimension == 1200,
            r.image.quality == 80,
    {
        Config {
            input: String::from_str("-"),
            output: None,
            root: None,
            strict: false,
            prosemirror: true,
            highlight: HighlightConfig::default(),
            image: ImageConfig::default(),
        }
    }
}

/// Command-line values for highlight settings; `None` means not given.
pub struct CliHighlightArgs {
    pub enable: Option<bool>,
    pub theme: Option<String>,
    pub themes_dir: Option<String>,
    pub syntaxes_dir: Option<String>,
}

/// Command-line values for image settings; `None` means not given.
pub struct CliImageArgs {
    pub embed_local: Option<bool>,
    pub embed_remote: Option<bool>,
    pub optimize_local: Option<bool>,
    pub optimize_remote: Option<bool>,
    pub max_dimension: Option<u32>,
    pub quality: Option<u8>,
}

/// Command-line values; `None` means not given.
pub struct CliArgs {
    pub input: Option<String>,
    pub output: Option<String>,
    pub root: Option<String>,
    pub strict: Option<bool>,
    pub prosemirror: Option<bool>,
    pub highlight: CliHighlightArgs,
    pub image: CliImageArgs,
}

/// Values read from `MDCOPY_*` environment variables, already parsed;
/// `None` means not set or unparsable.
pub struct EnvSettings {
    pub input: Option<String>,
    pub output: Option<String>,
    pub root: Option<String>,
    pub strict: Option<bool>,
    pub prosemirror: Option<bool>,
    pub highlight_enable: Option<bool>,
    pub highlight_theme: Option<String>,
    pub highlight_themes_dir: Option<String>,
    pub highlight_syntaxes_dir: Option<String>,
    pub image_embed_local: Option<bool>,
    pub image_embed_remote: Option<bool>,
    pub image_optimize_local: Option<bool>,
    pub image_optimize_remote: Option<bool>,
    pub image_max_dimension: Option<u32>,
    pub image_quality: Option<u8>,
}

impl Default for EnvSettings {
    fn default() -> (r: Self)
        ensures
            r.input is None,
            r.output is None,
            r.root is None,
            r.strict is None,
            r.prosemirror is None,
            r.highlight_enable is None,
            r.highlight_theme is None,
            r.highlight_themes_dir is None,
            r.highlight_syntaxes_dir is None,
            r.image_embed_local is None,
            r.image_embed_remote is None,
            r.image_optimize_local is None,
            r.image_optimize_remote is None,
            r.image_max_dimension is None,
            r.image_quality is None,
    {
        EnvSettings {
            input: None,
            output: None,
            root: None,
            strict: None,
            prosemirror: None,
            highlight_enable: None,
            highlight_theme: None,
            highlight_themes_dir: None,
            highlight_syntaxes_dir: None,
            image_embed_local: None,
            image_embed_remote: None,
            image_optimize_local: None,
            image_optimize_remote: None,
            image_max_dimension: None,
            image_quality: None,
        }
    }
}

/// How a boolean setting reads: `true`, `1`, `yes`, and `on` affirm;
/// `false`, `0`, `no`, and `off` deny; anything else is no value.
/// ASCII letters compare case-insensitively.
pub open spec fn parsed_bool(s: Seq<char>) -> Option<bool> {
    if eq_ignore_ascii_case_spec(s, "true"@) || eq_ignore_ascii_case_spec(s, "1"@)
        || eq_ignore_ascii_case_spec(s, "yes"@) || eq_ignore_ascii_case_spec(s, "on"@) {
        Some(true)
    } else if eq_ignore_ascii_case_spec(s, "false"@) || eq_ignore_ascii_case_spec(s, "0"@)
        || eq_ignore_ascii_case_spec(s, "no"@) || eq_ignore_ascii_case_spec(s, "off"@) {
        Some(false)
    } else {
        None
    }
}

/// Parses a boolean setting.
pub fn parse_bool(s: &str) -> (r: Option<bool>)
    ensures
        r == parsed_bool(s@),
{
    if str_eq_ignore_ascii_case(s, "true") || str_eq_ignore_ascii_case(s, "1")
        || str_eq_ignore_ascii_case(s, "yes") || str_eq_ignore_ascii_case(s, "on") {
        Some(true)
    } else if str_eq_ignore_ascii_case(s, "false") || str_eq_ignore_ascii_case(s, "0")
        || str_eq_ignore_ascii_case(s, "no") || str_eq_ignore_ascii_case(s, "off") {
        Some(false)
    } else {
        None
    }
}

/// Relies on dirs' `config_local_dir`: the platform's local
/// configuration directory, if the system names one; the answer
/// depends on the environment.
#[verifier::external_body]
fn config_local_dir() -> (r: Option<String>) {
    dirs::config_local_dir().map(|p| p.to_string_lossy().into_owned())
}

/// Joining a relative name keeps it as a suffix.
proof fn lemma_join_keeps_suffix(base: Seq<char>, rel: Seq<char>)
    requires
        rel.len() > 0,
        rel[0] != '/',
    ensures
        rel.is_suffix_of(joined_path(base, rel)),
{
    let j = joined_path(base, rel);
    if base.len() == 0 {
        assert(rel =~= j.subrange(j.len() - rel.len(), j.len() as int));
    } else if base[base.len() - 1] == '/' {
        assert(rel =~= j.subrange(j.len() - rel.len(), j.len() as int));
    } else {
        assert(rel =~= j.subrange(j.len() - rel.len(), j.len() as int));
    }
}

/// The application's configuration directory: the platform
/// configuration directory with `mdcopy` appended, when the platform
/// names one.
pub fn default_config_dir() -> (r: Option<String>)
    ensures
        r matches Some(d) ==> "mdcopy"@.is_suffix_of(d@),
{
    match config_local_dir() {
        Some(base) => {
            let d = join_path(base.as_str(), "mdcopy");
            proof {
                reveal_strlit("mdcopy");
                lemma_join_keeps_suffix(base@, "mdcopy"@);
            }
            Some(d)
        },
        None => None,
    }
}

/// The default configuration file: `config.toml` in the application's
/// configuration directory.
pub fn default_config_path() -> (r: Option<String>)
    ensures
        r matches Some(p) ==> "config.toml"@.is_suffix_of(p@),
{
    match default_config_dir() {
        Some(d) => {
            let p = join_path(d.as_str(), "config.toml");
            proof {
                reveal_strlit("config.toml");
                lemma_join_keeps_suffix(d@, "config.toml"@);
            }
            Some(p)
        },
        None => None,
    }
}

impl HighlightConfig {
    /// The theme in effect.
    pub fn effective_theme(&self) -> (r: &str)
        ensures
            r@ == self.theme@,
    {
        self.theme.as_str()
    }

    /// The themes directory: the configured one, else `themes` under
    /// the application's configuration directory.
    pub fn get_themes_dir(&self) -> (r: Option<String>)
        ensures
            self.themes_dir matches Some(d) ==> (r matches Some(p) && p@ == d@),
            self.themes_dir is None ==> (r matches Some(p) ==> "themes"@.is_suffix_of(p@)),
    {
        match &self.themes_dir {
            Some(d) => Some(d.clone()),
            None => match default_config_dir() {
                Some(d) => {
                    let p = join_path(d.as_str(), "themes");
                    proof {
                        reveal_strlit("themes");
                        lemma_join_keeps_suffix(d@, "themes"@);
                    }
                    Some(p)
                },
                None => None,
            },
        }
    }

    /// The syntaxes directory: the configured one, else `syntaxes`
    /// under the application's configuration directory.
    pub fn get_syntaxes_dir(&self) -> (r: Option<String>)
        ensures
            self.syntaxes_dir matches Some(d) ==> (r matches Some(p) && p@ == d@),
            self.syntaxes_dir is None ==> (r matches Some(p) ==> "syntaxes"@.is_suffix_of(p@)),
    {
        match &self.syntaxes_dir {
            Some(d) => Some(d.clone()),
            None => match default_config_dir() {
                Some(d) => {
                    let p = join_path(d.as_str(), "syntaxes");
                    proof {
                        reveal_strlit("syntaxes");
                        lemma_join_keeps_suffix(d@, "syntaxes"@);
                    }
                    Some(p)
                },
                None => None,
            },
        }
    }
}

/// The highest-priority value present: CLI over environment over file
/// over the default.
pub open spec fn chosen<T>(cli: Option<T>, env: Option<T>, file: Option<T>, default: T) -> T {
    if cli is Some {
        cli.unwrap()
    } else if env is Some {
        env.unwrap()
    } else if file is Some {
        file.unwrap()
    } else {
        default
    }
}

/// The highest-priority text present, by view.
pub open spec fn chosen_text(
    cli: Option<String>,
    env: Option<String>,
    file: Option<String>,
    default: Seq<char>,
) -> Seq<char> {
    match cli {
        Some(v) => v@,
        None => match env {
            Some(v) => v@,
            None => match file {
                Some(v) => v@,
                None => default,
            },
        },
    }
}

/// The highest-priority optional text present, by view.
pub open spec fn chosen_opt(
    cli: Option<String>,
    env: Option<String>,
    file: Option<String>,
) -> Option<Seq<char>> {
    match cli {
        Some(v) => Some(v@),
        None => match env {
            Some(v) => Some(v@),
            None => match file {
                Some(v) => Some(v@),
                None => None,
            },
        },
    }
}

/// An optional string by view.
pub open spec fn opt_view(o: Option<String>) -> Option<Seq<char>> {
    match o {
        Some(v) => Some(v@),
        None => None,
    }
}

/// The source that must be recorded for a tracked setting, given which
/// layers supplied it.
pub open spec fn source_ok(
    s: ConfigSource,
    cli_set: bool,
    env_set: bool,
    file_set: bool,
    env_name: Seq<char>,
    file_path: Option<Seq<char>>,
) -> bool {
    if cli_set {
        s is Cli
    } else if env_set {
        match s {
            ConfigSource::Env(v) => v@ == env_name,
            _ => false,
        }
    } else if file_set {
        match file_path {
            Some(p) => match s {
                ConfigSource::File(q) => q@ == p,
                _ => false,
            },
            None => s is Default,
        }
    } else {
        s is Default
    }
}


/// The first value present: CLI over environment over file.
pub open spec fn first_of<T>(cli: Option<T>, env: Option<T>, file: Option<T>) -> Option<T> {
    if cli is Some {
        cli
    } else if env is Some {
        env
    } else {
        file
    }
}

/// Picks the highest-priority value present, else the default.
fn pick<T>(cli: Option<T>, env: Option<T>, file: Option<T>, default: T) -> (r: T)
    ensures
        r == chosen(cli, env, file, default),
{
    match cli {
        Some(v) => v,
        None => match env {
            Some(v) => v,
            None => match file {
                Some(v) => v,
                None => default,
            },
        },
    }
}

/// Picks the highest-priority optional value present.
fn pick_opt<T>(cli: Option<T>, env: Option<T>, file: Option<T>) -> (r: Option<T>)
    ensures
        r == first_of(cli, env, file),
{
    match cli {
        Some(v) => Some(v),
        None => match env {
            Some(v) => Some(v),
            None => file,
        },
    }
}

/// Picks the source to record for a tracked setting, given which
/// layers supplied it.
fn pick_source(
    cli_set: bool,
    env_set: bool,
    file_set: bool,
    env_name: &str,
    file_path: &Option<String>,
) -> (r: ConfigSource)
    ensures
        source_ok(r, cli_set, env_set, file_set, env_name@, opt_view(*file_path)),
{
    if cli_set {
        ConfigSource::Cli
    } else if env_set {
        ConfigSource::Env(String::from_str(env_name))
    } else if file_set {
        file_source(file_path)
    } else {
        ConfigSource::Default
    }
}

/// The source standing for a value that came from the configuration
/// file, when one was loaded.
fn file_source(path: &Option<String>) -> (r: ConfigSource)
    ensures
        match path {
            Some(p) => r matches ConfigSource::File(q) && q@ == p@,
            None => r is Default,
        },
{
    match path {
        Some(p) => ConfigSource::File(p.clone()),
        None => ConfigSource::Default,
    }
}

impl Config {
    /// Merges configuration with CLI-over-environment-over-file-over-
    /// default precedence, and reports where each tracked value came
    /// from.  `file` is the parsed configuration file (its defaults
    /// when none was loaded) and `file_path` the path it was loaded
    /// from.
    #[verifier::rlimit(100)]
    pub fn build(cli: CliArgs, file: FileConfig, file_path: Option<String>, env: EnvSettings) -> (r:
        (Config, ConfigSources))
        ensures
            r.0.input@ == chosen_text(cli.input, env.input, file.input, "-"@),
            opt_view(r.0.output) == chosen_opt(cli.output, env.output, file.output),
            opt_view(r.0.root) == chosen_opt(cli.root, env.root, file.root),
            r.0.strict == chosen(cli.strict, env.strict, file.strict, false),
            r.0.prosemirror == chosen(cli.prosemirror, env.prosemirror, file.prosemirror, true),
            r.0.highlight.enable == chosen(
                cli.highlight.enable,
                env.highlight_enable,
                file.highlight.enable,
                true,
            ),
            r.0.highlight.theme@ == chosen_text(
                cli.highlight.theme,
                env.highlight_theme,
                file.highlight.theme,
                "base16-ocean.dark"@,
            ),
            opt_view(r.0.highlight.themes_dir) == chosen_opt(
                cli.highlight.themes_dir,
                env.highlight_themes_dir,
                file.highlight.themes_dir,
            ),
            opt_view(r.0.highlight.syntaxes_dir) == chosen_opt(
                cli.highlight.syntaxes_dir,
                env.highlight_syntaxes_dir,
                file.highlight.syntaxes_dir,
            ),
            r.0.highlight.languages@ == default_language_map().union_prefer_right(
                file.highlight.languages@,
            ),
            r.0.image.embed_local == chosen(
                cli.image.embed_local,
                env.image_embed_local,
                file.image.embed.local,
                true,
            ),
            r.0.image.embed_remote == chosen(
                cli.image.embed_remote,
                env.image_embed_remote,
                file.image.embed.remote,
                false,
            ),
            r.0.image.optimize_local == chosen(
                cli.image.optimize_local,
                env.image_optimize_local,
                file.image.embed.optimize_local,
                true,
            ),
            r.0.image.optimize_remote == chosen(
                cli.image.optimize_remote,
                env.image_optimize_remote,
                file.image.embed.optimize_remote,
                false,
            ),
            r.0.image.max_dimension == chosen(
                cli.image.max_dimension,
                env.image_max_dimension,
                file.image.embed.max_dimension,
                1200u32,
            ),
            r.0.image.quality == chosen(
                cli.image.quality,
                env.image_quality,
                file.image.embed.quality,
                80u8,
            ),
            source_ok(
                r.1.strict,
                cli.strict is Some,
                env.strict is Some,
                file.strict is Some,
                "MDCOPY_STRICT"@,
                opt_view(file_path),
            ),
            source_ok(
                r.1.highlight_enable,
                cli.highlight.enable is Some,
                env.highlight_enable is Some,
                file.highlight.enable is Some,
                "MDCOPY_HIGHLIGHT"@,
                opt_view(file_path),
            ),
            source_ok(
                r.1.highlight_theme,
                cli.highlight.theme is Some,
                env.highlight_theme is Some,
                file.highlight.theme is Some,
                "MDCOPY_HIGHLIGHT_THEME"@,
                opt_view(file_path),
            ),
            source_ok(
                r.1.embed_local,
                cli.image.embed_local is Some,
                env.image_embed_local is Some,
                file.image.embed.local is Some,
                "MDCOPY_IMAGE_EMBED_LOCAL"@,
                opt_view(file_path),
            ),
            source_ok(
                r.1.embed_remote,
                cli.image.embed_remote is Some,
                env.image_embed_remote is Some,
                file.image.embed.remote is Some,
                "MDCOPY_IMAGE_EMBED_REMOTE"@,
                opt_view(file_path),
            ),
            source_ok(
                r.1.optimize_local,
                cli.image.optimize_local is Some,
                env.image_optimize_local is Some,
                file.image.embed.optimize_local is Some,
                "MDCOPY_IMAGE_EMBED_OPTIMIZE_LOCAL"@,
                opt_view(file_path),
            ),
            source_ok(
                r.1.optimize_remote,
                cli.image.optimize_remote is Some,
                env.image_optimize_remote is Some,
                file.image.embed.optimize_remote is Some,
                "MDCOPY_IMAGE_EMBED_OPTIMIZE_REMOTE"@,
                opt_view(file_path),
            ),
            source_ok(
                r.1.max_dimension,
                cli.image.max_dimension is Some,
                env.image_max_dimension is Some,
                file.image.embed.max_dimension is Some,
                "MDCOPY_IMAGE_EMBED_MAX_DIMENSION"@,
                opt_view(file_path),
            ),
            source_ok(
                r.1.quality,
                cli.image.quality is Some,
                env.image_quality is Some,
                file.image.embed.quality is Some,
                "MDCOPY_IMAGE_EMBED_QUALITY"@,
                opt_view(file_path),
            ),
    {
        let languages = {
            let mut l = default_language_mappings();
            l.merge_from(file.highlight.languages);
            l
        };
        let sources = ConfigSources {
            embed_local: pick_source(
                cli.image.embed_local.is_some(),
                env.image_embed_local.is_some(),
                file.image.embed.local.is_some(),
                "MDCOPY_IMAGE_EMBED_LOCAL",
                &file_path,
            ),
            embed_remote: pick_source(
                cli.image.embed_remote.is_some(),
                env.image_embed_remote.is_some(),
                file.image.embed.remote.is_some(),
                "MDCOPY_IMAGE_EMBED_REMOTE",
                &file_path,
            ),
            optimize_local: pick_source(
                cli.image.optimize_local.is_some(),
                env.image_optimize_local.is_some(),
                file.image.embed.optimize_local.is_some(),
                "MDCOPY_IMAGE_EMBED_OPTIMIZE_LOCAL",
                &file_path,
            ),
            optimize_remote: pick_source(
                cli.image.optimize_remote.is_some(),
                env.image_optimize_remote.is_some(),
                file.image.embed.optimize_remote.is_some(),
                "MDCOPY_IMAGE_EMBED_OPTIMIZE_REMOTE",
                &file_path,
            ),
            max_dimension: pick_source(
                cli.image.max_dimension.is_some(),
                env.image_max_dimension.is_some(),
                file.image.embed.max_dimension.is_some(),
                "MDCOPY_IMAGE_EMBED_MAX_DIMENSION",
                &file_path,
            ),
            quality: pick_source(
                cli.image.quality.is_some(),
                env.image_quality.is_some(),
                file.image.embed.quality.is_some(),
                "MDCOPY_IMAGE_EMBED_QUALITY",
                &file_path,
            ),
            strict: pick_source(
                cli.strict.is_some(),
                env.strict.is_some(),
                file.strict.is_some(),
                "MDCOPY_STRICT",
                &file_path,
            ),
            highlight_enable: pick_source(
                cli.highlight.enable.is_some(),
                env.highlight_enable.is_some(),
                file.highlight.enable.is_some(),
                "MDCOPY_HIGHLIGHT",
                &file_path,
            ),
            highlight_theme: pick_source(
                cli.highlight.theme.is_some(),
                env.highlight_theme.is_some(),
                file.highlight.theme.is_some(),
                "MDCOPY_HIGHLIGHT_THEME",
                &file_path,
            ),
        };
        let config = Config {
            input: pick(cli.input, env.input, file.input, String::from_str("-")),
            output: pick_opt(cli.output, env.output, file.output),
            root: pick_opt(cli.root, env.root, file.root),
            strict: pick(cli.strict, env.strict, file.strict, false),
            prosemirror: pick(cli.prosemirror, env.prosemirror, file.prosemirror, true),
            highlight: HighlightConfig {
                enable: pick(
                    cli.highlight.enable,
                    env.highlight_enable,
                    file.highlight.enable,
                    true,
                ),
                theme: pick(
                    cli.highlight.theme,
                    env.highlight_theme,
                    file.highlight.theme,
                    String::from_str("base16-ocean.dark"),
                ),
                themes_dir: pick_opt(
                    cli.highlight.themes_dir,
                    env.highlight_themes_dir,
                    file.highlight.themes_dir,
                ),
                syntaxes_dir: pick_opt(
                    cli.highlight.syntaxes_dir,
                    env.highlight_syntaxes_dir,
                    file.highlight.syntaxes_dir,
                ),
                languages,
            },
            image: ImageConfig {
                embed_local: pick(
                    cli.image.embed_local,
                    env.image_embed_local,
                    file.image.embed.local,
                    true,
                ),
                embed_remote: pick(
                    cli.image.embed_remote,
                    env.image_embed_remote,
                    file.image.embed.remote,
                    false,
                ),
                optimize_local: pick(
                    cli.image.optimize_local,
                    env.image_optimize_local,
                    file.image.embed.optimize_local,
                    true,
                ),
                optimize_remote: pick(
                    cli.image.optimize_remote,
                    env.image_optimize_remote,
                    file.image.embed.optimize_remote,
                    false,
                ),
                max_dimension: pick(
                    cli.image.max_dimension,
                    env.image_max_dimension,
                    file.image.embed.max_dimension,
                    1200,
                ),
                quality: pick(cli.image.quality, env.image_quality, file.image.embed.quality, 80),
            },
        };
        (config, sources)
    }
}


/// One settings line: two leading spaces, the name, the value, and the
/// source in parentheses.
pub open spec fn setting_line(label: Seq<char>, value: Seq<char>, src: ConfigSource) -> Seq<char> {
    label + value + " ("@ + source_text(src) + ")"@
}

/// The settings display: one line per tracked setting, joined by
/// newlines.
pub open spec fn settings_text(c: Config, s: ConfigSources) -> Seq<char> {
    setting_line("  embed_local: "@, bool_text(c.image.embed_local), s.embed_local) + "\n"@
        + setting_line("  embed_remote: "@, bool_text(c.image.embed_remote), s.embed_remote)
        + "\n"@ + setting_line(
        "  optimize_local: "@,
        bool_text(c.image.optimize_local),
        s.optimize_local,
    ) + "\n"@ + setting_line(
        "  optimize_remote: "@,
        bool_text(c.image.optimize_remote),
        s.optimize_remote,
    ) + "\n"@ + setting_line(
        "  max_dimension: "@,
        dec_of(c.image.max_dimension as nat),
        s.max_dimension,
    ) + "\n"@ + setting_line("  quality: "@, dec_of(c.image.quality as nat), s.quality) + "\n"@
        + setting_line("  strict: "@, bool_text(c.strict), s.strict) + "\n"@ + setting_line(
        "  highlight: "@,
        bool_text(c.highlight.enable),
        s.highlight_enable,
    ) + "\n"@ + setting_line("  highlight_theme: "@, c.highlight.theme@, s.highlight_theme)
}

/// Appends one settings line.
fn push_setting_line(out: &mut String, label: &str, value: &str, src: &ConfigSource)
    ensures
        final(out)@ == old(out)@ + setting_line(label@, value@, *src),
{
    out.append(label);
    out.append(value);
    out.append(" (");
    let d = src.describe();
    out.append(d.as_str());
    out.append(")");
}

impl ConfigSources {
    /// Formats the current settings with their sources, one per line,
    /// as shown under the help text.
    pub fn format_settings(&self, config: &Config) -> (r: String)
        ensures
            r@ == settings_text(*config, *self),
    {
        let mut out = String::new();
        push_setting_line(
            &mut out,
            "  embed_local: ",
            bool_str(config.image.embed_local),
            &self.embed_local,
        );
        out.append("\n");
        push_setting_line(
            &mut out,
            "  embed_remote: ",
            bool_str(config.image.embed_remote),
            &self.embed_remote,
        );
        out.append("\n");
        push_setting_line(
            &mut out,
            "  optimize_local: ",
            bool_str(config.image.optimize_local),
            &self.optimize_local,
        );
        out.append("\n");
        push_setting_line(
            &mut out,
            "  optimize_remote: ",
            bool_str(config.image.optimize_remote),
            &self.optimize_remote,
        );
        out.append("\n");
        let mut max_dim_text = String::new();
        push_dec_u32(&mut max_dim_text, config.image.max_dimension);
        push_setting_line(&mut out, "  max_dimension: ", max_dim_text.as_str(), &self.max_dimension);
        out.append("\n");
        let mut quality_text = String::new();
        push_dec_u32(&mut quality_text, config.image.quality as u32);
        push_setting_line(&mut out, "  quality: ", quality_text.as_str(), &self.quality);
        out.append("\n");
        push_setting_line(&mut out, "  strict: ", bool_str(config.strict), &self.strict);
        out.append("\n");
        push_setting_line(
            &mut out,
            "  highlight: ",
            bool_str(config.highlight.enable),
            &self.highlight_enable,
        );
        out.append("\n");
        push_setting_line(
            &mut out,
            "  highlight_theme: ",
            config.highlight.theme.as_str(),
            &self.highlight_theme,
        );
        proof {
            assert(out@ =~= settings_text(*config, *self));
        }
        out
    }
}

/// How one character reads inside a quoted string: quotes, backslashes,
/// and the common control characters are escaped with a backslash.
pub open spec fn escaped_char(c: char) -> Seq<char> {
    if c == '"' {
        seq!['\\', '"']
    } else if c == '\\' {
        seq!['\\', '\\']
    } else if c == '\n' {
        seq!['\\', 'n']
    } else if c == '\r' {
        seq!['\\', 'r']
    } else if c == '\t' {
        seq!['\\', 't']
    } else {
        seq![c]
    }
}

/// A text with every character escaped for quoting.
pub open spec fn escaped_text(s: Seq<char>) -> Seq<char>
    decreases s.len(),
{
    if s.len() == 0 {
        Seq::empty()
    } else {
        escaped_text(s.drop_last()) + escaped_char(s.last())
    }
}

/// A text surrounded by double quotes, with its content escaped.
pub open spec fn quoted(s: Seq<char>) -> Seq<char> {
    seq!['"'] + escaped_text(s) + seq!['"']
}

/// Appends `s` in double quotes, escaping quotes, backslashes, and
/// common control characters.
fn push_quoted(out: &mut String, s: &str)
    ensures
        final(out)@ == old(out)@ + quoted(s@),
{
    proof {
        reveal_strlit("\"");
        reveal_strlit("\\\"");
        reveal_strlit("\\\\");
        reveal_strlit("\\n");
        reveal_strlit("\\r");
        reveal_strlit("\\t");
    }
    out.append("\"");
    let n = s.unicode_len();
    let mut i: usize = 0;
    while i < n
        invariant
            0 <= i <= n,
            n == s@.len(),
            out@ == old(out)@ + seq!['"'] + escaped_text(s@.take(i as int)),
        decreases n - i,
    {
        let c = s.get_char(i);
        if c == '"' {
            proof {
                reveal_strlit("\\\"");
            }
            out.append("\\\"");
        } else if c == '\\' {
            proof {
                reveal_strlit("\\\\");
            }
            out.append("\\\\");
        } else if c == '\n' {
            proof {
                reveal_strlit("\\n");
            }
            out.append("\\n");
        } else if c == '\r' {
            proof {
                reveal_strlit("\\r");
            }
            out.append("\\r");
        } else if c == '\t' {
            proof {
                reveal_strlit("\\t");
            }
            out.append("\\t");
        } else {
            out.append(s.substring_char(i, i + 1));
        }
        proof {
            assert(s@.take(i + 1).drop_last() =~= s@.take(i as int));
            assert(s@.take(i + 1).last() == s@[i as int]);
            assert(out@ =~= old(out)@ + seq!['"'] + escaped_text(s@.take(i + 1)));
        }
        i = i + 1;
    }
    proof {
        assert(s@.take(n as int) =~= s@);
    }
    out.append("\"");
    proof {
        assert(out@ =~= old(out)@ + quoted(s@));
    }
}

/// A `name = "value"` line with a trailing newline.
pub open spec fn quoted_line(name: Seq<char>, value: Seq<char>) -> Seq<char> {
    name + quoted(value) + "\n"@
}

/// The optional top-level path lines of the TOML rendering.
pub open spec fn toml_paths(c: Config) -> Seq<char> {
    (if c.input@ != "-"@ {
        quoted_line("input = "@, c.input@)
    } else {
        Seq::empty()
    }) + (match c.output {
        Some(p) => quoted_line("output = "@, p@),
        None => Seq::empty(),
    }) + (match c.root {
        Some(p) => quoted_line("root = "@, p@),
        None => Seq::empty(),
    })
}

/// The strictness flag and the highlight table of the TOML rendering.
pub open spec fn toml_highlight(c: Config) -> Seq<char> {
    "strict = "@ + bool_text(c.strict) + "\n\n[highlight]\nenable = "@ + bool_text(
        c.highlight.enable,
    ) + "\ntheme = "@ + quoted(c.highlight.theme@) + "\n"@ + (match c.highlight.themes_dir {
        Some(p) => quoted_line("themes_dir = "@, p@),
        None => Seq::empty(),
    }) + (match c.highlight.syntaxes_dir {
        Some(p) => quoted_line("syntaxes_dir = "@, p@),
        None => Seq::empty(),
    })
}

/// The image embed table of the TOML rendering.
pub open spec fn toml_image(c: Config) -> Seq<char> {
    "\n[image.embed]\nlocal = "@ + bool_text(c.image.embed_local) + "\nremote = "@ + bool_text(
        c.image.embed_remote,
    ) + "\noptimize_local = "@ + bool_text(c.image.optimize_local) + "\noptimize_remote = "@
        + bool_text(c.image.optimize_remote) + "\nmax_dimension = "@ + dec_of(
        c.image.max_dimension as nat,
    ) + "\nquality = "@ + dec_of(c.image.quality as nat)
}

/// The configuration rendered as TOML: the optional top-level paths,
/// the strictness flag, the highlight table, and the image embed table.
pub open spec fn toml_text(c: Config) -> Seq<char> {
    toml_paths(c) + toml_highlight(c) + toml_image(c)
}

/// Renders the optional top-level path lines.
fn toml_paths_string(c: &Config) -> (r: String)
    ensures
        r@ == toml_paths(*c),
{
    let mut out = String::new();
    if !str_eq(c.input.as_str(), "-") {
        out.append("input = ");
        push_quoted(&mut out, c.input.as_str());
        out.append("\n");
    }
    if let Some(p) = &c.output {
        out.append("output = ");
        push_quoted(&mut out, p.as_str());
        out.append("\n");
    }
    if let Some(p) = &c.root {
        out.append("root = ");
        push_quoted(&mut out, p.as_str());
        out.append("\n");
    }
    proof {
        assert(out@ =~= toml_paths(*c));
    }
    out
}

/// Renders the strictness flag and the highlight table.
fn toml_highlight_string(c: &Config) -> (r: String)
    ensures
        r@ == toml_highlight(*c),
{
    let mut out = String::new();
    out.append("strict = ");
    out.append(bool_str(c.strict));
    out.append("\n\n[highlight]\nenable = ");
    out.append(bool_str(c.highlight.enable));
    out.append("\ntheme = ");
    push_quoted(&mut out, c.highlight.theme.as_str());
    out.append("\n");
    if let Some(p) = &c.highlight.themes_dir {
        out.append("themes_dir = ");
        push_quoted(&mut out, p.as_str());
        out.append("\n");
    }
    if let Some(p) = &c.highlight.syntaxes_dir {
        out.append("syntaxes_dir = ");
        push_quoted(&mut out, p.as_str());
        out.append("\n");
    }
    proof {
        assert(out@ =~= toml_highlight(*c));
    }
    out
}

/// Renders the image embed table.
fn toml_image_string(c: &Config) -> (r: String)
    ensures
        r@ == toml_image(*c),
{
    let mut out = String::new();
    out.append("\n[image.embed]\nlocal = ");
    out.append(bool_str(c.image.embed_local));
    out.append("\nremote = ");
    out.append(bool_str(c.image.embed_remote));
    out.append("\noptimize_local = ");
    out.append(bool_str(c.image.optimize_local));
    out.append("\noptimize_remote = ");
    out.append(bool_str(c.image.optimize_remote));
    out.append("\nmax_dimension = ");
    let mut max_dim_text = String::new();
    push_dec_u32(&mut max_dim_text, c.image.max_dimension);
    out.append(max_dim_text.as_str());
    out.append("\nquality = ");
    let mut quality_text = String::new();
    push_dec_u32(&mut quality_text, c.image.quality as u32);
    out.append(quality_text.as_str());
    proof {
        assert(out@ =~= toml_image(*c));
    }
    out
}

impl Config {
    /// Renders the configuration as TOML, omitting unset optional
    /// paths and the standard-input marker.
    pub fn to_toml(&self) -> (r: String)
        ensures
            r@ == toml_text(*self),
    {
        let mut out = toml_paths_string(self);
        let mid = toml_highlight_string(self);
        out.append(mid.as_str());
        let tail = toml_image_string(self);
        out.append(tail.as_str());
        out
    }
}

} // verus!
