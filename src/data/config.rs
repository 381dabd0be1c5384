//! The per-folder configuration file, `tarmac.toml`.
use vstd::prelude::*;

use crate::document::{
    check_keys, key_known, entry_value, field_message, keys_within, lookup, parse_toml, size_from,
    size_of_value, string_views, toml_document, TomlValue,
};
use crate::paths::{join, parent, path_join, path_parent};

verus! {

/// What generated code accompanies an asset reference.
#[derive(Clone, Copy, Debug, PartialEq, Eq, Structural)]
pub enum CodegenKind {
    /// No generated binding.
    NoCode,
    /// A plain URL reference.
    AssetUrl,
    /// A URL together with the rectangle that the image occupies in a
    /// spritesheet.
    UrlAndSlice,
}

impl Default for CodegenKind {
    fn default() -> (r: Self)
        ensures
            r == CodegenKind::NoCode,
    {
        CodegenKind::NoCode
    }
}

/// Project-level fields, meaningful only in the top-level file.
#[derive(Debug)]
pub struct ProjectConfig {
    /// A human-readable name for the project.
    pub name: String,
    /// The largest size of a packed spritesheet, as width and height.
    pub max_spritesheet_size: (usize, usize),
}

/// A reference to another config location.
#[derive(Debug)]
pub struct IncludeConfig {
    pub path: String,
}

/// A set of input files and how they are handled.
#[derive(Debug)]
pub struct InputConfig {
    /// The glob pattern that selects the files.
    pub glob: String,
    /// The generated code that accompanies the assets.
    pub codegen: CodegenKind,
    /// Whether the assets may be packed into spritesheets.
    pub packable: bool,
}

/// One config file, as loaded.
#[derive(Debug)]
pub struct Config {
    pub project: Option<ProjectConfig>,
    pub includes: Vec<IncludeConfig>,
    pub inputs: Vec<InputConfig>,
    /// The file the config was loaded from; never read from the file itself.
    pub file_path: String,
}

/// Why a config could not be loaded.
#[derive(Debug)]
pub enum ConfigError {
    /// The file is not valid TOML, or does not match the schema.
    Toml { path: String, message: String },
    /// The file could not be located or read.
    Io { path: String, source: std::io::Error },
}

/// `std::io::Error`, carried by `ConfigError::Io`.
#[verifier::external_type_specification]
#[verifier::external_body]
pub struct ExIoError(std::io::Error);

impl View for ProjectConfig {
    type V = (Seq<char>, (usize, usize));

    open spec fn view(&self) -> Self::V {
        (self.name@, self.max_spritesheet_size)
    }
}

impl View for IncludeConfig {
    type V = Seq<char>;

    open spec fn view(&self) -> Seq<char> {
        self.path@
    }
}

impl View for InputConfig {
    type V = (Seq<char>, CodegenKind, bool);

    open spec fn view(&self) -> Self::V {
        (self.glob@, self.codegen, self.packable)
    }
}

/// The declared fields of a config.
pub struct ConfigView {
    pub project: Option<(Seq<char>, (usize, usize))>,
    pub includes: Seq<Seq<char>>,
    pub inputs: Seq<(Seq<char>, CodegenKind, bool)>,
}

impl View for Config {
    type V = ConfigView;

    open spec fn view(&self) -> ConfigView {
        ConfigView {
            project: match self.project {
                Some(p) => Some(p@),
                None => None,
            },
            includes: self.includes@.map_values(|c: IncludeConfig| c@),
            inputs: self.inputs@.map_values(|c: InputConfig| c@),
        }
    }
}

impl Config {
    /// A loaded config has a folder.
    pub open spec fn wf(&self) -> bool {
        path_parent(self.file_path@) is Some
    }
}

pub open spec fn config_keys() -> Seq<Seq<char>> {
    seq!["project"@, "includes"@, "inputs"@]
}

pub open spec fn project_keys() -> Seq<Seq<char>> {
    seq!["name"@, "max-spritesheet-size"@]
}

pub open spec fn include_keys() -> Seq<Seq<char>> {
    seq!["path"@]
}

pub open spec fn input_keys() -> Seq<Seq<char>> {
    seq!["glob"@, "codegen"@, "packable"@]
}

/// The `[project]` table: a name and a size, both required.
pub open spec fn project_of(v: TomlValue) -> Option<(Seq<char>, (usize, usize))> {
    match v {
        TomlValue::Table(e) => {
            if keys_within(e@, project_keys()) {
                match (entry_value(e@, "name"@), entry_value(e@, "max-spritesheet-size"@)) {
                    (Some(TomlValue::Str(n)), Some(s)) => match size_of_value(s) {
                        Some(size) => Some((n@, size)),
                        None => None,
                    },
                    _ => None,
                }
            } else {
                None
            }
        },
        _ => None,
    }
}

/// An `[[includes]]` entry: a required path.
pub open spec fn include_of(v: TomlValue) -> Option<Seq<char>> {
    match v {
        TomlValue::Table(e) => {
            if keys_within(e@, include_keys()) {
                match entry_value(e@, "path"@) {
                    Some(TomlValue::Str(p)) => Some(p@),
                    _ => None,
                }
            } else {
                None
            }
        },
        _ => None,
    }
}

/// The `codegen` field of an input; `None` where it is omitted.
pub open spec fn codegen_of(v: Option<TomlValue>) -> Option<CodegenKind> {
    match v {
        None => Some(CodegenKind::NoCode),
        Some(TomlValue::Str(s)) => {
            if s@ == "none"@ {
                Some(CodegenKind::NoCode)
            } else if s@ == "asset-url"@ {
                Some(CodegenKind::AssetUrl)
            } else if s@ == "url-and-slice"@ {
                Some(CodegenKind::UrlAndSlice)
            } else {
                None
            }
        },
        _ => None,
    }
}

/// A boolean field that defaults to `false`.
pub open spec fn flag_of(v: Option<TomlValue>) -> Option<bool> {
    match v {
        None => Some(false),
        Some(TomlValue::Bool(b)) => Some(b),
        _ => None,
    }
}

/// An `[[inputs]]` entry: a required glob, and a codegen kind and a packable
/// flag with their defaults.
pub open spec fn input_of(v: TomlValue) -> Option<(Seq<char>, CodegenKind, bool)> {
    match v {
        TomlValue::Table(e) => {
            if keys_within(e@, input_keys()) {
                match (entry_value(e@, "glob"@), codegen_of(entry_value(e@, "codegen"@)), flag_of(entry_value(e@, "packable"@))) {
                    (Some(TomlValue::Str(g)), Some(c), Some(p)) => Some((g@, c, p)),
                    _ => None,
                }
            } else {
                None
            }
        },
        _ => None,
    }
}

/// The `includes` array; empty where it is omitted.
pub open spec fn includes_of(v: Option<TomlValue>) -> Option<Seq<Seq<char>>> {
    match v {
        None => Some(seq![]),
        Some(TomlValue::Array(a)) => {
            if forall|i: int| 0 <= i < a@.len() ==> (#[trigger] include_of(a@[i])) is Some {
                Some(a@.map_values(|x: TomlValue| include_of(x)->0))
            } else {
                None
            }
        },
        _ => None,
    }
}

/// The `inputs` array; empty where it is omitted.
pub open spec fn inputs_of(v: Option<TomlValue>) -> Option<Seq<(Seq<char>, CodegenKind, bool)>> {
    match v {
        None => Some(seq![]),
        Some(TomlValue::Array(a)) => {
            if forall|i: int| 0 <= i < a@.len() ==> (#[trigger] input_of(a@[i])) is Some {
                Some(a@.map_values(|x: TomlValue| input_of(x)->0))
            } else {
                None
            }
        },
        _ => None,
    }
}

/// The optional `[project]` table.
pub open spec fn project_entry_of(v: Option<TomlValue>) -> Option<Option<(Seq<char>, (usize, usize))>> {
    match v {
        None => Some(None),
        Some(t) => match project_of(t) {
            Some(p) => Some(Some(p)),
            None => None,
        },
    }
}

/// A whole config document: a table of known fields only.
pub open spec fn config_of(doc: TomlValue) -> Option<ConfigView> {
    match doc {
        TomlValue::Table(e) => {
            if keys_within(e@, config_keys()) {
                match (
                    project_entry_of(entry_value(e@, "project"@)),
                    includes_of(entry_value(e@, "includes"@)),
                    inputs_of(entry_value(e@, "inputs"@)),
                ) {
                    (Some(project), Some(includes), Some(inputs)) => Some(
                        ConfigView { project, includes, inputs },
                    ),
                    _ => None,
                }
            } else {
                None
            }
        },
        _ => None,
    }
}

/// The config that the file contents `bytes` hold, if they hold one.
pub open spec fn config_from_bytes(bytes: Seq<u8>) -> Option<ConfigView> {
    match toml_document(bytes) {
        Some(doc) => config_of(doc),
        None => None,
    }
}

/// The name of the config file that a folder holds.
pub const CONFIG_FILENAME: &'static str = "tarmac.toml";

fn project_from(v: &TomlValue) -> (r: Result<ProjectConfig, String>)
    ensures
        r is Ok <==> project_of(*v) is Some,
        r matches Ok(p) ==> project_of(*v) == Some(p@),
{
    match v {
        TomlValue::Table(e) => {
            let known: Vec<String> = vec!["name".to_owned(), "max-spritesheet-size".to_owned()];
            assert(string_views(known@) =~= project_keys());
            check_keys(e, &known)?;
            let name = match lookup(e, &"name".to_owned()) {
                Some(TomlValue::Str(n)) => n.clone(),
                _ => return Err(field_message("missing or invalid field", "name")),
            };
            let size = match lookup(e, &"max-spritesheet-size".to_owned()) {
                Some(s) => size_from(s),
                None => None,
            };
            match size {
                Some(max_spritesheet_size) => Ok(ProjectConfig { name, max_spritesheet_size }),
                None => Err(field_message("missing or invalid field", "max-spritesheet-size")),
            }
        },
        _ => Err(field_message("invalid type for", "project")),
    }
}

fn include_from(v: &TomlValue) -> (r: Result<IncludeConfig, String>)
    ensures
        r is Ok <==> include_of(*v) is Some,
        r matches Ok(c) ==> include_of(*v) == Some(c@),
{
    match v {
        TomlValue::Table(e) => {
            let known: Vec<String> = vec!["path".to_owned()];
            assert(string_views(known@) =~= include_keys());
            check_keys(e, &known)?;
            match lookup(e, &"path".to_owned()) {
                Some(TomlValue::Str(p)) => Ok(IncludeConfig { path: p.clone() }),
                _ => Err(field_message("missing or invalid field", "path")),
            }
        },
        _ => Err(field_message("invalid type for an entry of", "includes")),
    }
}

fn codegen_from(v: Option<&TomlValue>) -> (r: Option<CodegenKind>)
    ensures
        r == codegen_of(match v { Some(x) => Some(*x), None => None }),
{
    match v {
        None => Some(CodegenKind::NoCode),
        Some(TomlValue::Str(s)) => {
            if *s == "none".to_owned() {
                Some(CodegenKind::NoCode)
            } else if *s == "asset-url".to_owned() {
                Some(CodegenKind::AssetUrl)
            } else if *s == "url-and-slice".to_owned() {
                Some(CodegenKind::UrlAndSlice)
            } else {
                None
            }
        },
        Some(_) => None,
    }
}

/// Reads a boolean field that defaults to `false`.
pub fn flag_from(v: Option<&TomlValue>) -> (r: Option<bool>)
    ensures
        r == flag_of(match v { Some(x) => Some(*x), None => None }),
{
    match v {
        None => Some(false),
        Some(TomlValue::Bool(b)) => Some(*b),
        Some(_) => None,
    }
}

fn input_from(v: &TomlValue) -> (r: Result<InputConfig, String>)
    ensures
        r is Ok <==> input_of(*v) is Some,
        r matches Ok(c) ==> input_of(*v) == Some(c@),
{
    match v {
        TomlValue::Table(e) => {
            let known: Vec<String> = vec!["glob".to_owned(), "codegen".to_owned(), "packable".to_owned()];
            assert(string_views(known@) =~= input_keys());
            check_keys(e, &known)?;
            let glob = match lookup(e, &"glob".to_owned()) {
                Some(TomlValue::Str(g)) => g.clone(),
                _ => return Err(field_message("missing or invalid field", "glob")),
            };
            let codegen = match codegen_from(lookup(e, &"codegen".to_owned())) {
                Some(c) => c,
                None => return Err(field_message("invalid value for field", "codegen")),
            };
            let packable = match flag_from(lookup(e, &"packable".to_owned())) {
                Some(p) => p,
                None => return Err(field_message("invalid value for field", "packable")),
            };
            Ok(InputConfig { glob, codegen, packable })
        },
        _ => Err(field_message("invalid type for an entry of", "inputs")),
    }
}

fn includes_from(entries: &Vec<(String, TomlValue)>) -> (r: Result<Vec<IncludeConfig>, String>)
    ensures
        r is Ok <==> includes_of(entry_value(entries@, "includes"@)) is Some,
        r matches Ok(c) ==> includes_of(entry_value(entries@, "includes"@)) == Some(
            c@.map_values(|c: IncludeConfig| c@),
        ),
{
    let v = lookup(entries, &"includes".to_owned());
    match v {
        None => {
            let out: Vec<IncludeConfig> = Vec::new();
            assert(out@.map_values(|c: IncludeConfig| c@) =~= seq![]);
            Ok(out)
        },
        Some(TomlValue::Array(a)) => {
            let mut out: Vec<IncludeConfig> = Vec::new();
            let mut i: usize = 0;
            while i < a.len()
                invariant
                    i <= a@.len(),
                    out@.len() == i,
                    forall|k: int| 0 <= k < i ==> #[trigger] include_of(a@[k]) == Some(out@[k]@),
                    entry_value(entries@, "includes"@) == Some(TomlValue::Array(*a)),
                decreases a@.len() - i,
            {
                match include_from(&a[i]) {
                    Ok(c) => out.push(c),
                    Err(m) => {
                        assert(include_of(a@[i as int]) is None);
                        return Err(m);
                    },
                }
                i += 1;
            }
            assert(out@.map_values(|c: IncludeConfig| c@) =~= a@.map_values(|x: TomlValue| include_of(x)->0));
            Ok(out)
        },
        Some(_) => Err(field_message("invalid type for", "includes")),
    }
}

fn inputs_from(entries: &Vec<(String, TomlValue)>) -> (r: Result<Vec<InputConfig>, String>)
    ensures
        r is Ok <==> inputs_of(entry_value(entries@, "inputs"@)) is Some,
        r matches Ok(c) ==> inputs_of(entry_value(entries@, "inputs"@)) == Some(
            c@.map_values(|c: InputConfig| c@),
        ),
{
    let v = lookup(entries, &"inputs".to_owned());
    match v {
        None => {
            let out: Vec<InputConfig> = Vec::new();
            assert(out@.map_values(|c: InputConfig| c@) =~= seq![]);
            Ok(out)
        },
        Some(TomlValue::Array(a)) => {
            let mut out: Vec<InputConfig> = Vec::new();
            let mut i: usize = 0;
            while i < a.len()
                invariant
                    i <= a@.len(),
                    out@.len() == i,
                    forall|k: int| 0 <= k < i ==> #[trigger] input_of(a@[k]) == Some(out@[k]@),
                    entry_value(entries@, "inputs"@) == Some(TomlValue::Array(*a)),
                decreases a@.len() - i,
            {
                match input_from(&a[i]) {
                    Ok(c) => out.push(c),
                    Err(m) => {
                        assert(input_of(a@[i as int]) is None);
                        return Err(m);
                    },
                }
                i += 1;
            }
            assert(out@.map_values(|c: InputConfig| c@) =~= a@.map_values(|x: TomlValue| input_of(x)->0));
            Ok(out)
        },
        Some(_) => Err(field_message("invalid type for", "inputs")),
    }
}

/// Decodes a config document against the schema; unknown fields are refused.
pub fn decode_config(doc: &TomlValue) -> (r: Result<(Option<ProjectConfig>, Vec<IncludeConfig>, Vec<InputConfig>), String>)
    ensures
        r is Ok <==> config_of(*doc) is Some,
        r matches Ok(fields) ==> config_of(*doc) == Some(
            ConfigView {
                project: match fields.0 { Some(p) => Some(p@), None => None },
                includes: fields.1@.map_values(|c: IncludeConfig| c@),
                inputs: fields.2@.map_values(|c: InputConfig| c@),
            },
        ),
{
    match doc {
        TomlValue::Table(e) => {
            let known: Vec<String> = vec!["project".to_owned(), "includes".to_owned(), "inputs".to_owned()];
            assert(string_views(known@) =~= config_keys());
            check_keys(e, &known)?;
            let project = match lookup(e, &"project".to_owned()) {
                None => None,
                Some(t) => Some(project_from(t)?),
            };
            let includes = includes_from(e)?;
            let inputs = inputs_from(e)?;
            Ok((project, includes, inputs))
        },
        _ => Err(field_message("invalid type for", "document")),
    }
}

/// Relies on `std::io::Error::from` with `ErrorKind::NotFound`: the error
/// for a path that names no file.
#[verifier::external_body]
pub(crate) fn not_found() -> std::io::Error {
    std::io::Error::from(std::io::ErrorKind::NotFound)
}

impl Config {
    /// Loads a config from the contents of the file at `path`. The file's
    /// folder must exist for the config to be loaded.
    pub fn read_from_file(path: &String, contents: &[u8]) -> (r: Result<Config, ConfigError>)
        ensures
            r is Ok <==> config_from_bytes(contents@) is Some && path_parent(path@) is Some,
            r matches Ok(c) ==> Some(c@) == config_from_bytes(contents@) && c.file_path@ == path@ && c.wf(),
            r matches Err(ConfigError::Toml { path: p, .. }) ==> p@ == path@ && config_from_bytes(
                contents@,
            ) is None,
            r matches Err(ConfigError::Io { path: p, .. }) ==> p@ == path@ && path_parent(path@) is None
                && config_from_bytes(contents@) is Some,
    {
        let decoded = match parse_toml(contents) {
            Ok(doc) => decode_config(&doc),
            Err(message) => Err(message),
        };
        let (project, includes, inputs) = match decoded {
            Ok(fields) => fields,
            Err(message) => return Err(ConfigError::Toml { path: path.clone(), message }),
        };
        if parent(path).is_none() {
            return Err(ConfigError::Io { path: path.clone(), source: not_found() });
        }
        Ok(Config { project, includes, inputs, file_path: path.clone() })
    }

    /// The path of the config file inside `folder_path`.
    pub fn file_in_folder(folder_path: &String) -> (r: String)
        ensures
            r@ == path_join(folder_path@, CONFIG_FILENAME@),
    {
        join(folder_path, &CONFIG_FILENAME.to_owned())
    }

    /// Loads the config of the folder `folder_path`, given the contents of
    /// its config file.
    pub fn read_from_folder(folder_path: &String, contents: &[u8]) -> (r: Result<Config, ConfigError>)
        ensures
            ({
                let path = path_join(folder_path@, CONFIG_FILENAME@);
                &&& r is Ok <==> config_from_bytes(contents@) is Some && path_parent(path) is Some
                &&& r matches Ok(c) ==> Some(c@) == config_from_bytes(contents@) && c.file_path@ == path && c.wf()
                &&& r matches Err(ConfigError::Toml { path: p, .. }) ==> p@ == path && config_from_bytes(
                    contents@,
                ) is None
                &&& r matches Err(ConfigError::Io { path: p, .. }) ==> p@ == path && path_parent(path) is None
                    && config_from_bytes(contents@) is Some
            }),
    {
        let file_path = Self::file_in_folder(folder_path);
        Self::read_from_file(&file_path, contents)
    }

    /// The folder that holds the config file.
    pub fn folder(&self) -> (r: String)
        requires
            self.wf(),
        ensures
            path_parent(self.file_path@) == Some(r@),
    {
        parent(&self.file_path).unwrap()
    }
}

/// A config document whose top-level table holds a field outside the schema
/// does not load, whatever else it holds.
pub proof fn lemma_unknown_field_rejected(bytes: Seq<u8>, key: Seq<char>)
    requires
        toml_document(bytes) matches Some(TomlValue::Table(e)) && entry_value(e@, key) is Some,
        !key_known(key, config_keys()),
    ensures
        config_from_bytes(bytes) is None,
{
    let e = toml_document(bytes)->0->Table_0;
    let i = lemma_entry_index(e@, key);
}

/// An input entry that holds a field outside the schema does not decode, so
/// a config document that lists it among its inputs does not load.
pub proof fn lemma_unknown_input_field_rejected(bytes: Seq<u8>, j: int, key: Seq<char>)
    requires
        toml_document(bytes) matches Some(TomlValue::Table(e)) && (entry_value(e@, "inputs"@) matches Some(
            TomlValue::Array(a),
        ) && (0 <= j < a@.len() && (a@[j] matches TomlValue::Table(f) && entry_value(f@, key) is Some))),
        !key_known(key, input_keys()),
    ensures
        config_from_bytes(bytes) is None,
{
    let e = toml_document(bytes)->0->Table_0;
    let a = entry_value(e@, "inputs"@)->0->Array_0;
    let f = a@[j]->Table_0;
    let i = lemma_entry_index(f@, key);
    assert(input_of(a@[j]) is None);
}

/// A `[project]` table that holds a field outside the schema does not
/// decode, so a config document that holds it does not load.
pub proof fn lemma_unknown_project_field_rejected(bytes: Seq<u8>, key: Seq<char>)
    requires
        toml_document(bytes) matches Some(TomlValue::Table(e)) && (entry_value(e@, "project"@) matches Some(
            TomlValue::Table(f),
        ) && entry_value(f@, key) is Some),
        !key_known(key, project_keys()),
    ensures
        config_from_bytes(bytes) is None,
{
    let e = toml_document(bytes)->0->Table_0;
    let f = entry_value(e@, "project"@)->0->Table_0;
    let i = lemma_entry_index(f@, key);
}

/// An include entry that holds a field outside the schema does not decode,
/// so a config document that lists it among its includes does not load.
pub proof fn lemma_unknown_include_field_rejected(bytes: Seq<u8>, j: int, key: Seq<char>)
    requires
        toml_document(bytes) matches Some(TomlValue::Table(e)) && (entry_value(e@, "includes"@) matches Some(
            TomlValue::Array(a),
        ) && (0 <= j < a@.len() && (a@[j] matches TomlValue::Table(f) && entry_value(f@, key) is Some))),
        !key_known(key, include_keys()),
    ensures
        config_from_bytes(bytes) is None,
{
    let e = toml_document(bytes)->0->Table_0;
    let a = entry_value(e@, "includes"@)->0->Array_0;
    let f = a@[j]->Table_0;
    let i = lemma_entry_index(f@, key);
    assert(include_of(a@[j]) is None);
}

/// In a loaded config, the input at index `i` has `NoCode` where its entry
/// omits `codegen`, and is not packable where it omits `packable`.
pub proof fn lemma_loaded_input_defaults(bytes: Seq<u8>, i: int)
    requires
        config_from_bytes(bytes) is Some,
        toml_document(bytes) matches Some(TomlValue::Table(e)) && (entry_value(e@, "inputs"@) matches Some(
            TomlValue::Array(a),
        ) && (0 <= i < a@.len() && a@[i] is Table)),
    ensures
        ({
            let e = toml_document(bytes)->0->Table_0;
            let a = entry_value(e@, "inputs"@)->0->Array_0;
            let f = a@[i]->Table_0;
            let input = config_from_bytes(bytes)->0.inputs[i];
            &&& entry_value(f@, "codegen"@) is None ==> input.1 == CodegenKind::NoCode
            &&& entry_value(f@, "packable"@) is None ==> input.2 == false
        }),
{
    let e = toml_document(bytes)->0->Table_0;
    let a = entry_value(e@, "inputs"@)->0->Array_0;
    assert(input_of(a@[i]) is Some);
}

/// An entry found under `key` stands at some index of the table.
pub proof fn lemma_entry_index(entries: Seq<(String, TomlValue)>, key: Seq<char>) -> (i: int)
    requires
        entry_value(entries, key) is Some,
    ensures
        0 <= i < entries.len(),
        entries[i].0@ == key,
    decreases entries.len(),
{
    if entries[0].0@ == key {
        0
    } else {
        let j = lemma_entry_index(entries.drop_first(), key);
        j + 1
    }
}

/// An input entry that omits `codegen` and `packable` gets `NoCode` and
/// `false`.
pub proof fn lemma_input_defaults(v: TomlValue)
    requires
        v matches TomlValue::Table(e) && entry_value(e@, "codegen"@) is None && entry_value(e@, "packable"@) is None,
        input_of(v) is Some,
    ensures
        (input_of(v)->0).1 == CodegenKind::NoCode,
        (input_of(v)->0).2 == false,
{
}

} // verus!
