//! The top-level project file, `tarmac-project.toml`.
use vstd::prelude::*;

use crate::data::config::{flag_from, flag_of, lemma_entry_index, not_found};
use crate::document::{
    check_keys, has_repeated_key, key_known, keys_distinct, entry_value, field_message, keys_within, lookup, parse_toml, size_from,
    size_of_value, string_views, toml_document, TomlValue,
};
use crate::paths::{anchor, anchored, join, parent, path_is_absolute, path_join, path_parent};

verus! {

/// The name of the project file that a folder holds.
pub const PROJECT_CONFIG_FILENAME: &'static str = "tarmac-project.toml";

/// A named set of search paths and packing settings.
#[derive(Debug)]
pub struct GroupConfig {
    /// The paths searched for the group's inputs; absolute once loaded.
    pub paths: Vec<String>,
    /// Whether images are collected into spritesheets.
    pub spritesheet_enabled: bool,
    /// The largest size of a spritesheet, as width and height.
    pub max_spritesheet_size: (usize, usize),
}

/// The project file, as loaded.
#[derive(Debug)]
pub struct ProjectConfig {
    /// The groups, by name, in the order that the parsed document lists them.
    pub groups: Vec<(String, GroupConfig)>,
    /// The file the project was loaded from; never read from the file itself.
    pub file_path: String,
}

/// Why a project file could not be loaded.
#[derive(Debug)]
pub enum ProjectConfigError {
    /// The file is not valid TOML, or does not match the schema.
    Toml { path: String, message: String },
    /// The file could not be located or read.
    Io { path: String, source: std::io::Error },
}

/// A group: its paths, whether spritesheets are enabled, and their size.
pub struct GroupView {
    pub paths: Seq<Seq<char>>,
    pub spritesheet_enabled: bool,
    pub max_spritesheet_size: (usize, usize),
}

impl View for GroupConfig {
    type V = GroupView;

    open spec fn view(&self) -> GroupView {
        GroupView {
            paths: string_views(self.paths@),
            spritesheet_enabled: self.spritesheet_enabled,
            max_spritesheet_size: self.max_spritesheet_size,
        }
    }
}

impl View for ProjectConfig {
    type V = Seq<(Seq<char>, GroupView)>;

    open spec fn view(&self) -> Self::V {
        self.groups@.map_values(|g: (String, GroupConfig)| (g.0@, g.1@))
    }
}

/// Whether spritesheets are enabled where a group does not say.
pub fn default_spritesheet_enabled() -> (r: bool)
    ensures
        r == false,
{
    false
}

/// The spritesheet size where a group does not give one.
pub fn default_max_size() -> (r: (usize, usize))
    ensures
        r == (1024usize, 1024usize),
{
    (1024, 1024)
}

pub open spec fn group_keys() -> Seq<Seq<char>> {
    seq!["paths"@, "spritesheet-enabled"@, "max-spritesheet-size"@]
}

pub open spec fn project_file_keys() -> Seq<Seq<char>> {
    seq!["groups"@]
}

/// An array of strings.
pub open spec fn paths_of(v: Option<TomlValue>) -> Option<Seq<Seq<char>>> {
    match v {
        Some(TomlValue::Array(a)) => {
            if forall|i: int| 0 <= i < a@.len() ==> (#[trigger] a@[i]) is Str {
                Some(a@.map_values(|x: TomlValue| x->Str_0@))
            } else {
                None
            }
        },
        _ => None,
    }
}

/// The spritesheet size of a group, `(1024, 1024)` where omitted.
pub open spec fn group_size_of(v: Option<TomlValue>) -> Option<(usize, usize)> {
    match v {
        None => Some((1024usize, 1024usize)),
        Some(s) => size_of_value(s),
    }
}

/// A group table, as written in the file.
pub open spec fn group_of(v: TomlValue) -> Option<GroupView> {
    match v {
        TomlValue::Table(e) => {
            if keys_within(e@, group_keys()) {
                match (
                    paths_of(entry_value(e@, "paths"@)),
                    flag_of(entry_value(e@, "spritesheet-enabled"@)),
                    group_size_of(entry_value(e@, "max-spritesheet-size"@)),
                ) {
                    (Some(paths), Some(spritesheet_enabled), Some(max_spritesheet_size)) => Some(
                        GroupView { paths, spritesheet_enabled, max_spritesheet_size },
                    ),
                    _ => None,
                }
            } else {
                None
            }
        },
        _ => None,
    }
}

/// The `groups` table; empty where omitted. Group names are unique.
pub open spec fn groups_of(v: Option<TomlValue>) -> Option<Seq<(Seq<char>, GroupView)>> {
    match v {
        None => Some(seq![]),
        Some(TomlValue::Table(e)) => {
            if keys_distinct(e@) && forall|i: int| 0 <= i < e@.len() ==> (#[trigger] group_of(e@[i].1)) is Some {
                Some(e@.map_values(|g: (String, TomlValue)| (g.0@, group_of(g.1)->0)))
            } else {
                None
            }
        },
        _ => None,
    }
}

/// A whole project document, as written: a table whose one known field is
/// `groups`.
pub open spec fn project_file_of(doc: TomlValue) -> Option<Seq<(Seq<char>, GroupView)>> {
    match doc {
        TomlValue::Table(e) => {
            if keys_within(e@, project_file_keys()) {
                groups_of(entry_value(e@, "groups"@))
            } else {
                None
            }
        },
        _ => None,
    }
}

/// The groups that the file contents `bytes` hold, as written.
pub open spec fn project_from_bytes(bytes: Seq<u8>) -> Option<Seq<(Seq<char>, GroupView)>> {
    match toml_document(bytes) {
        Some(doc) => project_file_of(doc),
        None => None,
    }
}

/// No two groups have the same name.
pub open spec fn names_distinct(groups: Seq<(Seq<char>, GroupView)>) -> bool {
    forall|i: int, j: int| 0 <= i < j < groups.len() ==> groups[i].0 != groups[j].0
}

/// A group with each of its paths anchored at `folder`.
pub open spec fn anchored_group(folder: Seq<char>, g: (Seq<char>, GroupView)) -> (Seq<char>, GroupView) {
    (
        g.0,
        GroupView {
            paths: g.1.paths.map_values(|p: Seq<char>| anchored(folder, p)),
            ..g.1
        },
    )
}

/// The groups as loaded: every path anchored at `folder`.
pub open spec fn anchored_groups(folder: Seq<char>, groups: Seq<(Seq<char>, GroupView)>) -> Seq<(Seq<char>, GroupView)> {
    groups.map_values(|g: (Seq<char>, GroupView)| anchored_group(folder, g))
}

fn paths_from(v: Option<&TomlValue>) -> (r: Option<Vec<String>>)
    ensures
        r is None <==> paths_of(match v { Some(x) => Some(*x), None => None }) is None,
        r matches Some(p) ==> paths_of(match v { Some(x) => Some(*x), None => None }) == Some(
            string_views(p@),
        ),
{
    match v {
        Some(TomlValue::Array(a)) => {
            let mut out: Vec<String> = Vec::new();
            let mut i: usize = 0;
            while i < a.len()
                invariant
                    i <= a@.len(),
                    out@.len() == i,
                    forall|k: int| 0 <= k < i ==> (#[trigger] a@[k]) is Str && a@[k]->Str_0@ == out@[k]@,
                    (match v { Some(x) => Some(*x), None => None }) == Some(TomlValue::Array(*a)),
                decreases a@.len() - i,
            {
                match &a[i] {
                    TomlValue::Str(s) => out.push(s.clone()),
                    _ => {
                        assert(!(a@[i as int] is Str));
                        return None;
                    },
                }
                i += 1;
            }
            assert(string_views(out@) =~= a@.map_values(|x: TomlValue| x->Str_0@));
            Some(out)
        },
        _ => None,
    }
}

fn group_from(v: &TomlValue) -> (r: Result<GroupConfig, String>)
    ensures
        r is Ok <==> group_of(*v) is Some,
        r matches Ok(g) ==> group_of(*v) == Some(g@),
{
    match v {
        TomlValue::Table(e) => {
            let known: Vec<String> = vec![
                "paths".to_owned(),
                "spritesheet-enabled".to_owned(),
                "max-spritesheet-size".to_owned(),
            ];
            assert(string_views(known@) =~= group_keys());
            check_keys(e, &known)?;
            let paths = match paths_from(lookup(e, &"paths".to_owned())) {
                Some(p) => p,
                None => return Err(field_message("missing or invalid field", "paths")),
            };
            let spritesheet_enabled = match lookup(e, &"spritesheet-enabled".to_owned()) {
                None => default_spritesheet_enabled(),
                Some(x) => match flag_from(Some(x)) {
                    Some(b) => b,
                    None => return Err(field_message("invalid value for field", "spritesheet-enabled")),
                },
            };
            let max_spritesheet_size = match lookup(e, &"max-spritesheet-size".to_owned()) {
                None => default_max_size(),
                Some(x) => match size_from(x) {
                    Some(size) => size,
                    None => return Err(field_message("invalid value for field", "max-spritesheet-size")),
                },
            };
            Ok(GroupConfig { paths, spritesheet_enabled, max_spritesheet_size })
        },
        _ => Err(field_message("invalid type for a group of", "groups")),
    }
}

fn groups_from(entries: &Vec<(String, TomlValue)>) -> (r: Result<Vec<(String, GroupConfig)>, String>)
    ensures
        r is Ok <==> groups_of(entry_value(entries@, "groups"@)) is Some,
        r matches Ok(g) ==> groups_of(entry_value(entries@, "groups"@)) == Some(
            g@.map_values(|g: (String, GroupConfig)| (g.0@, g.1@)),
        ),
{
    match lookup(entries, &"groups".to_owned()) {
        None => {
            let out: Vec<(String, GroupConfig)> = Vec::new();
            assert(out@.map_values(|g: (String, GroupConfig)| (g.0@, g.1@)) =~= seq![]);
            Ok(out)
        },
        Some(TomlValue::Table(e)) => {
            if has_repeated_key(e) {
                return Err(field_message("repeated group in", "groups"));
            }
            let mut out: Vec<(String, GroupConfig)> = Vec::new();
            let mut i: usize = 0;
            while i < e.len()
                invariant
                    i <= e@.len(),
                    out@.len() == i,
                    forall|k: int| 0 <= k < i ==> #[trigger] group_of(e@[k].1) == Some(out@[k].1@)
                        && e@[k].0@ == out@[k].0@,
                    entry_value(entries@, "groups"@) == Some(TomlValue::Table(*e)),
                    keys_distinct(e@),
                decreases e@.len() - i,
            {
                match group_from(&e[i].1) {
                    Ok(g) => out.push((e[i].0.clone(), g)),
                    Err(m) => {
                        assert(group_of(e@[i as int].1) is None);
                        return Err(m);
                    },
                }
                i += 1;
            }
            assert(out@.map_values(|g: (String, GroupConfig)| (g.0@, g.1@)) =~= e@.map_values(
                |g: (String, TomlValue)| (g.0@, group_of(g.1)->0),
            ));
            Ok(out)
        },
        Some(_) => Err(field_message("invalid type for", "groups")),
    }
}

/// Anchors each of `paths` at `folder`.
fn anchor_paths(folder: &String, paths: &Vec<String>) -> (r: Vec<String>)
    ensures
        string_views(r@) == string_views(paths@).map_values(|p: Seq<char>| anchored(folder@, p)),
{
    let mut out: Vec<String> = Vec::new();
    let mut i: usize = 0;
    while i < paths.len()
        invariant
            i <= paths@.len(),
            out@.len() == i,
            forall|k: int| 0 <= k < i ==> #[trigger] out@[k]@ == anchored(folder@, paths@[k]@),
        decreases paths@.len() - i,
    {
        out.push(anchor(folder, paths[i].clone()));
        i += 1;
    }
    assert(string_views(out@) =~= string_views(paths@).map_values(|p: Seq<char>| anchored(folder@, p)));
    out
}

/// Anchors the paths of every group at `folder`.
fn anchor_groups(folder: &String, groups: &Vec<(String, GroupConfig)>) -> (r: Vec<(String, GroupConfig)>)
    ensures
        r@.map_values(|g: (String, GroupConfig)| (g.0@, g.1@)) == anchored_groups(
            folder@,
            groups@.map_values(|g: (String, GroupConfig)| (g.0@, g.1@)),
        ),
{
    let mut out: Vec<(String, GroupConfig)> = Vec::new();
    let mut i: usize = 0;
    while i < groups.len()
        invariant
            i <= groups@.len(),
            out@.len() == i,
            forall|k: int| 0 <= k < i ==> (#[trigger] out@[k]).0@ == groups@[k].0@ && out@[k].1@ == anchored_group(
                folder@,
                (groups@[k].0@, groups@[k].1@),
            ).1,
        decreases groups@.len() - i,
    {
        let g = &groups[i].1;
        let paths = anchor_paths(folder, &g.paths);
        let group = GroupConfig {
            paths,
            spritesheet_enabled: g.spritesheet_enabled,
            max_spritesheet_size: g.max_spritesheet_size,
        };
        out.push((groups[i].0.clone(), group));
        i += 1;
    }
    assert(out@.map_values(|g: (String, GroupConfig)| (g.0@, g.1@)) =~= anchored_groups(
        folder@,
        groups@.map_values(|g: (String, GroupConfig)| (g.0@, g.1@)),
    ));
    out
}

impl ProjectConfig {
    /// Loads a project from the contents of the file at `path`. Every
    /// relative path of every group is joined onto the file's folder; an
    /// absolute one is kept.
    pub fn read_from_file(path: &String, contents: &[u8]) -> (r: Result<ProjectConfig, ProjectConfigError>)
        ensures
            r is Ok <==> project_from_bytes(contents@) is Some && path_parent(path@) is Some,
            r matches Ok(c) ==> c.file_path@ == path@ && Some(c@) == match project_from_bytes(contents@) {
                Some(groups) => Some(anchored_groups(path_parent(path@)->0, groups)),
                None => None,
            },
            r matches Ok(c) ==> names_distinct(c@),
            r matches Err(ProjectConfigError::Toml { path: p, .. }) ==> p@ == path@ && project_from_bytes(
                contents@,
            ) is None,
            r matches Err(ProjectConfigError::Io { path: p, .. }) ==> p@ == path@ && path_parent(path@) is None
                && project_from_bytes(contents@) is Some,
    {
        let decoded = match parse_toml(contents) {
            Ok(TomlValue::Table(e)) => {
                let known: Vec<String> = vec!["groups".to_owned()];
                assert(string_views(known@) =~= project_file_keys());
                match check_keys(&e, &known) {
                    Ok(()) => groups_from(&e),
                    Err(message) => Err(message),
                }
            },
            Ok(_) => Err(field_message("invalid type for", "document")),
            Err(message) => Err(message),
        };
        let groups = match decoded {
            Ok(groups) => groups,
            Err(message) => return Err(ProjectConfigError::Toml { path: path.clone(), message }),
        };
        let folder = match parent(path) {
            Some(folder) => folder,
            None => return Err(ProjectConfigError::Io { path: path.clone(), source: not_found() }),
        };
        let result = ProjectConfig { groups: anchor_groups(&folder, &groups), file_path: path.clone() };
        proof {
            lemma_decoded_names_distinct(contents@);
        }
        Ok(result)
    }

    /// The path of the project file inside `folder_path`.
    pub fn file_in_folder(folder_path: &String) -> (r: String)
        ensures
            r@ == path_join(folder_path@, PROJECT_CONFIG_FILENAME@),
    {
        join(folder_path, &PROJECT_CONFIG_FILENAME.to_owned())
    }

    /// Loads the project of the folder `folder_path`, given the contents of
    /// its project file.
    pub fn read_from_folder(folder_path: &String, contents: &[u8]) -> (r: Result<ProjectConfig, ProjectConfigError>)
        ensures
            ({
                let path = path_join(folder_path@, PROJECT_CONFIG_FILENAME@);
                &&& r is Ok <==> project_from_bytes(contents@) is Some && path_parent(path) is Some
                &&& r matches Ok(c) ==> c.file_path@ == path && Some(c@) == match project_from_bytes(contents@) {
                    Some(groups) => Some(anchored_groups(path_parent(path)->0, groups)),
                    None => None,
                }
                &&& r matches Ok(c) ==> names_distinct(c@)
                &&& r matches Err(ProjectConfigError::Toml { path: p, .. }) ==> p@ == path && project_from_bytes(
                    contents@,
                ) is None
                &&& r matches Err(ProjectConfigError::Io { path: p, .. }) ==> p@ == path && path_parent(path) is None
                    && project_from_bytes(contents@) is Some
            }),
    {
        let file_path = Self::file_in_folder(folder_path);
        Self::read_from_file(&file_path, contents)
    }
}

/// The groups of a project document have distinct names.
pub proof fn lemma_decoded_names_distinct(bytes: Seq<u8>)
    requires
        project_from_bytes(bytes) is Some,
    ensures
        names_distinct(project_from_bytes(bytes)->0),
        forall|folder: Seq<char>| names_distinct(anchored_groups(folder, project_from_bytes(bytes)->0)),
{
    let doc = toml_document(bytes)->0;
    let e = doc->Table_0;
    match entry_value(e@, "groups"@) {
        None => {},
        Some(v) => {
            let g = v->Table_0;
            assert(keys_distinct(g@));
        },
    }
}

/// A project document whose top-level table holds a field outside the
/// schema does not load.
pub proof fn lemma_unknown_project_file_field_rejected(bytes: Seq<u8>, key: Seq<char>)
    requires
        toml_document(bytes) matches Some(TomlValue::Table(e)) && entry_value(e@, key) is Some,
        !key_known(key, project_file_keys()),
    ensures
        project_from_bytes(bytes) is None,
{
    let e = toml_document(bytes)->0->Table_0;
    let i = lemma_entry_index(e@, key);
}

/// A group that holds a field outside the schema does not decode, so a
/// project document that holds it does not load.
pub proof fn lemma_unknown_group_field_rejected(bytes: Seq<u8>, j: int, key: Seq<char>)
    requires
        toml_document(bytes) matches Some(TomlValue::Table(e)) && (entry_value(e@, "groups"@) matches Some(
            TomlValue::Table(g),
        ) && (0 <= j < g@.len() && (g@[j].1 matches TomlValue::Table(f) && entry_value(f@, key) is Some))),
        !key_known(key, group_keys()),
    ensures
        project_from_bytes(bytes) is None,
{
    let e = toml_document(bytes)->0->Table_0;
    let g = entry_value(e@, "groups"@)->0->Table_0;
    let f = g@[j].1->Table_0;
    let i = lemma_entry_index(f@, key);
    assert(group_of(g@[j].1) is None);
}

/// A group that omits `spritesheet-enabled` and `max-spritesheet-size` gets
/// `false` and `(1024, 1024)`.
pub proof fn lemma_group_defaults(v: TomlValue)
    requires
        v matches TomlValue::Table(e) && entry_value(e@, "spritesheet-enabled"@) is None && entry_value(
            e@,
            "max-spritesheet-size"@,
        ) is None,
        group_of(v) is Some,
    ensures
        group_of(v)->0.spritesheet_enabled == false,
        group_of(v)->0.max_spritesheet_size == (1024usize, 1024usize),
{
}

/// In a loaded project, the group at index `g` has spritesheets disabled
/// where its table omits `spritesheet-enabled`, and a size of
/// `(1024, 1024)` where it omits `max-spritesheet-size`.
pub proof fn lemma_loaded_group_defaults(path: Seq<char>, bytes: Seq<u8>, g: int)
    requires
        project_from_bytes(bytes) is Some,
        path_parent(path) is Some,
        toml_document(bytes) matches Some(TomlValue::Table(e)) && (entry_value(e@, "groups"@) matches Some(
            TomlValue::Table(t),
        ) && (0 <= g < t@.len() && t@[g].1 is Table)),
    ensures
        ({
            let e = toml_document(bytes)->0->Table_0;
            let t = entry_value(e@, "groups"@)->0->Table_0;
            let f = t@[g].1->Table_0;
            let group = anchored_groups(path_parent(path)->0, project_from_bytes(bytes)->0)[g];
            &&& group.0 == t@[g].0@
            &&& entry_value(f@, "spritesheet-enabled"@) is None ==> group.1.spritesheet_enabled == false
            &&& entry_value(f@, "max-spritesheet-size"@) is None ==> group.1.max_spritesheet_size == (
                1024usize,
                1024usize,
            )
        }),
{
    let e = toml_document(bytes)->0->Table_0;
    let t = entry_value(e@, "groups"@)->0->Table_0;
    assert(group_of(t@[g].1) is Some);
}

/// In a loaded project, the path at index `k` of the group at index `g` is
/// the path written there if that one is absolute, and that path joined onto
/// the project file's folder otherwise.
pub proof fn lemma_loaded_path(path: Seq<char>, bytes: Seq<u8>, g: int, k: int)
    requires
        project_from_bytes(bytes) is Some,
        path_parent(path) is Some,
        0 <= g < project_from_bytes(bytes)->0.len(),
        0 <= k < project_from_bytes(bytes)->0[g].1.paths.len(),
    ensures
        ({
            let written = project_from_bytes(bytes)->0[g].1.paths[k];
            let loaded = anchored_groups(path_parent(path)->0, project_from_bytes(bytes)->0)[g].1.paths[k];
            &&& path_is_absolute(written) ==> loaded == written
            &&& !path_is_absolute(written) ==> loaded == path_join(path_parent(path)->0, written)
        }),
{
}

} // verus!
