use tarmac::data::project_config::{
    default_max_size, default_spritesheet_enabled, GroupConfig, ProjectConfig, ProjectConfigError,
};

fn load(text: &str) -> Result<ProjectConfig, ProjectConfigError> {
    ProjectConfig::read_from_file(&"/work/game/tarmac-project.toml".to_string(), text.as_bytes())
}

fn group<'a>(project: &'a ProjectConfig, name: &str) -> &'a GroupConfig {
    &project.groups.iter().find(|(n, _)| n == name).unwrap().1
}

fn is_toml_error(r: Result<ProjectConfig, ProjectConfigError>) -> bool {
    matches!(r, Err(ProjectConfigError::Toml { ref path, .. }) if path == "/work/game/tarmac-project.toml")
}

#[test]
fn relative_paths_are_joined_onto_the_project_folder() {
    let project = load(
        "[groups.ui]\npaths = [\"assets/ui\", \"/shared/icons\", \"../common\"]\n",
    )
    .unwrap();
    let ui = group(&project, "ui");
    assert_eq!(
        ui.paths,
        vec!["/work/game/assets/ui", "/shared/icons", "/work/game/../common"]
    );
    assert!(ui.paths.iter().all(|p| std::path::Path::new(p).is_absolute()));
    assert_eq!(project.file_path, "/work/game/tarmac-project.toml");
}

#[test]
fn omitted_group_settings_take_defaults() {
    let project = load("[groups.a]\npaths = []\n").unwrap();
    let a = group(&project, "a");
    assert!(!a.spritesheet_enabled);
    assert_eq!(a.max_spritesheet_size, (1024, 1024));
    assert!(a.paths.is_empty());
}

#[test]
fn default_functions() {
    assert!(!default_spritesheet_enabled());
    assert_eq!(default_max_size(), (1024, 1024));
}

#[test]
fn given_group_settings_are_kept() {
    let project = load(
        "[groups.a]\npaths = [\"x\"]\nspritesheet-enabled = true\nmax-spritesheet-size = [256, 128]\n\n[groups.b]\npaths = [\"y\"]\n",
    )
    .unwrap();
    assert_eq!(project.groups.len(), 2);
    let a = group(&project, "a");
    assert!(a.spritesheet_enabled);
    assert_eq!(a.max_spritesheet_size, (256, 128));
    assert_eq!(group(&project, "b").paths, vec!["/work/game/y"]);
}

#[test]
fn no_groups_is_empty() {
    assert!(load("").unwrap().groups.is_empty());
}

#[test]
fn unknown_fields_are_rejected() {
    assert!(is_toml_error(load("name = \"x\"\n")));
    assert!(is_toml_error(load("[groups.a]\npaths = []\nextra = 1\n")));
}

#[test]
fn bad_group_values_are_rejected() {
    assert!(is_toml_error(load("[groups.a]\nspritesheet-enabled = true\n")));
    assert!(is_toml_error(load("[groups.a]\npaths = [1]\n")));
    assert!(is_toml_error(load("[groups.a]\npaths = []\nspritesheet-enabled = 1\n")));
    assert!(is_toml_error(load("[groups.a]\npaths = []\nmax-spritesheet-size = [1]\n")));
    assert!(is_toml_error(load("groups = 4\n")));
    assert!(is_toml_error(load("[groups\n")));
}

#[test]
fn read_from_folder_uses_the_project_file_name() {
    assert_eq!(
        ProjectConfig::file_in_folder(&"/work/game".to_string()),
        "/work/game/tarmac-project.toml"
    );
    let project =
        ProjectConfig::read_from_folder(&"/work/game".to_string(), b"[groups.a]\npaths = [\"p\"]\n").unwrap();
    assert_eq!(project.file_path, "/work/game/tarmac-project.toml");
    assert_eq!(group(&project, "a").paths, vec!["/work/game/p"]);
}

#[test]
fn a_project_path_without_parent_is_an_io_error() {
    assert!(matches!(
        ProjectConfig::read_from_file(&"/".to_string(), b""),
        Err(ProjectConfigError::Io { .. })
    ));
}
