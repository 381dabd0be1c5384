use tarmac::data::config::{CodegenKind, Config, ConfigError};

fn load(text: &str) -> Result<Config, ConfigError> {
    Config::read_from_file(&"/project/assets/tarmac.toml".to_string(), text.as_bytes())
}

fn toml_message(r: Result<Config, ConfigError>) -> String {
    match r {
        Err(ConfigError::Toml { path, message }) => {
            assert_eq!(path, "/project/assets/tarmac.toml");
            message
        }
        other => panic!("expected a schema error, got {:?}", other),
    }
}

#[test]
fn loads_every_section() {
    let config = load(
        r#"
[project]
name = "game"
max-spritesheet-size = [2048, 512]

[[includes]]
path = "ui"

[[includes]]
path = "/abs/icons"

[[inputs]]
glob = "images/**/*.png"
codegen = "asset-url"
packable = true

[[inputs]]
glob = "decals/*.png"
codegen = "url-and-slice"

[[inputs]]
glob = "raw/*.png"
codegen = "none"
"#,
    )
    .unwrap();
    let project = config.project.as_ref().unwrap();
    assert_eq!(project.name, "game");
    assert_eq!(project.max_spritesheet_size, (2048, 512));
    let includes: Vec<&str> = config.includes.iter().map(|i| i.path.as_str()).collect();
    assert_eq!(includes, vec!["ui", "/abs/icons"]);
    assert_eq!(config.inputs.len(), 3);
    assert_eq!(config.inputs[0].glob, "images/**/*.png");
    assert_eq!(config.inputs[0].codegen, CodegenKind::AssetUrl);
    assert!(config.inputs[0].packable);
    assert_eq!(config.inputs[1].codegen, CodegenKind::UrlAndSlice);
    assert!(!config.inputs[1].packable);
    assert_eq!(config.inputs[2].codegen, CodegenKind::NoCode);
    assert_eq!(config.file_path, "/project/assets/tarmac.toml");
}

#[test]
fn empty_file_loads_with_no_sections() {
    let config = load("").unwrap();
    assert!(config.project.is_none());
    assert!(config.includes.is_empty());
    assert!(config.inputs.is_empty());
}

#[test]
fn unknown_top_level_field_is_rejected() {
    let message = toml_message(load("colour = \"red\"\n"));
    assert!(message.contains("colour"));
}

#[test]
fn file_path_in_the_file_is_an_unknown_field() {
    toml_message(load("file_path = \"/elsewhere/tarmac.toml\"\n"));
}

#[test]
fn unknown_input_field_is_rejected() {
    let message = toml_message(load("[[inputs]]\nglob = \"*.png\"\nshiny = true\n"));
    assert!(message.contains("shiny"));
}

#[test]
fn unknown_project_and_include_fields_are_rejected() {
    toml_message(load(
        "[project]\nname = \"g\"\nmax-spritesheet-size = [1, 1]\nextra = 1\n",
    ));
    toml_message(load("[[includes]]\npath = \"a\"\nrecursive = true\n"));
}

#[test]
fn omitted_codegen_and_packable_take_defaults() {
    let config = load("[[inputs]]\nglob = \"*.png\"\n").unwrap();
    assert_eq!(config.inputs[0].codegen, CodegenKind::NoCode);
    assert!(!config.inputs[0].packable);
}

#[test]
fn codegen_default_is_no_code() {
    assert_eq!(CodegenKind::default(), CodegenKind::NoCode);
}

#[test]
fn bad_values_are_rejected() {
    toml_message(load("[[inputs]]\nglob = \"*.png\"\ncodegen = \"lua\"\n"));
    toml_message(load("[[inputs]]\nglob = \"*.png\"\npackable = \"yes\"\n"));
    toml_message(load("[[inputs]]\ncodegen = \"none\"\n"));
    toml_message(load("[project]\nname = \"g\"\nmax-spritesheet-size = [-1, 4]\n"));
    toml_message(load("[project]\nname = \"g\"\nmax-spritesheet-size = [1, 2, 3]\n"));
    toml_message(load("[project]\nname = \"g\"\n"));
    toml_message(load("inputs = 3\n"));
}

#[test]
fn invalid_toml_is_rejected() {
    toml_message(load("[[inputs]\nglob = "));
    assert!(matches!(
        Config::read_from_file(&"/a/tarmac.toml".to_string(), &[0xff, 0xfe]),
        Err(ConfigError::Toml { .. })
    ));
}

#[test]
fn folder_is_the_parent_of_the_file() {
    let config = load("").unwrap();
    assert_eq!(config.folder(), "/project/assets");
}

#[test]
fn read_from_folder_uses_the_config_file_name() {
    assert_eq!(Config::file_in_folder(&"/project/assets".to_string()), "/project/assets/tarmac.toml");
    let config = Config::read_from_folder(&"/project/assets".to_string(), b"").unwrap();
    assert_eq!(config.file_path, "/project/assets/tarmac.toml");
    assert_eq!(config.folder(), "/project/assets");
}

#[test]
fn a_path_without_parent_is_an_io_error() {
    match Config::read_from_file(&"/".to_string(), b"") {
        Err(ConfigError::Io { path, source }) => {
            assert_eq!(path, "/");
            assert_eq!(source.kind(), std::io::ErrorKind::NotFound);
        }
        other => panic!("expected an io error, got {:?}", other),
    }
}
