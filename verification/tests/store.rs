use maestro::config::Config;
use maestro::error::MaestroError;
use maestro::store::load_pointer;
use maestro::store::load_user_config;
use maestro::store::plan_save;
use maestro::store::render_pointer;
use maestro::store::write_failure;

#[test]
fn pointer_round_trip() {
    let canonical = "/home/user/user_config.json".to_string();
    let (config, text) = plan_save("user_config.json", Ok(canonical.clone())).unwrap();
    assert_eq!(config.config_file_path(), canonical.as_str());
    let loaded = load_pointer(Ok(text)).unwrap();
    assert_eq!(loaded.config_file_path(), canonical.as_str());
}

#[test]
fn pointer_round_trip_escapes_special_characters() {
    let canonical = "/odd \"dir\"/back\\slash.json".to_string();
    let (_, text) = plan_save("odd", Ok(canonical.clone())).unwrap();
    let loaded = load_pointer(Ok(text)).unwrap();
    assert_eq!(loaded.config_file_path(), canonical.as_str());
}

#[test]
fn rendered_pointer_document_is_exact() {
    let config = Config::new("/home/user/user_config.json".to_string());
    let text = render_pointer(&config);
    assert_eq!(text, "{\n  \"config_file_path\": \"/home/user/user_config.json\"\n}");
}

#[test]
fn load_with_no_pointer_file_is_config_not_found() {
    let result = load_pointer(Err("No such file or directory (os error 2)".to_string()));
    let err = result.unwrap_err();
    assert!(matches!(err, MaestroError::ConfigNotFound(_)));
    assert!(err.message().contains("Ensure Maestro is configured"));
}

#[test]
fn malformed_pointer_file_is_pointer_parse_error() {
    let result = load_pointer(Ok("not json at all".to_string()));
    assert!(matches!(result.unwrap_err(), MaestroError::PointerParseError(_)));
}

#[test]
fn pointer_without_path_field_is_pointer_parse_error() {
    let result = load_pointer(Ok("{\"somewhere\": \"else\"}".to_string()));
    assert!(matches!(result.unwrap_err(), MaestroError::PointerParseError(_)));
}

#[test]
fn pointer_with_non_string_path_is_pointer_parse_error() {
    let result = load_pointer(Ok("{\"config_file_path\": 17}".to_string()));
    assert!(matches!(result.unwrap_err(), MaestroError::PointerParseError(_)));
}

#[test]
fn two_valid_workspaces_load_in_declaration_order() {
    let text = r#"
    {
        "workspaces": [
            {
                "name": "WorkspaceA",
                "description": "Description for workspaceA",
                "workspace_path": "/path/to/workspaceA"
            },
            {
                "name": "WorkspaceB",
                "description": "Description for workspaceB",
                "workspace_path": "/path/to/workspaceB"
            }
        ]
    }
    "#;
    let maestro = load_user_config(Ok(text.to_string())).unwrap();
    assert_eq!(maestro.workspaces.len(), 2);
    assert_eq!(maestro.workspaces[0].name, "WorkspaceA");
    assert_eq!(maestro.workspaces[0].description, "Description for workspaceA");
    assert_eq!(maestro.workspaces[0].workspace_path, "/path/to/workspaceA");
    assert_eq!(maestro.workspaces[1].name, "WorkspaceB");
    // The optional fields were omitted in the file, so they load as None.
    assert_eq!(maestro.workspaces[0].container_working_dir, None);
    assert_eq!(maestro.workspaces[0].last_updated, None);
}

#[test]
fn missing_user_file_is_user_config_not_found() {
    let result = load_user_config(Err("No such file or directory (os error 2)".to_string()));
    assert!(matches!(result.unwrap_err(), MaestroError::UserConfigNotFound(_)));
}

#[test]
fn document_without_workspaces_field_is_user_config_parse_error() {
    let result = load_user_config(Ok("{\"invalid\": \"json\"}".to_string()));
    let err = result.unwrap_err();
    assert!(matches!(err, MaestroError::UserConfigParseError(_)));
    assert!(err.message().contains("workspaces"));
}

#[test]
fn unparsable_user_document_is_user_config_parse_error() {
    let result = load_user_config(Ok("{\"workspaces\": [".to_string()));
    assert!(matches!(result.unwrap_err(), MaestroError::UserConfigParseError(_)));
}

#[test]
fn workspace_entry_missing_required_field_is_user_config_parse_error() {
    let text = r#"{"workspaces": [{"name": "WorkspaceA"}]}"#;
    let result = load_user_config(Ok(text.to_string()));
    assert!(matches!(result.unwrap_err(), MaestroError::UserConfigParseError(_)));
}

#[test]
fn invalid_workspace_name_in_user_file_is_validation_error() {
    let text = r#"
    {
        "workspaces": [
            {
                "name": "Workspace B",
                "description": "Description for workspaceB",
                "workspace_path": "/path/to/workspaceB"
            }
        ]
    }
    "#;
    let err = load_user_config(Ok(text.to_string())).unwrap_err();
    assert!(matches!(err, MaestroError::ValidationError(_)));
    assert!(err.message().contains("Name must be a single word"));
}

#[test]
fn empty_workspace_path_in_user_file_is_validation_error() {
    let text = r#"{"workspaces": [{"name": "WorkspaceA", "description": "", "workspace_path": ""}]}"#;
    let err = load_user_config(Ok(text.to_string())).unwrap_err();
    assert!(matches!(err, MaestroError::ValidationError(_)));
    assert!(err.message().contains("Workspace path cannot be empty"));
}

#[test]
fn empty_workspace_list_loads_as_empty_aggregate() {
    let maestro = load_user_config(Ok("{\"workspaces\": []}".to_string())).unwrap();
    assert_eq!(maestro.workspaces.len(), 0);
}

#[test]
fn container_working_dir_accepts_string_and_null() {
    let text = r#"
    {
        "workspaces": [
            {
                "name": "A",
                "description": "",
                "workspace_path": "/a",
                "container_working_dir": "/inside"
            },
            {
                "name": "B",
                "description": "",
                "workspace_path": "/b",
                "container_working_dir": null
            }
        ]
    }
    "#;
    let maestro = load_user_config(Ok(text.to_string())).unwrap();
    assert_eq!(maestro.workspaces[0].container_working_dir, Some("/inside".to_string()));
    assert_eq!(maestro.workspaces[1].container_working_dir, None);
}

#[test]
fn container_working_dir_of_wrong_type_is_user_config_parse_error() {
    let text = r#"{"workspaces": [{"name": "A", "description": "", "workspace_path": "/a", "container_working_dir": 3}]}"#;
    let result = load_user_config(Ok(text.to_string()));
    assert!(matches!(result.unwrap_err(), MaestroError::UserConfigParseError(_)));
}

#[test]
fn save_with_unresolvable_path_is_path_resolution_error() {
    let result = plan_save(
        "missing_config.json",
        Err("No such file or directory (os error 2)".to_string()),
    );
    let err = result.unwrap_err();
    assert!(matches!(err, MaestroError::PathResolutionError(_)));
    assert!(err.message().contains("missing_config.json"));
    assert!(err.message().contains("Ensure the file exists"));
}

#[test]
fn failed_write_reports_write_error() {
    let err = write_failure("Permission denied (os error 13)");
    assert!(matches!(err, MaestroError::WriteError(_)));
    assert!(err.message().contains("write permissions"));
}

#[test]
fn default_pointer_record_names_default_file() {
    let config = Config::default();
    assert_eq!(config.config_file_path(), "default.json");
}

#[test]
fn new_pointer_record_stores_the_given_path() {
    let config = Config::new("/etc/maestro/user.json".to_string());
    assert_eq!(config.config_file_path(), "/etc/maestro/user.json");
}
