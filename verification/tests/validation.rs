use maestro::error::MaestroError;
use maestro::maestro::Maestro;
use maestro::project::Project;
use maestro::workspace::Workspace;

#[test]
fn test_valid_workspace() {
    let workspace = Workspace {
        name: "WorkspaceA".to_string(),
        description: "Description for workspaceA".to_string(),
        workspace_path: "/path/to/workspaceA".to_string(),
        container_working_dir: None,
        last_updated: None,
    };
    assert!(workspace.validate().is_ok());
}

#[test]
fn test_invalid_name_workspace() {
    let workspace = Workspace {
        name: "Workspace A".to_string(),
        description: "Description for workspaceA".to_string(),
        workspace_path: "workspace".to_string(),
        container_working_dir: None,
        last_updated: None,
    };
    assert!(workspace.validate().is_err());
    assert!(workspace.validate().unwrap_err().message().contains("Name must be a single word"));
}

#[test]
fn test_empty_workspace_path_workspace() {
    let workspace = Workspace {
        name: "WorkspaceA".to_string(),
        description: "Description for workspaceA".to_string(),
        workspace_path: "".to_string(),
        container_working_dir: None,
        last_updated: None,
    };
    assert!(workspace.validate().is_err());
    assert!(workspace.validate().unwrap_err().message().contains("Workspace path cannot be empty"));
}

#[test]
fn test_valid_maestro() {
    let maestro = Maestro {
        workspaces: vec![Workspace {
            name: "WorkspaceA".to_string(),
            description: "Description for workspaceA".to_string(),
            workspace_path: "/path/to/workspaceA".to_string(),
            container_working_dir: None,
            last_updated: None,
        }],
    };
    assert!(maestro.validate().is_ok());
}

#[test]
fn test_invalid_workspace_in_maestro() {
    let maestro = Maestro {
        workspaces: vec![
            Workspace {
                name: "WorkspaceA".to_string(),
                description: "Description for workspaceA".to_string(),
                workspace_path: "/path/to/workspaceA".to_string(),
                container_working_dir: None,
                last_updated: None,
            },
            Workspace {
                name: "Workspace B".to_string(),
                description: "Description for workspaceB".to_string(),
                workspace_path: "/path/to/workspaceB".to_string(),
                container_working_dir: None,
                last_updated: None,
            },
        ],
    };
    assert!(maestro.validate().is_err());
}

#[test]
fn empty_name_fails_single_word_rule() {
    let workspace = Workspace {
        name: "".to_string(),
        description: "anything".to_string(),
        workspace_path: "/somewhere".to_string(),
        container_working_dir: None,
        last_updated: None,
    };
    let err = workspace.validate().unwrap_err();
    assert!(matches!(err, MaestroError::ValidationError(_)));
    assert!(err.message().contains("Name must be a single word"));
}

#[test]
fn digits_and_underscores_are_word_characters() {
    let workspace = Workspace {
        name: "Workspace_1".to_string(),
        description: "".to_string(),
        workspace_path: "relative/path".to_string(),
        container_working_dir: Some("/work".to_string()),
        last_updated: Some(1_700_000_000),
    };
    assert!(workspace.validate().is_ok());
}

#[test]
fn punctuation_in_name_is_rejected() {
    let workspace = Workspace {
        name: "work-space".to_string(),
        description: "".to_string(),
        workspace_path: "/p".to_string(),
        container_working_dir: None,
        last_updated: None,
    };
    let err = workspace.validate().unwrap_err();
    assert!(err.message().contains("Name must be a single word"));
}

#[test]
fn empty_aggregate_is_vacuously_valid() {
    let maestro = Maestro { workspaces: Vec::new() };
    assert!(maestro.validate().is_ok());
}

#[test]
fn aggregate_validation_is_fail_fast() {
    let maestro = Maestro {
        workspaces: vec![
            Workspace {
                name: "Workspace A".to_string(),
                description: "".to_string(),
                workspace_path: "/p".to_string(),
                container_working_dir: None,
                last_updated: None,
            },
            Workspace {
                name: "WorkspaceB".to_string(),
                description: "".to_string(),
                workspace_path: "".to_string(),
                container_working_dir: None,
                last_updated: None,
            },
        ],
    };
    // The first offending workspace breaks the name rule; its message wins.
    let err = maestro.validate().unwrap_err();
    assert!(err.message().contains("Name must be a single word"));
}

#[test]
fn duplicate_names_pass_validation() {
    let one = Workspace {
        name: "Twin".to_string(),
        description: "first".to_string(),
        workspace_path: "/a".to_string(),
        container_working_dir: None,
        last_updated: None,
    };
    let two = Workspace {
        name: "Twin".to_string(),
        description: "second".to_string(),
        workspace_path: "/b".to_string(),
        container_working_dir: None,
        last_updated: None,
    };
    let maestro = Maestro { workspaces: vec![one, two] };
    assert!(maestro.validate().is_ok());
}

#[test]
fn project_is_a_plain_record() {
    let project = Project {
        name: "orchestration".to_string(),
        description: "keeps the workspaces in step".to_string(),
    };
    assert_eq!(project.name, "orchestration");
    assert_eq!(project.description, "keeps the workspaces in step");
}
