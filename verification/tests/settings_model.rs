use opj::cli;
use opj::settings::Settings;

#[test]
fn test_settings_default() {
    let settings = Settings::default();
    assert_eq!(settings.projects_dir, "Projects");
    assert_eq!(settings.templates_dir, "Projects/_TEMPLATES");
    assert!(settings.auto_git_init);
    assert!(settings.obsidian_path.ends_with("/Documents/Obsidian-Vault"));
    assert_eq!(settings.date_format, "%Y-%m-%d");
    assert_eq!(settings.status_values.len(), 7);
    assert_eq!(settings.status_values[0], "idea");
    assert_eq!(settings.status_values[6], "cancelled");
    assert_eq!(settings.editor, Some("code".to_string()));
}

#[test]
fn test_settings_paths() {
    let mut settings = Settings::default();
    settings.set_obsidian_path("/vault");
    assert_eq!(settings.projects_path(), "/vault/Projects");
    assert_eq!(settings.templates_path(), "/vault/Projects/_TEMPLATES");
    assert_eq!(
        settings.get_template_path("Tool-Project"),
        "/vault/Projects/_TEMPLATES/Tool-Project"
    );
}

#[test]
fn test_settings_setters() {
    let mut settings = Settings::default();
    settings.set_default_type(cli::ProjectType::Api);
    settings.set_default_priority(cli::Priority::High);
    settings.set_auto_git_init(false);
    settings.set_editor(Some("vim".to_string()));
    assert_eq!(settings.default_type, cli::ProjectType::Api);
    assert_eq!(settings.default_priority, cli::Priority::High);
    assert!(!settings.auto_git_init);
    assert_eq!(settings.editor, Some("vim".to_string()));
    settings.set_editor(None);
    assert_eq!(settings.editor, None);
}

#[test]
fn test_template_record() {
    let t = opj::template::Template::new("Tool-Project".to_string(), "/x/Tool-Project".to_string());
    assert_eq!(t.name, "Tool-Project");
    assert_eq!(t.path, "/x/Tool-Project");
    assert!(t.description.is_none());
}
