use opj::chars::truncate_string;
use opj::cli;
use opj::project::{Project, ProjectType};
use opj::template::TemplateProcessor;

#[test]
fn test_process_string() {
    let project = Project::new(
        "Test Project".to_string(),
        cli::ProjectType::WebApp,
        cli::Priority::High,
        Some("A test project".to_string()),
    );

    let processor = TemplateProcessor::new(&project);

    let input = "Project: {{project_name}}\nType: {{project_type}}\nPriority: {{priority}}";
    let output = processor.process_string(input);

    assert!(output.contains("Project: Test Project"));
    assert!(output.contains("Type: Web-App"));
    assert!(output.contains("Priority: High"));
}

#[test]
fn test_unknown_token_preserved() {
    let project = Project::new(
        "T".to_string(),
        cli::ProjectType::Tool,
        cli::Priority::Medium,
        None,
    );
    let processor = TemplateProcessor::new(&project);
    let output = processor.process_string("{{nope}}");
    assert!(output.contains("{{nope}}"));
}

#[test]
fn test_unknown_token_is_trimmed() {
    let project = Project::new(
        "T".to_string(),
        cli::ProjectType::Tool,
        cli::Priority::Medium,
        None,
    );
    let processor = TemplateProcessor::new(&project);
    assert_eq!(processor.process_string("{{ nope }}"), "{{nope}}");
}

#[test]
fn test_process_string_idempotent_on_resolved_output() {
    let project = Project::new(
        "Idem".to_string(),
        cli::ProjectType::Api,
        cli::Priority::Low,
        Some("desc".to_string()),
    );
    let processor = TemplateProcessor::new(&project);
    let once = processor.process_string("A {{project_name}} B {{nope}} C {{status}}");
    let twice = processor.process_string(&once);
    assert_eq!(twice, once);
}

#[test]
fn test_description_token() {
    let project = Project::new(
        "My Project".to_string(),
        cli::ProjectType::Content,
        cli::Priority::Low,
        Some("Test description".to_string()),
    );
    let processor = TemplateProcessor::new(&project);
    let output = processor.process_string("# {{project_name}}\n\nDescription: {{description}}");
    assert!(output.contains("# My Project"));
    assert!(output.contains("Description: Test description"));
}

#[test]
fn test_date_token_formats_current_time() {
    let project = Project::new(
        "T".to_string(),
        cli::ProjectType::Tool,
        cli::Priority::Medium,
        None,
    );
    let processor = TemplateProcessor::new(&project);
    let output = processor.process_string("Date: {{date:%Y-%m-%d}}");
    let today = chrono::Utc::now().format("%Y-%m-%d").to_string();
    assert_eq!(output, format!("Date: {}", today));
}

#[test]
fn test_date_variable_is_seeded() {
    let project = Project::new(
        "T".to_string(),
        cli::ProjectType::Tool,
        cli::Priority::Medium,
        None,
    );
    let processor = TemplateProcessor::new(&project);
    let output = processor.process_string("{{date}}");
    let today = chrono::Utc::now().format("%Y-%m-%d").to_string();
    assert_eq!(output, today);
}

#[test]
fn test_add_variable_overrides() {
    let project = Project::new(
        "T".to_string(),
        cli::ProjectType::Tool,
        cli::Priority::Medium,
        None,
    );
    let mut processor = TemplateProcessor::new(&project);
    processor.add_variable("custom".to_string(), "X".to_string());
    processor.add_variable("custom".to_string(), "Y".to_string());
    assert_eq!(processor.process_string("{{custom}}"), "Y");
}

#[test]
fn test_placeholder_echo_variables() {
    let project = Project::new(
        "T".to_string(),
        cli::ProjectType::Tool,
        cli::Priority::Medium,
        None,
    );
    let processor = TemplateProcessor::new(&project);
    assert_eq!(processor.process_string("{{期間}}"), "{{期間}}");
}

#[test]
fn test_empty_braces_kept() {
    let project = Project::new(
        "T".to_string(),
        cli::ProjectType::Tool,
        cli::Priority::Medium,
        None,
    );
    let processor = TemplateProcessor::new(&project);
    assert_eq!(processor.process_string("a {{}} b"), "a {{}} b");
}

#[test]
fn test_is_text_file() {
    let project = Project::new(
        "T".to_string(),
        cli::ProjectType::Tool,
        cli::Priority::Medium,
        None,
    );
    let processor = TemplateProcessor::new(&project);
    assert!(processor.is_text_file("notes.md"));
    assert!(processor.is_text_file("DATA.JSON"));
    assert!(processor.is_text_file("readme"));
    assert!(processor.is_text_file("Makefile"));
    assert!(!processor.is_text_file("image.png"));
    assert!(!processor.is_text_file(".gitignore"));
    assert!(!processor.is_text_file("archive.tar.gz"));
}

#[test]
fn test_create_filename_variables() {
    let vars = TemplateProcessor::create_filename_variables("My Tool", &ProjectType::Tool);
    let today = chrono::Utc::now().format("%Y-%m-%d").to_string();
    let lookup = |k: &str| -> Option<String> {
        vars.iter().find(|p| p.0 == k).map(|p| p.1.clone())
    };
    assert_eq!(
        lookup("directory_name"),
        Some(format!("{}_Tool_My-Tool", today))
    );
    assert_eq!(lookup("safe_project_name"), Some("My-Tool".to_string()));
    assert_eq!(lookup("project_type_short"), Some("Tool".to_string()));
}

#[test]
fn test_truncate_string() {
    assert_eq!(truncate_string("hello", 10), "hello");
    assert_eq!(truncate_string("hello world", 8), "hello...");
    assert_eq!(truncate_string("hi", 5), "hi");
    assert_eq!(truncate_string("", 5), "");
}
