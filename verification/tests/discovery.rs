use opj::discover::{
    decode_directory_name, decode_type_token, extract_description_from_content,
    filter_project_dirs, parse_overview, parse_priority, parse_status, should_include_dir,
    sort_projects_by_updated, ProjectScanner,
};
use opj::project::ProjectType;
use opj::status::{Priority, ProjectStatus};

#[test]
fn test_parse_project_from_directory_name() {
    let scanner = ProjectScanner::new("/vault/Projects");
    let project =
        scanner.parse_project_from_structure("2025-06-18_Web-App_Test-Project", None, None, None);

    assert_eq!(project.name, "Test Project");
    assert!(matches!(project.project_type, ProjectType::WebApp));
}

#[test]
fn test_scan_projects() {
    let names = vec![
        "2025-06-18_Tool_CLI-Tool".to_string(),
        "2025-06-19_Content_Blog-Post".to_string(),
        "_TEMPLATES".to_string(),
    ];
    let kept = filter_project_dirs(&names);
    let scanner = ProjectScanner::new("/vault/Projects");
    let projects: Vec<_> = kept
        .iter()
        .map(|n| scanner.parse_project_from_structure(n, None, None, None))
        .collect();

    assert_eq!(projects.len(), 2);
    assert!(projects.iter().any(|p| p.name == "CLI Tool"));
    assert!(projects.iter().any(|p| p.name == "Blog Post"));
}

#[test]
fn test_discovery_skips_hidden_and_template_dirs() {
    assert!(!should_include_dir("_TEMPLATES"));
    assert!(!should_include_dir(".git"));
    assert!(should_include_dir("2025-06-18_Tool_X"));
    let names = vec![
        "2025-06-18_Tool_X".to_string(),
        "_TEMPLATES".to_string(),
        ".obsidian".to_string(),
    ];
    let kept = filter_project_dirs(&names);
    assert_eq!(kept, vec!["2025-06-18_Tool_X".to_string()]);
}

#[test]
fn test_reconstruct_without_metadata_or_overview() {
    let scanner = ProjectScanner::new("/vault/Projects");
    let p = scanner.parse_project_from_structure("2025-06-18_Tool_CLI-Helper", None, None, None);
    assert_eq!(p.name, "CLI Helper");
    assert_eq!(p.project_type, ProjectType::Tool);
    assert_eq!(p.status, ProjectStatus::Idea);
    assert_eq!(p.priority, Priority::Medium);
    assert_eq!(p.status_history.len(), 1);
    assert_eq!(
        p.status_history[0].note,
        Some("Project discovered".to_string())
    );
    assert_eq!(p.id.len(), 36);
    assert_eq!(
        p.path,
        Some("/vault/Projects/2025-06-18_Tool_CLI-Helper".to_string())
    );
}

#[test]
fn test_reconstruct_uses_directory_times() {
    let scanner = ProjectScanner::new("/p");
    let p = scanner.parse_project_from_structure(
        "2025-06-18_Tool_X",
        None,
        Some(1_000_000),
        Some(2_000_000),
    );
    assert_eq!(p.created, 1_000_000);
    assert_eq!(p.updated, 2_000_000);
    assert_eq!(p.status_history[0].timestamp, 1_000_000);
}

#[test]
fn test_name_lookup_substring_tier() {
    let scanner = ProjectScanner::new("/p");
    let projects = vec![
        scanner.parse_project_from_structure("2025-06-18_Tool_CLI-Helper", None, None, None),
        scanner.parse_project_from_structure("2025-06-19_Tool_Other", None, None, None),
    ];
    let found = scanner.find_project_by_name(&projects, "cli");
    assert!(found.is_some());
    assert_eq!(found.unwrap().name, "CLI Helper");
}

#[test]
fn test_name_lookup_tier_order() {
    let scanner = ProjectScanner::new("/p");
    let mut a = scanner.parse_project_from_structure("2025-06-18_Tool_CLI-Helper", None, None, None);
    a.name = "CLI".to_string();
    let mut b = scanner.parse_project_from_structure("2025-06-19_Tool_Other", None, None, None);
    b.name = "cli".to_string();
    let projects = vec![a, b];
    let found = scanner.find_project_by_name(&projects, "cli").unwrap();
    assert_eq!(found.name, "cli");
    let found_ci = scanner.find_project_by_name(&projects, "CLi").unwrap();
    assert_eq!(found_ci.name, "CLI");
    assert!(scanner.find_project_by_name(&projects, "nothing").is_none());
}

#[test]
fn test_find_project_by_id() {
    let scanner = ProjectScanner::new("/p");
    let a = scanner.parse_project_from_structure("2025-06-18_Tool_A", None, None, None);
    let b = scanner.parse_project_from_structure("2025-06-19_Tool_B", None, None, None);
    let id = b.id.clone();
    let projects = vec![a, b];
    let found = scanner.find_project_by_id(&projects, &id).unwrap();
    assert_eq!(found.name, "B");
    assert!(scanner.find_project_by_id(&projects, "missing").is_none());
}

#[test]
fn test_sort_projects_by_updated() {
    let scanner = ProjectScanner::new("/p");
    let a = scanner.parse_project_from_structure("2025-06-18_Tool_A", None, Some(1), Some(100), );
    let b = scanner.parse_project_from_structure("2025-06-18_Tool_B", None, Some(1), Some(300));
    let c = scanner.parse_project_from_structure("2025-06-18_Tool_C", None, Some(1), Some(200));
    let sorted = sort_projects_by_updated(vec![a, b, c]);
    let names: Vec<_> = sorted.iter().map(|p| p.name.clone()).collect();
    assert_eq!(
        names,
        vec!["B".to_string(), "C".to_string(), "A".to_string()]
    );
}

#[test]
fn test_decode_type_aliases() {
    assert_eq!(decode_type_token("Web-App"), ProjectType::WebApp);
    assert_eq!(decode_type_token("webapp"), ProjectType::WebApp);
    assert_eq!(decode_type_token("CLI"), ProjectType::Tool);
    assert_eq!(decode_type_token("tool"), ProjectType::Tool);
    assert_eq!(decode_type_token("Article"), ProjectType::Content);
    assert_eq!(decode_type_token("backend"), ProjectType::Api);
    assert_eq!(
        decode_type_token("Funky"),
        ProjectType::Custom("funky".to_string())
    );
}

#[test]
fn test_type_token_round_trip() {
    for tok in ["Web-App", "webapp", "CLI", "tool", "Article", "API", "Funky"] {
        let t = decode_type_token(tok);
        let relabel = t.label();
        assert_eq!(decode_type_token(&relabel), t);
    }
}

#[test]
fn test_decode_directory_name_fallback() {
    let (name, t) = decode_directory_name("NoUnderscores");
    assert_eq!(name, "NoUnderscores");
    assert_eq!(t, ProjectType::Custom("Unknown".to_string()));
}

#[test]
fn test_parse_overview_frontmatter() {
    let content = "---\ndescription: \"A proj\"\nstatus: testing\npriority: high\ntags:\n  - alpha\n  - beta\n---\n# Title\n";
    let (desc, status, priority, tags) = parse_overview(content);
    assert_eq!(desc, Some("A proj".to_string()));
    assert_eq!(status, ProjectStatus::Testing);
    assert_eq!(priority, Priority::High);
    assert_eq!(tags, vec!["alpha".to_string(), "beta".to_string()]);
}

#[test]
fn test_parse_overview_defaults_on_malformed_fence() {
    let content = "---\nstatus: testing\nno closing fence here";
    let (desc, status, priority, tags) = parse_overview(content);
    assert_eq!(desc, None);
    assert_eq!(status, ProjectStatus::Idea);
    assert_eq!(priority, Priority::Medium);
    assert!(tags.is_empty());
}

#[test]
fn test_description_fallback_from_body() {
    let content = "# Title\n\n## 概要\n\nA great tool\nmore text\n";
    let (desc, status, _priority, _tags) = parse_overview(content);
    assert_eq!(desc, Some("A great tool".to_string()));
    assert_eq!(status, ProjectStatus::Idea);
    assert_eq!(
        extract_description_from_content(content),
        Some("A great tool".to_string())
    );
}

#[test]
fn test_parse_status_and_priority() {
    assert_eq!(parse_status("Completed"), ProjectStatus::Completed);
    assert_eq!(parse_status("archived"), ProjectStatus::Archived);
    assert_eq!(parse_status("bogus"), ProjectStatus::Idea);
    assert_eq!(parse_priority("HIGH"), Priority::High);
    assert_eq!(parse_priority("low"), Priority::Low);
    assert_eq!(parse_priority("whatever"), Priority::Medium);
}

#[test]
fn test_overview_overrides_reconstruction() {
    let scanner = ProjectScanner::new("/p");
    let overview = "---\nstatus: development\npriority: low\n---\n";
    let p = scanner.parse_project_from_structure(
        "2025-06-18_Tool_X",
        Some(overview),
        Some(10),
        Some(20),
    );
    assert_eq!(p.status, ProjectStatus::Development);
    assert_eq!(p.priority, Priority::Low);
    assert_eq!(p.status_history[0].status, ProjectStatus::Development);
}
