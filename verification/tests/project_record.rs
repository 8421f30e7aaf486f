use opj::cli;
use opj::project::{days_between, Project, ProjectType};
use opj::status::{Priority, ProjectStatus, StatusEntry};

#[test]
fn test_new_project_record() {
    let p = Project::new(
        "My App".to_string(),
        cli::ProjectType::WebApp,
        cli::Priority::High,
        Some("a thing".to_string()),
    );
    assert_eq!(p.name, "My App");
    assert_eq!(p.project_type, ProjectType::WebApp);
    assert_eq!(p.status, ProjectStatus::Idea);
    assert_eq!(p.priority, Priority::High);
    assert_eq!(p.description, Some("a thing".to_string()));
    assert_eq!(p.id.len(), 36);
    assert_eq!(p.created, p.updated);
    assert!(p.technologies.is_empty());
    assert!(p.path.is_none());
    assert_eq!(
        p.tags,
        vec![
            "project".to_string(),
            "webapp".to_string(),
            "priority-high".to_string()
        ]
    );
    assert_eq!(p.status_history.len(), 1);
    assert_eq!(p.status_history[0].status, p.status);
    assert_eq!(p.status_history[0].timestamp, p.created);
    assert_eq!(
        p.status_history[0].note,
        Some("Project created".to_string())
    );
}

#[test]
fn test_history_tracks_status_after_updates() {
    let mut p = Project::new(
        "T".to_string(),
        cli::ProjectType::Tool,
        cli::Priority::Low,
        None,
    );
    assert_eq!(p.status_history.last().unwrap().status, p.status);
    p.update_status(ProjectStatus::Planning, None);
    assert_eq!(p.status_history.last().unwrap().status, p.status);
    assert_eq!(p.status, ProjectStatus::Planning);
    p.update_status(ProjectStatus::Cancelled, Some("dropped".to_string()));
    assert_eq!(p.status_history.last().unwrap().status, ProjectStatus::Cancelled);
    assert_eq!(p.status_history.len(), 3);
}

#[test]
fn test_update_from_explicit_record() {
    // An explicitly loaded record: status Testing, two history lines.
    let mut p = Project {
        id: "11111111-2222-3333-4444-555555555555".to_string(),
        name: "Loaded".to_string(),
        project_type: ProjectType::Api,
        status: ProjectStatus::Testing,
        priority: Priority::Medium,
        created: 1_700_000_000,
        updated: 1_700_100_000,
        description: None,
        tags: vec!["project".to_string(), "status-testing".to_string()],
        technologies: vec![],
        status_history: vec![
            StatusEntry {
                status: ProjectStatus::Idea,
                timestamp: 1_700_000_000,
                note: None,
            },
            StatusEntry {
                status: ProjectStatus::Testing,
                timestamp: 1_700_100_000,
                note: None,
            },
        ],
        path: None,
    };
    p.update_status(ProjectStatus::Completed, Some("done".to_string()));
    assert_eq!(p.status_history.len(), 3);
    assert_eq!(
        p.status_history.last().unwrap().status,
        ProjectStatus::Completed
    );
    assert_eq!(p.status_history.last().unwrap().note, Some("done".to_string()));
    assert_eq!(p.get_progress_percentage(), 100);
}

#[test]
fn test_update_status_replaces_status_tag() {
    let mut p = Project::new(
        "T".to_string(),
        cli::ProjectType::Content,
        cli::Priority::Medium,
        None,
    );
    p.update_status(ProjectStatus::Development, None);
    assert_eq!(
        p.tags,
        vec![
            "project".to_string(),
            "content".to_string(),
            "priority-medium".to_string(),
            "status-development".to_string()
        ]
    );
    p.update_status(ProjectStatus::Testing, None);
    assert_eq!(
        p.tags,
        vec![
            "project".to_string(),
            "content".to_string(),
            "priority-medium".to_string(),
            "status-testing".to_string()
        ]
    );
}

#[test]
fn test_add_tag_suppresses_duplicates() {
    let mut p = Project::new(
        "T".to_string(),
        cli::ProjectType::Tool,
        cli::Priority::Low,
        None,
    );
    let before = p.tags.len();
    p.add_tag("alpha".to_string());
    p.add_tag("alpha".to_string());
    assert_eq!(p.tags.len(), before + 1);
    assert_eq!(p.tags.last().unwrap(), "alpha");
}

#[test]
fn test_add_technology() {
    let mut p = Project::new(
        "T".to_string(),
        cli::ProjectType::Tool,
        cli::Priority::Low,
        None,
    );
    p.add_technology("Rust Lang".to_string());
    assert_eq!(p.technologies, vec!["Rust Lang".to_string()]);
    assert_eq!(p.tags.last().unwrap(), "rust-lang");
    p.add_technology("Rust Lang".to_string());
    assert_eq!(p.technologies.len(), 1);
}

#[test]
fn test_progress_percentages() {
    let mut p = Project::new(
        "T".to_string(),
        cli::ProjectType::Tool,
        cli::Priority::Low,
        None,
    );
    assert_eq!(p.get_progress_percentage(), 10);
    p.update_status(ProjectStatus::Planning, None);
    assert_eq!(p.get_progress_percentage(), 25);
    p.update_status(ProjectStatus::Development, None);
    assert_eq!(p.get_progress_percentage(), 60);
    p.update_status(ProjectStatus::Testing, None);
    assert_eq!(p.get_progress_percentage(), 85);
    p.update_status(ProjectStatus::Cancelled, None);
    assert_eq!(p.get_progress_percentage(), 0);
}

#[test]
fn test_is_active() {
    let mut p = Project::new(
        "T".to_string(),
        cli::ProjectType::Tool,
        cli::Priority::Low,
        None,
    );
    assert!(!p.is_active());
    p.update_status(ProjectStatus::Development, None);
    assert!(p.is_active());
    p.update_status(ProjectStatus::Archived, None);
    assert!(!p.is_active());
}

#[test]
fn test_days_between() {
    assert_eq!(days_between(86400 * 3 + 100, 0), 3);
    assert_eq!(days_between(100, 100), 0);
    assert_eq!(days_between(0, 86400 * 2), -2);
    assert_eq!(days_between(86399, 0), 0);
}
