use opj::status::{
    create_status_entry, get_next_suggested_status, get_status_progression, is_valid_transition,
    Priority, ProjectStatus,
};

#[test]
fn test_status_progression() {
    let p = get_status_progression();
    assert_eq!(
        p,
        vec![
            ProjectStatus::Idea,
            ProjectStatus::Planning,
            ProjectStatus::Development,
            ProjectStatus::Testing,
            ProjectStatus::Completed,
        ]
    );
}

#[test]
fn test_next_suggested_status() {
    assert_eq!(
        get_next_suggested_status(&ProjectStatus::Idea),
        Some(ProjectStatus::Planning)
    );
    assert_eq!(
        get_next_suggested_status(&ProjectStatus::Planning),
        Some(ProjectStatus::Development)
    );
    assert_eq!(
        get_next_suggested_status(&ProjectStatus::Development),
        Some(ProjectStatus::Testing)
    );
    assert_eq!(
        get_next_suggested_status(&ProjectStatus::Testing),
        Some(ProjectStatus::Completed)
    );
    assert_eq!(get_next_suggested_status(&ProjectStatus::Completed), None);
    assert_eq!(get_next_suggested_status(&ProjectStatus::Archived), None);
    assert_eq!(get_next_suggested_status(&ProjectStatus::Cancelled), None);
}

#[test]
fn test_completed_transitions_flagged() {
    assert!(!is_valid_transition(
        &ProjectStatus::Completed,
        &ProjectStatus::Idea
    ));
    assert!(!is_valid_transition(
        &ProjectStatus::Completed,
        &ProjectStatus::Planning
    ));
    assert!(!is_valid_transition(
        &ProjectStatus::Completed,
        &ProjectStatus::Development
    ));
    assert!(!is_valid_transition(
        &ProjectStatus::Completed,
        &ProjectStatus::Testing
    ));
    assert!(is_valid_transition(
        &ProjectStatus::Completed,
        &ProjectStatus::Archived
    ));
    assert!(is_valid_transition(
        &ProjectStatus::Completed,
        &ProjectStatus::Cancelled
    ));
}

#[test]
fn test_other_transitions_valid() {
    assert!(is_valid_transition(
        &ProjectStatus::Idea,
        &ProjectStatus::Completed
    ));
    assert!(is_valid_transition(
        &ProjectStatus::Archived,
        &ProjectStatus::Idea
    ));
    assert!(is_valid_transition(
        &ProjectStatus::Cancelled,
        &ProjectStatus::Development
    ));
    assert!(is_valid_transition(
        &ProjectStatus::Testing,
        &ProjectStatus::Planning
    ));
}

#[test]
fn test_create_status_entry() {
    let e = create_status_entry(ProjectStatus::Planning, Some("kick off".to_string()));
    assert_eq!(e.status, ProjectStatus::Planning);
    assert_eq!(e.note, Some("kick off".to_string()));
    let e2 = create_status_entry(ProjectStatus::Idea, None);
    assert_eq!(e2.status, ProjectStatus::Idea);
    assert_eq!(e2.note, None);
}

#[test]
fn test_labels() {
    assert_eq!(ProjectStatus::Development.label(), "Development");
    assert_eq!(ProjectStatus::Idea.label(), "Idea");
    assert_eq!(Priority::High.label(), "High");
    assert_eq!(ProjectStatus::Completed.tag(), "status-completed");
}
