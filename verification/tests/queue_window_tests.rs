use winget_interfacer::gui::app::{PackageApp, PackageRowState, QueueAction};
use winget_interfacer::winget_manager::Package;

fn package(name: &str, id: &str) -> Package {
    Package {
        name: name.to_string(),
        id: id.to_string(),
        version: "1".to_string(),
        available_version: "2".to_string(),
    }
}

fn update_of(a: &QueueAction) -> Option<String> {
    match a {
        QueueAction::StartUpdate { package_id } => Some(package_id.clone()),
        _ => None,
    }
}

#[test]
fn queue_window_starts_listing() {
    let (mut app, a) = PackageApp::new();
    assert!(matches!(a, QueueAction::StartFetch));
    assert!(app.is_loading());
    assert!(matches!(app.fetch_updates_async(), QueueAction::Idle));
    app.handle_fetch_promise(Err("boom".to_string()));
    assert_eq!(app.error_message(), "boom");
    assert!(!app.is_loading());
    app.fetch_updates_async();
    app.handle_fetch_promise(Ok(vec![package("A", "a")]));
    assert_eq!(app.error_message(), "");
    assert_eq!(app.packages().len(), 1);
}

#[test]
fn add_to_queue_is_idempotent() {
    let mut app = PackageApp::default();
    app.add_to_update_queue("a".to_string());
    app.add_to_update_queue("b".to_string());
    app.add_to_update_queue("a".to_string());
    assert_eq!(app.queued_count(), 2);
    assert_eq!(app.package_row_state(&"a".to_string()), PackageRowState::Queued);
    assert_eq!(app.package_row_state(&"c".to_string()), PackageRowState::Available);
    app.remove_from_update_queue(&"a".to_string());
    assert_eq!(app.queued_count(), 1);
    assert_eq!(app.package_row_state(&"a".to_string()), PackageRowState::Available);
}

#[test]
fn batch_runs_queue_in_order() {
    let mut app = PackageApp::default();
    app.add_to_update_queue("a".to_string());
    app.add_to_update_queue("b".to_string());
    let a = app.start_batch_update();
    assert_eq!(update_of(&a).as_deref(), Some("a"));
    assert!(app.is_batch_updating());
    assert_eq!(app.package_row_state(&"a".to_string()), PackageRowState::Updating);
    assert!(app.has_pending_work());
    // processing while an update runs does nothing
    assert!(matches!(app.process_update_queue(), QueueAction::Idle));
    let a = app.handle_update_promise(Ok(vec![package("B", "b")]));
    assert_eq!(update_of(&a).as_deref(), Some("b"));
    assert_eq!(app.packages().len(), 1);
    let a = app.handle_update_promise(Err("failed".to_string()));
    assert!(matches!(a, QueueAction::Idle));
    assert!(!app.is_batch_updating());
    assert_eq!(app.error_message(), "failed");
    assert_eq!(app.queued_count(), 0);
}

#[test]
fn cancel_batch_empties_queue() {
    let mut app = PackageApp::default();
    app.add_to_update_queue("a".to_string());
    app.add_to_update_queue("b".to_string());
    app.start_batch_update();
    app.cancel_batch_update();
    assert_eq!(app.queued_count(), 0);
    assert!(!app.is_batch_updating());
    let a = app.handle_update_promise(Ok(vec![]));
    assert!(matches!(a, QueueAction::Idle));
}

#[test]
fn frame_edits_apply_in_order() {
    let mut app = PackageApp::default();
    let actions = app.apply_queue_edits(vec![
        ("a".to_string(), true),
        ("b".to_string(), true),
        ("a".to_string(), false),
        ("c".to_string(), true),
        (String::new(), false),
    ]);
    assert_eq!(actions.len(), 1);
    assert_eq!(update_of(&actions[0]).as_deref(), Some("b"));
    assert_eq!(app.queued_count(), 1);
    assert_eq!(app.package_row_state(&"c".to_string()), PackageRowState::Queued);
    let none = app.apply_queue_edits(vec![(String::new(), false)]);
    assert!(none.is_empty());
}

#[test]
fn update_single_ignored_while_updating() {
    let mut app = PackageApp::default();
    let a = app.update_single_async("x");
    assert_eq!(update_of(&a).as_deref(), Some("x"));
    assert!(matches!(app.update_single_async("y"), QueueAction::Idle));
}

#[test]
fn batch_button_ignored_while_batch_runs() {
    let mut app = PackageApp::default();
    app.add_to_update_queue("a".to_string());
    app.add_to_update_queue("b".to_string());
    let a = app.request_start_batch();
    assert_eq!(update_of(&a).as_deref(), Some("a"));
    assert!(matches!(app.request_start_batch(), QueueAction::Idle));
    assert_eq!(app.queued_count(), 1);
}

#[test]
fn frame_edits_leave_expected_membership() {
    let (mut app, _) = PackageApp::new();
    app.handle_fetch_promise(Ok(vec![package("A", "a")]));
    let actions = app.apply_queue_edits(vec![
        ("a".to_string(), true),
        ("b".to_string(), true),
        ("b".to_string(), false),
        ("c".to_string(), true),
        (String::new(), false),
        ("d".to_string(), true),
    ]);
    assert_eq!(actions.len(), 1);
    // "a" was ticked last and then taken off the queue to update
    assert_eq!(app.package_row_state(&"a".to_string()), PackageRowState::Updating);
    // "b" was unticked last
    assert_eq!(app.package_row_state(&"b".to_string()), PackageRowState::Available);
    assert_eq!(app.package_row_state(&"c".to_string()), PackageRowState::Queued);
    assert_eq!(app.package_row_state(&"d".to_string()), PackageRowState::Queued);
    // the listing is untouched
    assert_eq!(app.packages().len(), 1);
    assert_eq!(app.error_message(), "");
}
