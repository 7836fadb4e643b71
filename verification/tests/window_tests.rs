use winget_interfacer::gui::{AppAction, CancelRequest, PackageApp};
use winget_interfacer::winget_manager::{InstallResult, Package, WingetError};

fn package(name: &str, id: &str) -> Package {
    Package {
        name: name.to_string(),
        id: id.to_string(),
        version: "1.0".to_string(),
        available_version: "2.0".to_string(),
    }
}

fn report(id: &str, reboot: bool) -> InstallResult {
    InstallResult {
        id: id.to_string(),
        name: id.to_string(),
        source: "winget".to_string(),
        status: "Ok".to_string(),
        reboot_required: reboot,
        installer_error_code: 0,
    }
}

fn started_install(a: &AppAction) -> Option<String> {
    match a {
        AppAction::StartInstall { package_id, .. } => Some(package_id.clone()),
        _ => None,
    }
}

/// A window whose first listing has come back with `packages`.
fn loaded(packages: Vec<Package>) -> PackageApp {
    let (mut app, action) = PackageApp::new();
    assert!(matches!(action, AppAction::StartFetch));
    app.handle_fetch_result(Ok(packages));
    app
}

#[test]
fn new_window_starts_a_listing() {
    let (app, action) = PackageApp::new();
    assert!(matches!(action, AppAction::StartFetch));
    assert!(app.is_loading());
}

#[test]
fn only_one_listing_at_a_time() {
    let (mut app, _) = PackageApp::new();
    assert!(matches!(app.fetch_updates_async(), AppAction::Idle));
    assert!(matches!(app.request_refresh(), AppAction::Idle));
    app.handle_fetch_result(Ok(vec![]));
    assert!(!app.is_loading());
    assert!(matches!(app.request_refresh(), AppAction::StartFetch));
}

#[test]
fn failed_listing_shows_error_and_clears_list() {
    let mut app = loaded(vec![package("Git", "Git.Git")]);
    assert_eq!(app.packages().len(), 1);
    app.fetch_updates_async();
    app.handle_fetch_result(Err(WingetError::NoUpdatesAvailable));
    assert!(app.packages().is_empty());
    assert!(matches!(app.error(), Some(WingetError::NoUpdatesAvailable)));
    app.dismiss_error();
    assert!(app.error().is_none());
}

#[test]
fn single_install_then_refresh() {
    let mut app = loaded(vec![package("Git", "Git.Git"), package("Firefox", "Mozilla.Firefox")]);
    let a = app.request_update("Git.Git");
    assert_eq!(started_install(&a).as_deref(), Some("Git.Git"));
    assert!(app.is_updating(&"Git.Git".to_string()));
    // a second request while installing is ignored
    assert!(matches!(app.request_update("Mozilla.Firefox"), AppAction::Idle));
    assert!(matches!(app.update_single_async("Mozilla.Firefox"), AppAction::Idle));
    let a = app.handle_install_result(Ok(report("Git.Git", false)));
    assert!(matches!(a, AppAction::StartFetch));
    assert!(!app.is_updating(&"Git.Git".to_string()));
    assert_eq!(app.install_result().as_ref().unwrap().id, "Git.Git");
    assert!(!app.reboot_required());
}

#[test]
fn failed_install_shows_error_without_refresh() {
    let mut app = loaded(vec![package("Git", "Git.Git")]);
    app.request_update("Git.Git");
    let a = app.handle_install_result(Err(WingetError::Cancelled));
    assert!(matches!(a, AppAction::Idle));
    assert!(matches!(app.error(), Some(WingetError::Cancelled)));
    assert!(app.install_result().is_none());
    assert!(matches!(app.request_update("Git.Git"), AppAction::StartInstall { .. }));
}

#[test]
fn reboot_notice_sticks_until_dismissed() {
    let mut app = loaded(vec![package("Git", "Git.Git"), package("Vim", "vim.vim")]);
    app.request_update("Git.Git");
    app.handle_install_result(Ok(report("Git.Git", true)));
    assert!(app.reboot_required());
    app.handle_fetch_result(Ok(vec![package("Vim", "vim.vim")]));
    app.request_update("vim.vim");
    app.handle_install_result(Ok(report("vim.vim", false)));
    assert!(app.reboot_required());
    app.dismiss_reboot_notice();
    assert!(!app.reboot_required());
}

#[test]
fn cancel_escalates_to_force() {
    let mut app = loaded(vec![package("Git", "Git.Git")]);
    assert_eq!(app.press_cancel(), CancelRequest::NoInstall);
    let token = match app.request_update("Git.Git") {
        AppAction::StartInstall { token, .. } => token,
        _ => panic!("install expected"),
    };
    assert_eq!(app.press_cancel(), CancelRequest::Cancel);
    assert!(token.is_cancelled());
    assert!(!token.is_force_cancelled());
    assert!(app.cancel_clicked());
    assert_eq!(app.press_cancel(), CancelRequest::ForceCancel);
    assert!(token.is_force_cancelled());
    app.handle_install_result(Err(WingetError::Cancelled));
    assert!(!app.cancel_clicked());
}

#[test]
fn update_all_button_conditions() {
    let (mut app, _) = PackageApp::new();
    assert!(!app.update_all_enabled()); // loading, no packages
    app.handle_fetch_result(Ok(vec![]));
    assert!(!app.update_all_enabled()); // no packages
    assert!(matches!(app.request_update_all(), AppAction::Idle));
    app.fetch_updates_async();
    app.handle_fetch_result(Ok(vec![package("Git", "Git.Git")]));
    assert!(app.update_all_enabled());
    app.request_update("Git.Git");
    assert!(!app.update_all_enabled()); // a package is updating
}

#[test]
fn update_all_installs_every_package_in_order() {
    let mut app = loaded(vec![
        package("A", "a.a"),
        package("B", "b.b"),
        package("C", "c.c"),
    ]);
    let a = app.request_update_all();
    assert_eq!(started_install(&a).as_deref(), Some("a.a"));
    assert!(app.updating_all());
    assert!(!app.update_all_enabled());
    // individual update buttons are inactive while "update all" runs
    assert!(matches!(app.request_update("c.c"), AppAction::Idle));
    let a = app.handle_install_result(Ok(report("a.a", false)));
    assert_eq!(started_install(&a).as_deref(), Some("b.b"));
    assert!(app.is_updating(&"b.b".to_string()));
    // a failed install does not stop the batch
    let a = app.handle_install_result(Err(WingetError::Cancelled));
    assert_eq!(started_install(&a).as_deref(), Some("c.c"));
    assert!(app.updating_all());
    // after the last one the list is refreshed and the batch is over
    let a = app.handle_install_result(Ok(report("c.c", false)));
    assert!(matches!(a, AppAction::StartFetch));
    assert!(!app.updating_all());
}

#[test]
fn update_all_next_install_is_cancellable() {
    let mut app = loaded(vec![package("A", "a.a"), package("B", "b.b")]);
    app.start_update_all();
    let token = match app.handle_install_result(Ok(report("a.a", false))) {
        AppAction::StartInstall { token, .. } => token,
        _ => panic!("install expected"),
    };
    assert_eq!(app.press_cancel(), CancelRequest::Cancel);
    assert!(token.is_cancelled());
}

#[test]
fn update_all_with_single_package_ends_with_refresh() {
    let mut app = loaded(vec![package("A", "a.a")]);
    let a = app.start_update_all();
    assert_eq!(started_install(&a).as_deref(), Some("a.a"));
    let a = app.handle_install_result(Ok(report("a.a", false)));
    assert!(matches!(a, AppAction::StartFetch));
    assert!(!app.updating_all());
}

#[test]
fn update_all_error_on_last_package_ends_without_refresh() {
    let mut app = loaded(vec![package("A", "a.a")]);
    app.start_update_all();
    let a = app.handle_install_result(Err(WingetError::PowerShellNotFound));
    assert!(matches!(a, AppAction::Idle));
    assert!(!app.updating_all());
}

#[test]
fn search_filters_case_insensitively() {
    let mut app = loaded(vec![
        package("Mozilla Firefox", "Mozilla.Firefox"),
        package("Git", "Git.Git"),
        package("Notepad++", "Notepad++.Notepad++"),
    ]);
    assert_eq!(app.get_filtered_packages().len(), 3);
    app.set_search_filter("FIRE".to_string());
    let shown = app.get_filtered_packages();
    assert_eq!(shown.len(), 1);
    assert_eq!(shown[0].id, "Mozilla.Firefox");
    app.set_search_filter("git.".to_string());
    let shown: Vec<String> = app.get_filtered_packages().iter().map(|p| p.name.clone()).collect();
    assert_eq!(shown, vec!["Git".to_string()]);
    app.set_search_filter("o".to_string());
    let shown: Vec<String> = app.get_filtered_packages().iter().map(|p| p.name.clone()).collect();
    assert_eq!(shown, vec!["Mozilla Firefox".to_string(), "Notepad++".to_string()]);
    app.set_search_filter("zzz".to_string());
    assert!(app.get_filtered_packages().is_empty());
    assert_eq!(app.search_filter(), "zzz");
}

#[test]
fn default_window_is_idle() {
    let app = PackageApp::default();
    assert!(!app.is_loading());
    assert!(app.packages().is_empty());
    assert!(!app.updating_all());
    assert!(app.error().is_none());
}

#[test]
fn narrower_search_shows_less() {
    let mut app = loaded(vec![
        package("Mozilla Firefox", "Mozilla.Firefox"),
        package("Firefox Nightly", "Mozilla.Nightly"),
        package("Git", "Git.Git"),
    ]);
    app.set_search_filter("fire".to_string());
    let wide: Vec<String> = app.get_filtered_packages().iter().map(|p| p.id.clone()).collect();
    app.set_search_filter("FIREFOX N".to_string());
    let narrow: Vec<String> = app.get_filtered_packages().iter().map(|p| p.id.clone()).collect();
    assert_eq!(wide.len(), 2);
    assert_eq!(narrow, vec!["Mozilla.Nightly".to_string()]);
    assert!(narrow.iter().all(|id| wide.contains(id)));
    app.set_search_filter("FIRE".to_string());
    let same: Vec<String> = app.get_filtered_packages().iter().map(|p| p.id.clone()).collect();
    assert_eq!(same, wide);
}
