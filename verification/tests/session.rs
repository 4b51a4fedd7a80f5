use osm_downloader::app::{
    preview_query, ActiveTab, App, Directive, FocusField, KeyAction, KeyCode, KeyPress,
};
use osm_downloader::network::{DownloadEvent, DownloadFormat};

fn key(code: KeyCode, ctrl: bool) -> KeyPress {
    KeyPress { code, ctrl }
}

#[test]
fn test_new_session_defaults() {
    let app = App::new();
    assert_eq!(app.focus_field, FocusField::Continent);
    assert!(matches!(app.download_format, DownloadFormat::Pbf));
    assert_eq!(app.download_progress, 0);
    assert!(!app.is_downloading);
    assert!(app.last_downloaded_path.is_none());
    assert_eq!(app.download_status_text, "Ready");
    assert_eq!(app.active_tab, ActiveTab::Download);
    assert_eq!(app.sql_input, "");
    assert_eq!(app.sql_output, "Ready to query.");
    assert!(app.logs.is_empty());
    assert!(!app.should_quit);
}

#[test]
fn test_focus_cycles() {
    let mut app = App::new();
    app.next_focus();
    assert_eq!(app.focus_field, FocusField::Country);
    app.next_focus();
    assert_eq!(app.focus_field, FocusField::Region);
    app.next_focus();
    assert_eq!(app.focus_field, FocusField::Format);
    app.next_focus();
    assert_eq!(app.focus_field, FocusField::Continent);
}

#[test]
fn test_format_toggles() {
    let mut app = App::new();
    app.toggle_format();
    assert!(matches!(app.download_format, DownloadFormat::Shapefile));
    app.toggle_format();
    assert!(matches!(app.download_format, DownloadFormat::Pbf));
}

#[test]
fn test_log_ring_evicts_oldest_past_cap() {
    let mut app = App::new();
    for i in 0..101 {
        app.add_log(format!("m{}", i));
    }
    assert_eq!(app.logs.len(), 100);
    assert_eq!(app.logs[0], "m1");
    assert_eq!(app.logs[99], "m100");
}

#[test]
fn test_start_download_resolves_and_marks_in_progress() {
    let mut app = App::new();
    let url = app.start_download("Asia", "Indonesia", "Kalimantan");
    assert_eq!(
        url.as_deref(),
        Some("https://download.geofabrik.de/asia/indonesia/kalimantan-latest.osm.pbf")
    );
    assert!(app.is_downloading);
    assert_eq!(app.download_progress, 0);
    assert_eq!(app.download_status_text, "Starting...");
    assert_eq!(app.logs.len(), 2);
    assert_eq!(app.logs[0], "Requesting: Asia/Indonesia/Kalimantan");
    assert_eq!(
        app.logs[1],
        "URL: https://download.geofabrik.de/asia/indonesia/kalimantan-latest.osm.pbf"
    );
}

#[test]
fn test_second_start_is_noop_while_in_progress() {
    let mut app = App::new();
    let first = app.start_download("Asia", "Indonesia", "Kalimantan");
    assert!(first.is_some());
    let logs_before = app.logs.clone();
    let status_before = app.download_status_text.clone();
    let second = app.start_download("Europe", "Germany", "");
    assert!(second.is_none());
    assert!(app.is_downloading);
    assert_eq!(app.logs, logs_before);
    assert_eq!(app.download_status_text, status_before);
}

#[test]
fn test_start_download_requires_continent() {
    let mut app = App::new();
    let url = app.start_download("", "Germany", "");
    assert!(url.is_none());
    assert!(!app.is_downloading);
    assert_eq!(app.logs.len(), 1);
    assert_eq!(app.logs[0], "Error: Continent is required");
}

#[test]
fn test_progress_event_updates_gauge_only() {
    let mut app = App::new();
    app.start_download("Africa", "", "");
    let d = app.on_event(DownloadEvent::Progress(42));
    assert!(matches!(d, Directive::DoNothing));
    assert_eq!(app.download_progress, 42);
    assert_eq!(app.download_status_text, "Downloading...");
    assert!(app.is_downloading);
}

#[test]
fn test_progress_event_is_capped() {
    let mut app = App::new();
    let d = app.on_event(DownloadEvent::Progress(250));
    assert!(matches!(d, Directive::DoNothing));
    assert_eq!(app.download_progress, 100);
}

#[test]
fn test_complete_event_records_path_and_delegates_import() {
    let mut app = App::new();
    app.start_download("Asia", "Indonesia", "Kalimantan");
    let d = app.on_event(DownloadEvent::Complete(String::from(
        "/data/downloads/kalimantan-latest.osm.pbf",
    )));
    match d {
        Directive::SpawnImport(p) => assert_eq!(p, "/data/downloads/kalimantan-latest.osm.pbf"),
        other => panic!("expected SpawnImport, got {:?}", other),
    }
    assert_eq!(app.download_progress, 100);
    assert_eq!(app.download_status_text, "Saved to \"kalimantan-latest.osm.pbf\"");
    assert_eq!(
        app.last_downloaded_path.as_deref(),
        Some("/data/downloads/kalimantan-latest.osm.pbf")
    );
    assert_eq!(
        app.logs.last().map(String::as_str),
        Some("Download complete: \"/data/downloads/kalimantan-latest.osm.pbf\"")
    );
    // The cycle is still in flight until the import settles.
    assert!(app.is_downloading);
}

#[test]
fn test_second_start_is_noop_while_importing() {
    let mut app = App::new();
    app.start_download("Asia", "Indonesia", "Kalimantan");
    app.on_event(DownloadEvent::Complete(String::from("/d/kalimantan-latest.osm.pbf")));
    assert!(app.is_downloading);
    let second = app.start_download("Europe", "Germany", "");
    assert!(second.is_none());
    // Only once the import settles can a new cycle start.
    app.on_event(DownloadEvent::ImportFinished(String::from("Import successful.")));
    assert!(!app.is_downloading);
    let third = app.start_download("Europe", "Germany", "");
    assert!(third.is_some());
}

#[test]
fn test_import_started_event_logs() {
    let mut app = App::new();
    let d = app.on_event(DownloadEvent::ImportStarted);
    assert!(matches!(d, Directive::DoNothing));
    assert_eq!(app.logs.last().map(String::as_str), Some("Starting auto-import to DuckDB..."));
}

#[test]
fn test_import_finished_event_seeds_preview() {
    let mut app = App::new();
    app.start_download("Africa", "", "");
    let d = app.on_event(DownloadEvent::ImportFinished(String::from("Import successful.")));
    match d {
        Directive::RunPreview(q) => assert_eq!(q, "SELECT * FROM imported_data LIMIT 10;"),
        other => panic!("expected RunPreview, got {:?}", other),
    }
    assert!(!app.is_downloading);
    assert_eq!(app.sql_input, preview_query());
    assert_eq!(app.logs[app.logs.len() - 2], "Import successful.");
    assert_eq!(app.logs.last().map(String::as_str), Some("Auto-executing preview query..."));
}

#[test]
fn test_import_failed_event_settles_cycle() {
    let mut app = App::new();
    app.start_download("Africa", "", "");
    let d = app.on_event(DownloadEvent::ImportFailed(String::from("no spatial extension")));
    assert!(matches!(d, Directive::DoNothing));
    assert!(!app.is_downloading);
    assert_eq!(app.logs.last().map(String::as_str), Some("Import failed: no spatial extension"));
}

#[test]
fn test_error_event_settles_cycle() {
    let mut app = App::new();
    app.start_download("Africa", "", "");
    let d = app.on_event(DownloadEvent::Error(String::from("Failed after 3 retries: e3")));
    assert!(matches!(d, Directive::DoNothing));
    assert!(!app.is_downloading);
    assert_eq!(app.download_status_text, "Error: Failed after 3 retries: e3");
    assert_eq!(
        app.logs.last().map(String::as_str),
        Some("Download error: Failed after 3 retries: e3")
    );
}

#[test]
fn test_busy_store_skips_preview_without_waiting() {
    let mut app = App::new();
    let output_before = app.sql_output.clone();
    app.apply_preview_result(None);
    assert_eq!(app.sql_output, output_before);
    assert_eq!(app.logs.last().map(String::as_str), Some("DB busy, skip preview."));
}

#[test]
fn test_preview_outcomes() {
    let mut app = App::new();
    app.apply_preview_result(Some(Ok(String::from("id | name"))));
    assert_eq!(app.sql_output, "id | name");
    app.apply_preview_result(Some(Err(String::from("no such table"))));
    assert_eq!(app.sql_output, "Error executing preview: no such table");
}

#[test]
fn test_busy_store_reports_in_query_output() {
    let mut app = App::new();
    app.apply_query_result("SELECT 1;", None);
    assert_eq!(app.sql_output, "DB busy, cannot execute query.");
    assert_eq!(app.logs.last().map(String::as_str), Some("Executing: SELECT 1;"));
}

#[test]
fn test_query_outcomes() {
    let mut app = App::new();
    app.apply_query_result("SELECT 1;", Some(Ok(String::from("1"))));
    assert_eq!(app.sql_output, "1");
    app.apply_query_result("SELEC;", Some(Err(String::from("syntax error"))));
    assert_eq!(app.sql_output, "Error: syntax error");
}

#[test]
fn test_keys_global() {
    let mut app = App::new();
    assert_eq!(app.on_key(key(KeyCode::Char('q'), true)), KeyAction::Quit);
    assert_eq!(app.active_tab, ActiveTab::Download);
    assert_eq!(app.on_key(key(KeyCode::Char('b'), true)), KeyAction::EditSql);
    assert_eq!(app.active_tab, ActiveTab::Database);
    assert_eq!(app.on_key(key(KeyCode::Char('b'), true)), KeyAction::EditField(FocusField::Continent));
    assert_eq!(app.active_tab, ActiveTab::Download);
}

#[test]
fn test_keys_download_view() {
    let mut app = App::new();
    assert_eq!(app.on_key(key(KeyCode::Tab, false)), KeyAction::Handled);
    assert_eq!(app.focus_field, FocusField::Country);
    assert_eq!(app.on_key(key(KeyCode::Enter, false)), KeyAction::StartDownload);
    assert_eq!(
        app.on_key(key(KeyCode::Char('x'), false)),
        KeyAction::EditField(FocusField::Country)
    );
    // 'q' inside a text field edits, it does not quit.
    assert_eq!(
        app.on_key(key(KeyCode::Char('q'), false)),
        KeyAction::EditField(FocusField::Country)
    );
    app.next_focus();
    app.next_focus();
    assert_eq!(app.focus_field, FocusField::Format);
    assert_eq!(app.on_key(key(KeyCode::Char(' '), false)), KeyAction::Handled);
    assert!(matches!(app.download_format, DownloadFormat::Shapefile));
    assert_eq!(app.on_key(key(KeyCode::Char('q'), false)), KeyAction::Quit);
}

#[test]
fn test_keys_database_view() {
    let mut app = App::new();
    app.on_key(key(KeyCode::Char('b'), true));
    assert_eq!(app.active_tab, ActiveTab::Database);
    assert_eq!(app.on_key(key(KeyCode::Enter, true)), KeyAction::ExecuteQuery);
    assert_eq!(app.on_key(key(KeyCode::Char('e'), true)), KeyAction::ExecuteQuery);
    assert_eq!(app.on_key(key(KeyCode::Function(5), false)), KeyAction::ExecuteQuery);
    assert_eq!(app.on_key(key(KeyCode::Enter, false)), KeyAction::EditSql);
    assert_eq!(app.on_key(key(KeyCode::Char('s'), false)), KeyAction::EditSql);
}

#[test]
fn test_on_tick_changes_nothing() {
    let mut app = App::new();
    app.start_download("Africa", "", "");
    let logs = app.logs.clone();
    app.on_tick();
    assert!(app.is_downloading);
    assert_eq!(app.logs, logs);
}
