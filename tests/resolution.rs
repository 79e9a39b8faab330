use audials_playlist_exporter::catalog::{lookup_entry, resolve_entries, select_row, AudioEntry, CatalogRow, IdLookup, RowFetch};
use audials_playlist_exporter::diagnostic::Diagnostic;
use audials_playlist_exporter::json::JsonValue;
use audials_playlist_exporter::membership::resolve_members;
use audials_playlist_exporter::registry::build_registry;

fn row(title: &str, path: &str) -> CatalogRow {
    CatalogRow { title: title.to_string(), artist: "Artist".to_string(), stored_path: path.to_string() }
}

fn entry(title: &str, path: &str) -> AudioEntry {
    AudioEntry { title: title.to_string(), artist: "Artist".to_string(), path: path.to_string() }
}

#[test]
fn second_row_accepted_when_first_fails() {
    let rows = vec![
        RowFetch::Read { row: row("One", "C:\\a\\x.mp3"), reconciled: None },
        RowFetch::Read { row: row("Two", "C:\\b\\x.mp3"), reconciled: Some("/lib/x.mp3".to_string()) },
    ];
    let (accepted, log) = select_row(5, &rows);
    assert_eq!(accepted, Some(entry("Two", "/lib/x.mp3")));
    assert_eq!(
        log,
        vec![Diagnostic::RowUnreconciled { id: 5, index: 0, title: "One".to_string(), stored_path: "C:\\a\\x.mp3".to_string() }]
    );
}

#[test]
fn first_row_accepted_second_is_extra() {
    let rows = vec![
        RowFetch::Read { row: row("One", "C:\\a\\x.mp3"), reconciled: Some("/lib/a/x.mp3".to_string()) },
        RowFetch::Read { row: row("Two", "C:\\b\\x.mp3"), reconciled: Some("/lib/b/x.mp3".to_string()) },
    ];
    let (accepted, log) = select_row(5, &rows);
    assert_eq!(accepted, Some(entry("One", "/lib/a/x.mp3")));
    assert_eq!(
        log,
        vec![Diagnostic::ExtraRow {
            id: 5,
            index: 1,
            title: "Two".to_string(),
            path: "/lib/b/x.mp3".to_string(),
            accepted_path: "/lib/a/x.mp3".to_string(),
        }]
    );
}

#[test]
fn extra_rows_of_every_kind() {
    let rows = vec![
        RowFetch::Unreadable,
        RowFetch::Read { row: row("One", "p1"), reconciled: Some("/l/1".to_string()) },
        RowFetch::Unreadable,
        RowFetch::Read { row: row("Three", "p3"), reconciled: None },
    ];
    let (accepted, log) = select_row(9, &rows);
    assert_eq!(accepted, Some(entry("One", "/l/1")));
    assert_eq!(
        log,
        vec![
            Diagnostic::RowUnreadable { id: 9, index: 0 },
            Diagnostic::ExtraRowUnreadable { id: 9, index: 2 },
            Diagnostic::ExtraRowUnreconciled { id: 9, index: 3, title: "Three".to_string(), stored_path: "p3".to_string() },
        ]
    );
}

#[test]
fn no_row_reconciles() {
    let rows = vec![RowFetch::Read { row: row("One", "p1"), reconciled: None }];
    let (accepted, log) = select_row(1, &rows);
    assert_eq!(accepted, None);
    assert_eq!(log.len(), 1);
}

#[test]
fn missing_and_failed_lookups() {
    assert_eq!(lookup_entry(42, &IdLookup::Rows(vec![])), (None, vec![Diagnostic::NotInCatalog { id: 42 }]));
    assert_eq!(lookup_entry(43, &IdLookup::QueryFailed), (None, vec![Diagnostic::QueryFailed { id: 43 }]));
}

#[test]
fn resolve_entries_keeps_order() {
    let ids = vec![1, 2, 3];
    let lookups = vec![
        IdLookup::Rows(vec![RowFetch::Read { row: row("A", "a"), reconciled: Some("/l/a".to_string()) }]),
        IdLookup::QueryFailed,
        IdLookup::Rows(vec![RowFetch::Read { row: row("C", "c"), reconciled: Some("/l/c".to_string()) }]),
    ];
    let (entries, log) = resolve_entries(&ids, &lookups);
    assert_eq!(entries, vec![entry("A", "/l/a"), entry("C", "/l/c")]);
    assert_eq!(log, vec![Diagnostic::QueryFailed { id: 2 }]);
}

fn membership_items() -> Vec<JsonValue> {
    let obj = |payload: &str| JsonValue::Object(vec![("payload".to_string(), JsonValue::Str(payload.to_string()))]);
    vec![
        obj("{\"PlaylistId\":\"p1\",\"LocalId\":42}"),
        obj("{\"PlaylistId\":\"p2\",\"LocalId\":99}"),
    ]
}

fn playlist_items() -> Vec<JsonValue> {
    vec![JsonValue::Object(vec![
        ("id".to_string(), JsonValue::Str("p1".to_string())),
        ("payload".to_string(), JsonValue::Str("{\"Name\":\"Road Trip\"}".to_string())),
    ])]
}

#[test]
fn end_to_end_resolves_one_entry() {
    let (playlists, plog) = build_registry(&playlist_items());
    assert!(plog.is_empty());
    let chosen = playlists.iter().find(|p| p.name == "Road Trip").unwrap();
    let (ids, mlog) = resolve_members(&chosen.id, &membership_items());
    assert_eq!(ids, vec![42]);
    let lookups = vec![IdLookup::Rows(vec![RowFetch::Read {
        row: row("Song", "C:\\Music\\MyLib\\Artist\\Song.mp3"),
        reconciled: Some("/home/user/MyLib/Artist/Song.mp3".to_string()),
    }])];
    let (entries, clog) = resolve_entries(&ids, &lookups);
    assert_eq!(entries, vec![entry("Song", "/home/user/MyLib/Artist/Song.mp3")]);
    assert!(mlog.is_empty());
    assert!(clog.is_empty());
}

#[test]
fn end_to_end_missing_catalog_row() {
    let (ids, mlog) = resolve_members("p1", &membership_items());
    let (entries, clog) = resolve_entries(&ids, &vec![IdLookup::Rows(vec![])]);
    assert!(entries.is_empty());
    assert!(mlog.is_empty());
    assert_eq!(clog, vec![Diagnostic::NotInCatalog { id: 42 }]);
}
