use radio_tui::app::{Action, App, ImportPick, ListState, Mode};
use radio_tui::config::Station;
use radio_tui::input::{KeyCode, KeyEvent, KeyModifiers};
use radio_tui::metadata::{parse_stream_metadata, title_from_value, MetaEntry, MetaValue};

fn test_app(stations: Vec<Station>) -> App {
    let mut app = App {
        stations,
        selected: 0,
        status: String::new(),
        mode: Mode::Normal,
        list_state: ListState::default(),
        save_enabled: false,
        player_running: false,
        playing_url: None,
        playing_since: None,
        last_input: 0,
        last_metadata_at: None,
        track_title: None,
        icy_name: None,
        import: None,
        actions: Vec::new(),
    };
    app.sync_list_state();
    app
}

fn station(name: &str, url: &str) -> Station {
    Station {
        name: name.to_string(),
        url: url.to_string(),
        favorite: false,
    }
}

fn key(code: KeyCode) -> KeyEvent {
    KeyEvent::new(code, KeyModifiers::none())
}

fn text(value: &str) -> Option<String> {
    Some(value.to_string())
}

#[test]
fn wrapping_navigation_on_empty_list_is_safe() {
    let mut app = test_app(vec![]);
    app.select_delta(1);
    app.select_delta(-1);
    assert_eq!(app.selected, 0);
    assert!(app.list_state.selected().is_none());
}

#[test]
fn wrapping_navigation() {
    let mut app = test_app(vec![
        station("a", "https://a.example/x"),
        station("b", "https://b.example/x"),
    ]);
    app.select_delta(-1);
    assert_eq!(app.selected, 1);
    app.select_delta(1);
    assert_eq!(app.selected, 0);
}

#[test]
fn delete_last_station_adjusts_selection() {
    let mut app = test_app(vec![
        station("a", "https://a.example/x"),
        station("b", "https://b.example/x"),
    ]);
    app.selected = 1;
    app.delete_selected();
    assert_eq!(app.stations.len(), 1);
    assert_eq!(app.selected, 0);
    assert_eq!(app.stations[0].name, "a");
}

#[test]
fn edit_url_keeps_the_station_and_follows_playback() {
    let mut app = test_app(vec![
        station("a", "https://a.example/x"),
        station("b", "https://b.example/x"),
    ]);
    app.selected = 1;
    app.playing_url = Some("https://b.example/x".to_string());
    app.finish_edit_url(1, "https://b.example/fixed".to_string());
    assert_eq!(app.stations[1].url, "https://b.example/fixed");
    assert_eq!(app.stations[1].name, "b");
    assert_eq!(app.playing_index(), Some(1));
    assert_eq!(app.mode, Mode::Edit);

    app.finish_edit_url(1, "https://a.example/x".to_string());
    assert_eq!(app.stations[1].url, "https://b.example/fixed");
    assert!(matches!(app.mode, Mode::EditUrl { index: 1, .. }));
}

#[test]
fn url_editor_deletes_the_character_under_the_cursor() {
    let mut buffer = "https://example.com/x".to_string();
    let mut cursor = 4;
    let k = key(KeyCode::Delete);
    let mut app = test_app(vec![]);
    assert!(!app.handle_input_key(k, &mut buffer, &mut cursor));
    assert_eq!(buffer, "http://example.com/x");
    assert_eq!(cursor, 4);

    let k = key(KeyCode::Left);
    app.handle_input_key(k, &mut buffer, &mut cursor);
    let k = key(KeyCode::Backspace);
    app.handle_input_key(k, &mut buffer, &mut cursor);
    assert_eq!(buffer, "htp://example.com/x");
    assert_eq!(cursor, 2);
}

#[test]
fn reorder_swaps_neighbors() {
    let mut app = test_app(vec![
        station("a", "https://a.example/x"),
        station("b", "https://b.example/x"),
        station("c", "https://c.example/x"),
    ]);
    app.move_selected(1);
    assert_eq!(app.stations[0].name, "b");
    assert_eq!(app.stations[1].name, "a");
    assert_eq!(app.selected, 1);
}

#[test]
fn favorite_pops_to_top_and_unfavorite_lands_after_remaining_stars() {
    let mut app = test_app(vec![
        station("a", "https://a.example/x"),
        station("b", "https://b.example/x"),
        station("c", "https://c.example/x"),
    ]);
    app.playing_url = Some("https://c.example/x".to_string());
    app.selected = 2;
    app.sync_list_state();
    app.toggle_favorite();
    assert!(app.stations[0].favorite);
    assert_eq!(app.stations[0].name, "c");
    assert_eq!(app.selected, 0);
    assert_eq!(app.playing_index(), Some(0));

    app.selected = 2;
    app.sync_list_state();
    app.toggle_favorite();
    assert_eq!(app.stations[0].name, "b");
    assert!(app.stations[0].favorite);
    assert!(app.stations[1].favorite);
    assert_eq!(app.playing_index(), Some(1));

    app.selected = 0;
    app.sync_list_state();
    app.toggle_favorite();
    assert_eq!(
        app.stations
            .iter()
            .map(|s| s.name.as_str())
            .collect::<Vec<_>>(),
        vec!["c", "b", "a"]
    );
    assert!(!app.stations[1].favorite);
    assert!(app.stations[0].favorite);
    assert_eq!(app.selected, 1);
    assert_eq!(app.playing_index(), Some(0));
}

#[test]
fn apply_import_appends_only_chosen_new_stations() {
    let mut app = test_app(vec![station("a", "https://a.example/x")]);
    let mut list_state = ListState::default();
    list_state.select(Some(0));
    app.import = Some(ImportPick {
        source: "http://192.168.1.10/stations.json".into(),
        stations: vec![
            station("a", "https://a.example/x"),
            station("b", "https://b.example/x"),
            station("c", "https://c.example/x"),
        ],
        chosen: vec![true, true, false],
        already: vec![true, false, false],
        list_state,
    });
    app.apply_import();
    assert_eq!(app.stations.len(), 2);
    assert_eq!(app.stations[1].name, "b");
    assert!(app.import.is_none());
    assert_eq!(app.mode, Mode::Edit);
}

#[test]
fn icy_metadata_parses_title_and_name() {
    let data = MetaValue::Object(vec![
        MetaEntry { key: "icy-br".to_string(), text: text("256") },
        MetaEntry { key: "icy-name".to_string(), text: text("Groove Salad: chilled [SomaFM]") },
        MetaEntry { key: "icy-title".to_string(), text: text("Beat.dowsing - Renegades") },
    ]);
    let (title, name) = parse_stream_metadata(&data);
    assert_eq!(title.as_deref(), Some("Beat.dowsing - Renegades"));
    assert_eq!(name.as_deref(), Some("Groove Salad: chilled [SomaFM]"));
}

#[test]
fn media_title_ignores_urls() {
    assert!(title_from_value(&MetaValue::Text("https://example.com/x".to_string())).is_none());
    assert_eq!(
        title_from_value(&MetaValue::Text("Artist - Song".to_string())).as_deref(),
        Some("Artist - Song")
    );
}

#[test]
fn now_playing_esc_returns_to_list() {
    let mut app = test_app(vec![station("a", "https://a.example/x")]);
    app.mode = Mode::NowPlaying;
    let k = key(KeyCode::Esc);
    assert!(!app.handle_key(k, 0));
    assert_eq!(app.mode, Mode::Normal);
}

#[test]
fn now_playing_any_key_returns_to_list() {
    let mut app = test_app(vec![station("a", "https://a.example/x")]);
    app.mode = Mode::NowPlaying;
    let k = key(KeyCode::Char('q'));
    assert!(!app.handle_key(k, 0));
    assert_eq!(app.mode, Mode::Normal);

    app.mode = Mode::NowPlaying;
    let k = key(KeyCode::Char('+'));
    assert!(!app.handle_key(k, 0));
    assert_eq!(app.mode, Mode::Normal);
}

#[test]
fn idle_timer_requires_a_minute_of_playback_and_no_input() {
    let mut app = test_app(vec![station("a", "https://a.example/x")]);
    let now: u64 = 1_000_000;
    app.playing_since = Some(now - 90_000);
    app.last_input = now - 10_000;
    assert!(!app.ready_for_now_playing(now));
    app.last_input = now - 90_000;
    assert!(app.ready_for_now_playing(now));
    app.mode = Mode::Edit;
    assert!(!app.ready_for_now_playing(now));
}

#[test]
fn play_queues_stop_then_start_and_started_sets_status() {
    let mut app = test_app(vec![station("a", "https://a.example/x")]);
    app.play_selected();
    let actions = app.take_actions();
    assert_eq!(
        actions,
        vec![
            Action::StopPlayer,
            Action::StartPlayer { name: "a".to_string(), url: "https://a.example/x".to_string() }
        ]
    );
    app.player_started("a", "https://a.example/x".to_string(), 5);
    assert!(app.is_playing());
    assert_eq!(app.status, "Playing: a");
    assert_eq!(app.playing_station_name(), "a");
}
