use radio_tui::app::{Action, App, ImportPick, ListState, Mode};
use radio_tui::config::{
    finish_remote_stations, selected_new_stations, valid_stream_url, LoadError, Station,
};
use radio_tui::input::{byte_index, edit_field, insert_at_cursor, KeyCode, KeyEvent, KeyModifiers};
use radio_tui::metadata::{MetaEntry, MetaValue};
use radio_tui::text::{decimal, trim};

fn station(name: &str, url: &str) -> Station {
    Station {
        name: name.to_string(),
        url: url.to_string(),
        favorite: false,
    }
}

fn app_with(stations: Vec<Station>) -> App {
    let mut app = App::new(Ok(stations), 0);
    app.save_enabled = false;
    app.take_actions();
    app
}

fn key(code: KeyCode) -> KeyEvent {
    KeyEvent::new(code, KeyModifiers::none())
}

fn ch(c: char) -> KeyEvent {
    key(KeyCode::Char(c))
}

fn three() -> App {
    app_with(vec![
        station("a", "https://a.example/x"),
        station("b", "https://b.example/x"),
        station("c", "https://c.example/x"),
    ])
}

#[test]
fn startup_from_missing_file_uses_defaults_and_saves() {
    let mut app = App::new(Err(LoadError::NotFound), 7);
    assert_eq!(app.stations.len(), 2);
    assert_eq!(app.status, "Created default station list");
    assert_eq!(app.last_input, 7);
    assert_eq!(app.take_actions(), vec![Action::Save]);
}

#[test]
fn startup_from_bad_file_leaves_it_untouched() {
    let mut app = App::new(Err(LoadError::Invalid("oops".to_string())), 0);
    assert_eq!(app.stations[0].name, "BBC World Service");
    assert_eq!(
        app.status,
        "invalid config: oops — using defaults, original file left untouched"
    );
    assert!(app.take_actions().is_empty());
    let app = App::new(Ok(vec![]), 0);
    assert_eq!(app.status, "No stations saved. Press a to add one.");
    assert!(app.list_state.selected().is_none());
}

#[test]
fn down_then_up_returns_to_the_same_station() {
    let mut app = three();
    app.selected = 2;
    app.sync_list_state();
    app.select_delta(1);
    assert_eq!(app.selected, 0);
    assert_eq!(app.status, "Selected: a");
    app.select_delta(-1);
    assert_eq!(app.selected, 2);
    app.select_delta(-7);
    assert_eq!(app.selected, 1);
}

#[test]
fn moving_down_then_up_restores_the_order() {
    let mut app = three();
    app.selected = 2;
    app.move_selected(1);
    assert_eq!(app.selected, 0);
    assert_eq!(app.stations[0].name, "c");
    assert_eq!(app.stations[2].name, "a");
    app.move_selected(-1);
    let names: Vec<&str> = app.stations.iter().map(|s| s.name.as_str()).collect();
    assert_eq!(names, vec!["a", "b", "c"]);
    assert_eq!(app.selected, 2);
    assert_eq!(app.status, "Reordered stations");
}

#[test]
fn typing_then_backspace_restores_the_text() {
    let mut buffer = "héllo".to_string();
    let mut cursor = 2;
    assert!(!edit_field(ch('X'), &mut buffer, &mut cursor));
    assert_eq!(buffer, "héXllo");
    assert_eq!(cursor, 3);
    edit_field(key(KeyCode::Backspace), &mut buffer, &mut cursor);
    assert_eq!(buffer, "héllo");
    assert_eq!(cursor, 2);
}

#[test]
fn field_keys_move_the_cursor() {
    let mut buffer = "abc".to_string();
    let mut cursor = 9;
    edit_field(key(KeyCode::Right), &mut buffer, &mut cursor);
    assert_eq!(cursor, 3);
    edit_field(key(KeyCode::Home), &mut buffer, &mut cursor);
    assert_eq!(cursor, 3, "Home without Control does nothing");
    edit_field(KeyEvent::new(KeyCode::Home, KeyModifiers::control()), &mut buffer, &mut cursor);
    assert_eq!(cursor, 0);
    edit_field(KeyEvent::new(KeyCode::Char('e'), KeyModifiers::control()), &mut buffer, &mut cursor);
    assert_eq!(cursor, 3);
    edit_field(KeyEvent::new(KeyCode::Char('b'), KeyModifiers::control()), &mut buffer, &mut cursor);
    assert_eq!(cursor, 2);
    edit_field(KeyEvent::new(KeyCode::Char('z'), KeyModifiers::alt()), &mut buffer, &mut cursor);
    assert_eq!(buffer, "abc");
    assert!(edit_field(key(KeyCode::Enter), &mut buffer, &mut cursor));
}

#[test]
fn byte_index_and_insert_at_cursor() {
    assert_eq!(byte_index("héllo", 2), 3);
    assert_eq!(byte_index("héllo", 99), 6);
    let mut buffer = "ab".to_string();
    let mut cursor = 7;
    insert_at_cursor(&mut buffer, &mut cursor, "é!");
    assert_eq!(buffer, "abé!");
    assert_eq!(cursor, 9);
}

#[test]
fn importing_twice_adds_nothing() {
    let local = vec![station("a", "https://a.example/x")];
    let remote = vec![
        station("a", "https://a.example/x"),
        station("b", "https://b.example/x"),
        station("c", "https://c.example/x"),
    ];
    let chosen = vec![true, true, true];
    let added = selected_new_stations(&local, &remote, &chosen);
    assert_eq!(added.len(), 2);
    let mut both = local.clone();
    both.extend(added);
    assert!(selected_new_stations(&both, &remote, &chosen).is_empty());
}

#[test]
fn favorites_stay_ahead_of_other_stations() {
    let mut app = three();
    for index in [1usize, 2, 0, 1] {
        app.selected = index;
        app.sync_list_state();
        app.toggle_favorite();
        let flags: Vec<bool> = app.stations.iter().map(|s| s.favorite).collect();
        let first_plain = flags.iter().position(|f| !f).unwrap_or(flags.len());
        assert!(flags[first_plain..].iter().all(|f| !f), "{flags:?}");
    }
    assert_eq!(app.stations.len(), 3);
}

#[test]
fn adding_a_station_through_the_prompts() {
    let mut app = app_with(vec![station("a", "https://a.example/x")]);
    assert!(!app.handle_key(ch('a'), 1));
    assert_eq!(app.status, "Type a station name, then Enter");
    assert!(!app.handle_key(key(KeyCode::Enter), 2));
    assert_eq!(app.status, "Name cannot be empty");
    for c in "  Jazz ".chars() {
        app.handle_key(ch(c), 3);
    }
    app.handle_key(key(KeyCode::Enter), 4);
    assert_eq!(app.status, "Paste or type the stream URL, then Enter");
    app.handle_paste("https://a.example/x\n".to_string());
    app.handle_key(key(KeyCode::Enter), 5);
    assert_eq!(app.status, "That stream is already in the list");
    assert_eq!(app.mode, Mode::Normal);

    app.handle_key(ch('a'), 6);
    app.handle_paste("Jazz".to_string());
    app.handle_key(key(KeyCode::Enter), 7);
    app.handle_paste("ftp://jazz.example/stream".to_string());
    app.handle_key(key(KeyCode::Enter), 8);
    assert_eq!(app.status, "URL must start with http:// or https://");
    assert_eq!(
        app.input_field(),
        Some(("Stream URL", "ftp://jazz.example/stream", 25))
    );
    assert!(matches!(app.mode, Mode::AddUrl { .. }));
    app.handle_key(KeyEvent::new(KeyCode::Char('a'), KeyModifiers::control()), 9);
    for _ in 0..3 {
        app.handle_key(key(KeyCode::Delete), 9);
    }
    for c in "https".chars() {
        app.handle_key(ch(c), 9);
    }
    app.handle_key(key(KeyCode::Enter), 10);
    assert_eq!(app.status, "Added Jazz");
    assert_eq!(app.stations.len(), 2);
    assert_eq!(app.stations[1].url, "https://jazz.example/stream");
    assert_eq!(app.selected, 1);
    assert_eq!(app.last_input, 10);
}

#[test]
fn escape_cancels_prompts_and_ctrl_c_quits_anywhere() {
    let mut app = three();
    app.handle_key(ch('a'), 0);
    app.handle_key(key(KeyCode::Esc), 0);
    assert_eq!(app.status, "Add cancelled");
    assert_eq!(app.mode, Mode::Normal);
    app.handle_key(ch('e'), 0);
    assert_eq!(app.mode, Mode::Edit);
    app.handle_key(ch('u'), 0);
    assert_eq!(app.input_field(), Some(("Stream URL", "https://a.example/x", 19)));
    assert!(app.handle_key(KeyEvent::new(KeyCode::Char('c'), KeyModifiers::control()), 0));
    app.handle_key(key(KeyCode::Esc), 0);
    assert_eq!(app.status, "URL edit cancelled");
    assert_eq!(app.mode, Mode::Edit);
    assert!(!app.handle_key(ch('q'), 0));
    assert_eq!(app.mode, Mode::Normal);
    assert!(app.handle_key(ch('q'), 0));
}

#[test]
fn url_edit_errors() {
    let mut app = three();
    app.finish_edit_url(9, "https://z.example/x".to_string());
    assert_eq!(app.status, "That station is gone");
    app.finish_edit_url(0, " https://a.example/x ".to_string());
    assert_eq!(app.status, "URL unchanged");
    assert_eq!(app.mode, Mode::Edit);
    app.finish_edit_url(0, "b.example".to_string());
    assert_eq!(app.status, "URL must start with http:// or https://");
    assert_eq!(app.input_field(), Some(("Stream URL", "b.example", 9)));
}

#[test]
fn import_flow_from_url_to_picker() {
    let mut app = three();
    app.mode = Mode::Edit;
    app.handle_key(ch('i'), 0);
    assert_eq!(app.status, "Paste a stations.json URL, then Enter");
    app.handle_paste("nope".to_string());
    app.handle_key(key(KeyCode::Enter), 0);
    assert_eq!(app.status, "List URL must start with http:// or https://");
    assert!(app.take_actions().is_empty());
    app.start_import("  https://list.example/stations.json ".to_string());
    assert_eq!(
        app.take_actions(),
        vec![Action::FetchList("https://list.example/stations.json".to_string())]
    );
    app.finish_import(
        "https://list.example/stations.json".to_string(),
        Err(LoadError::Io("timed out".to_string())),
    );
    assert_eq!(app.status, "Import failed: config io error: timed out");
    app.finish_import(
        "https://list.example/stations.json".to_string(),
        Ok(vec![
            station("a", "https://a.example/x"),
            station("d", "https://d.example/x"),
            station("e", "https://e.example/x"),
        ]),
    );
    assert_eq!(app.mode, Mode::ImportPick);
    assert_eq!(app.status, "2 new • Space toggle • Enter Do it!");
    let import = app.import.as_ref().unwrap();
    assert_eq!(import.already, vec![true, false, false]);
    assert_eq!(import.chosen, vec![false, true, true]);

    app.handle_key(key(KeyCode::Char(' ')), 0);
    assert_eq!(app.status, "Already in your list");
    app.handle_key(key(KeyCode::Up), 0);
    app.handle_key(key(KeyCode::Char(' ')), 0);
    assert_eq!(app.status, "1 selected • Enter Do it!");
    app.handle_key(ch('n'), 0);
    assert_eq!(app.status, "None selected");
    app.handle_key(key(KeyCode::Enter), 0);
    assert_eq!(app.status, "Nothing new to add");
    assert_eq!(app.mode, Mode::Edit);
    assert!(app.import.is_none());
}

#[test]
fn import_all_then_apply() {
    let mut app = three();
    let mut list_state = ListState::default();
    list_state.select(Some(0));
    app.import = Some(ImportPick {
        source: "https://list.example/s.json".to_string(),
        stations: vec![
            station("d", "https://d.example/x"),
            station("a", "https://a.example/x"),
            station("e", "https://e.example/x"),
        ],
        chosen: vec![false, false, false],
        already: vec![false, true, false],
        list_state,
    });
    app.mode = Mode::ImportPick;
    app.handle_key(ch('a'), 0);
    assert_eq!(app.import.as_ref().unwrap().chosen, vec![true, false, true]);
    assert_eq!(app.status, "2 selected • Enter Do it!");
    app.handle_key(ch('d'), 0);
    assert_eq!(app.status, "Do it! Added 2 station(s)");
    assert_eq!(app.stations.len(), 5);
    assert_eq!(app.selected, 4);
    assert_eq!(app.list_state.selected(), Some(4));
}

#[test]
fn playback_events_update_the_state() {
    let mut app = three();
    app.save_enabled = true;
    app.handle_key(key(KeyCode::Enter), 0);
    assert_eq!(
        app.take_actions(),
        vec![
            Action::StopPlayer,
            Action::StartPlayer { name: "a".to_string(), url: "https://a.example/x".to_string() }
        ]
    );
    app.player_failed(true, "");
    assert_eq!(app.status, "Failed to start mpv — is it installed?");
    app.player_failed(false, "denied");
    assert_eq!(app.status, "Failed to start mpv: denied");
    app.player_started("a", "https://a.example/x".to_string(), 100);
    assert!(app.is_playing());
    assert_eq!(app.playing_index(), Some(0));

    assert!(!app.ready_for_now_playing(60_099));
    app.maybe_enter_now_playing(60_100);
    assert_eq!(app.mode, Mode::NowPlaying);
    app.handle_key(ch('x'), 60_200);
    assert_eq!(app.mode, Mode::Normal);
    assert_eq!(app.status, "Ready");
    app.maybe_enter_now_playing(120_199);
    assert_eq!(app.mode, Mode::Normal, "a key restarts the idle minute");
    app.handle_key(ch('f'), 120_300);
    assert_eq!(app.mode, Mode::NowPlaying);

    app.player_exited(false);
    assert_eq!(app.status, "Playback stopped (mpv exited)");
    assert_eq!(app.mode, Mode::Normal);
    assert!(!app.is_playing());
    assert_eq!(app.playing_station_name(), "radio-tui");
    app.handle_key(ch('f'), 0);
    assert_eq!(app.status, "Play a station first, then press f");

    app.player_started("a", "https://a.example/x".to_string(), 0);
    app.player_lost("gone");
    assert_eq!(app.status, "Lost mpv process: gone");
    app.save_failed("disk full");
    assert_eq!(app.status, "Failed to save config: disk full");
    app.handle_key(ch('+'), 0);
    app.handle_key(ch('_'), 0);
    let actions = app.take_actions();
    assert_eq!(actions[actions.len() - 2..], [Action::AdjustVolume(5), Action::AdjustVolume(-5)]);
}

#[test]
fn toggling_and_deleting_the_playing_station() {
    let mut app = three();
    app.save_enabled = true;
    app.player_started("b", "https://b.example/x".to_string(), 0);
    app.toggle_playback();
    assert_eq!(app.status, "Stopped");
    assert!(!app.is_playing());
    assert_eq!(app.take_actions(), vec![Action::StopPlayer]);
    app.player_started("b", "https://b.example/x".to_string(), 0);
    app.selected = 1;
    app.mode = Mode::Edit;
    app.handle_key(key(KeyCode::Delete), 0);
    assert_eq!(app.status, "Removed b");
    assert!(!app.is_playing());
    assert_eq!(app.take_actions(), vec![Action::StopPlayer, Action::Save]);
    let mut empty = app_with(vec![]);
    empty.delete_selected();
    assert_eq!(empty.status, "No stations to delete");
    empty.play_selected();
    assert_eq!(empty.status, "No station selected");
    empty.toggle_favorite();
    assert_eq!(empty.status, "No station selected");
}

#[test]
fn metadata_polling_and_titles() {
    let mut app = three();
    assert!(!app.begin_metadata_poll(0));
    app.player_started("a", "https://a.example/x".to_string(), 0);
    assert!(app.begin_metadata_poll(1_000));
    assert!(!app.begin_metadata_poll(1_500));
    assert!(app.begin_metadata_poll(1_800));
    app.apply_stream_metadata(&MetaValue::Object(vec![
        MetaEntry { key: "title".to_string(), text: Some("  Song  ".to_string()) },
        MetaEntry { key: "icy-name".to_string(), text: Some("   ".to_string()) },
    ]));
    assert_eq!(app.track_title(), Some("Song"));
    assert_eq!(app.icy_name(), None);
    app.apply_stream_metadata(&MetaValue::Other);
    assert_eq!(app.track_title(), Some("Song"));
    app.apply_media_title(&MetaValue::Text("http://x".to_string()));
    assert_eq!(app.track_title(), None);
}

#[test]
fn trimming_uses_unicode_white_space() {
    assert_eq!(trim("\u{3000}\t radio \u{a0}\n"), "radio");
    assert_eq!(trim("   "), "");
    assert!(valid_stream_url("\u{2003}https://example.com/x\u{a0}"));
}

#[test]
fn white_space_is_the_unicode_set() {
    let members = [
        '\u{9}', '\u{a}', '\u{b}', '\u{c}', '\u{d}', ' ', '\u{85}', '\u{a0}', '\u{1680}',
        '\u{2000}', '\u{2001}', '\u{2002}', '\u{2003}', '\u{2004}', '\u{2005}', '\u{2006}',
        '\u{2007}', '\u{2008}', '\u{2009}', '\u{200a}', '\u{2028}', '\u{2029}', '\u{202f}',
        '\u{205f}', '\u{3000}',
    ];
    for c in members {
        assert_eq!(trim(&format!("{c}x{c}")), "x", "U+{:04X}", c as u32);
    }
    for c in ['\u{8}', '\u{e}', '\u{180e}', '\u{200b}', '\u{feff}', 'h', '\u{1ff}'] {
        let text = format!("{c}x{c}");
        assert_eq!(trim(&text), text, "U+{:04X}", c as u32);
    }
}

#[test]
fn favorite_toggle_keeps_the_playing_marker() {
    let mut app = three();
    app.player_started("c", "https://c.example/x".to_string(), 0);
    assert_eq!(app.playing_index(), Some(2));
    app.handle_key(ch('*'), 0);
    assert_eq!(app.stations[0].name, "a");
    assert_eq!(app.playing_index(), Some(2));
    app.handle_key(key(KeyCode::Down), 0);
    app.handle_key(key(KeyCode::Down), 0);
    app.handle_key(ch('*'), 0);
    assert_eq!(app.stations[0].name, "c");
    assert_eq!(app.playing_index(), Some(0));
    assert_eq!(app.stations[app.playing_index().unwrap()].name, "c");
}

#[test]
fn decimal_numbers() {
    assert_eq!(decimal(0), "0");
    assert_eq!(decimal(7), "7");
    assert_eq!(decimal(1234567890), "1234567890");
}

#[test]
fn import_copies_no_stars() {
    let mut app = three();
    app.stations[0].favorite = true;
    app.mode = Mode::Edit;
    let mut starred = station("d", "https://d.example/x");
    starred.favorite = true;
    let fetched = finish_remote_stations(vec![starred, station("e", "https://e.example/x")]);
    app.finish_import("https://list.example/s.json".to_string(), fetched);
    app.handle_key(key(KeyCode::Enter), 0);
    assert_eq!(app.status, "Do it! Added 2 station(s)");
    assert_eq!(app.stations.len(), 5);
    assert!(app.stations[0].favorite);
    assert!(!app.stations[3].favorite);
    assert!(!app.stations[4].favorite);
    assert_eq!(app.stations[3].name, "d");
}
