use radio_tui::config::{
    check_list_url, config_dir_from, decode_remote_body, default_stations, finish_remote_stations,
    join_path, name_for_url, selected_new_stations, stations_from_raw, valid_list_url,
    valid_stream_url, LoadError, RawStation, Station,
};

#[test]
fn valid_stream_url_rejects_flags() {
    assert!(valid_stream_url("https://example.com/stream.mp3"));
    assert!(valid_stream_url("http://example.com/x"));
    assert!(!valid_stream_url("--input-ipc-server=/tmp/x"));
    assert!(!valid_stream_url("file:///etc/passwd"));
    assert!(!valid_stream_url(""));
}

#[test]
fn name_for_unknown_url_uses_host() {
    assert_eq!(
        name_for_url("https://radio.example.com/hi.mp3"),
        "radio.example.com"
    );
}

#[test]
fn selected_new_stations_skips_duplicates_and_unselected() {
    let local = vec![Station {
        name: "Have".into(),
        url: "https://a.example/x".into(),
        favorite: true,
    }];
    let remote = vec![
        Station {
            name: "Have".into(),
            url: "https://a.example/x".into(),
            favorite: true,
        },
        Station {
            name: "New".into(),
            url: "https://b.example/x".into(),
            favorite: true,
        },
        Station {
            name: "Skip".into(),
            url: "https://c.example/x".into(),
            favorite: false,
        },
    ];
    let chosen = vec![true, true, false];
    let added = selected_new_stations(&local, &remote, &chosen);
    assert_eq!(added.len(), 1);
    assert_eq!(added[0].name, "New");
    assert!(added[0].favorite);
}

#[test]
fn legacy_url_entries_are_named_after_defaults_or_host() {
    let stations = stations_from_raw(vec![
        RawStation::Url("http://stream.live.vc.bbcmedia.co.uk/bbc_world_service".to_string()),
        RawStation::Url("http://ice1.somafm.com/groovesalad-256-mp3".to_string()),
        RawStation::Url("https://radio.example.com/hi.mp3".to_string()),
    ]);
    assert_eq!(stations[0].name, "BBC World Service");
    assert_eq!(
        stations[0].url,
        "http://stream.live.vc.bbcmedia.co.uk/bbc_world_service"
    );
    assert_eq!(stations[1].name, "SomaFM Groove Salad");
    assert_eq!(stations[2].name, "radio.example.com");
    assert!(stations.iter().all(|s| !s.favorite));
}

#[test]
fn named_entries_keep_name_and_favorite_and_blank_names_use_the_url() {
    let stations = stations_from_raw(vec![
        RawStation::Named {
            name: "Custom".to_string(),
            url: "https://example.com/stream.mp3".to_string(),
            favorite: false,
        },
        RawStation::Named {
            name: "Starred".to_string(),
            url: "https://star.example/x".to_string(),
            favorite: true,
        },
        RawStation::Named {
            name: "   ".to_string(),
            url: "https://host.example/a/b".to_string(),
            favorite: false,
        },
    ]);
    assert_eq!(stations[0].name, "Custom");
    assert_eq!(stations[0].url, "https://example.com/stream.mp3");
    assert!(!stations[0].favorite);
    assert!(stations[1].favorite);
    assert_eq!(stations[2].name, "host.example");
}

#[test]
fn name_for_url_edge_cases() {
    assert_eq!(name_for_url("no-scheme/path"), "no-scheme");
    assert_eq!(name_for_url("a://b://c"), "b");
    assert_eq!(name_for_url("https://"), "");
    assert_eq!(
        name_for_url("http://ice1.somafm.com/groovesalad-256-mp3"),
        "SomaFM Groove Salad"
    );
}

#[test]
fn valid_stream_url_trims_and_counts_bytes() {
    assert!(valid_stream_url("  https://example.com/stream.mp3 \n"));
    assert!(!valid_stream_url("http://a.b"));
    assert!(valid_stream_url("http://a.bc"));
    assert!(valid_stream_url("http://\u{e9}\u{e9}"));
    assert!(valid_list_url("https://example.com/stations.json"));
    assert!(!valid_list_url("ftp://example.com/stations.json"));
}

#[test]
fn list_url_errors_and_trimmed_success() {
    match check_list_url("  https://example.com/list.json  ") {
        Ok(url) => assert_eq!(url, "https://example.com/list.json"),
        Err(e) => panic!("unexpected {e:?}"),
    }
    match check_list_url("example.com/list.json") {
        Err(LoadError::Invalid(m)) => {
            assert_eq!(m, "list URL must start with http:// or https://")
        }
        other => panic!("unexpected {other:?}"),
    }
}

#[test]
fn remote_body_limits() {
    match decode_remote_body(vec![b'a'; 1_000_001]) {
        Err(LoadError::Invalid(m)) => assert_eq!(m, "remote list is too large"),
        other => panic!("unexpected {other:?}"),
    }
    match decode_remote_body(vec![0xff, 0xfe]) {
        Err(LoadError::Invalid(m)) => assert_eq!(m, "remote list is not valid UTF-8"),
        other => panic!("unexpected {other:?}"),
    }
    match decode_remote_body("{\"stations\": []}".as_bytes().to_vec()) {
        Ok(text) => assert_eq!(text, "{\"stations\": []}"),
        Err(e) => panic!("unexpected {e:?}"),
    }
}

#[test]
fn remote_stations_drop_favorites_and_empty_lists_are_refused() {
    match finish_remote_stations(vec![]) {
        Err(LoadError::Invalid(m)) => assert_eq!(m, "remote list has no stations"),
        other => panic!("unexpected {other:?}"),
    }
    let out = finish_remote_stations(vec![Station {
        name: "A".to_string(),
        url: "https://a.example/x".to_string(),
        favorite: true,
    }])
    .unwrap();
    assert_eq!(out.len(), 1);
    assert_eq!(out[0].name, "A");
    assert!(!out[0].favorite);
}

#[test]
fn load_error_messages() {
    assert_eq!(LoadError::NotFound.message(), "no config file");
    assert_eq!(LoadError::Invalid("x".to_string()).message(), "invalid config: x");
    assert_eq!(LoadError::Io("y".to_string()).message(), "config io error: y");
}

#[test]
fn config_locations() {
    assert_eq!(
        config_dir_from(Some(b"/home/u/.config".to_vec()), None),
        b"/home/u/.config/radio-tui".to_vec()
    );
    assert_eq!(
        config_dir_from(None, Some(b"/home/u".to_vec())),
        b"/home/u/.config/radio-tui".to_vec()
    );
    assert_eq!(config_dir_from(None, None), b"./.config/radio-tui".to_vec());
    assert_eq!(join_path(&b"/etc/".to_vec(), &b"x".to_vec()), b"/etc/x".to_vec());
    assert_eq!(join_path(&b"".to_vec(), &b"x".to_vec()), b"x".to_vec());
    assert_eq!(join_path(&b"/etc".to_vec(), &b"/abs".to_vec()), b"/abs".to_vec());
    assert!(radio_tui::config::config_path().ends_with(b"radio-tui/stations.json"));
}

#[test]
fn config_locations_keep_paths_that_are_not_text() {
    let dir = vec![b'/', b'h', 0xff, 0xfe, b'/', b'c'];
    let mut want = dir.clone();
    want.extend_from_slice(b"/radio-tui");
    assert_eq!(config_dir_from(Some(dir.clone()), None), want);
    let mut want = dir.clone();
    want.extend_from_slice(b"/.config/radio-tui");
    assert_eq!(config_dir_from(None, Some(dir)), want);
}

#[test]
fn default_list_has_two_stations() {
    let d = default_stations();
    assert_eq!(d.len(), 2);
    assert_eq!(d[1].url, "http://ice1.somafm.com/groovesalad-256-mp3");
}
