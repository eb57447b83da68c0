use radio_tui::app::{App, ImportPick, ListState};
use radio_tui::config::Station;
use radio_tui::layout::{
    center_text, cursor_line, import_mark, legend_footer_height, marquee, now_playing_text,
    wrap_legend, ImportMark, KEY_LEGEND,
};

#[test]
fn wrap_legend_keeps_each_key_with_its_word() {
    let lines = wrap_legend(KEY_LEGEND, 40);
    let joined = lines.join("\n");
    assert!(joined.contains("j/k move"));
    assert!(joined.contains("* fav"));
    assert!(joined.contains("q quit"));
    assert!(lines.len() > 1);
    assert!(lines.iter().all(|line| line.len() <= 40), "{lines:?}");
}

#[test]
fn wide_legend_fits_one_line_and_narrow_width_keeps_it_whole() {
    assert_eq!(wrap_legend(KEY_LEGEND, 118), vec![KEY_LEGEND.to_string()]);
    assert_eq!(wrap_legend("a • b", 3), vec!["a • b".to_string()]);
    assert_eq!(wrap_legend("", 10), vec![String::new()]);
    assert_eq!(
        wrap_legend("aa • bb • cc", 7),
        vec!["aa • bb".to_string(), "cc".to_string()]
    );
}

#[test]
fn footer_height_counts_border_status_and_rows() {
    assert_eq!(legend_footer_height(KEY_LEGEND, 120), 4);
    assert_eq!(legend_footer_height(KEY_LEGEND, 42), 6);
    assert_eq!(legend_footer_height(KEY_LEGEND, 10), 7);
    assert_eq!(legend_footer_height(KEY_LEGEND, 0), 4);
}

#[test]
fn center_and_marquee() {
    assert_eq!(center_text("abc", 7), "  abc");
    assert_eq!(center_text("abcdef", 4), "abcd");
    assert_eq!(center_text("abc", 0), "");
    assert_eq!(marquee("short", 10, 7), "short");
    assert_eq!(marquee("abcdef", 4, 0), "   a");
    assert_eq!(marquee("abcdef", 4, 8), "bcde");
    assert_eq!(marquee("abcdef", 0, 8), "");
}

#[test]
fn cursor_line_marks_the_cursor() {
    assert_eq!(cursor_line("abc", 1), "a█bc");
    assert_eq!(cursor_line("abc", 9), "abc█");
    assert_eq!(cursor_line("", 0), "█");
}

fn playing_app() -> App {
    let mut app = App::new(
        Ok(vec![Station {
            name: "Groove".to_string(),
            url: "https://g.example/x".to_string(),
            favorite: false,
        }]),
        0,
    );
    app.player_started("Groove", "https://g.example/x".to_string(), 0);
    app
}

#[test]
fn now_playing_rows_center_the_station_and_hide_a_repeated_name() {
    let mut app = playing_app();
    let text = now_playing_text(&app, 10, 0);
    assert_eq!(text.station, "  Groove");
    assert_eq!(text.announced, None);
    assert_eq!(text.track, "♪     Live st");
    assert!(text.lit);

    app.icy_name = Some("Groove".to_string());
    assert_eq!(now_playing_text(&app, 10, 0).announced, None);
    app.icy_name = Some("SomaFM".to_string());
    app.track_title = Some("Song".to_string());
    let text = now_playing_text(&app, 10, 8);
    assert_eq!(text.announced, Some("  SomaFM".to_string()));
    assert_eq!(text.track, "♪  Song");
    assert!(!text.lit);
    assert!(now_playing_text(&app, 10, 16).lit);
}

#[test]
fn now_playing_without_a_station_shows_the_program_name() {
    let app = App::new(Ok(vec![]), 0);
    assert_eq!(now_playing_text(&app, 12, 0).station, " radio-tui");
}

#[test]
fn import_marks_put_saved_before_chosen() {
    let imp = ImportPick {
        source: "https://list.example/s.json".to_string(),
        stations: vec![],
        chosen: vec![true, true, false],
        already: vec![true, false],
        list_state: ListState::default(),
    };
    assert_eq!(import_mark(&imp, 0), ImportMark::Have);
    assert_eq!(import_mark(&imp, 1), ImportMark::Chosen);
    assert_eq!(import_mark(&imp, 2), ImportMark::Plain);
    assert_eq!(import_mark(&imp, 7), ImportMark::Plain);
}

#[test]
fn wrapped_rows_count_a_separator_as_three_bytes() {
    // "abcd" + 3 + "efg" comes to 10, so the two keys share a row of 12 bytes.
    assert_eq!(wrap_legend("abcd • efg", 10), vec!["abcd • efg".to_string()]);
    // One byte more and the second key starts a new row.
    assert_eq!(
        wrap_legend("abcd • efgh", 10),
        vec!["abcd".to_string(), "efgh".to_string()]
    );
    // A single key longer than the width keeps a row of its own.
    assert_eq!(
        wrap_legend("abcdefghijkl • x", 10),
        vec!["abcdefghijkl".to_string(), "x".to_string()]
    );
}
