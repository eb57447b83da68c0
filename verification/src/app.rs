//! The player's state and every decision it takes on a key, a paste, a tick
//! or the outcome of an outside action.  Nothing here plays audio, touches
//! files or the network: each such effect is queued as an [`Action`] for the
//! program around the library to perform, and its outcome comes back through
//! a method of [`App`].

use vstd::prelude::*;

use vstd::arithmetic::div_mod::{
    lemma_add_mod_noop, lemma_fundamental_div_mod, lemma_mod_add_multiples_vanish,
    lemma_mod_multiples_vanish, lemma_mod_pos_bound,
};

use crate::config::{
    bbc_name, bbc_url, default_stations, has_url, selected_new_stations, soma_name, soma_url,
    spec_load_error_message, spec_selected_new_stations, spec_valid_stream_url, url_in,
    valid_list_url, valid_stream_url, LoadError, Station,
};
use crate::input::{
    clamp_cursor, ctrl_char, edit_field, edited_cursor, edited_text, ends_field, insert_at_cursor,
    inserted, is_char, strip_line_breaks, without_line_breaks, KeyCode, KeyEvent,
};
use crate::metadata::{parse_stream_metadata, spec_stream_metadata, spec_title_from_value, title_from_value, MetaValue};
use crate::config::opt_view;
use crate::text::{decimal, spec_decimal, spec_trim, trim};

verus! {

/// What the screen is showing and what keys mean.
#[derive(Debug, PartialEq, Eq)]
pub enum Mode {
    Normal,
    Help,
    Edit,
    NowPlaying,
    AddName { buffer: String, cursor: usize },
    AddUrl { name: String, buffer: String, cursor: usize },
    EditUrl { index: usize, buffer: String, cursor: usize },
    ImportUrl { buffer: String, cursor: usize },
    ImportPick,
}

impl Clone for Mode {
    fn clone(&self) -> (r: Self)
        ensures
            r == *self,
    {
        match self {
            Mode::Normal => Mode::Normal,
            Mode::Help => Mode::Help,
            Mode::Edit => Mode::Edit,
            Mode::NowPlaying => Mode::NowPlaying,
            Mode::AddName { buffer, cursor } => Mode::AddName {
                buffer: buffer.clone(),
                cursor: *cursor,
            },
            Mode::AddUrl { name, buffer, cursor } => Mode::AddUrl {
                name: name.clone(),
                buffer: buffer.clone(),
                cursor: *cursor,
            },
            Mode::EditUrl { index, buffer, cursor } => Mode::EditUrl {
                index: *index,
                buffer: buffer.clone(),
                cursor: *cursor,
            },
            Mode::ImportUrl { buffer, cursor } => Mode::ImportUrl {
                buffer: buffer.clone(),
                cursor: *cursor,
            },
            Mode::ImportPick => Mode::ImportPick,
        }
    }
}

/// Which row of a list is highlighted.
#[derive(Debug, PartialEq, Eq)]
pub struct ListState {
    pub selected: Option<usize>,
}

impl ListState {
    /// A list with nothing highlighted.
    pub fn default() -> (r: ListState)
        ensures
            r.selected is None,
    {
        ListState { selected: None }
    }

    /// Highlight `index` (or nothing).
    pub fn select(&mut self, index: Option<usize>)
        ensures
            final(self).selected == index,
    {
        self.selected = index;
    }

    /// The highlighted row.
    pub fn selected(&self) -> (r: Option<usize>)
        ensures
            r == self.selected,
    {
        self.selected
    }
}

/// A fetched remote list while the user picks what to import.
#[derive(Debug)]
pub struct ImportPick {
    pub source: String,
    pub stations: Vec<Station>,
    pub chosen: Vec<bool>,
    pub already: Vec<bool>,
    pub list_state: ListState,
}

/// An effect that the program around the library performs.
#[derive(Debug, PartialEq, Eq)]
pub enum Action {
    /// Write the station list and the volume to the configuration file.
    Save,
    /// End the player process, if any, reset the EQ and remove the control socket.
    StopPlayer,
    /// Start the player on this station's stream.
    StartPlayer { name: String, url: String },
    /// Change the volume by this many percent.
    AdjustVolume(i32),
    /// Fetch the remote station list at this URL.
    FetchList(String),
}

/// How long playback must run, and the keyboard stay idle, before the
/// now-playing screen opens on its own (milliseconds).
pub const NOW_PLAYING_AFTER_MS: u64 = 60_000;

/// How often stream metadata is asked for at most (milliseconds).
pub const METADATA_INTERVAL_MS: u64 = 800;

/// The player's state.  Times are milliseconds on a clock of the caller's
/// choosing.
#[derive(Debug)]
pub struct App {
    pub stations: Vec<Station>,
    pub selected: usize,
    pub status: String,
    pub mode: Mode,
    pub list_state: ListState,
    pub save_enabled: bool,
    /// A player process is running.
    pub player_running: bool,
    pub playing_url: Option<String>,
    pub playing_since: Option<u64>,
    pub last_input: u64,
    pub last_metadata_at: Option<u64>,
    pub track_title: Option<String>,
    pub icy_name: Option<String>,
    pub import: Option<ImportPick>,
    /// Effects queued for the program to perform, oldest first.
    pub actions: Vec<Action>,
}

/// `(cur + delta)` wrapped into `0..len`.
pub open spec fn wrapped(cur: int, delta: int, len: int) -> int {
    (cur + delta) % len
}

/// `(cur + delta)` wrapped into `0..len`, without overflow for any inputs.
pub fn wrap_index(cur: usize, delta: isize, len: usize) -> (r: usize)
    requires
        len > 0,
    ensures
        r as int == wrapped(cur as int, delta as int, len as int),
        r < len,
{
    let l = len as u128;
    let c: u128 = (cur % len) as u128;
    let ghost li = len as int;
    let ghost ci = cur as int;
    let ghost di = delta as int;
    proof {
        lemma_mod_pos_bound(ci, li);
    }
    if delta >= 0 {
        let d: u128 = (delta as u128) % l;
        let r = ((c + d) % l) as usize;
        proof {
            lemma_add_mod_noop(ci, di, li);
            lemma_mod_pos_bound(ci + di, li);
        }
        r
    } else {
        let neg: u128 = (0i128 - delta as i128) as u128;
        let d: u128 = neg % l;
        let r = ((c + (l - d)) % l) as usize;
        proof {
            let ni = neg as int;
            let q = ni / li;
            let dd = ni % li;
            lemma_fundamental_div_mod(ni, li);
            lemma_fundamental_div_mod(ci, li);
            lemma_mod_pos_bound(ni, li);
            let cc = ci % li;
            assert(d as int == dd);
            assert(c as int == cc);
            lemma_mod_add_multiples_vanish(cc - dd, li);
            assert((c + (l - d)) as int == li + (cc - dd));
            assert(ci + di == li * (0 - q) + (ci - dd)) by (nonlinear_arith)
                requires
                    ni == li * q + dd,
                    di == 0 - ni,
            ;
            lemma_mod_multiples_vanish(0 - q, ci - dd, li);
            assert(ci - dd == li * (ci / li) + (cc - dd));
            lemma_mod_multiples_vanish(ci / li, cc - dd, li);
            lemma_mod_pos_bound(li + (cc - dd), li);
        }
        r
    }
}

/// The stations list with nothing highlighted when empty, else the selection
/// clamped into it.
pub open spec fn synced_selected(len: nat, selected: usize) -> usize {
    if len == 0 {
        0
    } else if selected < len {
        selected
    } else {
        (len - 1) as usize
    }
}

pub open spec fn synced_list(len: nat, selected: usize) -> Option<usize> {
    if len == 0 {
        None
    } else {
        Some(synced_selected(len, selected))
    }
}

/// The actions after a save request: `Save` is queued when saving is on.
pub open spec fn saved(actions: Seq<Action>, save_enabled: bool) -> Seq<Action> {
    if save_enabled {
        actions.push(Action::Save)
    } else {
        actions
    }
}

/// The mode once playback has ended: the now-playing screen closes.
pub open spec fn mode_after_playback(m: Mode) -> Mode {
    if m is NowPlaying {
        Mode::Normal
    } else {
        m
    }
}

/// The state with the per-stream playback details forgotten.
pub open spec fn playback_cleared(o: App) -> App {
    App {
        playing_since: None,
        last_metadata_at: None,
        track_title: None,
        icy_name: None,
        mode: mode_after_playback(o.mode),
        ..o
    }
}

/// The state once the player is stopped (apart from the queued action).
pub open spec fn stopped(o: App) -> App {
    App { player_running: false, playing_url: None, ..playback_cleared(o) }
}

/// The state with the selection made `sel` and the list highlight following it.
pub open spec fn with_selection(o: App, sel: usize) -> App {
    App {
        selected: synced_selected(o.stations@.len(), sel),
        list_state: ListState { selected: synced_list(o.stations@.len(), sel) },
        ..o
    }
}

/// Index of the first station at or after `i` whose URL is `url`.
pub open spec fn url_index_from(s: Seq<Station>, url: Seq<char>, i: int) -> Option<int>
    decreases s.len() - i,
{
    if i < 0 || i >= s.len() {
        None
    } else if s[i].url@ == url {
        Some(i)
    } else {
        url_index_from(s, url, i + 1)
    }
}

/// Index of the first station that is not a favorite, at or after `i`
/// (the length when there is none).
pub open spec fn first_non_favorite_from(s: Seq<Station>, i: int) -> int
    decreases s.len() - i,
{
    if i < 0 || i >= s.len() {
        s.len() as int
    } else if !s[i].favorite {
        i
    } else {
        first_non_favorite_from(s, i + 1)
    }
}

/// The station list after the favorite flag of station `i` is flipped: a new
/// favorite moves to the top, an unfavorited station lands right after the
/// remaining favorites.
pub open spec fn favorite_toggled(s: Seq<Station>, i: int) -> Seq<Station> {
    let st = Station { favorite: !s[i].favorite, ..s[i] };
    let rest = s.remove(i);
    rest.insert(favorite_position(s, i), st)
}

/// Where station `i` goes when its favorite flag is flipped.
pub open spec fn favorite_position(s: Seq<Station>, i: int) -> int {
    if !s[i].favorite {
        0
    } else {
        first_non_favorite_from(s.remove(i), 0)
    }
}

/// The number of `true` entries.
pub open spec fn count_true(s: Seq<bool>) -> nat
    decreases s.len(),
{
    if s.len() == 0 {
        0
    } else {
        count_true(s.drop_last()) + if s.last() {
            1nat
        } else {
            0nat
        }
    }
}

/// The list is one of the defaults shipped with the program.
pub open spec fn is_default_list(s: Seq<Station>) -> bool {
    &&& s.len() == 2
    &&& s[0].name@ == bbc_name() && s[0].url@ == bbc_url() && !s[0].favorite
    &&& s[1].name@ == soma_name() && s[1].url@ == soma_url() && !s[1].favorite
}

/// Milliseconds from `since` to `now`, zero when `now` is earlier.
pub open spec fn elapsed(now: u64, since: u64) -> int {
    if now >= since {
        now - since
    } else {
        0
    }
}

/// Whether the now-playing screen opens on its own at `now`: on the list,
/// after a minute of playback and a minute without keys.
pub open spec fn now_playing_due(a: App, now: u64) -> bool {
    a.mode is Normal && (a.playing_since matches Some(t) && elapsed(now, t) >= NOW_PLAYING_AFTER_MS)
        && elapsed(now, a.last_input) >= NOW_PLAYING_AFTER_MS
}

/// Whether the program is playing a stream.
pub open spec fn spec_is_playing(a: App) -> bool {
    a.player_running && a.playing_url is Some
}

/// Index of the station that is playing, if it is in the list.
pub open spec fn spec_playing_index(a: App) -> Option<int> {
    match a.playing_url {
        Some(u) => url_index_from(a.stations@, u@, 0),
        None => None,
    }
}

/// The list after swapping the entries at `i` and `j`.
pub open spec fn swapped(s: Seq<Station>, i: int, j: int) -> Seq<Station> {
    s.update(i, s[j]).update(j, s[i])
}

/// `select_delta`: the selection moves by `delta`, wrapping, and the status
/// names the station.
pub open spec fn select_delta_post(o: App, n: App, delta: int) -> bool {
    if o.stations@.len() == 0 {
        n == with_selection(o, 0)
    } else {
        let next = wrapped(o.selected as int, delta, o.stations@.len() as int) as usize;
        &&& n.status@ == "Selected: "@ + o.stations@[next as int].name@
        &&& n == (App { status: n.status, ..with_selection(o, next) })
    }
}

/// `toggle_favorite`: the highlighted station's flag flips and it moves to
/// its place; the selection follows it.
pub open spec fn toggle_favorite_post(o: App, n: App) -> bool {
    match o.list_state.selected {
        None => n.status@ == "No station selected"@ && n == (App { status: n.status, ..o }),
        Some(i) => if i >= o.stations@.len() {
            n == o
        } else {
            let s = o.stations@;
            &&& n.stations@ == favorite_toggled(s, i as int)
            &&& n.status@ == (if s[i as int].favorite {
                "Unfavorited "@
            } else {
                "Favorited "@
            }) + s[i as int].name@
            &&& n.actions@ == saved(o.actions@, o.save_enabled)
            &&& n == (App {
                stations: n.stations,
                status: n.status,
                actions: n.actions,
                ..with_selection(o, favorite_position(s, i as int) as usize)
            })
        },
    }
}

/// `move_selected`: the selected station swaps with its neighbour `delta`
/// away (wrapping) and the selection follows it.
pub open spec fn move_selected_post(o: App, n: App, delta: int) -> bool {
    if o.stations@.len() < 2 {
        n == o
    } else {
        let s = o.stations@;
        let to = wrapped(o.selected as int, delta, s.len() as int);
        &&& n.stations@ == swapped(s, o.selected as int, to)
        &&& n.status@ == "Reordered stations"@
        &&& n.actions@ == saved(o.actions@, o.save_enabled)
        &&& n == (App {
            stations: n.stations,
            status: n.status,
            actions: n.actions,
            ..with_selection(o, to as usize)
        })
    }
}

/// `delete_selected`: the selected station leaves the list (playback stops
/// if it was playing) and the selection stays in the list.
pub open spec fn delete_selected_post(o: App, n: App) -> bool {
    if o.stations@.len() == 0 {
        n.status@ == "No stations to delete"@ && n == (App { status: n.status, ..o })
    } else {
        let s = o.stations@;
        let sel = o.selected;
        let gone = s[sel as int];
        let rest = s.remove(sel as int);
        let was_playing = o.playing_url matches Some(u) && u@ == gone.url@;
        let base = if was_playing {
            stopped(o)
        } else {
            o
        };
        let new_sel = if sel >= rest.len() && sel > 0 {
            (sel - 1) as usize
        } else {
            sel
        };
        &&& n.stations@ == rest
        &&& n.status@ == "Removed "@ + gone.name@
        &&& n.actions@ == saved(
            if was_playing {
                o.actions@.push(Action::StopPlayer)
            } else {
                o.actions@
            },
            o.save_enabled,
        )
        &&& n == (App {
            status: n.status,
            actions: n.actions,
            ..with_selection((App { stations: n.stations, ..base }), new_sel)
        })
    }
}

/// `play_selected`: what plays stops and the selected station is asked for.
pub open spec fn play_selected_post(o: App, n: App) -> bool {
    if o.selected >= o.stations@.len() {
        n.status@ == "No station selected"@ && n == (App { status: n.status, ..o })
    } else {
        let st = o.stations@[o.selected as int];
        &&& n.actions@ == o.actions@.push(Action::StopPlayer).push(
            Action::StartPlayer { name: st.name, url: st.url },
        )
        &&& n == (App { actions: n.actions, ..stopped(o) })
    }
}

/// `toggle_playback`: stop when playing, else play the selected station.
pub open spec fn toggle_playback_post(o: App, n: App) -> bool {
    if spec_is_playing(o) {
        &&& n.status@ == "Stopped"@
        &&& n.actions@ == o.actions@.push(Action::StopPlayer)
        &&& n == (App { actions: n.actions, status: n.status, ..stopped(o) })
    } else {
        play_selected_post(o, n)
    }
}

/// The mode is the URL editor for station `index` with this text and cursor.
pub open spec fn is_edit_url(m: Mode, index: usize, text: Seq<char>, cursor: int) -> bool {
    m matches Mode::EditUrl { index: i, buffer: b, cursor: c } && i == index && b@ == text && c
        == cursor
}

/// The mode is the list-URL prompt with this text and cursor.
pub open spec fn is_import_url(m: Mode, text: Seq<char>, cursor: int) -> bool {
    m matches Mode::ImportUrl { buffer: b, cursor: c } && b@ == text && c == cursor
}

/// The mode is the name prompt with this text and cursor.
pub open spec fn is_add_name(m: Mode, text: Seq<char>, cursor: int) -> bool {
    m matches Mode::AddName { buffer: b, cursor: c } && b@ == text && c == cursor
}

/// The mode is the URL prompt for a station named `name`, with this text and
/// cursor.
pub open spec fn is_add_url(m: Mode, name: Seq<char>, text: Seq<char>, cursor: int) -> bool {
    m matches Mode::AddUrl { name: nm, buffer: b, cursor: c } && nm@ == name && b@ == text && c
        == cursor
}

/// Some station other than `index` has the URL `url`.
pub open spec fn url_elsewhere(s: Seq<Station>, index: int, url: Seq<char>) -> bool {
    exists|j: int| 0 <= j < s.len() && j != index && #[trigger] s[j].url@ == url
}

/// `begin_edit_url`: the URL editor opens on the selected station's URL.
pub open spec fn begin_edit_url_post(o: App, n: App) -> bool {
    if o.selected >= o.stations@.len() {
        n.status@ == "No station selected"@ && n == (App { status: n.status, ..o })
    } else {
        let url = o.stations@[o.selected as int].url@;
        &&& is_edit_url(n.mode, o.selected, url, url.len() as int)
        &&& n.status@ == "Fix the URL, then Enter"@
        &&& n == (App { mode: n.mode, status: n.status, ..o })
    }
}

/// `finish_edit_url`: the trimmed URL replaces station `index`'s URL when it
/// is valid, changed and not used by another station; playback follows it.
pub open spec fn finish_edit_url_post(o: App, n: App, index: usize, raw: Seq<char>) -> bool {
    let url = spec_trim(raw);
    let s = o.stations@;
    if !spec_valid_stream_url(url) {
        &&& n.status@ == "URL must start with http:// or https://"@
        &&& is_edit_url(n.mode, index, url, url.len() as int)
        &&& n == (App { mode: n.mode, status: n.status, ..o })
    } else if index >= s.len() {
        n.status@ == "That station is gone"@ && n == (App {
            mode: Mode::Edit,
            status: n.status,
            ..o
        })
    } else if s[index as int].url@ == url {
        n.status@ == "URL unchanged"@ && n == (App { mode: Mode::Edit, status: n.status, ..o })
    } else if url_elsewhere(s, index as int, url) {
        &&& n.status@ == "That stream is already in the list"@
        &&& is_edit_url(n.mode, index, url, url.len() as int)
        &&& n == (App { mode: n.mode, status: n.status, ..o })
    } else {
        let was_playing = o.playing_url matches Some(u) && u@ == s[index as int].url@;
        &&& n.stations@.len() == s.len()
        &&& n.stations@[index as int].url@ == url
        &&& n.stations@[index as int].name == s[index as int].name
        &&& n.stations@[index as int].favorite == s[index as int].favorite
        &&& forall|j: int| 0 <= j < s.len() && j != index ==> #[trigger] n.stations@[j] == s[j]
        &&& (if was_playing {
            n.playing_url matches Some(u) && u@ == url
        } else {
            n.playing_url == o.playing_url
        })
        &&& n.status@ == "Updated URL for "@ + s[index as int].name@
        &&& n.actions@ == saved(o.actions@, o.save_enabled)
        &&& n == (App {
            stations: n.stations,
            playing_url: n.playing_url,
            mode: Mode::Edit,
            status: n.status,
            actions: n.actions,
            ..o
        })
    }
}

/// `finish_add`: a valid URL not yet in the list becomes a new station at
/// the end, and the selection moves to it.
pub open spec fn finish_add_post(o: App, n: App, name: Seq<char>, url: Seq<char>) -> bool {
    let s = o.stations@;
    if !spec_valid_stream_url(url) {
        &&& n.status@ == "URL must start with http:// or https://"@
        &&& is_add_url(n.mode, name, url, url.len() as int)
        &&& n == (App { mode: n.mode, status: n.status, ..o })
    } else if url_in(s, url) {
        n.status@ == "That stream is already in the list"@ && n == (App {
            mode: Mode::Normal,
            status: n.status,
            ..o
        })
    } else {
        &&& n.stations@.len() == s.len() + 1
        &&& n.stations@.subrange(0, s.len() as int) == s
        &&& n.stations@[s.len() as int].name@ == name
        &&& n.stations@[s.len() as int].url@ == url
        &&& !n.stations@[s.len() as int].favorite
        &&& n.status@ == "Added "@ + name
        &&& n.actions@ == saved(o.actions@, o.save_enabled)
        &&& n == (App {
            mode: Mode::Normal,
            status: n.status,
            actions: n.actions,
            ..with_selection((App { stations: n.stations, ..o }), s.len() as usize)
        })
    }
}

/// The queue with a fetch of the list at `url` added.
pub open spec fn fetch_queued(old_actions: Seq<Action>, new_actions: Seq<Action>, url: Seq<char>) -> bool {
    &&& new_actions.len() == old_actions.len() + 1
    &&& new_actions.subrange(0, old_actions.len() as int) == old_actions
    &&& new_actions.last() matches Action::FetchList(u) && u@ == url
}

/// `start_import`: a valid (trimmed) list URL is queued for fetching; an
/// invalid one is handed back for editing.
pub open spec fn start_import_post(o: App, n: App, raw: Seq<char>) -> bool {
    let url = spec_trim(raw);
    &&& is_import_url(n.mode, url, url.len() as int)
    &&& if spec_valid_stream_url(url) {
        &&& fetch_queued(o.actions@, n.actions@, url)
        &&& n == (App { mode: n.mode, actions: n.actions, ..o })
    } else {
        &&& n.status@ == "List URL must start with http:// or https://"@
        &&& n == (App { mode: n.mode, status: n.status, ..o })
    }
}

/// The status shown once a list has been fetched with `n` new stations.
pub open spec fn import_found_status(n: nat) -> Seq<char> {
    if n == 0 {
        "Every station in that list is already saved"@
    } else {
        spec_decimal(n) + " new • Space toggle • Enter Do it!"@
    }
}

/// The status after the choice of stations to import changed.
pub open spec fn selected_count_status(n: nat) -> Seq<char> {
    spec_decimal(n) + " selected • Enter Do it!"@
}

/// Whether entry `i` of the import is already saved.
pub open spec fn already_at(imp: ImportPick, i: int) -> bool {
    0 <= i < imp.already@.len() && imp.already@[i]
}

/// `finish_import`: a fetched list opens the picker with every station that
/// is not saved yet chosen; a failure goes back to the URL prompt.
pub open spec fn finish_import_post(
    o: App,
    n: App,
    url: Seq<char>,
    result: Result<Seq<Station>, LoadError>,
) -> bool {
    match result {
        Ok(remote) => {
            &&& n.import matches Some(imp) && {
                &&& imp.source@ == url
                &&& imp.stations@ == remote
                &&& imp.already@.len() == remote.len()
                &&& imp.chosen@.len() == remote.len()
                &&& forall|i: int|
                    0 <= i < remote.len() ==> #[trigger] imp.already@[i] == url_in(
                        o.stations@,
                        remote[i].url@,
                    ) && imp.chosen@[i] == !imp.already@[i]
                &&& imp.list_state.selected == (if remote.len() > 0 {
                    Some(0usize)
                } else {
                    None
                })
                &&& n.status@ == import_found_status(count_true(imp.chosen@))
            }
            &&& n == (App {
                import: n.import,
                mode: Mode::ImportPick,
                status: n.status,
                ..o
            })
        },
        Err(e) => {
            &&& n.status@ == "Import failed: "@ + spec_load_error_message(e)
            &&& is_import_url(n.mode, url, url.len() as int)
            &&& n == (App { mode: n.mode, status: n.status, ..o })
        },
    }
}

/// `import_delta`: the picker's highlight moves by `delta`, wrapping.
pub open spec fn import_delta_post(o: App, n: App, delta: int) -> bool {
    match o.import {
        None => n == o,
        Some(imp) => if imp.stations@.len() == 0 {
            n == o
        } else {
            let cur = match imp.list_state.selected {
                Some(c) => c,
                None => 0usize,
            };
            let next = wrapped(cur as int, delta, imp.stations@.len() as int) as usize;
            n == (App {
                import: Some(ImportPick { list_state: ListState { selected: Some(next) }, ..imp }),
                ..o
            })
        },
    }
}

/// `toggle_import_choice`: the highlighted entry's choice flips, unless it is
/// already saved.
pub open spec fn toggle_import_choice_post(o: App, n: App) -> bool {
    match o.import {
        None => n == o,
        Some(imp) => match imp.list_state.selected {
            None => n == o,
            Some(i) => if already_at(imp, i as int) {
                n.status@ == "Already in your list"@ && n == (App { status: n.status, ..o })
            } else {
                let chosen = if i < imp.chosen@.len() {
                    imp.chosen@.update(i as int, !imp.chosen@[i as int])
                } else {
                    imp.chosen@
                };
                &&& n.import matches Some(ni) && ni.chosen@ == chosen && ni == (ImportPick {
                    chosen: ni.chosen,
                    ..imp
                })
                &&& n.status@ == selected_count_status(count_true(chosen))
                &&& n == (App { import: n.import, status: n.status, ..o })
            },
        },
    }
}

/// `set_import_choices`: every entry not already saved becomes chosen
/// (`value`) or unchosen.
pub open spec fn set_import_choices_post(o: App, n: App, value: bool) -> bool {
    match o.import {
        None => n == o,
        Some(imp) => {
            &&& n.import matches Some(ni) && {
                &&& ni.chosen@.len() == imp.chosen@.len()
                &&& forall|i: int|
                    0 <= i < imp.chosen@.len() ==> #[trigger] ni.chosen@[i] == (value
                        && !already_at(imp, i))
                &&& ni == (ImportPick { chosen: ni.chosen, ..imp })
                &&& n.status@ == (if value {
                    selected_count_status(count_true(ni.chosen@))
                } else {
                    "None selected"@
                })
            }
            &&& n == (App { import: n.import, status: n.status, ..o })
        },
    }
}

/// `apply_import`: the chosen new stations are appended, the picker closes
/// and the selection moves to the last station.
pub open spec fn apply_import_post(o: App, n: App) -> bool {
    match o.import {
        None => n == (App { mode: Mode::Edit, ..o }),
        Some(imp) => {
            let added = spec_selected_new_stations(o.stations@, imp.stations@, imp.chosen@);
            if added.len() == 0 {
                n.status@ == "Nothing new to add"@ && n == (App {
                    import: None,
                    mode: Mode::Edit,
                    status: n.status,
                    ..o
                })
            } else {
                let total = o.stations@.len() + added.len();
                &&& n.stations@ == o.stations@ + added
                &&& n.status@ == "Do it! Added "@ + spec_decimal(added.len()) + " station(s)"@
                &&& n.actions@ == saved(o.actions@, o.save_enabled)
                &&& n == (App {
                    import: None,
                    mode: Mode::Edit,
                    status: n.status,
                    actions: n.actions,
                    ..with_selection((App { stations: n.stations, ..o }), (total - 1) as usize)
                })
            }
        },
    }
}

/// The selection points into the list (or the list is empty).
pub open spec fn selection_ok(a: App) -> bool {
    a.stations@.len() == 0 || a.selected < a.stations@.len()
}

/// In the edit list, a key that reorders or deletes finds the selection
/// inside the list whenever it acts on it.
pub open spec fn edit_key_in_range(a: App, key: KeyEvent) -> bool {
    &&& (is_char(key, 'J') || is_char(key, 'K')) && a.stations@.len() >= 2 ==> a.selected
        < a.stations@.len()
    &&& (is_char(key, 'd') || is_char(key, 'x') || key.code is Delete) && a.stations@.len() > 0
        ==> a.selected < a.stations@.len()
}

/// The length of the text field the mode edits (zero when it edits none).
pub open spec fn field_len(m: Mode) -> nat {
    match m {
        Mode::AddName { buffer, .. } => buffer@.len(),
        Mode::AddUrl { buffer, .. } => buffer@.len(),
        Mode::EditUrl { buffer, .. } => buffer@.len(),
        Mode::ImportUrl { buffer, .. } => buffer@.len(),
        _ => 0,
    }
}

/// The cursor of the text field the mode edits (zero when it edits none).
pub open spec fn field_cursor(m: Mode) -> nat {
    match m {
        Mode::AddName { cursor, .. } => cursor as nat,
        Mode::AddUrl { cursor, .. } => cursor as nat,
        Mode::EditUrl { cursor, .. } => cursor as nat,
        Mode::ImportUrl { cursor, .. } => cursor as nat,
        _ => 0,
    }
}

/// A key in the import picker.
pub open spec fn import_pick_key_post(o: App, n: App, key: KeyEvent) -> bool {
    if key.code is Esc || is_char(key, 'q') {
        n.status@ == "Import cancelled"@ && n == (App {
            import: None,
            mode: Mode::Edit,
            status: n.status,
            ..o
        })
    } else if key.code is Down || is_char(key, 'j') {
        import_delta_post(o, n, 1)
    } else if key.code is Up || is_char(key, 'k') {
        import_delta_post(o, n, -1)
    } else if is_char(key, ' ') {
        toggle_import_choice_post(o, n)
    } else if is_char(key, 'a') {
        set_import_choices_post(o, n, true)
    } else if is_char(key, 'n') {
        set_import_choices_post(o, n, false)
    } else if key.code is Enter || is_char(key, 'd') {
        apply_import_post(o, n)
    } else {
        n == o
    }
}

/// A key on the station list; `quit` when it ends the program.
pub open spec fn normal_key_post(o: App, n: App, key: KeyEvent, quit: bool) -> bool {
    if key.code is Esc || is_char(key, 'q') {
        quit && n == o
    } else {
        &&& !quit
        &&& if key.code is Down || is_char(key, 'j') {
            select_delta_post(o, n, 1)
        } else if key.code is Up || is_char(key, 'k') {
            select_delta_post(o, n, -1)
        } else if key.code is Enter {
            play_selected_post(o, n)
        } else if is_char(key, ' ') {
            toggle_playback_post(o, n)
        } else if is_char(key, '+') || is_char(key, '=') {
            n.actions@ == o.actions@.push(Action::AdjustVolume(5i32)) && n == (App {
                actions: n.actions,
                ..o
            })
        } else if is_char(key, '-') || is_char(key, '_') {
            n.actions@ == o.actions@.push(Action::AdjustVolume(-5i32)) && n == (App {
                actions: n.actions,
                ..o
            })
        } else if is_char(key, 'a') {
            &&& is_add_name(n.mode, Seq::empty(), 0)
            &&& n.status@ == "Type a station name, then Enter"@
            &&& n == (App { mode: n.mode, status: n.status, ..o })
        } else if is_char(key, 'e') {
            n.status@ == "Edit mode"@ && n == (App { mode: Mode::Edit, status: n.status, ..o })
        } else if is_char(key, '?') {
            n == (App { mode: Mode::Help, ..o })
        } else if is_char(key, 'f') {
            if spec_is_playing(o) {
                n == (App { mode: Mode::NowPlaying, ..o })
            } else {
                n.status@ == "Play a station first, then press f"@ && n == (App {
                    status: n.status,
                    ..o
                })
            }
        } else if is_char(key, '*') {
            toggle_favorite_post(o, n)
        } else {
            n == o
        }
    }
}

/// A key in the edit list.
pub open spec fn edit_key_post(o: App, n: App, key: KeyEvent) -> bool {
    if key.code is Esc || is_char(key, 'q') {
        n.status@ == "Ready"@ && n == (App { mode: Mode::Normal, status: n.status, ..o })
    } else if key.code is Down || is_char(key, 'j') {
        select_delta_post(o, n, 1)
    } else if key.code is Up || is_char(key, 'k') {
        select_delta_post(o, n, -1)
    } else if is_char(key, 'J') {
        move_selected_post(o, n, 1)
    } else if is_char(key, 'K') {
        move_selected_post(o, n, -1)
    } else if is_char(key, '*') {
        toggle_favorite_post(o, n)
    } else if is_char(key, 'd') || is_char(key, 'x') || key.code is Delete {
        delete_selected_post(o, n)
    } else if key.code is Enter || is_char(key, ' ') {
        play_selected_post(o, n)
    } else if is_char(key, 'u') {
        begin_edit_url_post(o, n)
    } else if is_char(key, 'i') {
        &&& is_import_url(n.mode, Seq::empty(), 0)
        &&& n.status@ == "Paste a stations.json URL, then Enter"@
        &&& n == (App { mode: n.mode, status: n.status, ..o })
    } else if is_char(key, '?') {
        n == (App { mode: Mode::Help, ..o })
    } else {
        n == o
    }
}

/// A key in one of the text prompts, by the mode it was pressed in.
pub open spec fn field_key_post(o: App, n: App, key: KeyEvent) -> bool {
    match o.mode {
        Mode::EditUrl { index, buffer, cursor } => {
            let t = edited_text(buffer@, cursor, key);
            let c = edited_cursor(buffer@, cursor, key);
            if key.code is Esc {
                n.status@ == "URL edit cancelled"@ && n == (App {
                    mode: Mode::Edit,
                    status: n.status,
                    ..o
                })
            } else if key.code is Enter {
                finish_edit_url_post(o, n, index, t)
            } else {
                is_edit_url(n.mode, index, t, c) && n == (App { mode: n.mode, ..o })
            }
        },
        Mode::ImportUrl { buffer, cursor } => {
            let t = edited_text(buffer@, cursor, key);
            let c = edited_cursor(buffer@, cursor, key);
            if key.code is Esc {
                n.status@ == "Import cancelled"@ && n == (App {
                    mode: Mode::Edit,
                    status: n.status,
                    ..o
                })
            } else if key.code is Enter {
                start_import_post(o, n, t)
            } else {
                is_import_url(n.mode, t, c) && n == (App { mode: n.mode, ..o })
            }
        },
        Mode::AddName { buffer, cursor } => {
            let t = edited_text(buffer@, cursor, key);
            let c = edited_cursor(buffer@, cursor, key);
            if key.code is Esc {
                n.status@ == "Add cancelled"@ && n == (App {
                    mode: Mode::Normal,
                    status: n.status,
                    ..o
                })
            } else if key.code is Enter {
                let name = spec_trim(t);
                &&& if name.len() == 0 {
                    n.status@ == "Name cannot be empty"@ && is_add_name(n.mode, Seq::empty(), 0)
                } else {
                    n.status@ == "Paste or type the stream URL, then Enter"@ && is_add_url(
                        n.mode,
                        name,
                        Seq::empty(),
                        0,
                    )
                }
                &&& n == (App { mode: n.mode, status: n.status, ..o })
            } else {
                is_add_name(n.mode, t, c) && n == (App { mode: n.mode, ..o })
            }
        },
        Mode::AddUrl { name, buffer, cursor } => {
            let t = edited_text(buffer@, cursor, key);
            let c = edited_cursor(buffer@, cursor, key);
            if key.code is Esc {
                n.status@ == "Add cancelled"@ && n == (App {
                    mode: Mode::Normal,
                    status: n.status,
                    ..o
                })
            } else if key.code is Enter {
                finish_add_post(o, n, name@, spec_trim(t))
            } else {
                is_add_url(n.mode, name@, t, c) && n == (App { mode: n.mode, ..o })
            }
        },
        _ => n == o,
    }
}

/// A key press at time `now`; `quit` when it ends the program.  Ctrl+C
/// quits from anywhere; any key closes the now-playing screen and the help.
pub open spec fn handle_key_post(o: App, n: App, key: KeyEvent, now: u64, quit: bool) -> bool {
    if ctrl_char(key, 'c') {
        quit && n == o
    } else {
        let o2 = App { last_input: now, ..o };
        match o.mode {
            Mode::NowPlaying => !quit && n.status@ == "Ready"@ && n == (App {
                mode: Mode::Normal,
                status: n.status,
                ..o2
            }),
            Mode::Help => !quit && n == (App { mode: Mode::Normal, ..o2 }),
            Mode::Edit => !quit && edit_key_post(o2, n, key),
            Mode::ImportPick => !quit && import_pick_key_post(o2, n, key),
            Mode::Normal => normal_key_post(o2, n, key, quit),
            _ => !quit && field_key_post(o2, n, key),
        }
    }
}

/// A paste into the text prompt, with its line breaks dropped.
pub open spec fn paste_post(o: App, n: App, text: Seq<char>) -> bool {
    let t = without_line_breaks(text);
    match o.mode {
        Mode::AddName { buffer, cursor } => is_add_name(
            n.mode,
            inserted(buffer@, clamp_cursor(cursor, buffer@.len()), t),
            cursor + t.len(),
        ) && n == (App { mode: n.mode, ..o }),
        Mode::AddUrl { name, buffer, cursor } => is_add_url(
            n.mode,
            name@,
            inserted(buffer@, clamp_cursor(cursor, buffer@.len()), t),
            cursor + t.len(),
        ) && n == (App { mode: n.mode, ..o }),
        Mode::EditUrl { index, buffer, cursor } => is_edit_url(
            n.mode,
            index,
            inserted(buffer@, clamp_cursor(cursor, buffer@.len()), t),
            cursor + t.len(),
        ) && n == (App { mode: n.mode, ..o }),
        Mode::ImportUrl { buffer, cursor } => is_import_url(
            n.mode,
            inserted(buffer@, clamp_cursor(cursor, buffer@.len()), t),
            cursor + t.len(),
        ) && n == (App { mode: n.mode, ..o }),
        _ => n == o,
    }
}

impl App {
    /// The state at start-up, from the outcome of loading the station list.
    /// A missing file gives the default list and queues a save; an unreadable
    /// one gives the default list and leaves the file alone.
    pub fn new(loaded: Result<Vec<Station>, LoadError>, now: u64) -> (app: App)
        ensures
            app.selected == 0,
            app.mode == Mode::Normal,
            app.save_enabled,
            !app.player_running,
            app.playing_url is None,
            app.playing_since is None,
            app.last_input == now,
            app.last_metadata_at is None,
            app.track_title is None,
            app.icy_name is None,
            app.import is None,
            app.list_state.selected == synced_list(app.stations@.len(), 0),
            match loaded {
                Ok(st) => app.stations@ == st@ && app.actions@ == Seq::<Action>::empty()
                    && app.status@ == (if st@.len() == 0 {
                    "No stations saved. Press a to add one."@
                } else {
                    "Ready"@
                }),
                Err(LoadError::NotFound) => is_default_list(app.stations@) && app.actions@ == seq![
                    Action::Save,
                ] && app.status@ == "Created default station list"@,
                Err(e) => is_default_list(app.stations@) && app.actions@ == Seq::<Action>::empty()
                    && app.status@ == spec_load_error_message(e)
                    + " — using defaults, original file left untouched"@,
            },
    {
        let ghost l = loaded;
        let (stations, status, should_save) = match loaded {
            Ok(stations) => {
                let status = if stations.len() == 0 {
                    String::from_str("No stations saved. Press a to add one.")
                } else {
                    String::from_str("Ready")
                };
                (stations, status, false)
            },
            Err(LoadError::NotFound) => {
                (default_stations(), String::from_str("Created default station list"), true)
            },
            Err(err) => {
                let status = err.message().concat(
                    " — using defaults, original file left untouched",
                );
                (default_stations(), status, false)
            },
        };
        let mut app = App {
            stations,
            selected: 0,
            status,
            mode: Mode::Normal,
            list_state: ListState::default(),
            save_enabled: true,
            player_running: false,
            playing_url: None,
            playing_since: None,
            last_input: now,
            last_metadata_at: None,
            track_title: None,
            icy_name: None,
            import: None,
            actions: Vec::new(),
        };
        app.sync_list_state();
        if should_save {
            app.persist();
        }
        app
    }

    /// A small state for trying the screens: one favorite station, nothing
    /// playing, saving off.
    pub fn fixture() -> (app: App)
        ensures
            app.stations@.len() == 1,
            app.stations@[0].name@ == "BBC World Service"@,
            app.stations@[0].url@ == "https://example.com/bbc"@,
            app.stations@[0].favorite,
            app.selected == 0,
            app.list_state.selected == Some(0usize),
            app.status@ == "Ready"@,
            app.mode == Mode::Normal,
            !app.save_enabled,
            !app.player_running,
            app.playing_url is None,
            app.playing_since is None,
            app.last_input == 0,
            app.last_metadata_at is None,
            app.track_title is None,
            app.icy_name is None,
            app.import is None,
            app.actions@ == Seq::<Action>::empty(),
    {
        let mut stations: Vec<Station> = Vec::new();
        stations.push(
            Station {
                name: String::from_str("BBC World Service"),
                url: String::from_str("https://example.com/bbc"),
                favorite: true,
            },
        );
        let mut app = App {
            stations,
            selected: 0,
            status: String::from_str("Ready"),
            mode: Mode::Normal,
            list_state: ListState::default(),
            save_enabled: false,
            player_running: false,
            playing_url: None,
            playing_since: None,
            last_input: 0,
            last_metadata_at: None,
            track_title: None,
            icy_name: None,
            import: None,
            actions: Vec::new(),
        };
        app.sync_list_state();
        app
    }

    /// Queue a save of the station list, when saving is on.
    pub fn persist(&mut self)
        ensures
            final(self).actions@ == saved(old(self).actions@, old(self).save_enabled),
            *final(self) == (App { actions: final(self).actions, ..*old(self) }),
    {
        if self.save_enabled {
            self.actions.push(Action::Save);
        }
    }

    /// Hand the queued actions to the caller, oldest first.
    pub fn take_actions(&mut self) -> (r: Vec<Action>)
        ensures
            r@ == old(self).actions@,
            final(self).actions@ == Seq::<Action>::empty(),
            *final(self) == (App { actions: final(self).actions, ..*old(self) }),
    {
        let mut out: Vec<Action> = Vec::new();
        std::mem::swap(&mut out, &mut self.actions);
        out
    }

    /// Replace the status line.
    pub fn set_status(&mut self, status: String)
        ensures
            *final(self) == (App { status: status, ..*old(self) }),
    {
        self.status = status;
    }

    /// Keep the selection inside the list and the highlight on it.
    pub fn sync_list_state(&mut self)
        ensures
            *final(self) == with_selection(*old(self), old(self).selected),
    {
        if self.stations.len() == 0 {
            self.selected = 0;
            self.list_state.select(None);
            return;
        }
        if self.selected >= self.stations.len() {
            self.selected = self.stations.len() - 1;
        }
        self.list_state.select(Some(self.selected));
    }

    /// Move the selection by `delta`, wrapping around the list.
    pub fn select_delta(&mut self, delta: isize)
        ensures
            select_delta_post(*old(self), *final(self), delta as int),
    {
        let len = self.stations.len();
        if len == 0 {
            self.selected = 0;
            self.sync_list_state();
            return;
        }
        let next = wrap_index(self.selected, delta, len);
        self.selected = next;
        self.sync_list_state();
        self.status = String::from_str("Selected: ").concat(self.stations[next].name.as_str());
    }

    /// Forget the details of the stream that was playing; the now-playing
    /// screen closes.
    pub fn clear_playback_state(&mut self)
        ensures
            *final(self) == playback_cleared(*old(self)),
    {
        self.playing_since = None;
        self.last_metadata_at = None;
        self.track_title = None;
        self.icy_name = None;
        if matches!(self.mode, Mode::NowPlaying) {
            self.mode = Mode::Normal;
        }
    }

    /// Stop playback.
    pub fn stop(&mut self)
        ensures
            final(self).actions@ == old(self).actions@.push(Action::StopPlayer),
            *final(self) == (App { actions: final(self).actions, ..stopped(*old(self)) }),
    {
        self.actions.push(Action::StopPlayer);
        self.player_running = false;
        self.playing_url = None;
        self.clear_playback_state();
    }

    /// Whether a stream is playing.
    pub fn is_playing(&self) -> (r: bool)
        ensures
            r == spec_is_playing(*self),
    {
        self.player_running && self.playing_url.is_some()
    }

    /// The position in the list of the station that is playing.
    pub fn playing_index(&self) -> (r: Option<usize>)
        ensures
            match spec_playing_index(*self) {
                Some(i) => r matches Some(j) && j as int == i,
                None => r is None,
            },
    {
        let url = match &self.playing_url {
            Some(u) => u,
            None => return None,
        };
        let mut i: usize = 0;
        while i < self.stations.len()
            invariant
                i <= self.stations@.len(),
                self.playing_url == Some(*url),
                url_index_from(self.stations@, url@, 0) == url_index_from(
                    self.stations@,
                    url@,
                    i as int,
                ),
            decreases self.stations@.len() - i,
        {
            if self.stations[i].url == *url {
                return Some(i);
            }
            i = i + 1;
        }
        None
    }

    /// The name of the station that is playing, or the program's name.
    pub fn playing_station_name(&self) -> (r: &str)
        ensures
            r@ == match spec_playing_index(*self) {
                Some(i) => self.stations@[i].name@,
                None => "radio-tui"@,
            },
    {
        proof {
            if self.playing_url is Some {
                lemma_url_index_bounds(self.stations@, self.playing_url->0@, 0);
            }
        }
        match self.playing_index() {
            Some(i) => self.stations[i].name.as_str(),
            None => "radio-tui",
        }
    }

    /// The track title the stream announced, if any.
    pub fn track_title(&self) -> (r: Option<&str>)
        ensures
            match self.track_title {
                Some(t) => r matches Some(x) && x@ == t@,
                None => r is None,
            },
    {
        match &self.track_title {
            Some(t) => Some(t.as_str()),
            None => None,
        }
    }

    /// The station name the stream announced, if any.
    pub fn icy_name(&self) -> (r: Option<&str>)
        ensures
            match self.icy_name {
                Some(t) => r matches Some(x) && x@ == t@,
                None => r is None,
            },
    {
        match &self.icy_name {
            Some(t) => Some(t.as_str()),
            None => None,
        }
    }

    /// Flip the favorite flag of the highlighted station: a new favorite
    /// moves to the top, an unfavorited one lands after the remaining
    /// favorites, and the selection follows it.
    pub fn toggle_favorite(&mut self)
        ensures
            toggle_favorite_post(*old(self), *final(self)),
    {
        let index = match self.list_state.selected() {
            Some(i) => i,
            None => {
                self.status = String::from_str("No station selected");
                return;
            },
        };
        if index >= self.stations.len() {
            return;
        }
        let ghost s = self.stations@;
        let was_favorite = self.stations[index].favorite;
        let mut station = self.stations.remove(index);
        station.favorite = !was_favorite;
        let insert_at = if station.favorite {
            0
        } else {
            first_non_favorite(&self.stations)
        };
        proof {
            lemma_first_non_favorite_bounds(s.remove(index as int), 0);
        }
        let name = station.name.clone();
        self.stations.insert(insert_at, station);
        self.selected = insert_at;
        self.sync_list_state();
        self.status = if was_favorite {
            String::from_str("Unfavorited ").concat(name.as_str())
        } else {
            String::from_str("Favorited ").concat(name.as_str())
        };
        self.persist();
    }

    /// Swap the selected station with its neighbour `delta` away (wrapping).
    pub fn move_selected(&mut self, delta: isize)
        requires
            old(self).stations@.len() >= 2 ==> old(self).selected < old(self).stations@.len(),
        ensures
            move_selected_post(*old(self), *final(self), delta as int),
    {
        let len = self.stations.len();
        if len < 2 {
            return;
        }
        let from = self.selected;
        let to = wrap_index(from, delta, len);
        let a = self.stations[from].clone();
        let b = self.stations[to].clone();
        self.stations.set(from, b);
        self.stations.set(to, a);
        self.selected = to;
        self.sync_list_state();
        self.status = String::from_str("Reordered stations");
        self.persist();
    }

    /// Remove the selected station; playback stops when it was the one
    /// playing, and the selection stays in the list.
    pub fn delete_selected(&mut self)
        requires
            old(self).stations@.len() > 0 ==> old(self).selected < old(self).stations@.len(),
        ensures
            delete_selected_post(*old(self), *final(self)),
    {
        if self.stations.len() == 0 {
            self.status = String::from_str("No stations to delete");
            return;
        }
        let station = self.stations.remove(self.selected);
        let was_playing = match &self.playing_url {
            Some(u) => *u == station.url,
            None => false,
        };
        if was_playing {
            self.stop();
        }
        if self.selected >= self.stations.len() && self.selected > 0 {
            self.selected = self.selected - 1;
        }
        self.sync_list_state();
        self.status = String::from_str("Removed ").concat(station.name.as_str());
        self.persist();
    }

    /// Start the selected station: whatever plays stops, and the player is
    /// asked to start on the selected stream.
    pub fn play_selected(&mut self)
        ensures
            play_selected_post(*old(self), *final(self)),
    {
        if self.selected >= self.stations.len() {
            self.status = String::from_str("No station selected");
            return;
        }
        let station = self.stations[self.selected].clone();
        self.stop();
        self.actions.push(Action::StartPlayer { name: station.name, url: station.url });
    }

    /// Stop when playing, else start the selected station.
    pub fn toggle_playback(&mut self)
        ensures
            toggle_playback_post(*old(self), *final(self)),
    {
        if self.is_playing() {
            self.stop();
            self.status = String::from_str("Stopped");
        } else {
            self.play_selected();
        }
    }

    /// The player started on `url` at time `now`.
    pub fn player_started(&mut self, name: &str, url: String, now: u64)
        ensures
            final(self).status@ == "Playing: "@ + name@,
            *final(self) == (App {
                player_running: true,
                playing_url: Some(url),
                playing_since: Some(now),
                last_input: now,
                last_metadata_at: None,
                track_title: None,
                icy_name: None,
                status: final(self).status,
                ..*old(self)
            }),
    {
        self.player_running = true;
        self.playing_url = Some(url);
        self.playing_since = Some(now);
        self.last_input = now;
        self.last_metadata_at = None;
        self.track_title = None;
        self.icy_name = None;
        self.status = String::from_str("Playing: ").concat(name);
    }

    /// The player could not be started; `not_found` when it is not installed.
    pub fn player_failed(&mut self, not_found: bool, detail: &str)
        ensures
            final(self).status@ == (if not_found {
                "Failed to start mpv — is it installed?"@
            } else {
                "Failed to start mpv: "@ + detail@
            }),
            *final(self) == (App { status: final(self).status, ..*old(self) }),
    {
        self.status = if not_found {
            String::from_str("Failed to start mpv — is it installed?")
        } else {
            String::from_str("Failed to start mpv: ").concat(detail)
        };
    }

    /// The player process ended by itself, successfully or not.
    pub fn player_exited(&mut self, success: bool)
        ensures
            final(self).status@ == (if success {
                "Playback ended"@
            } else {
                "Playback stopped (mpv exited)"@
            }),
            final(self).actions@ == old(self).actions@.push(Action::StopPlayer),
            *final(self) == (App {
                status: final(self).status,
                actions: final(self).actions,
                ..stopped(*old(self))
            }),
    {
        self.stop();
        self.status = if success {
            String::from_str("Playback ended")
        } else {
            String::from_str("Playback stopped (mpv exited)")
        };
    }

    /// The player process could not be watched any more.
    pub fn player_lost(&mut self, detail: &str)
        ensures
            final(self).status@ == "Lost mpv process: "@ + detail@,
            final(self).actions@ == old(self).actions@.push(Action::StopPlayer),
            *final(self) == (App {
                status: final(self).status,
                actions: final(self).actions,
                ..stopped(*old(self))
            }),
    {
        self.stop();
        self.status = String::from_str("Lost mpv process: ").concat(detail);
    }

    /// Saving the station list failed.
    pub fn save_failed(&mut self, detail: &str)
        ensures
            final(self).status@ == "Failed to save config: "@ + detail@,
            *final(self) == (App { status: final(self).status, ..*old(self) }),
    {
        self.status = String::from_str("Failed to save config: ").concat(detail);
    }

    /// Open the URL editor on the selected station.
    pub fn begin_edit_url(&mut self)
        ensures
            begin_edit_url_post(*old(self), *final(self)),
    {
        if self.selected >= self.stations.len() {
            self.status = String::from_str("No station selected");
            return;
        }
        let buffer = self.stations[self.selected].url.clone();
        let cursor = buffer.as_str().unicode_len();
        self.mode = Mode::EditUrl { index: self.selected, buffer, cursor };
        self.status = String::from_str("Fix the URL, then Enter");
    }

    /// Store the edited URL of station `index`.
    pub fn finish_edit_url(&mut self, index: usize, url: String)
        ensures
            finish_edit_url_post(*old(self), *final(self), index, url@),
    {
        let fixed = trim(url.as_str());
        if !valid_stream_url(fixed.as_str()) {
            self.status = String::from_str("URL must start with http:// or https://");
            let cursor = fixed.as_str().unicode_len();
            self.mode = Mode::EditUrl { index, buffer: fixed, cursor };
            return;
        }
        if index >= self.stations.len() {
            self.mode = Mode::Edit;
            self.status = String::from_str("That station is gone");
            return;
        }
        if self.stations[index].url == fixed {
            self.mode = Mode::Edit;
            self.status = String::from_str("URL unchanged");
            return;
        }
        let mut j: usize = 0;
        while j < self.stations.len()
            invariant
                *self == *old(self),
                fixed@ == spec_trim(url@),
                spec_valid_stream_url(fixed@),
                index < self.stations@.len(),
                self.stations@[index as int].url@ != fixed@,
                j <= self.stations@.len(),
                forall|k: int|
                    0 <= k < j && k != index ==> #[trigger] self.stations@[k].url@ != fixed@,
            decreases self.stations@.len() - j,
        {
            if j != index && self.stations[j].url == fixed {
                assert(url_elsewhere(self.stations@, index as int, fixed@));
                self.status = String::from_str("That stream is already in the list");
                let cursor = fixed.as_str().unicode_len();
                self.mode = Mode::EditUrl { index, buffer: fixed, cursor };
                return;
            }
            j = j + 1;
        }
        let was_playing = match &self.playing_url {
            Some(u) => *u == self.stations[index].url,
            None => false,
        };
        let name = self.stations[index].name.clone();
        let favorite = self.stations[index].favorite;
        let station = Station { name: self.stations[index].name.clone(), url: fixed.clone(), favorite };
        self.stations.set(index, station);
        if was_playing {
            self.playing_url = Some(fixed);
        }
        self.mode = Mode::Edit;
        self.status = String::from_str("Updated URL for ").concat(name.as_str());
        self.persist();
    }

    /// Add a station named `name` with the stream `url`.
    pub fn finish_add(&mut self, name: String, url: String)
        ensures
            finish_add_post(*old(self), *final(self), name@, url@),
    {
        if !valid_stream_url(url.as_str()) {
            self.status = String::from_str("URL must start with http:// or https://");
            let cursor = url.as_str().unicode_len();
            self.mode = Mode::AddUrl { name, buffer: url, cursor };
            return;
        }
        if has_url(&self.stations, &url) {
            self.status = String::from_str("That stream is already in the list");
            self.mode = Mode::Normal;
            return;
        }
        let status = String::from_str("Added ").concat(name.as_str());
        let ghost before = self.stations@;
        self.stations.push(Station { name, url, favorite: false });
        assert(self.stations@.subrange(0, before.len() as int) =~= before);
        self.selected = self.stations.len() - 1;
        self.sync_list_state();
        self.mode = Mode::Normal;
        self.status = status;
        self.persist();
    }

    /// Check the list URL and queue its fetch.
    pub fn start_import(&mut self, url: String)
        ensures
            start_import_post(*old(self), *final(self), url@),
    {
        let url = trim(url.as_str());
        let cursor = url.as_str().unicode_len();
        if !valid_list_url(url.as_str()) {
            self.status = String::from_str("List URL must start with http:// or https://");
            self.mode = Mode::ImportUrl { buffer: url, cursor };
            return;
        }
        let ghost before = self.actions@;
        self.actions.push(Action::FetchList(url.clone()));
        assert(self.actions@.subrange(0, before.len() as int) =~= before);
        self.mode = Mode::ImportUrl { buffer: url, cursor };
    }

    /// The outcome of fetching the list at `url`.
    pub fn finish_import(&mut self, url: String, result: Result<Vec<Station>, LoadError>)
        ensures
            finish_import_post(
                *old(self),
                *final(self),
                url@,
                match result {
                    Ok(v) => Ok(v@),
                    Err(e) => Err(e),
                },
            ),
    {
        match result {
            Ok(stations) => {
                let mut already: Vec<bool> = Vec::new();
                let mut chosen: Vec<bool> = Vec::new();
                let mut new_count: usize = 0;
                let mut i: usize = 0;
                while i < stations.len()
                    invariant
                        i <= stations@.len(),
                        already@.len() == i,
                        chosen@.len() == i,
                        new_count == count_true(chosen@),
                        new_count <= i,
                        forall|k: int|
                            0 <= k < i ==> #[trigger] already@[k] == url_in(
                                self.stations@,
                                stations@[k].url@,
                            ) && chosen@[k] == !already@[k],
                    decreases stations@.len() - i,
                {
                    let have = has_url(&self.stations, &stations[i].url);
                    let ghost prev = chosen@;
                    already.push(have);
                    chosen.push(!have);
                    proof {
                        assert(chosen@.drop_last() =~= prev);
                    }
                    if !have {
                        new_count = new_count + 1;
                    }
                    i = i + 1;
                }
                let mut list_state = ListState::default();
                if stations.len() > 0 {
                    list_state.select(Some(0));
                }
                self.status = if new_count == 0 {
                    String::from_str("Every station in that list is already saved")
                } else {
                    decimal(new_count).concat(" new • Space toggle • Enter Do it!")
                };
                self.import = Some(ImportPick { source: url, stations, chosen, already, list_state });
                self.mode = Mode::ImportPick;
            },
            Err(err) => {
                self.status = String::from_str("Import failed: ").concat(err.message().as_str());
                let cursor = url.as_str().unicode_len();
                self.mode = Mode::ImportUrl { buffer: url, cursor };
            },
        }
    }

    /// Move the picker's highlight by `delta`, wrapping.
    pub fn import_delta(&mut self, delta: isize)
        ensures
            import_delta_post(*old(self), *final(self), delta as int),
    {
        let ghost o = *self;
        match &mut self.import {
            None => {},
            Some(import) => {
                let len = import.stations.len();
                if len > 0 {
                    let current = match import.list_state.selected() {
                        Some(c) => c,
                        None => 0,
                    };
                    let next = wrap_index(current, delta, len);
                    import.list_state.select(Some(next));
                }
            },
        }
    }

    /// Flip the choice of the highlighted entry of the picker.
    pub fn toggle_import_choice(&mut self)
        ensures
            toggle_import_choice_post(*old(self), *final(self)),
    {
        let count = match &mut self.import {
            None => return,
            Some(import) => {
                let index = match import.list_state.selected() {
                    None => return,
                    Some(i) => i,
                };
                if index < import.already.len() && import.already[index] {
                    None
                } else {
                    if index < import.chosen.len() {
                        let flag = import.chosen[index];
                        import.chosen.set(index, !flag);
                    }
                    Some(count_chosen(&import.chosen))
                }
            },
        };
        self.status = match count {
            None => String::from_str("Already in your list"),
            Some(n) => decimal(n).concat(" selected • Enter Do it!"),
        };
    }

    /// Choose every entry not already saved (`value`), or none.
    pub fn set_import_choices(&mut self, value: bool)
        ensures
            set_import_choices_post(*old(self), *final(self), value),
    {
        let n = match &mut self.import {
            None => return,
            Some(import) => {
                let ghost before = *import;
                let mut i: usize = 0;
                while i < import.chosen.len()
                    invariant
                        *import == (ImportPick { chosen: import.chosen, ..before }),
                        i <= import.chosen@.len(),
                        import.chosen@.len() == before.chosen@.len(),
                        forall|k: int|
                            0 <= k < i ==> #[trigger] import.chosen@[k] == (value && !(0 <= k
                                < import.already@.len() && import.already@[k])),
                    decreases import.chosen@.len() - i,
                {
                    let have = i < import.already.len() && import.already[i];
                    import.chosen.set(i, value && !have);
                    i = i + 1;
                }
                count_chosen(&import.chosen)
            },
        };
        self.status = if value {
            decimal(n).concat(" selected • Enter Do it!")
        } else {
            String::from_str("None selected")
        };
    }

    /// Append the chosen new stations of the picker and close it.
    pub fn apply_import(&mut self)
        ensures
            apply_import_post(*old(self), *final(self)),
    {
        let import = match self.import.take() {
            None => {
                self.mode = Mode::Edit;
                return;
            },
            Some(import) => import,
        };
        let added = selected_new_stations(&self.stations, &import.stations, &import.chosen);
        if added.len() == 0 {
            self.mode = Mode::Edit;
            self.status = String::from_str("Nothing new to add");
            return;
        }
        let count = added.len();
        let mut added = added;
        self.stations.append(&mut added);
        self.selected = self.stations.len() - 1;
        self.sync_list_state();
        self.mode = Mode::Edit;
        self.status = String::from_str("Do it! Added ").concat(decimal(count).as_str()).concat(
            " station(s)",
        );
        self.persist();
    }

    /// Apply an editing key to a prompt's text and cursor; true when the key
    /// ends the prompt (Esc or Enter).
    pub fn handle_input_key(&mut self, key: KeyEvent, buffer: &mut String, cursor: &mut usize) -> (done: bool)
        requires
            old(buffer)@.len() < usize::MAX,
        ensures
            *final(self) == *old(self),
            done == ends_field(key),
            final(buffer)@ == edited_text(old(buffer)@, *old(cursor), key),
            *final(cursor) == edited_cursor(old(buffer)@, *old(cursor), key),
    {
        edit_field(key, buffer, cursor)
    }

    /// A key in the import picker.
    pub fn handle_import_pick_key(&mut self, key: KeyEvent)
        ensures
            import_pick_key_post(*old(self), *final(self), key),
    {
        match key.code {
            KeyCode::Esc | KeyCode::Char('q') => {
                self.import = None;
                self.mode = Mode::Edit;
                self.status = String::from_str("Import cancelled");
            },
            KeyCode::Down | KeyCode::Char('j') => self.import_delta(1),
            KeyCode::Up | KeyCode::Char('k') => self.import_delta(-1),
            KeyCode::Char(' ') => self.toggle_import_choice(),
            KeyCode::Char('a') => self.set_import_choices(true),
            KeyCode::Char('n') => self.set_import_choices(false),
            KeyCode::Enter | KeyCode::Char('d') => self.apply_import(),
            _ => {},
        }
    }

    /// A key on the station list; true when it ends the program.
    pub fn handle_normal_key(&mut self, key: KeyEvent) -> (quit: bool)
        ensures
            normal_key_post(*old(self), *final(self), key, quit),
    {
        match key.code {
            KeyCode::Esc | KeyCode::Char('q') => return true,
            KeyCode::Down | KeyCode::Char('j') => self.select_delta(1),
            KeyCode::Up | KeyCode::Char('k') => self.select_delta(-1),
            KeyCode::Enter => self.play_selected(),
            KeyCode::Char(' ') => self.toggle_playback(),
            KeyCode::Char('+') | KeyCode::Char('=') => self.actions.push(Action::AdjustVolume(5)),
            KeyCode::Char('-') | KeyCode::Char('_') => self.actions.push(Action::AdjustVolume(-5)),
            KeyCode::Char('a') => {
                self.mode = Mode::AddName { buffer: String::new(), cursor: 0 };
                self.status = String::from_str("Type a station name, then Enter");
            },
            KeyCode::Char('e') => {
                self.mode = Mode::Edit;
                self.status = String::from_str("Edit mode");
            },
            KeyCode::Char('?') => {
                self.mode = Mode::Help;
            },
            KeyCode::Char('f') => {
                if self.is_playing() {
                    self.mode = Mode::NowPlaying;
                } else {
                    self.status = String::from_str("Play a station first, then press f");
                }
            },
            KeyCode::Char('*') => self.toggle_favorite(),
            _ => {},
        }
        false
    }

    /// Any key on the now-playing screen returns to the list.
    pub fn handle_now_playing_key(&mut self, key: KeyEvent) -> (quit: bool)
        ensures
            !quit,
            final(self).status@ == "Ready"@,
            *final(self) == (App { mode: Mode::Normal, status: final(self).status, ..*old(self) }),
    {
        self.mode = Mode::Normal;
        self.status = String::from_str("Ready");
        false
    }

    /// A key in the edit list.
    pub fn handle_edit_key(&mut self, key: KeyEvent)
        requires
            edit_key_in_range(*old(self), key),
        ensures
            edit_key_post(*old(self), *final(self), key),
    {
        match key.code {
            KeyCode::Esc | KeyCode::Char('q') => {
                self.mode = Mode::Normal;
                self.status = String::from_str("Ready");
            },
            KeyCode::Down | KeyCode::Char('j') => self.select_delta(1),
            KeyCode::Up | KeyCode::Char('k') => self.select_delta(-1),
            KeyCode::Char('J') => self.move_selected(1),
            KeyCode::Char('K') => self.move_selected(-1),
            KeyCode::Char('*') => self.toggle_favorite(),
            KeyCode::Char('d') | KeyCode::Char('x') | KeyCode::Delete => self.delete_selected(),
            KeyCode::Enter | KeyCode::Char(' ') => self.play_selected(),
            KeyCode::Char('u') => self.begin_edit_url(),
            KeyCode::Char('i') => {
                self.mode = Mode::ImportUrl { buffer: String::new(), cursor: 0 };
                self.status = String::from_str("Paste a stations.json URL, then Enter");
            },
            KeyCode::Char('?') => self.mode = Mode::Help,
            _ => {},
        }
    }

    /// A key in one of the text prompts.
    fn handle_field_key(&mut self, key: KeyEvent)
        requires
            field_len(old(self).mode) < usize::MAX,
        ensures
            field_key_post(*old(self), *final(self), key),
    {
        let mode = self.mode.clone();
        match mode {
            Mode::EditUrl { index, mut buffer, mut cursor } => {
                if self.handle_input_key(key, &mut buffer, &mut cursor) {
                    match key.code {
                        KeyCode::Esc => {
                            self.mode = Mode::Edit;
                            self.status = String::from_str("URL edit cancelled");
                        },
                        _ => self.finish_edit_url(index, buffer),
                    }
                } else {
                    self.mode = Mode::EditUrl { index, buffer, cursor };
                }
            },
            Mode::ImportUrl { mut buffer, mut cursor } => {
                if self.handle_input_key(key, &mut buffer, &mut cursor) {
                    match key.code {
                        KeyCode::Esc => {
                            self.mode = Mode::Edit;
                            self.status = String::from_str("Import cancelled");
                        },
                        _ => self.start_import(buffer),
                    }
                } else {
                    self.mode = Mode::ImportUrl { buffer, cursor };
                }
            },
            Mode::AddName { mut buffer, mut cursor } => {
                if self.handle_input_key(key, &mut buffer, &mut cursor) {
                    match key.code {
                        KeyCode::Esc => {
                            self.mode = Mode::Normal;
                            self.status = String::from_str("Add cancelled");
                        },
                        _ => {
                            let name = trim(buffer.as_str());
                            if name.as_str().unicode_len() == 0 {
                                self.status = String::from_str("Name cannot be empty");
                                self.mode = Mode::AddName { buffer: String::new(), cursor: 0 };
                            } else {
                                self.mode = Mode::AddUrl { name, buffer: String::new(), cursor: 0 };
                                self.status = String::from_str(
                                    "Paste or type the stream URL, then Enter",
                                );
                            }
                        },
                    }
                } else {
                    self.mode = Mode::AddName { buffer, cursor };
                }
            },
            Mode::AddUrl { name, mut buffer, mut cursor } => {
                if self.handle_input_key(key, &mut buffer, &mut cursor) {
                    match key.code {
                        KeyCode::Esc => {
                            self.mode = Mode::Normal;
                            self.status = String::from_str("Add cancelled");
                        },
                        _ => {
                            let url = trim(buffer.as_str());
                            self.finish_add(name, url);
                        },
                    }
                } else {
                    self.mode = Mode::AddUrl { name, buffer, cursor };
                }
            },
            _ => {},
        }
    }

    /// A key press at time `now`; true when the program should end.
    pub fn handle_key(&mut self, key: KeyEvent, now: u64) -> (quit: bool)
        requires
            !ctrl_char(key, 'c') && old(self).mode is Edit ==> edit_key_in_range(*old(self), key),
            field_len(old(self).mode) < usize::MAX,
        ensures
            handle_key_post(*old(self), *final(self), key, now, quit),
    {
        if key.modifiers.control && matches!(key.code, KeyCode::Char('c')) {
            return true;
        }
        self.last_input = now;
        match self.mode {
            Mode::NowPlaying => {
                return self.handle_now_playing_key(key);
            },
            Mode::Help => {
                self.mode = Mode::Normal;
            },
            Mode::Edit => self.handle_edit_key(key),
            Mode::ImportPick => self.handle_import_pick_key(key),
            Mode::Normal => {
                if self.handle_normal_key(key) {
                    return true;
                }
            },
            _ => self.handle_field_key(key),
        }
        false
    }

    /// Paste `text` into the open prompt, without its line breaks.
    pub fn handle_paste(&mut self, text: String)
        requires
            field_cursor(old(self).mode) + without_line_breaks(text@).len() <= usize::MAX,
        ensures
            paste_post(*old(self), *final(self), text@),
    {
        let text = strip_line_breaks(text.as_str());
        match &mut self.mode {
            Mode::AddName { buffer, cursor } => insert_at_cursor(buffer, cursor, text.as_str()),
            Mode::AddUrl { buffer, cursor, .. } => insert_at_cursor(buffer, cursor, text.as_str()),
            Mode::EditUrl { buffer, cursor, .. } => insert_at_cursor(buffer, cursor, text.as_str()),
            Mode::ImportUrl { buffer, cursor } => insert_at_cursor(buffer, cursor, text.as_str()),
            _ => {},
        }
    }

    /// The open prompt's label, text and cursor.
    pub fn input_field(&self) -> (r: Option<(&str, &str, usize)>)
        ensures
            match self.mode {
                Mode::AddName { buffer, cursor } => r matches Some(f) && f.0@ == "Station name"@
                    && f.1@ == buffer@ && f.2 == cursor,
                Mode::AddUrl { buffer, cursor, .. } => r matches Some(f) && f.0@ == "Stream URL"@
                    && f.1@ == buffer@ && f.2 == cursor,
                Mode::EditUrl { buffer, cursor, .. } => r matches Some(f) && f.0@ == "Stream URL"@
                    && f.1@ == buffer@ && f.2 == cursor,
                Mode::ImportUrl { buffer, cursor } => r matches Some(f) && f.0@
                    == "Remote station list URL"@ && f.1@ == buffer@ && f.2 == cursor,
                _ => r is None,
            },
    {
        match &self.mode {
            Mode::AddName { buffer, cursor } => Some(("Station name", buffer.as_str(), *cursor)),
            Mode::AddUrl { buffer, cursor, .. } => Some(("Stream URL", buffer.as_str(), *cursor)),
            Mode::EditUrl { buffer, cursor, .. } => Some(("Stream URL", buffer.as_str(), *cursor)),
            Mode::ImportUrl { buffer, cursor } => Some(
                ("Remote station list URL", buffer.as_str(), *cursor),
            ),
            _ => None,
        }
    }

    /// Take in the metadata the stream reported: a title or a station name
    /// that it names replaces the one shown.
    pub fn apply_stream_metadata(&mut self, data: &MetaValue)
        ensures
            ({
                let (t, nm) = spec_stream_metadata(*data);
                &&& (if t is Some {
                    opt_view(final(self).track_title) == t
                } else {
                    final(self).track_title == old(self).track_title
                })
                &&& (if nm is Some {
                    opt_view(final(self).icy_name) == nm
                } else {
                    final(self).icy_name == old(self).icy_name
                })
                &&& *final(self) == (App {
                    track_title: final(self).track_title,
                    icy_name: final(self).icy_name,
                    ..*old(self)
                })
            }),
    {
        let (title, name) = parse_stream_metadata(data);
        if title.is_some() {
            self.track_title = title;
        }
        if name.is_some() {
            self.icy_name = name;
        }
    }

    /// Take in the media title the player reported.
    pub fn apply_media_title(&mut self, value: &MetaValue)
        ensures
            opt_view(final(self).track_title) == spec_title_from_value(*value),
            *final(self) == (App { track_title: final(self).track_title, ..*old(self) }),
    {
        self.track_title = title_from_value(value);
    }

    /// Whether the now-playing screen should open at `now`: on the list,
    /// after a minute of playback and a minute without keys.
    pub fn ready_for_now_playing(&self, now: u64) -> (r: bool)
        ensures
            r == now_playing_due(*self, now),
    {
        let on_list = matches!(self.mode, Mode::Normal);
        let played_long = match self.playing_since {
            Some(t) => now >= t && now - t >= NOW_PLAYING_AFTER_MS,
            None => false,
        };
        let idle = now >= self.last_input && now - self.last_input >= NOW_PLAYING_AFTER_MS;
        on_list && played_long && idle
    }

    /// Open the now-playing screen when playback has run idle long enough.
    pub fn maybe_enter_now_playing(&mut self, now: u64)
        ensures
            spec_is_playing(*old(self)) && now_playing_due(*old(self), now) ==> *final(self) == (App {
                mode: Mode::NowPlaying,
                ..*old(self)
            }),
            !(spec_is_playing(*old(self)) && now_playing_due(*old(self), now)) ==> *final(self)
                == *old(self),
    {
        if self.is_playing() && self.ready_for_now_playing(now) {
            self.mode = Mode::NowPlaying;
        }
    }

    /// Whether stream metadata should be asked for at `now`; when it should,
    /// the time of asking is recorded.
    pub fn begin_metadata_poll(&mut self, now: u64) -> (r: bool)
        ensures
            r == (spec_is_playing(*old(self)) && !(old(self).last_metadata_at matches Some(at)
                && elapsed(now, at) < METADATA_INTERVAL_MS)),
            r ==> *final(self) == (App { last_metadata_at: Some(now), ..*old(self) }),
            !r ==> *final(self) == *old(self),
    {
        if !self.is_playing() {
            return false;
        }
        let recent = match self.last_metadata_at {
            Some(at) => {
                let e = if now >= at {
                    now - at
                } else {
                    0
                };
                e < METADATA_INTERVAL_MS
            },
            None => false,
        };
        if recent {
            return false;
        }
        self.last_metadata_at = Some(now);
        true
    }
}

proof fn lemma_url_index_bounds(s: Seq<Station>, url: Seq<char>, i: int)
    ensures
        url_index_from(s, url, i) matches Some(k) ==> 0 <= k < s.len() && s[k].url@ == url,
    decreases s.len() - i,
{
    if 0 <= i < s.len() && s[i].url@ != url {
        lemma_url_index_bounds(s, url, i + 1);
    }
}

proof fn lemma_first_non_favorite_bounds(s: Seq<Station>, i: int)
    requires
        0 <= i,
    ensures
        first_non_favorite_from(s, i) <= s.len(),
    decreases s.len() - i,
{
    if i < s.len() && s[i].favorite {
        lemma_first_non_favorite_bounds(s, i + 1);
    }
}

/// Position of the first station that is not a favorite (the length when
/// every station is one).
pub fn first_non_favorite(s: &Vec<Station>) -> (r: usize)
    ensures
        r as int == first_non_favorite_from(s@, 0),
{
    let mut i: usize = 0;
    while i < s.len()
        invariant
            i <= s@.len(),
            first_non_favorite_from(s@, 0) == first_non_favorite_from(s@, i as int),
        decreases s@.len() - i,
    {
        if !s[i].favorite {
            return i;
        }
        i = i + 1;
    }
    i
}

/// How many entries are `true`.
pub fn count_chosen(v: &Vec<bool>) -> (r: usize)
    ensures
        r == count_true(v@),
{
    let mut n: usize = 0;
    let mut i: usize = 0;
    while i < v.len()
        invariant
            i <= v@.len(),
            n == count_true(v@.subrange(0, i as int)),
            n <= i,
        decreases v@.len() - i,
    {
        proof {
            assert(v@.subrange(0, i + 1).drop_last() =~= v@.subrange(0, i as int));
        }
        if v[i] {
            n = n + 1;
        }
        i = i + 1;
    }
    assert(v@.subrange(0, v@.len() as int) =~= v@);
    n
}

} // verus!
