//! The text of the screens that does not depend on the terminal: the key
//! legend broken into rows, centred and scrolling titles, and the prompt
//! line with its cursor.

use vstd::prelude::*;

use crate::app::{already_at, spec_playing_index, App, ImportPick};
use crate::config::{byte_len, opt_view};
use crate::input::clamp_cursor;
use crate::text::{find, find_from, push_char, split_on};

verus! {

/// The keys of the station list.
pub const KEY_LEGEND: &'static str =
    "j/k move • Enter play • Space stop • +/- vol • * fav • a add • e edit • f now • ? help • q quit";

/// The texts of a list of strings.
pub open spec fn views(v: Seq<String>) -> Seq<Seq<char>> {
    v.map_values(|s: String| s@)
}

/// The pieces of `s` between the occurrences of `sep`, left to right.
pub fn split_all(s: &str, sep: &str) -> (r: Vec<String>)
    requires
        sep@.len() > 0,
    ensures
        views(r@) == split_on(s@, sep@),
{
    let m = sep.unicode_len();
    let mut pieces: Vec<String> = Vec::new();
    let mut rest = String::from_str(s);
    loop
        invariant
            m == sep@.len(),
            m > 0,
            views(pieces@) + split_on(rest@, sep@) == split_on(s@, sep@),
        decreases rest@.len(),
    {
        let n = rest.as_str().unicode_len();
        match find(rest.as_str(), sep, 0) {
            None => {
                proof {
                    assert(split_on(rest@, sep@) == seq![rest@]);
                    assert(views(pieces@.push(rest)) =~= views(pieces@).push(rest@));
                }
                pieces.push(rest);
                return pieces;
            },
            Some(k) => {
                proof {
                    lemma_find_from_fits(rest@, sep@, 0);
                }
                let piece = String::from_str(rest.as_str().substring_char(0, k));
                let next = String::from_str(rest.as_str().substring_char(k + m, n));
                proof {
                    assert(split_on(rest@, sep@) == seq![piece@] + split_on(next@, sep@));
                    assert(views(pieces@.push(piece)) =~= views(pieces@).push(piece@));
                    assert(views(pieces@).push(piece@) + split_on(next@, sep@) =~= views(pieces@)
                        + (seq![piece@] + split_on(next@, sep@)));
                }
                pieces.push(piece);
                rest = next;
            },
        }
    }
}

proof fn lemma_find_from_fits(s: Seq<char>, p: Seq<char>, i: int)
    requires
        0 <= i,
    ensures
        find_from(s, p, i) >= 0 ==> i <= find_from(s, p, i) && find_from(s, p, i) + p.len()
            <= s.len(),
    decreases s.len() + 1 - i,
{
    if i + p.len() <= s.len() && !(s.subrange(i, i + p.len()) == p) {
        lemma_find_from_fits(s, p, i + 1);
    }
}

/// The rows so far and the row being filled after the first tokens: a
/// token starts a new row when adding it (with its ` • ` separator counted
/// as three) would make the row longer than `width` bytes.
pub open spec fn wrap_fold(tokens: Seq<Seq<char>>, width: int) -> (Seq<Seq<char>>, Seq<char>)
    decreases tokens.len(),
{
    if tokens.len() == 0 {
        (Seq::empty(), Seq::empty())
    } else {
        let (lines, cur) = wrap_fold(tokens.drop_last(), width);
        let tok = tokens.last();
        let extra: int = if cur.len() == 0 {
            0
        } else {
            3
        };
        let broke = cur.len() != 0 && byte_len(cur) + extra + byte_len(tok) > width;
        let lines2 = if broke {
            lines.push(cur)
        } else {
            lines
        };
        let cur2 = if broke {
            Seq::<char>::empty()
        } else {
            cur
        };
        let cur3 = if cur2.len() != 0 {
            cur2 + " • "@ + tok
        } else {
            cur2 + tok
        };
        (lines2, cur3)
    }
}

/// The legend broken on its ` • ` separators into rows of at most `width`
/// bytes where the keys allow, each key kept with its word.
pub open spec fn spec_wrap_legend(legend: Seq<char>, width: usize) -> Seq<Seq<char>> {
    if width < 4 {
        seq![legend]
    } else {
        let (lines, cur) = wrap_fold(split_on(legend, " • "@), width as int);
        let all = if cur.len() != 0 {
            lines.push(cur)
        } else {
            lines
        };
        if all.len() == 0 {
            seq![Seq::<char>::empty()]
        } else {
            all
        }
    }
}

/// Break the legend into rows that fit `width`.
pub fn wrap_legend(legend: &str, width: usize) -> (r: Vec<String>)
    ensures
        views(r@) == spec_wrap_legend(legend@, width),
{
    if width < 4 {
        let mut one: Vec<String> = Vec::new();
        one.push(String::from_str(legend));
        proof {
            assert(views(one@) =~= seq![legend@]);
        }
        return one;
    }
    proof {
        reveal_strlit(" • ");
    }
    let tokens = split_all(legend, " • ");
    let mut lines: Vec<String> = Vec::new();
    let mut current = String::new();
    let mut i: usize = 0;
    while i < tokens.len()
        invariant
            i <= tokens@.len(),
            (views(lines@), current@) == wrap_fold(views(tokens@).take(i as int), width as int),
        decreases tokens@.len() - i,
    {
        let ghost before = (views(lines@), current@);
        proof {
            assert(views(tokens@).take(i + 1).drop_last() =~= views(tokens@).take(i as int));
        }
        let token = tokens[i].as_str();
        let cur_len = current.as_str().len();
        let extra: u128 = if current.as_str().unicode_len() == 0 {
            0
        } else {
            3
        };
        if current.as_str().unicode_len() != 0 && (cur_len as u128) + extra + (token.len() as u128)
            > (width as u128) {
            let mut full = String::new();
            std::mem::swap(&mut full, &mut current);
            proof {
                assert(views(lines@.push(full)) =~= views(lines@).push(full@));
            }
            lines.push(full);
        }
        if current.as_str().unicode_len() != 0 {
            current.append(" • ");
        }
        current.append(token);
        i = i + 1;
    }
    proof {
        assert(views(tokens@).take(tokens@.len() as int) =~= views(tokens@));
    }
    if current.as_str().unicode_len() != 0 {
        proof {
            assert(views(lines@.push(current)) =~= views(lines@).push(current@));
        }
        lines.push(current);
    }
    if lines.len() == 0 {
        let empty = String::new();
        proof {
            assert(views(lines@.push(empty)) =~= seq![Seq::<char>::empty()]);
        }
        lines.push(empty);
    }
    lines
}

/// The height of a footer that shows a status line and the legend: the
/// border, the status and one to four rows of keys.
pub open spec fn spec_legend_footer_height(legend: Seq<char>, width: u16) -> int {
    let inner: usize = if width >= 2 {
        (width - 2) as usize
    } else {
        0
    };
    let rows = spec_wrap_legend(legend, inner).len();
    3 + if rows < 1 {
        1
    } else if rows > 4 {
        4
    } else {
        rows as int
    }
}

/// How tall the footer must be for the legend at `width` columns.
pub fn legend_footer_height(legend: &str, width: u16) -> (r: u16)
    ensures
        r as int == spec_legend_footer_height(legend@, width),
{
    let inner: usize = if width >= 2 {
        (width - 2) as usize
    } else {
        0
    };
    let lines = wrap_legend(legend, inner);
    proof {
        assert(views(lines@).len() == lines@.len());
    }
    let n = lines.len();
    let rows: u16 = if n < 1 {
        1
    } else if n > 4 {
        4
    } else {
        n as u16
    };
    3 + rows
}

/// `n` spaces.
pub open spec fn spaces(n: int) -> Seq<char> {
    Seq::new(n as nat, |i: int| ' ')
}

/// `text` centred in `width` columns by leading spaces, or cut to `width`.
pub open spec fn spec_center_text(text: Seq<char>, width: usize) -> Seq<char> {
    if width == 0 {
        Seq::empty()
    } else if text.len() >= width {
        text.take(width as int)
    } else {
        spaces((width - text.len()) / 2) + text
    }
}

/// `text` centred in `width` columns.
pub fn center_text(text: &str, width: usize) -> (r: String)
    ensures
        r@ == spec_center_text(text@, width),
{
    if width == 0 {
        return String::new();
    }
    let n = text.unicode_len();
    if n >= width {
        return String::from_str(text.substring_char(0, width));
    }
    let pad = (width - n) / 2;
    let mut out = String::new();
    let mut i: usize = 0;
    while i < pad
        invariant
            i <= pad,
            out@ == spaces(i as int),
        decreases pad - i,
    {
        push_char(&mut out, ' ');
        i = i + 1;
        proof {
            assert(out@ =~= spaces(i as int));
        }
    }
    out.append(text);
    out
}

/// The scrolling form of a long title: the title with some padding and a
/// bullet, repeated, starting `tick / 2` characters in.
pub open spec fn marquee_text(text: Seq<char>) -> Seq<char> {
    "   "@ + text + "   •  "@
}

/// `text` as shown in `width` columns at animation step `tick`: as it is
/// when it fits, else a `width`-character window that scrolls along it.
pub open spec fn spec_marquee(text: Seq<char>, width: usize, tick: u32) -> Seq<char> {
    if width == 0 {
        Seq::empty()
    } else if text.len() <= width {
        text
    } else {
        let padded = marquee_text(text);
        let start = (tick / 2) as int % padded.len() as int;
        Seq::new(width as nat, |k: int| padded[(start + k) % padded.len() as int])
    }
}

/// The title shown in `width` columns at animation step `tick`.
pub fn marquee(text: &str, width: usize, tick: u32) -> (r: String)
    ensures
        r@ == spec_marquee(text@, width, tick),
{
    if width == 0 {
        return String::new();
    }
    let n = text.unicode_len();
    if n <= width {
        return String::from_str(text);
    }
    let mut padded = String::from_str("   ");
    padded.append(text);
    padded.append("   •  ");
    proof {
        reveal_strlit("   ");
        reveal_strlit("   •  ");
    }
    let plen = padded.as_str().unicode_len();
    let start = ((tick / 2) as usize) % plen;
    let mut out = String::new();
    let mut k: usize = 0;
    let mut pos = start;
    proof {
        vstd::arithmetic::div_mod::lemma_small_mod(start as nat, plen as nat);
    }
    while k < width
        invariant
            plen == padded@.len(),
            plen > 0,
            padded@ == marquee_text(text@),
            start == (tick / 2) as int % plen as int,
            k <= width,
            pos < plen,
            pos as int == (start + k) % plen as int,
            out@ == Seq::new(k as nat, |j: int| padded@[(start + j) % plen as int]),
        decreases width - k,
    {
        let c = padded.as_str().get_char(pos);
        push_char(&mut out, c);
        proof {
            assert(out@ =~= Seq::new((k + 1) as nat, |j: int| padded@[(start + j) % plen as int]));
        }
        pos = if pos + 1 == plen {
            0
        } else {
            pos + 1
        };
        k = k + 1;
        proof {
            lemma_step_mod(start as int, k as int, plen as int);
        }
    }
    out
}

proof fn lemma_step_mod(start: int, k: int, m: int)
    requires
        m > 0,
        k >= 1,
        start >= 0,
    ensures
        (start + k) % m == (if (start + k - 1) % m + 1 == m {
            0
        } else {
            (start + k - 1) % m + 1
        }),
{
    vstd::arithmetic::div_mod::lemma_mod_pos_bound(start + k - 1, m);
    vstd::arithmetic::div_mod::lemma_fundamental_div_mod(start + k - 1, m);
    let q = (start + k - 1) / m;
    let r = (start + k - 1) % m;
    if r + 1 == m {
        assert(start + k == m * (q + 1) + 0) by (nonlinear_arith)
            requires
                start + k - 1 == m * q + r,
                r + 1 == m,
        ;
        vstd::arithmetic::div_mod::lemma_mod_multiples_vanish(q + 1, 0, m);
    } else {
        assert(start + k == m * q + (r + 1)) by (nonlinear_arith)
            requires
                start + k - 1 == m * q + r,
        ;
        vstd::arithmetic::div_mod::lemma_mod_multiples_vanish(q, r + 1, m);
        vstd::arithmetic::div_mod::lemma_small_mod((r + 1) as nat, m as nat);
    }
}

/// The prompt text with a block cursor before character `cursor` (kept
/// inside the text).
pub open spec fn spec_cursor_line(buffer: Seq<char>, cursor: usize) -> Seq<char> {
    let c = clamp_cursor(cursor, buffer.len());
    buffer.take(c) + seq!['█'] + buffer.skip(c)
}

/// The prompt text with its cursor drawn in.
pub fn cursor_line(buffer: &str, cursor: usize) -> (r: String)
    ensures
        r@ == spec_cursor_line(buffer@, cursor),
{
    let n = buffer.unicode_len();
    let c = if cursor <= n {
        cursor
    } else {
        n
    };
    let mut out = String::from_str(buffer.substring_char(0, c));
    push_char(&mut out, '█');
    out.append(buffer.substring_char(c, n));
    out
}

/// The name of the station that is playing, as the now-playing screen shows
/// it: its name in the list, or the program's name.
pub open spec fn shown_station_name(a: App) -> Seq<char> {
    match spec_playing_index(a) {
        Some(i) => a.stations@[i].name@,
        None => "radio-tui"@,
    }
}

/// The text rows of the now-playing screen.
#[derive(Debug, PartialEq, Eq)]
pub struct NowPlayingText {
    /// The station's name, centred.
    pub station: String,
    /// The name the stream announces, centred, when it differs from the
    /// station's.
    pub announced: Option<String>,
    /// The track title (or a note that there is none), scrolling when long.
    pub track: String,
    /// Whether the ON AIR sign is lit at this step of the animation.
    pub lit: bool,
}

/// The note shown when the stream announces no track.
pub open spec fn no_track_note() -> Seq<char> {
    "Live stream — no track metadata"@
}

/// The now-playing rows for rows `width` characters wide at animation step
/// `tick`.
pub open spec fn now_playing_text_ok(a: App, width: usize, tick: u32, r: NowPlayingText) -> bool {
    let name = shown_station_name(a);
    &&& r.station@ == spec_center_text(name, width)
    &&& opt_view(r.announced) == match a.icy_name {
        Some(icy) => if icy@ != name {
            Some(spec_center_text(icy@, width))
        } else {
            None
        },
        None => None,
    }
    &&& r.track@ == "♪  "@ + spec_marquee(
        match a.track_title {
            Some(t) => t@,
            None => no_track_note(),
        },
        width,
        tick,
    )
    &&& r.lit == ((tick / 8) % 2 == 0)
}

/// The text of the now-playing screen.
pub fn now_playing_text(a: &App, width: usize, tick: u32) -> (r: NowPlayingText)
    ensures
        now_playing_text_ok(*a, width, tick, r),
{
    let name = a.playing_station_name();
    let station = center_text(name, width);
    let announced = match a.icy_name() {
        Some(icy) => if String::from_str(icy) != String::from_str(name) {
            Some(center_text(icy, width))
        } else {
            None
        },
        None => None,
    };
    let title = match a.track_title() {
        Some(t) => t,
        None => "Live stream — no track metadata",
    };
    let track = String::from_str("♪  ").concat(marquee(title, width, tick).as_str());
    NowPlayingText { station, announced, track, lit: (tick / 8) % 2 == 0 }
}

/// How an entry of the import picker is marked.
#[derive(Debug, PartialEq, Eq)]
pub enum ImportMark {
    /// The stream is saved already.
    Have,
    /// The entry will be imported.
    Chosen,
    /// The entry will not be imported.
    Plain,
}

/// The mark of entry `i` of the picker: saved already wins over chosen.
pub open spec fn spec_import_mark(imp: ImportPick, i: int) -> ImportMark {
    if already_at(imp, i) {
        ImportMark::Have
    } else if 0 <= i < imp.chosen@.len() && imp.chosen@[i] {
        ImportMark::Chosen
    } else {
        ImportMark::Plain
    }
}

/// How entry `i` of the picker is marked.
pub fn import_mark(imp: &ImportPick, i: usize) -> (r: ImportMark)
    ensures
        r == spec_import_mark(*imp, i as int),
{
    if i < imp.already.len() && imp.already[i] {
        ImportMark::Have
    } else if i < imp.chosen.len() && imp.chosen[i] {
        ImportMark::Chosen
    } else {
        ImportMark::Plain
    }
}

} // verus!
