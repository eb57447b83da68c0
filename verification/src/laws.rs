//! Properties of the player that span several operations or hold of every
//! input, proved over the contracts of the operations.

use vstd::prelude::*;

use vstd::arithmetic::div_mod::{lemma_mod_add_multiples_vanish, lemma_small_mod};

use crate::app::{
    apply_import_post, delete_selected_post, elapsed, favorite_position, favorite_toggled,
    finish_add_post, finish_edit_url_post, first_non_favorite_from, handle_key_post,
    finish_import_post, move_selected_post, now_playing_due, play_selected_post, select_delta_post, selection_ok, spec_is_playing,
    spec_playing_index, swapped, toggle_favorite_post, url_elsewhere, url_index_from, wrapped,
    Action, App, NOW_PLAYING_AFTER_MS,
};
use crate::config::{byte_len, paired_len, picked_new, spec_selected_new_stations, spec_valid_stream_url, url_in, Station};
use crate::config::LoadError;
use crate::metadata::{entry_index_from, spec_stream_metadata, MetaEntry, MetaValue};
use crate::input::{ctrl_char, edited_cursor, edited_text, inserted, KeyCode, KeyEvent};
use crate::layout::{spec_wrap_legend, wrap_fold};
use crate::text::{find_from, matches_at, spec_starts_with, spec_trim, split_on};

verus! {

/// A URL that is accepted as a stream begins, once trimmed, with `h`: it can
/// never be taken for a command-line option of the player.
pub proof fn accepted_url_starts_with_h(url: Seq<char>)
    requires
        spec_valid_stream_url(url),
    ensures
        spec_trim(url).len() > 0,
        spec_trim(url)[0] == 'h',
{
    reveal_strlit("http://");
    reveal_strlit("https://");
    let t = spec_trim(url);
    if spec_starts_with(t, "http://"@) {
        assert(t.subrange(0, 7)[0] == "http://"@[0]);
    } else {
        assert(t.subrange(0, 8)[0] == "https://"@[0]);
    }
}

/// Moving the selection down and then up comes back to the same station.
pub proof fn down_then_up_returns(o: App, m: App, n: App)
    requires
        selection_ok(o),
        o.stations@.len() > 0,
        select_delta_post(o, m, 1),
        select_delta_post(m, n, -1),
    ensures
        n.selected == o.selected,
        n.stations == o.stations,
{
    assert(o.stations.len() == o.stations@.len());
    let l = o.stations@.len() as int;
    let s = o.selected as int;
    let next = wrapped(s, 1, l);
    if s + 1 < l {
        lemma_small_mod((s + 1) as nat, l as nat);
        lemma_small_mod(s as nat, l as nat);
        assert(next == s + 1);
    } else {
        assert(s + 1 == l);
        assert((s + 1) % l == 0) by {
            lemma_mod_add_multiples_vanish(0, l);
            lemma_small_mod(0, l as nat);
        }
        assert((0 + -1) % l == l - 1) by {
            lemma_mod_add_multiples_vanish(-1, l);
            lemma_small_mod((l - 1) as nat, l as nat);
        }
        assert(next == 0);
    }
    assert(m.stations == o.stations);
    assert(m.selected == next);
    assert(wrapped(next, -1, l) == s);
    assert(n.selected == s);
}

/// Moving the selected station down and then back up restores the order of
/// the list and the selection.
pub proof fn move_down_then_up_restores(o: App, m: App, n: App)
    requires
        selection_ok(o),
        o.stations@.len() >= 2,
        move_selected_post(o, m, 1),
        move_selected_post(m, n, -1),
    ensures
        n.stations@ == o.stations@,
        n.selected == o.selected,
{
    assert(o.stations.len() == o.stations@.len());
    let l = o.stations@.len() as int;
    let s = o.selected as int;
    let to = wrapped(s, 1, l);
    if s + 1 < l {
        lemma_small_mod((s + 1) as nat, l as nat);
        lemma_small_mod(s as nat, l as nat);
    } else {
        assert((s + 1) % l == 0) by {
            lemma_mod_add_multiples_vanish(0, l);
            lemma_small_mod(0, l as nat);
        }
        assert((0 + -1) % l == l - 1) by {
            lemma_mod_add_multiples_vanish(-1, l);
            lemma_small_mod((l - 1) as nat, l as nat);
        }
    }
    assert(m.selected == to);
    assert(m.stations@ == swapped(o.stations@, s, to));
    assert(wrapped(to, -1, l) == s);
    assert(n.stations@ == swapped(m.stations@, to, s));
    assert(n.stations@ =~= o.stations@);
}

/// Typing a character and then pressing Backspace gives back the text and
/// the cursor.
pub proof fn type_then_backspace_restores(buf: Seq<char>, cursor: usize, ch: char, k1: KeyEvent, k2: KeyEvent)
    requires
        cursor <= buf.len(),
        buf.len() < usize::MAX,
        k1.code == KeyCode::Char(ch),
        !k1.modifiers.control,
        !k1.modifiers.alt,
        k2.code == KeyCode::Backspace,
    ensures
        edited_text(edited_text(buf, cursor, k1), edited_cursor(buf, cursor, k1) as usize, k2)
            == buf,
        edited_cursor(edited_text(buf, cursor, k1), edited_cursor(buf, cursor, k1) as usize, k2)
            == cursor,
{
    let t = edited_text(buf, cursor, k1);
    assert(t == inserted(buf, cursor as int, seq![ch]));
    assert(t.remove(cursor as int) =~= buf);
}

proof fn picked_new_facts(local: Seq<Station>, remote: Seq<Station>, chosen: Seq<bool>, n: int)
    requires
        0 <= n <= paired_len(remote, chosen),
    ensures
        forall|k: int|
            0 <= k < picked_new(local, remote, chosen, n).len() ==> !url_in(
                local,
                #[trigger] picked_new(local, remote, chosen, n)[k].url@,
            ),
        forall|k: int|
            0 <= k < picked_new(local, remote, chosen, n).len() ==> exists|j: int|
                0 <= j < n && chosen[j] && remote[j] == #[trigger] picked_new(
                    local,
                    remote,
                    chosen,
                    n,
                )[k],
        forall|j: int|
            0 <= j < n && #[trigger] chosen[j] && !url_in(local, remote[j].url@) ==> exists|k: int|
                0 <= k < picked_new(local, remote, chosen, n).len() && picked_new(
                    local,
                    remote,
                    chosen,
                    n,
                )[k] == remote[j],
    decreases n,
{
    if n > 0 {
        picked_new_facts(local, remote, chosen, n - 1);
        let prev = picked_new(local, remote, chosen, n - 1);
        let cur = picked_new(local, remote, chosen, n);
        if chosen[n - 1] && !url_in(local, remote[n - 1].url@) {
            assert(cur == prev.push(remote[n - 1]));
            assert forall|k: int| 0 <= k < cur.len() implies exists|j: int|
                0 <= j < n && chosen[j] && remote[j] == #[trigger] cur[k] by {
                if k < prev.len() {
                    assert(cur[k] == prev[k]);
                    let j = choose|j: int| 0 <= j < n - 1 && chosen[j] && remote[j] == prev[k];
                    assert(0 <= j < n && chosen[j] && remote[j] == cur[k]);
                } else {
                    assert(cur[k] == remote[n - 1]);
                }
            }
            assert forall|j: int|
                0 <= j < n && #[trigger] chosen[j] && !url_in(local, remote[j].url@) implies exists|
                k: int,
            | 0 <= k < cur.len() && cur[k] == remote[j] by {
                if j < n - 1 {
                    let k = choose|k: int| 0 <= k < prev.len() && prev[k] == remote[j];
                    assert(cur[k] == prev[k]);
                } else {
                    assert(cur[prev.len() as int] == remote[j]);
                }
            }
        }
    }
}

/// The stations an import adds are never saved already, and each is one of
/// the remote stations the user chose.
pub proof fn import_adds_only_new_chosen(local: Seq<Station>, remote: Seq<Station>, chosen: Seq<bool>)
    ensures
        forall|k: int|
            0 <= k < spec_selected_new_stations(local, remote, chosen).len() ==> !url_in(
                local,
                #[trigger] spec_selected_new_stations(local, remote, chosen)[k].url@,
            ),
        forall|k: int|
            0 <= k < spec_selected_new_stations(local, remote, chosen).len() ==> exists|j: int|
                0 <= j < paired_len(remote, chosen) && chosen[j] && remote[j]
                    == #[trigger] spec_selected_new_stations(local, remote, chosen)[k],
{
    picked_new_facts(local, remote, chosen, paired_len(remote, chosen));
}

/// Importing the same choice again, into the list the first import made,
/// adds nothing.
pub proof fn import_twice_adds_nothing(local: Seq<Station>, remote: Seq<Station>, chosen: Seq<bool>)
    ensures
        spec_selected_new_stations(
            local + spec_selected_new_stations(local, remote, chosen),
            remote,
            chosen,
        ).len() == 0,
{
    let p = paired_len(remote, chosen);
    let added = spec_selected_new_stations(local, remote, chosen);
    let both = local + added;
    picked_new_facts(local, remote, chosen, p);
    none_picked_again(local, added, remote, chosen, p);
}

proof fn none_picked_again(local: Seq<Station>, added: Seq<Station>, remote: Seq<Station>, chosen: Seq<bool>, m: int)
    requires
        0 <= m <= paired_len(remote, chosen),
        added == picked_new(local, remote, chosen, paired_len(remote, chosen)),
        forall|j: int|
            0 <= j < paired_len(remote, chosen) && #[trigger] chosen[j] && !url_in(
                local,
                remote[j].url@,
            ) ==> exists|k: int| 0 <= k < added.len() && added[k] == remote[j],
    ensures
        picked_new(local + added, remote, chosen, m).len() == 0,
    decreases m,
{
    if m > 0 {
        none_picked_again(local, added, remote, chosen, m - 1);
        let both = local + added;
        let j = m - 1;
        if chosen[j] {
            if url_in(local, remote[j].url@) {
                let i = choose|i: int| 0 <= i < local.len() && #[trigger] local[i].url@
                    == remote[j].url@;
                assert(both[i] == local[i]);
                assert(url_in(both, remote[j].url@));
            } else {
                let k = choose|k: int| 0 <= k < added.len() && added[k] == remote[j];
                assert(both[local.len() + k] == added[k]);
                assert(url_in(both, remote[j].url@));
            }
        }
    }
}

/// Every favorite comes before every other station.
pub open spec fn favorites_first(s: Seq<Station>) -> bool {
    forall|i: int, j: int| 0 <= i < j < s.len() && #[trigger] s[j].favorite ==> #[trigger] s[i].favorite
}

/// No two stations share a stream URL.
pub open spec fn unique_urls(s: Seq<Station>) -> bool {
    forall|i: int, j: int|
        0 <= i < s.len() && 0 <= j < s.len() && i != j ==> #[trigger] s[i].url@ != #[trigger] s[j].url@
}

proof fn first_non_favorite_facts(s: Seq<Station>, i: int)
    requires
        0 <= i <= s.len(),
    ensures
        i <= first_non_favorite_from(s, i) <= s.len(),
        forall|k: int| i <= k < first_non_favorite_from(s, i) ==> #[trigger] s[k].favorite,
        first_non_favorite_from(s, i) < s.len() ==> !s[first_non_favorite_from(s, i)].favorite,
    decreases s.len() - i,
{
    if i < s.len() && s[i].favorite {
        first_non_favorite_facts(s, i + 1);
    }
}

/// Flipping a station's favorite flag keeps every favorite ahead of the
/// other stations, when that held before.
pub proof fn favorite_toggle_keeps_favorites_first(s: Seq<Station>, i: int)
    requires
        0 <= i < s.len(),
        favorites_first(s),
    ensures
        favorites_first(favorite_toggled(s, i)),
{
    let rest = s.remove(i);
    let st = Station { favorite: !s[i].favorite, ..s[i] };
    let p = favorite_position(s, i);
    let t = favorite_toggled(s, i);
    assert(favorites_first(rest)) by {
        assert forall|a: int, b: int| 0 <= a < b < rest.len() && #[trigger] rest[b].favorite implies #[trigger] rest[a].favorite by {
            let sa = if a < i { a } else { a + 1 };
            let sb = if b < i { b } else { b + 1 };
            assert(rest[a] == s[sa] && rest[b] == s[sb]);
        }
    }
    if s[i].favorite {
        first_non_favorite_facts(rest, 0);
    }
    assert forall|a: int, b: int| 0 <= a < b < t.len() && #[trigger] t[b].favorite implies #[trigger] t[a].favorite by {
        if s[i].favorite {
            let q = first_non_favorite_from(rest, 0);
            assert(p == q);
            if b == p {
                assert(t[b] == st);
            } else if a == p {
                assert(t[b] == rest[b - 1]);
                assert(b - 1 >= p);
                assert(rest[p].favorite ==> false);
                if p < rest.len() {
                    assert(rest[b - 1].favorite ==> rest[p].favorite);
                }
            } else if a < p {
                assert(t[a] == rest[a]);
            } else {
                assert(t[a] == rest[a - 1] && t[b] == rest[b - 1]);
            }
        } else {
            assert(p == 0);
            if a == 0 {
                assert(t[a] == st);
            } else {
                assert(t[a] == rest[a - 1] && t[b] == rest[b - 1]);
            }
        }
    }
}

/// Flipping a favorite flag only moves that station: the toggled station
/// sits at its new place with the flag flipped and the others keep their
/// order.
pub proof fn favorite_toggle_moves_one(s: Seq<Station>, i: int)
    requires
        0 <= i < s.len(),
    ensures
        favorite_toggled(s, i).len() == s.len(),
        favorite_toggled(s, i)[favorite_position(s, i)] == (Station {
            favorite: !s[i].favorite,
            ..s[i]
        }),
        favorite_toggled(s, i).remove(favorite_position(s, i)) == s.remove(i),
{
    if s[i].favorite {
        first_non_favorite_facts(s.remove(i), 0);
    }
    let t = favorite_toggled(s, i);
    assert(t.remove(favorite_position(s, i)) =~= s.remove(i));
}

proof fn unique_remove(s: Seq<Station>, i: int)
    requires
        0 <= i < s.len(),
        unique_urls(s),
    ensures
        unique_urls(s.remove(i)),
        !url_in(s.remove(i), s[i].url@),
{
    let r = s.remove(i);
    assert forall|a: int, b: int| 0 <= a < r.len() && 0 <= b < r.len() && a != b implies #[trigger] r[a].url@ != #[trigger] r[b].url@ by {
        let sa = if a < i { a } else { a + 1 };
        let sb = if b < i { b } else { b + 1 };
        assert(r[a] == s[sa] && r[b] == s[sb]);
    }
    if url_in(r, s[i].url@) {
        let k = choose|k: int| 0 <= k < r.len() && #[trigger] r[k].url@ == s[i].url@;
        let sk = if k < i { k } else { k + 1 };
        assert(r[k] == s[sk]);
    }
}

proof fn unique_insert(r: Seq<Station>, p: int, st: Station)
    requires
        0 <= p <= r.len(),
        unique_urls(r),
        !url_in(r, st.url@),
    ensures
        unique_urls(r.insert(p, st)),
{
    let t = r.insert(p, st);
    assert forall|a: int, b: int| 0 <= a < t.len() && 0 <= b < t.len() && a != b implies #[trigger] t[a].url@ != #[trigger] t[b].url@ by {
        if a == p {
            let rb = if b < p { b } else { b - 1 };
            assert(t[b] == r[rb]);
        } else if b == p {
            let ra = if a < p { a } else { a - 1 };
            assert(t[a] == r[ra]);
        } else {
            let ra = if a < p { a } else { a - 1 };
            let rb = if b < p { b } else { b - 1 };
            assert(t[a] == r[ra] && t[b] == r[rb]);
        }
    }
}

/// Adding a station never gives two stations the same stream.
pub proof fn add_keeps_urls_unique(o: App, n: App, name: Seq<char>, url: Seq<char>)
    requires
        unique_urls(o.stations@),
        finish_add_post(o, n, name, url),
    ensures
        unique_urls(n.stations@),
{
    let s = o.stations@;
    let t = n.stations@;
    if spec_valid_stream_url(url) && !url_in(s, url) {
        assert forall|a: int, b: int| 0 <= a < t.len() && 0 <= b < t.len() && a != b implies #[trigger] t[a].url@ != #[trigger] t[b].url@ by {
            if a < s.len() {
                assert(t[a] == t.subrange(0, s.len() as int)[a]);
            }
            if b < s.len() {
                assert(t[b] == t.subrange(0, s.len() as int)[b]);
            }
        }
    }
}

/// Editing a station's URL never gives two stations the same stream.
pub proof fn edit_url_keeps_urls_unique(o: App, n: App, index: usize, raw: Seq<char>)
    requires
        unique_urls(o.stations@),
        finish_edit_url_post(o, n, index, raw),
    ensures
        unique_urls(n.stations@),
{
    let s = o.stations@;
    let t = n.stations@;
    let url = spec_trim(raw);
    if spec_valid_stream_url(url) && index < s.len() && s[index as int].url@ != url
        && !url_elsewhere(s, index as int, url) {
        assert forall|a: int, b: int| 0 <= a < t.len() && 0 <= b < t.len() && a != b implies #[trigger] t[a].url@ != #[trigger] t[b].url@ by {
            if a == index {
                assert(t[b] == s[b]);
            } else if b == index {
                assert(t[a] == s[a]);
            } else {
                assert(t[a] == s[a] && t[b] == s[b]);
            }
        }
    }
}

/// Starring or unstarring never gives two stations the same stream.
pub proof fn favorite_keeps_urls_unique(o: App, n: App)
    requires
        unique_urls(o.stations@),
        toggle_favorite_post(o, n),
    ensures
        unique_urls(n.stations@),
{
    if o.list_state.selected is Some {
        let i = o.list_state.selected->0;
        if i < o.stations@.len() {
            let s = o.stations@;
            unique_remove(s, i as int);
            if s[i as int].favorite {
                first_non_favorite_facts(s.remove(i as int), 0);
            }
            unique_insert(s.remove(i as int), favorite_position(s, i as int), Station {
                favorite: !s[i as int].favorite,
                ..s[i as int]
            });
        }
    }
}

proof fn url_index_finds(s: Seq<Station>, u: Seq<char>, k: int, i: int)
    requires
        unique_urls(s),
        0 <= i <= k < s.len(),
        s[k].url@ == u,
    ensures
        url_index_from(s, u, i) == Some(k),
    decreases k - i,
{
    if i < k {
        assert(s[i].url@ != s[k].url@);
        url_index_finds(s, u, k, i + 1);
    }
}

proof fn url_index_absent(s: Seq<Station>, u: Seq<char>, i: int)
    requires
        0 <= i,
        !url_in(s, u),
    ensures
        url_index_from(s, u, i) is None,
    decreases s.len() - i,
{
    if i < s.len() {
        assert(s[i].url@ != u);
        url_index_absent(s, u, i + 1);
    }
}

proof fn url_index_found(s: Seq<Station>, u: Seq<char>, i: int)
    requires
        0 <= i,
    ensures
        url_index_from(s, u, i) matches Some(k) ==> 0 <= k < s.len() && s[k].url@ == u,
    decreases s.len() - i,
{
    if i < s.len() && s[i].url@ != u {
        url_index_found(s, u, i + 1);
    }
}

/// Starring or unstarring keeps the now-playing marker on the station that
/// plays: when no two stations share a stream, the playing index afterwards
/// names a station with the same name and URL as before (and there is none
/// afterwards exactly when there was none before).
pub proof fn favorite_keeps_playing_station(o: App, n: App)
    requires
        unique_urls(o.stations@),
        toggle_favorite_post(o, n),
    ensures
        n.playing_url == o.playing_url,
        match spec_playing_index(o) {
            Some(i) => spec_playing_index(n) matches Some(j) && n.stations@[j].name
                == o.stations@[i].name && n.stations@[j].url == o.stations@[i].url,
            None => spec_playing_index(n) is None,
        },
{
    let s = o.stations@;
    favorite_keeps_urls_unique(o, n);
    if o.playing_url is Some {
        let u = o.playing_url->0@;
        url_index_found(s, u, 0);
        if o.list_state.selected is Some && o.list_state.selected->0 < s.len() {
            let t = o.list_state.selected->0 as int;
            let rest = s.remove(t);
            let st = Station { favorite: !s[t].favorite, ..s[t] };
            let p = favorite_position(s, t);
            let s2 = n.stations@;
            favorite_toggle_moves_one(s, t);
            if s[t].favorite {
                first_non_favorite_facts(rest, 0);
            }
            assert(0 <= p <= rest.len());
            assert(s2 == rest.insert(p, st));
            if url_in(s, u) {
                let k = choose|k: int| 0 <= k < s.len() && #[trigger] s[k].url@ == u;
                url_index_finds(s, u, k, 0);
                let j = if k == t {
                    p
                } else {
                    let k2 = if k < t {
                        k
                    } else {
                        k - 1
                    };
                    assert(rest[k2] == s[k]);
                    if k2 < p {
                        k2
                    } else {
                        k2 + 1
                    }
                };
                assert(s2[j].name == s[k].name && s2[j].url == s[k].url);
                url_index_finds(s2, u, j, 0);
            } else {
                assert(!url_in(s2, u)) by {
                    if url_in(s2, u) {
                        let j = choose|j: int| 0 <= j < s2.len() && #[trigger] s2[j].url@ == u;
                        if j == p {
                            assert(s2[j].url == s[t].url);
                        } else {
                            let j2 = if j < p {
                                j
                            } else {
                                j - 1
                            };
                            assert(s2[j] == rest[j2]);
                            let k = if j2 < t {
                                j2
                            } else {
                                j2 + 1
                            };
                            assert(rest[j2] == s[k]);
                        }
                    }
                }
                url_index_absent(s, u, 0);
                url_index_absent(s2, u, 0);
            }
        }
    }
}

/// Reordering never gives two stations the same stream.
pub proof fn move_keeps_urls_unique(o: App, n: App, delta: int)
    requires
        selection_ok(o),
        unique_urls(o.stations@),
        move_selected_post(o, n, delta),
    ensures
        unique_urls(n.stations@),
{
    let s = o.stations@;
    if s.len() >= 2 {
        let a0 = o.selected as int;
        let b0 = wrapped(a0, delta, s.len() as int);
        let t = n.stations@;
        assert forall|a: int, b: int| 0 <= a < t.len() && 0 <= b < t.len() && a != b implies #[trigger] t[a].url@ != #[trigger] t[b].url@ by {
            let sa = if a == a0 { b0 } else if a == b0 { a0 } else { a };
            let sb = if b == a0 { b0 } else if b == b0 { a0 } else { b };
            assert(t[a] == s[sa] && t[b] == s[sb]);
        }
    }
}

/// Deleting never gives two stations the same stream.
pub proof fn delete_keeps_urls_unique(o: App, n: App)
    requires
        selection_ok(o),
        unique_urls(o.stations@),
        delete_selected_post(o, n),
    ensures
        unique_urls(n.stations@),
{
    if o.stations@.len() > 0 {
        unique_remove(o.stations@, o.selected as int);
    }
}

proof fn picked_unique(local: Seq<Station>, remote: Seq<Station>, chosen: Seq<bool>, n: int)
    requires
        0 <= n <= paired_len(remote, chosen),
        unique_urls(local),
        unique_urls(remote),
    ensures
        unique_urls(local + picked_new(local, remote, chosen, n)),
    decreases n,
{
    if n > 0 {
        picked_unique(local, remote, chosen, n - 1);
        picked_new_facts(local, remote, chosen, n - 1);
        let prev = picked_new(local, remote, chosen, n - 1);
        if chosen[n - 1] && !url_in(local, remote[n - 1].url@) {
            let st = remote[n - 1];
            let both = local + prev;
            assert(!url_in(both, st.url@)) by {
                if url_in(both, st.url@) {
                    let k = choose|k: int| 0 <= k < both.len() && #[trigger] both[k].url@
                        == st.url@;
                    if k < local.len() {
                        assert(both[k] == local[k]);
                    } else {
                        assert(both[k] == prev[k - local.len()]);
                        let j = choose|j: int|
                            0 <= j < n - 1 && chosen[j] && remote[j] == prev[k - local.len()];
                        assert(remote[j].url@ == remote[n - 1].url@);
                    }
                }
            }
            unique_insert(both, both.len() as int, st);
            assert(local + prev.push(st) =~= both.insert(both.len() as int, st));
        }
    }
}

/// Importing never gives two stations the same stream, when the fetched
/// list itself names each stream once.
pub proof fn import_keeps_urls_unique(o: App, n: App)
    requires
        unique_urls(o.stations@),
        o.import matches Some(imp) && unique_urls(imp.stations@),
        apply_import_post(o, n),
    ensures
        unique_urls(n.stations@),
{
    let imp = o.import->0;
    if spec_selected_new_stations(o.stations@, imp.stations@, imp.chosen@).len() > 0 {
        picked_unique(o.stations@, imp.stations@, imp.chosen@, paired_len(imp.stations@, imp.chosen@));
    }
}

/// Importing copies no star: when the fetched stations are unstarred (as
/// `finish_remote_stations` makes them), the stations already saved keep
/// their place and flags, and every station the import adds is unstarred.
pub proof fn import_copies_no_stars(o: App, n: App)
    requires
        o.import matches Some(imp) ==> forall|i: int|
            0 <= i < imp.stations@.len() ==> !(#[trigger] imp.stations@[i]).favorite,
        apply_import_post(o, n),
    ensures
        n.stations@.len() >= o.stations@.len(),
        forall|i: int| 0 <= i < o.stations@.len() ==> #[trigger] n.stations@[i] == o.stations@[i],
        forall|i: int|
            o.stations@.len() <= i < n.stations@.len() ==> !(#[trigger] n.stations@[i]).favorite,
{
    if o.import is Some {
        let imp = o.import->0;
        let added = spec_selected_new_stations(o.stations@, imp.stations@, imp.chosen@);
        import_adds_only_new_chosen(o.stations@, imp.stations@, imp.chosen@);
        if added.len() > 0 {
            assert forall|i: int| o.stations@.len() <= i < n.stations@.len() implies !(
            #[trigger] n.stations@[i]).favorite by {
                let k = i - o.stations@.len();
                assert(n.stations@[i] == added[k]);
                let j = choose|j: int|
                    0 <= j < paired_len(imp.stations@, imp.chosen@) && imp.chosen@[j]
                        && imp.stations@[j] == #[trigger] added[k];
                assert(!imp.stations@[j].favorite);
            }
        }
    }
}

/// A key press (other than Ctrl+C) restarts the idle clock: for the next
/// minute the now-playing screen does not open on its own.
pub proof fn key_postpones_now_playing(o: App, n: App, key: KeyEvent, now: u64, quit: bool, later: u64)
    requires
        !ctrl_char(key, 'c'),
        handle_key_post(o, n, key, now, quit),
        elapsed(later, now) < NOW_PLAYING_AFTER_MS,
    ensures
        n.last_input == now,
        !now_playing_due(n, later),
{
}

/// Every key keeps the selection inside the station list.
pub proof fn key_keeps_selection_in_list(o: App, n: App, key: KeyEvent, now: u64, quit: bool)
    requires
        selection_ok(o),
        handle_key_post(o, n, key, now, quit),
    ensures
        selection_ok(n),
{
    assert(n.stations.len() == n.stations@.len());
    assert(o.stations.len() == o.stations@.len());
    if o.list_state.selected is Some {
        let i = o.list_state.selected->0;
        if i < o.stations@.len() {
            favorite_toggle_moves_one(o.stations@, i as int);
        }
    }
}

/// The now-playing screen is only up while a stream plays, and every key
/// keeps it so.
pub proof fn key_keeps_now_playing_with_playback(o: App, n: App, key: KeyEvent, now: u64, quit: bool)
    requires
        o.mode is NowPlaying ==> spec_is_playing(o),
        handle_key_post(o, n, key, now, quit),
    ensures
        n.mode is NowPlaying ==> spec_is_playing(n),
{
}

/// Every start of the player queued after the first `from` actions comes
/// right after a stop of the player.
pub open spec fn starts_follow_stops(actions: Seq<Action>, from: int) -> bool {
    forall|k: int|
        from <= k < actions.len() && (#[trigger] actions[k]) is StartPlayer ==> from <= k - 1
            && actions[k - 1] is StopPlayer
}

/// A key never starts a second player: whenever it queues a start, the
/// player that may be running is stopped just before.
pub proof fn key_stops_before_starting(o: App, n: App, key: KeyEvent, now: u64, quit: bool)
    requires
        handle_key_post(o, n, key, now, quit),
    ensures
        starts_follow_stops(n.actions@, o.actions@.len() as int),
{
}

/// The pieces joined with `sep` between them.
pub open spec fn join(parts: Seq<Seq<char>>, sep: Seq<char>) -> Seq<char>
    decreases parts.len(),
{
    if parts.len() == 0 {
        Seq::empty()
    } else if parts.len() == 1 {
        parts[0]
    } else {
        join(parts.drop_last(), sep) + sep + parts.last()
    }
}

proof fn join_prepend(a: Seq<char>, rest: Seq<Seq<char>>, sep: Seq<char>)
    requires
        rest.len() >= 1,
    ensures
        join(seq![a] + rest, sep) == a + sep + join(rest, sep),
    decreases rest.len(),
{
    let all = seq![a] + rest;
    if rest.len() == 1 {
        assert(all.drop_last() =~= seq![a]);
        assert(all.last() == rest[0]);
        assert(join(seq![a], sep) == a);
        assert(join(all, sep) == join(all.drop_last(), sep) + sep + all.last());
        assert(join(rest, sep) == rest[0]);
    } else {
        join_prepend(a, rest.drop_last(), sep);
        assert(all.drop_last() =~= seq![a] + rest.drop_last());
        assert(all.last() == rest.last());
        assert(join(all, sep) == join(all.drop_last(), sep) + sep + all.last());
        assert(join(rest, sep) == join(rest.drop_last(), sep) + sep + rest.last());
        assert(a + sep + join(rest, sep) =~= a + sep + join(rest.drop_last(), sep) + sep
            + rest.last());
    }
}

proof fn find_from_matches(s: Seq<char>, p: Seq<char>, i: int)
    requires
        0 <= i,
    ensures
        find_from(s, p, i) >= 0 ==> matches_at(s, p, find_from(s, p, i)),
    decreases s.len() + 1 - i,
{
    if i + p.len() <= s.len() && !matches_at(s, p, i) {
        find_from_matches(s, p, i + 1);
    }
}

/// Splitting on a separator and joining the pieces with it gives the text
/// back.
pub proof fn split_then_join(s: Seq<char>, sep: Seq<char>)
    requires
        sep.len() > 0,
    ensures
        join(split_on(s, sep), sep) == s,
    decreases s.len(),
{
    let k = find_from(s, sep, 0);
    find_from_matches(s, sep, 0);
    if k < 0 || k + sep.len() > s.len() {
    } else {
        let rest = s.subrange(k + sep.len(), s.len() as int);
        split_then_join(rest, sep);
        let pieces = split_on(rest, sep);
        assert(pieces.len() >= 1) by {
            reveal_with_fuel(split_on, 1);
        }
        join_prepend(s.subrange(0, k), pieces, sep);
        assert(s =~= s.subrange(0, k) + sep + rest);
    }
}

proof fn wrap_fold_rejoins(tokens: Seq<Seq<char>>, width: int)
    requires
        forall|i: int| 0 <= i < tokens.len() ==> #[trigger] tokens[i].len() > 0,
    ensures
        tokens.len() == 0 ==> wrap_fold(tokens, width).0.len() == 0 && wrap_fold(tokens, width).1.len() == 0,
        tokens.len() > 0 ==> wrap_fold(tokens, width).1.len() > 0 && join(
            wrap_fold(tokens, width).0.push(wrap_fold(tokens, width).1),
            " • "@,
        ) == join(tokens, " • "@),
    decreases tokens.len(),
{
    if tokens.len() > 0 {
        let sep = " • "@;
        let prev = tokens.drop_last();
        wrap_fold_rejoins(prev, width);
        let (lines, cur) = wrap_fold(prev, width);
        let tok = tokens.last();
        let (lines3, cur3) = wrap_fold(tokens, width);
        if prev.len() == 0 {
            assert(lines3 =~= lines);
            assert(cur3 =~= tok);
            assert(lines3.push(cur3) =~= seq![tok]);
        } else {
            if lines3.len() == lines.len() + 1 {
                assert(lines3 == lines.push(cur));
                assert(cur3 =~= tok);
                assert(lines3.push(cur3).drop_last() =~= lines.push(cur));
            } else {
                assert(lines3 == lines);
                assert(cur3 =~= cur + sep + tok);
                if lines.len() == 0 {
                    assert(lines.push(cur) =~= seq![cur]);
                    assert(lines3.push(cur3) =~= seq![cur3]);
                } else {
                    assert(lines3.push(cur3).drop_last() =~= lines);
                    assert(lines.push(cur).drop_last() =~= lines);
                    assert(join(lines3.push(cur3), sep) =~= join(lines.push(cur), sep) + sep + tok);
                }
            }
        }
    }
}

/// The rows of a wrapped legend, joined again with ` • `, give back the
/// legend: rows break only between keys, never inside one (when no key is
/// empty).
pub proof fn wrapped_legend_rejoins(legend: Seq<char>, width: usize)
    requires
        forall|i: int|
            0 <= i < split_on(legend, " • "@).len() ==> #[trigger] split_on(legend, " • "@)[i].len()
                > 0,
    ensures
        join(spec_wrap_legend(legend, width), " • "@) == legend,
{
    reveal_strlit(" • ");
    let tokens = split_on(legend, " • "@);
    split_then_join(legend, " • "@);
    if width >= 4 {
        assert(tokens.len() >= 1) by {
            reveal_with_fuel(split_on, 1);
        }
        wrap_fold_rejoins(tokens, width as int);
    } else {
        assert(join(seq![legend], " • "@) == legend);
    }
}


/// The groups of pieces one after the other.
pub open spec fn flatten(groups: Seq<Seq<Seq<char>>>) -> Seq<Seq<char>>
    decreases groups.len(),
{
    if groups.len() == 0 {
        Seq::empty()
    } else {
        flatten(groups.drop_last()) + groups.last()
    }
}

/// The last piece of a row of keys fitted when it was added: the bytes of
/// the row before it, three for its separator, and its own bytes come to at
/// most `width`.
pub open spec fn last_piece_fits(g: Seq<Seq<char>>, width: int) -> bool {
    byte_len(join(g.drop_last(), " • "@)) + 3 + byte_len(g.last()) <= width
}

/// Rows of keys laid out greedily: no row is empty, a row of several pieces
/// took its last one only because it fitted, and a row ends only where the
/// first piece of the next row did not fit on it.
pub open spec fn greedy_rows(groups: Seq<Seq<Seq<char>>>, width: int) -> bool {
    &&& forall|i: int| 0 <= i < groups.len() ==> (#[trigger] groups[i]).len() > 0
    &&& forall|i: int|
        0 <= i < groups.len() && (#[trigger] groups[i]).len() > 1 ==> last_piece_fits(
            groups[i],
            width,
        )
    &&& forall|i: int|
        0 <= i < groups.len() - 1 ==> byte_len(join(#[trigger] groups[i], " • "@)) + 3 + byte_len(
            groups[i + 1][0],
        ) > width
}

/// The groups of keys that the wrapping puts on each row, and the group of
/// the row being filled.
spec fn fold_groups(tokens: Seq<Seq<char>>, width: int) -> (Seq<Seq<Seq<char>>>, Seq<Seq<char>>)
    decreases tokens.len(),
{
    if tokens.len() == 0 {
        (Seq::empty(), Seq::empty())
    } else {
        let (gs, g) = fold_groups(tokens.drop_last(), width);
        let tok = tokens.last();
        if g.len() != 0 && byte_len(join(g, " • "@)) + 3 + byte_len(tok) > width {
            (gs.push(g), seq![tok])
        } else {
            (gs, g.push(tok))
        }
    }
}

proof fn join_nonempty(g: Seq<Seq<char>>)
    requires
        g.len() > 0,
        forall|i: int| 0 <= i < g.len() ==> #[trigger] g[i].len() > 0,
    ensures
        join(g, " • "@).len() > 0,
{
    if g.len() > 1 {
        assert(g.last() == g[g.len() - 1]);
    } else {
        assert(g[0].len() > 0);
    }
}

proof fn fold_groups_facts(tokens: Seq<Seq<char>>, width: int)
    requires
        forall|i: int| 0 <= i < tokens.len() ==> #[trigger] tokens[i].len() > 0,
    ensures
        ({
            let (lines, cur) = wrap_fold(tokens, width);
            let (gs, g) = fold_groups(tokens, width);
            &&& lines == gs.map_values(|x: Seq<Seq<char>>| join(x, " • "@))
            &&& cur == join(g, " • "@)
            &&& (g.len() == 0 <==> tokens.len() == 0)
            &&& flatten(gs) + g == tokens
            &&& forall|i: int| 0 <= i < g.len() ==> #[trigger] g[i].len() > 0
            &&& greedy_rows(gs, width)
            &&& g.len() > 1 ==> last_piece_fits(g, width)
            &&& gs.len() > 0 && g.len() > 0 ==> byte_len(join(gs.last(), " • "@)) + 3 + byte_len(g[0])
                > width
        }),
    decreases tokens.len(),
{
    let sep = " • "@;
    if tokens.len() > 0 {
        let prev = tokens.drop_last();
        assert forall|i: int| 0 <= i < prev.len() implies #[trigger] prev[i].len() > 0 by {
            assert(prev[i] == tokens[i]);
        }
        fold_groups_facts(prev, width);
        let (lines, cur) = wrap_fold(prev, width);
        let (gs, g) = fold_groups(prev, width);
        let tok = tokens.last();
        assert(tok == tokens[tokens.len() - 1]);
        assert(tok.len() > 0);
        if g.len() > 0 {
            join_nonempty(g);
        }
        let f = |x: Seq<Seq<char>>| join(x, sep);
        let (lines3, cur3) = wrap_fold(tokens, width);
        let (gs3, g3) = fold_groups(tokens, width);
        assert(prev =~= flatten(gs) + g);
        if g.len() != 0 && byte_len(cur) + 3 + byte_len(tok) > width {
            assert(gs3 == gs.push(g));
            assert(g3 == seq![tok]);
            assert(lines3 == lines.push(cur));
            assert(cur3 =~= tok);
            assert(lines3 =~= gs3.map_values(f));
            assert(join(g3, sep) == tok);
            assert(gs3.drop_last() =~= gs);
            assert(flatten(gs3) == flatten(gs) + g);
            assert(flatten(gs3) + g3 =~= tokens);
            assert forall|i: int| 0 <= i < gs3.len() implies (#[trigger] gs3[i]).len() > 0 by {
                if i < gs.len() {
                    assert(gs3[i] == gs[i]);
                }
            }
            assert forall|i: int| 0 <= i < gs3.len() && (#[trigger] gs3[i]).len() > 1 implies last_piece_fits(
                gs3[i],
                width,
            ) by {
                if i < gs.len() {
                    assert(gs3[i] == gs[i]);
                }
            }
            assert forall|i: int| 0 <= i < gs3.len() - 1 implies byte_len(
                join(#[trigger] gs3[i], sep),
            ) + 3 + byte_len(gs3[i + 1][0]) > width by {
                if i < gs.len() - 1 {
                    assert(gs3[i] == gs[i]);
                    assert(gs3[i + 1] == gs[i + 1]);
                } else {
                    assert(gs3[i] == gs.last());
                    assert(gs3[i + 1] == g);
                }
            }
        } else {
            assert(gs3 == gs);
            assert(g3 == g.push(tok));
            assert(lines3 == lines);
            assert(g3.drop_last() =~= g);
            if g.len() == 0 {
                assert(cur.len() == 0);
                assert(cur3 =~= tok);
                assert(g3 =~= seq![tok]);
            } else {
                assert(cur.len() != 0);
                assert(cur3 == cur + sep + tok);
                assert(join(g3, sep) == join(g, sep) + sep + tok);
                assert(last_piece_fits(g3, width));
                assert(g3[0] == g[0]);
            }
            assert(tokens =~= prev.push(tok));
            assert(flatten(gs) + g.push(tok) =~= (flatten(gs) + g).push(tok));
            assert(flatten(gs3) + g3 =~= tokens);
            assert forall|i: int| 0 <= i < g3.len() implies #[trigger] g3[i].len() > 0 by {
                if i < g.len() {
                    assert(g3[i] == g[i]);
                }
            }
        }
    }
}

/// The rows of a wrapped legend are laid out greedily, key by key: they are
/// the keys in order, grouped into rows that are never empty; a row of
/// several keys took its last key only because it fitted in `width` (the
/// bytes before it, three for its ` • `, and its own bytes); and a row ends
/// only where the next row's first key did not fit on it.  This holds for a
/// width of four or more and when no key is empty.
pub proof fn wrapped_legend_is_greedy(legend: Seq<char>, width: usize)
    requires
        width >= 4,
        forall|i: int|
            0 <= i < split_on(legend, " • "@).len() ==> #[trigger] split_on(legend, " • "@)[i].len()
                > 0,
    ensures
        exists|groups: Seq<Seq<Seq<char>>>|
            {
                &&& flatten(groups) == split_on(legend, " • "@)
                &&& greedy_rows(groups, width as int)
                &&& spec_wrap_legend(legend, width) == groups.map_values(
                    |g: Seq<Seq<char>>| join(g, " • "@),
                )
            },
{
    let sep = " • "@;
    let tokens = split_on(legend, sep);
    assert(tokens.len() >= 1) by {
        reveal_with_fuel(split_on, 1);
    }
    fold_groups_facts(tokens, width as int);
    let (lines, cur) = wrap_fold(tokens, width as int);
    let (gs, g) = fold_groups(tokens, width as int);
    let all = gs.push(g);
    let f = |x: Seq<Seq<char>>| join(x, sep);
    join_nonempty(g);
    assert(spec_wrap_legend(legend, width) == lines.push(cur));
    assert(lines.push(cur) =~= all.map_values(f));
    assert(all.drop_last() =~= gs);
    assert(flatten(all) == flatten(gs) + g);
    assert forall|i: int| 0 <= i < all.len() implies (#[trigger] all[i]).len() > 0 by {
        if i < gs.len() {
            assert(all[i] == gs[i]);
        }
    }
    assert forall|i: int| 0 <= i < all.len() && (#[trigger] all[i]).len() > 1 implies last_piece_fits(
        all[i],
        width as int,
    ) by {
        if i < gs.len() {
            assert(all[i] == gs[i]);
        }
    }
    assert forall|i: int| 0 <= i < all.len() - 1 implies byte_len(join(#[trigger] all[i], sep)) + 3
        + byte_len(all[i + 1][0]) > width by {
        if i < gs.len() - 1 {
            assert(all[i] == gs[i]);
            assert(all[i + 1] == gs[i + 1]);
        } else {
            assert(all[i] == gs.last());
            assert(all[i + 1] == g);
        }
    }
    assert(greedy_rows(all, width as int));
}


/// Playing starts the station under the selection: when the selection is in
/// the list, the player is stopped and then started on the name and stream
/// of the selected station, and nothing else is queued.
pub proof fn play_starts_the_selected_station(o: App, n: App)
    requires
        o.selected < o.stations@.len(),
        play_selected_post(o, n),
    ensures
        n.actions@.len() == o.actions@.len() + 2,
        n.actions@.subrange(0, o.actions@.len() as int) == o.actions@,
        n.actions@[o.actions@.len() as int] == Action::StopPlayer,
        n.actions@[o.actions@.len() + 1int] == (Action::StartPlayer {
            name: o.stations@[o.selected as int].name,
            url: o.stations@[o.selected as int].url,
        }),
        n.stations == o.stations,
        n.selected == o.selected,
{
    assert(n.actions@.subrange(0, o.actions@.len() as int) =~= o.actions@);
}

/// Deleting a station that is not the one playing leaves playback alone:
/// the player keeps running on the same stream and no stop is queued.
/// Deleting the one that plays stops it.
pub proof fn delete_stops_only_the_playing_station(o: App, n: App)
    requires
        o.stations@.len() > 0,
        selection_ok(o),
        delete_selected_post(o, n),
    ensures
        !(o.playing_url matches Some(u) && u@ == o.stations@[o.selected as int].url@) ==> {
            &&& n.player_running == o.player_running
            &&& n.playing_url == o.playing_url
            &&& forall|k: int|
                o.actions@.len() <= k < n.actions@.len() ==> !((#[trigger] n.actions@[k]) is StopPlayer)
        },
        (o.playing_url matches Some(u) && u@ == o.stations@[o.selected as int].url@) ==> {
            &&& !n.player_running
            &&& n.playing_url is None
            &&& n.actions@[o.actions@.len() as int] == Action::StopPlayer
        },
{
    assert(o.stations.len() == o.stations@.len());
}

/// In a text field Right (or Ctrl+F) moves the cursor one character to the
/// right, stopping at the end, and Left (or Ctrl+B) one to the left,
/// stopping at the start; neither changes the text, and Right then Left
/// comes back to the same place when the cursor was before the end.
pub proof fn arrows_move_one_character(buf: Seq<char>, c: usize, right: KeyEvent, left: KeyEvent)
    requires
        c <= buf.len() <= usize::MAX,
        right.code is Right,
        left.code is Left,
    ensures
        edited_text(buf, c, right) == buf,
        edited_cursor(buf, c, right) == if c < buf.len() {
            c + 1
        } else {
            c as int
        },
        edited_text(buf, c, left) == buf,
        edited_cursor(buf, c, left) == if c > 0 {
            c - 1
        } else {
            0
        },
        c < buf.len() ==> edited_cursor(buf, edited_cursor(buf, c, right) as usize, left) == c,
{
}

/// Once a remote list arrives, an entry is marked as saved exactly when a
/// saved station has the same stream URL (whatever the names), and exactly
/// the entries not saved are chosen.
pub proof fn fetched_entries_saved_by_url(o: App, n: App, url: Seq<char>, remote: Seq<Station>)
    requires
        finish_import_post(o, n, url, Ok::<Seq<Station>, LoadError>(remote)),
    ensures
        n.import matches Some(imp) && imp.stations@ == remote && imp.already@.len() == remote.len()
            && imp.chosen@.len() == remote.len() && forall|i: int|
            0 <= i < remote.len() ==> (#[trigger] imp.already@[i] <==> exists|t: int|
                0 <= t < o.stations@.len() && o.stations@[t].url@ == remote[i].url@) && imp.chosen@[i]
                == !imp.already@[i],
        n.stations == o.stations,
{
}

/// The entries of a metadata object (none for any other value).
pub open spec fn meta_entries(data: MetaValue) -> Seq<MetaEntry> {
    match data {
        MetaValue::Object(v) => v@,
        _ => Seq::empty(),
    }
}

proof fn entry_index_first(entries: Seq<MetaEntry>, key: Seq<char>, k: int, i: int)
    requires
        0 <= i <= k < entries.len(),
        entries[k].key@ == key,
        forall|j: int| 0 <= j < k ==> (#[trigger] entries[j]).key@ != key,
    ensures
        entry_index_from(entries, key, i) == Some(k),
    decreases k - i,
{
    if i < k {
        assert(entries[i].key@ != key);
        entry_index_first(entries, key, k, i + 1);
    }
}

proof fn entry_index_found(entries: Seq<MetaEntry>, key: Seq<char>, i: int)
    requires
        0 <= i,
    ensures
        entry_index_from(entries, key, i) matches Some(k) ==> 0 <= k < entries.len()
            && entries[k].key@ == key,
    decreases entries.len() - i,
{
    if i < entries.len() && entries[i].key@ != key {
        entry_index_found(entries, key, i + 1);
    }
}

/// The key holds a string that is not blank.
pub open spec fn holds_text(e: MetaEntry) -> bool {
    e.text matches Some(t) && spec_trim(t@).len() > 0
}

/// The track title comes from `icy-title` when that key (its first
/// occurrence) holds a non-blank string, trimmed, whatever `title` holds;
/// `title` is used only when no `icy-title` holds one.  The station name is
/// the trimmed `icy-name` under the same rule.
pub proof fn icy_title_comes_first(data: MetaValue, k: int, m: int)
    requires
        data is Object,
        0 <= k < meta_entries(data).len(),
        0 <= m < meta_entries(data).len(),
    ensures
        ({
            let e = meta_entries(data);
            let (title, name) = spec_stream_metadata(data);
            &&& (e[k].key@ == "icy-title"@ && holds_text(e[k]) && (forall|j: int|
                0 <= j < k ==> (#[trigger] e[j]).key@ != "icy-title"@)) ==> title == Some(
                spec_trim(e[k].text->0@),
            )
            &&& ((forall|j: int|
                0 <= j < e.len() && (#[trigger] e[j]).key@ == "icy-title"@ ==> !holds_text(e[j]))
                && e[m].key@ == "title"@ && holds_text(e[m]) && (forall|j: int|
                0 <= j < m ==> (#[trigger] e[j]).key@ != "title"@)) ==> title == Some(
                spec_trim(e[m].text->0@),
            )
            &&& (e[k].key@ == "icy-name"@ && holds_text(e[k]) && (forall|j: int|
                0 <= j < k ==> (#[trigger] e[j]).key@ != "icy-name"@)) ==> name == Some(
                spec_trim(e[k].text->0@),
            )
        }),
{
    let e = meta_entries(data);
    if e[k].key@ == "icy-title"@ && (forall|j: int| 0 <= j < k ==> (#[trigger] e[j]).key@ != "icy-title"@) {
        entry_index_first(e, "icy-title"@, k, 0);
    }
    if e[k].key@ == "icy-name"@ && (forall|j: int| 0 <= j < k ==> (#[trigger] e[j]).key@ != "icy-name"@) {
        entry_index_first(e, "icy-name"@, k, 0);
    }
    if e[m].key@ == "title"@ && (forall|j: int| 0 <= j < m ==> (#[trigger] e[j]).key@ != "title"@) {
        entry_index_first(e, "title"@, m, 0);
        entry_index_found(e, "icy-title"@, 0);
    }
}

} // verus!
