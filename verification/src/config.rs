//! Stations, the checks on stream and list URLs, the location of
//! `stations.json`, and the rules that turn a parsed or fetched list into
//! stations.

use vstd::prelude::*;
use vstd::utf8::{decode_utf8, encode_utf8, valid_utf8};

use crate::text::{
    after_first, first_piece, spec_starts_with, spec_trim, split_on, starts_with, trim,
};

verus! {

/// A saved radio station.
#[derive(Debug, PartialEq, Eq)]
pub struct Station {
    pub name: String,
    pub url: String,
    /// Local-only. Missing in old files, and never copied from a remote list.
    pub favorite: bool,
}

impl Clone for Station {
    fn clone(&self) -> (r: Self)
        ensures
            r == *self,
    {
        Station { name: self.name.clone(), url: self.url.clone(), favorite: self.favorite }
    }
}

/// Why a station list could not be had.
#[derive(Debug)]
pub enum LoadError {
    NotFound,
    Invalid(String),
    Io(String),
}

/// The text a `LoadError` is shown as.
pub open spec fn spec_load_error_message(e: LoadError) -> Seq<char> {
    match e {
        LoadError::NotFound => "no config file"@,
        LoadError::Invalid(msg) => "invalid config: "@ + msg@,
        LoadError::Io(msg) => "config io error: "@ + msg@,
    }
}

impl LoadError {
    /// The message shown for this error.
    pub fn message(&self) -> (r: String)
        ensures
            r@ == spec_load_error_message(*self),
    {
        match self {
            LoadError::NotFound => String::from_str("no config file"),
            LoadError::Invalid(msg) => String::from_str("invalid config: ").concat(msg.as_str()),
            LoadError::Io(msg) => String::from_str("config io error: ").concat(msg.as_str()),
        }
    }
}

/// One entry of the wire format: a bare stream URL (the older format) or
/// a named station.
#[derive(Debug)]
pub enum RawStation {
    Url(String),
    Named { name: String, url: String, favorite: bool },
}

pub open spec fn bbc_name() -> Seq<char> {
    "BBC World Service"@
}

pub open spec fn bbc_url() -> Seq<char> {
    "http://stream.live.vc.bbcmedia.co.uk/bbc_world_service"@
}

pub open spec fn soma_name() -> Seq<char> {
    "SomaFM Groove Salad"@
}

pub open spec fn soma_url() -> Seq<char> {
    "http://ice1.somafm.com/groovesalad-256-mp3"@
}

/// The list a new user starts with.
pub fn default_stations() -> (r: Vec<Station>)
    ensures
        r@.len() == 2,
        r@[0].name@ == bbc_name(),
        r@[0].url@ == bbc_url(),
        !r@[0].favorite,
        r@[1].name@ == soma_name(),
        r@[1].url@ == soma_url(),
        !r@[1].favorite,
{
    let mut v: Vec<Station> = Vec::new();
    v.push(
        Station {
            name: String::from_str("BBC World Service"),
            url: String::from_str("http://stream.live.vc.bbcmedia.co.uk/bbc_world_service"),
            favorite: false,
        },
    );
    v.push(
        Station {
            name: String::from_str("SomaFM Groove Salad"),
            url: String::from_str("http://ice1.somafm.com/groovesalad-256-mp3"),
            favorite: false,
        },
    );
    v
}

/// The host part of a URL: the second `://`-separated piece (or the whole
/// text when there is none), up to its first `/`.
pub open spec fn host_of(url: Seq<char>) -> Seq<char> {
    let parts = split_on(url, "://"@);
    let seg = if parts.len() > 1 {
        parts[1]
    } else {
        url
    };
    split_on(seg, "/"@)[0]
}

/// The name given to a station that has only a URL: the default station's
/// name for a default URL, else the URL's host.
pub open spec fn spec_name_for_url(url: Seq<char>) -> Seq<char> {
    if url == bbc_url() {
        bbc_name()
    } else if url == soma_url() {
        soma_name()
    } else {
        host_of(url)
    }
}

/// The name a bare URL gets.
pub fn name_for_url(url: &str) -> (r: String)
    ensures
        r@ == spec_name_for_url(url@),
{
    let defaults = default_stations();
    let target = String::from_str(url);
    let mut i: usize = 0;
    while i < defaults.len()
        invariant
            defaults@.len() == 2,
            defaults@[0].name@ == bbc_name(),
            defaults@[0].url@ == bbc_url(),
            defaults@[1].name@ == soma_name(),
            defaults@[1].url@ == soma_url(),
            target@ == url@,
            i <= defaults@.len(),
            forall|k: int| 0 <= k < i ==> defaults@[k].url@ != url@,
        decreases defaults@.len() - i,
    {
        if defaults[i].url == target {
            return defaults[i].name.clone();
        }
        i = i + 1;
    }
    proof {
        reveal_strlit("://");
        reveal_strlit("/");
        assert(defaults@[0].url@ != url@);
        assert(defaults@[1].url@ != url@);
    }
    match after_first(url, "://") {
        Some(rest) => {
            let seg = first_piece(rest.as_str(), "://");
            first_piece(seg.as_str(), "/")
        },
        None => first_piece(url, "/"),
    }
}

/// The length in bytes of the UTF-8 encoding, as `str::len` reports it.
pub open spec fn byte_len(t: Seq<char>) -> usize {
    encode_utf8(t).len() as usize
}

/// A stream URL is accepted when, trimmed, it starts with `http://` or
/// `https://` and is longer than ten bytes.
pub open spec fn spec_valid_stream_url(url: Seq<char>) -> bool {
    let t = spec_trim(url);
    (spec_starts_with(t, "http://"@) || spec_starts_with(t, "https://"@)) && byte_len(t) > 10
}

/// Whether `url` may be handed to the player as a stream.
pub fn valid_stream_url(url: &str) -> (r: bool)
    ensures
        r == spec_valid_stream_url(url@),
{
    let t = trim(url);
    let s = t.as_str();
    (starts_with(s, "http://") || starts_with(s, "https://")) && s.len() > 10
}

/// Whether `url` may be fetched as a remote station list.
pub fn valid_list_url(url: &str) -> (r: bool)
    ensures
        r == spec_valid_stream_url(url@),
{
    valid_stream_url(url)
}

/// The largest remote list accepted, in bytes.
pub const REMOTE_LIST_MAX_BYTES: u64 = 1_000_000;

/// The trimmed list URL, or the error for one that is not http(s).
pub fn check_list_url(url: &str) -> (r: Result<String, LoadError>)
    ensures
        spec_valid_stream_url(spec_trim(url@)) ==> (r matches Ok(t) && t@ == spec_trim(url@)),
        !spec_valid_stream_url(spec_trim(url@)) ==> (r matches Err(LoadError::Invalid(m)) && m@
            == "list URL must start with http:// or https://"@),
{
    let t = trim(url);
    if !valid_list_url(t.as_str()) {
        return Err(
            LoadError::Invalid(String::from_str("list URL must start with http:// or https://")),
        );
    }
    Ok(t)
}

/// `String::from_utf8`: the text the bytes encode, when they are valid UTF-8.
#[verifier::external_body]
fn string_from_utf8(bytes: Vec<u8>) -> (r: Option<String>)
    ensures
        r is Some <==> valid_utf8(bytes@),
        r matches Some(s) ==> s@ == decode_utf8(bytes@),
{
    String::from_utf8(bytes).ok()
}

/// The text of a fetched list body, refusing one over the size limit or one
/// that is not UTF-8.
pub fn decode_remote_body(body: Vec<u8>) -> (r: Result<String, LoadError>)
    ensures
        body@.len() > REMOTE_LIST_MAX_BYTES ==> (r matches Err(LoadError::Invalid(m)) && m@
            == "remote list is too large"@),
        body@.len() <= REMOTE_LIST_MAX_BYTES && !valid_utf8(body@) ==> (r matches Err(
            LoadError::Invalid(m),
        ) && m@ == "remote list is not valid UTF-8"@),
        body@.len() <= REMOTE_LIST_MAX_BYTES && valid_utf8(body@) ==> (r matches Ok(s) && s@
            == decode_utf8(body@)),
{
    if body.len() as u64 > REMOTE_LIST_MAX_BYTES {
        return Err(LoadError::Invalid(String::from_str("remote list is too large")));
    }
    match string_from_utf8(body) {
        Some(s) => Ok(s),
        None => Err(LoadError::Invalid(String::from_str("remote list is not valid UTF-8"))),
    }
}

/// The stations of a fetched list: refused when empty, otherwise with every
/// favorite flag cleared.
pub fn finish_remote_stations(stations: Vec<Station>) -> (r: Result<Vec<Station>, LoadError>)
    ensures
        stations@.len() == 0 ==> (r matches Err(LoadError::Invalid(m)) && m@
            == "remote list has no stations"@),
        stations@.len() > 0 ==> (r matches Ok(out) && out@.len() == stations@.len() && forall|
            i: int,
        |
            0 <= i < out@.len() ==> #[trigger] out@[i].name == stations@[i].name && out@[i].url
                == stations@[i].url && !out@[i].favorite),
{
    if stations.len() == 0 {
        return Err(LoadError::Invalid(String::from_str("remote list has no stations")));
    }
    let mut out: Vec<Station> = Vec::new();
    let mut i: usize = 0;
    while i < stations.len()
        invariant
            i <= stations@.len(),
            out@.len() == i,
            forall|k: int|
                0 <= k < i ==> #[trigger] out@[k].name == stations@[k].name && out@[k].url
                    == stations@[k].url && !out@[k].favorite,
        decreases stations@.len() - i,
    {
        let s = &stations[i];
        out.push(Station { name: s.name.clone(), url: s.url.clone(), favorite: false });
        i = i + 1;
    }
    Ok(out)
}

/// `url` is the URL of some station in `list`.
pub open spec fn url_in(list: Seq<Station>, url: Seq<char>) -> bool {
    exists|i: int| 0 <= i < list.len() && #[trigger] list[i].url@ == url
}

/// The stations among the first `n` remote ones that are chosen and whose URL
/// is not already in `local`, in remote order.
pub open spec fn picked_new(local: Seq<Station>, remote: Seq<Station>, chosen: Seq<bool>, n: int) -> Seq<
    Station,
>
    decreases n,
{
    if n <= 0 {
        Seq::empty()
    } else {
        let prev = picked_new(local, remote, chosen, n - 1);
        if chosen[n - 1] && !url_in(local, remote[n - 1].url@) {
            prev.push(remote[n - 1])
        } else {
            prev
        }
    }
}

/// How many remote stations are paired with a choice.
pub open spec fn paired_len(remote: Seq<Station>, chosen: Seq<bool>) -> int {
    if remote.len() <= chosen.len() {
        remote.len() as int
    } else {
        chosen.len() as int
    }
}

/// The remote stations, paired with `chosen`, that are picked and new to
/// `local`.
pub open spec fn spec_selected_new_stations(
    local: Seq<Station>,
    remote: Seq<Station>,
    chosen: Seq<bool>,
) -> Seq<Station> {
    picked_new(local, remote, chosen, paired_len(remote, chosen))
}

/// Whether some station of `list` has the URL `url`.
pub fn has_url(list: &Vec<Station>, url: &String) -> (r: bool)
    ensures
        r == url_in(list@, url@),
{
    let mut i: usize = 0;
    while i < list.len()
        invariant
            i <= list@.len(),
            forall|k: int| 0 <= k < i ==> #[trigger] list@[k].url@ != url@,
        decreases list@.len() - i,
    {
        if list[i].url == *url {
            return true;
        }
        i = i + 1;
    }
    false
}

/// The remote stations that were chosen and whose stream is not saved yet.
pub fn selected_new_stations(local: &Vec<Station>, remote: &Vec<Station>, chosen: &Vec<bool>) -> (r:
    Vec<Station>)
    ensures
        r@ == spec_selected_new_stations(local@, remote@, chosen@),
{
    let n = if remote.len() <= chosen.len() {
        remote.len()
    } else {
        chosen.len()
    };
    let mut out: Vec<Station> = Vec::new();
    let mut i: usize = 0;
    while i < n
        invariant
            n == paired_len(remote@, chosen@),
            i <= n,
            out@ == picked_new(local@, remote@, chosen@, i as int),
        decreases n - i,
    {
        if chosen[i] && !has_url(local, &remote[i].url) {
            out.push(remote[i].clone());
        }
        i = i + 1;
    }
    out
}

/// The station an entry of the wire format stands for: a bare URL is named
/// after its URL, and a named entry with a blank name is too.
pub open spec fn spec_from_raw(raw: RawStation, s: Station) -> bool {
    match raw {
        RawStation::Url(url) => s.name@ == spec_name_for_url(url@) && s.url@ == url@
            && !s.favorite,
        RawStation::Named { name, url, favorite } => s.name@ == (if spec_trim(name@).len() == 0 {
            spec_name_for_url(url@)
        } else {
            name@
        }) && s.url@ == url@ && s.favorite == favorite,
    }
}

impl Station {
    /// The station that an entry of the wire format stands for.
    pub fn from_raw(raw: RawStation) -> (r: Station)
        ensures
            spec_from_raw(raw, r),
    {
        match raw {
            RawStation::Url(url) => {
                let name = name_for_url(url.as_str());
                Station { name, url, favorite: false }
            },
            RawStation::Named { name, url, favorite } => {
                let t = trim(name.as_str());
                let name = if t.as_str().unicode_len() == 0 {
                    name_for_url(url.as_str())
                } else {
                    name
                };
                Station { name, url, favorite }
            },
        }
    }
}

/// The stations of a parsed list, entry by entry.
pub fn stations_from_raw(raw: Vec<RawStation>) -> (r: Vec<Station>)
    ensures
        r@.len() == raw@.len(),
        forall|i: int| 0 <= i < raw@.len() ==> #[trigger] spec_from_raw(raw@[i], r@[i]),
{
    let ghost entries = raw@;
    let mut rest = raw;
    let mut out: Vec<Station> = Vec::new();
    while rest.len() > 0
        invariant
            out@.len() + rest@.len() == entries.len(),
            rest@ == entries.subrange(out@.len() as int, entries.len() as int),
            forall|i: int| 0 <= i < out@.len() ==> #[trigger] spec_from_raw(entries[i], out@[i]),
        decreases rest@.len(),
    {
        let item = rest.remove(0);
        proof {
            assert(item == entries[out@.len() as int]);
        }
        out.push(Station::from_raw(item));
    }
    out
}

/// The byte `/` that separates the parts of a path.
pub open spec fn slash() -> u8 {
    47u8
}

/// A path, as the bytes of the operating system's path, with `part`
/// appended as a path on Unix is extended: an absolute part replaces the
/// base, and a separator is put between the two unless the base is empty or
/// already ends in one.
pub open spec fn spec_join(base: Seq<u8>, part: Seq<u8>) -> Seq<u8> {
    if part.len() > 0 && part[0] == slash() {
        part
    } else if base.len() == 0 || base.last() == slash() {
        base + part
    } else {
        base + seq![slash()] + part
    }
}

/// Append the bytes of `more` to `out`.
fn extend_bytes(out: &mut Vec<u8>, more: &Vec<u8>)
    ensures
        final(out)@ == old(out)@ + more@,
{
    let ghost start = out@;
    let mut i: usize = 0;
    while i < more.len()
        invariant
            i <= more@.len(),
            out@ == start + more@.subrange(0, i as int),
        decreases more@.len() - i,
    {
        out.push(more[i]);
        i = i + 1;
        proof {
            assert(out@ =~= start + more@.subrange(0, i as int));
        }
    }
    assert(more@.subrange(0, more@.len() as int) =~= more@);
}

/// The path `base` extended by the path `part`.
pub fn join_path(base: &Vec<u8>, part: &Vec<u8>) -> (r: Vec<u8>)
    ensures
        r@ == spec_join(base@, part@),
{
    let mut out: Vec<u8> = Vec::new();
    if part.len() > 0 && part[0] == 47u8 {
        extend_bytes(&mut out, part);
        assert(out@ =~= part@);
        return out;
    }
    extend_bytes(&mut out, base);
    if base.len() > 0 && base[base.len() - 1] != 47u8 {
        out.push(47u8);
    }
    extend_bytes(&mut out, part);
    assert(out@ =~= spec_join(base@, part@));
    out
}

/// `dirs::config_dir`: the user's configuration directory, if one is known,
/// as the bytes of its path.  What it returns depends on the environment, so
/// nothing is stated of it.
#[verifier::external_body]
fn user_config_dir() -> (r: Option<Vec<u8>>) {
    match dirs::config_dir() {
        Some(p) => Some(p.into_os_string().into_encoded_bytes()),
        None => None,
    }
}

/// `dirs::home_dir`: the user's home directory, if one is known, as the
/// bytes of its path.  What it returns depends on the environment, so
/// nothing is stated of it.
#[verifier::external_body]
fn user_home_dir() -> (r: Option<Vec<u8>>) {
    match dirs::home_dir() {
        Some(p) => Some(p.into_os_string().into_encoded_bytes()),
        None => None,
    }
}

/// The program's configuration directory given the user's configuration
/// directory and home directory: `<config>/radio-tui`, else
/// `<home or .>/.config/radio-tui`.
pub open spec fn spec_config_dir(config: Option<Seq<u8>>, home: Option<Seq<u8>>) -> Seq<u8> {
    match config {
        Some(dir) => spec_join(dir, encode_utf8("radio-tui"@)),
        None => {
            let h = match home {
                Some(h) => h,
                None => encode_utf8("."@),
            };
            spec_join(spec_join(h, encode_utf8(".config"@)), encode_utf8("radio-tui"@))
        },
    }
}

/// The text of an optional string.
pub open spec fn opt_view(o: Option<String>) -> Option<Seq<char>> {
    match o {
        Some(s) => Some(s@),
        None => None,
    }
}

/// The bytes of an optional path.
pub open spec fn opt_bytes(o: Option<Vec<u8>>) -> Option<Seq<u8>> {
    match o {
        Some(v) => Some(v@),
        None => None,
    }
}

/// The configuration directory for the given user directories.
pub fn config_dir_from(config: Option<Vec<u8>>, home: Option<Vec<u8>>) -> (r: Vec<u8>)
    ensures
        r@ == spec_config_dir(opt_bytes(config), opt_bytes(home)),
{
    let name = "radio-tui".as_bytes_vec();
    match config {
        Some(dir) => join_path(&dir, &name),
        None => {
            let h = match home {
                Some(h) => h,
                None => ".".as_bytes_vec(),
            };
            let base = join_path(&h, &".config".as_bytes_vec());
            join_path(&base, &name)
        },
    }
}

/// The configuration directory of this user, as the bytes of its path.
pub fn config_dir() -> (r: Vec<u8>)
    ensures
        exists|c: Option<Seq<u8>>, h: Option<Seq<u8>>| r@ == spec_config_dir(c, h),
{
    let config = user_config_dir();
    let home = match config {
        Some(_) => None,
        None => user_home_dir(),
    };
    let ghost c = opt_bytes(config);
    let ghost h = opt_bytes(home);
    let r = config_dir_from(config, home);
    assert(r@ == spec_config_dir(c, h));
    r
}

/// Where the station list is kept, as the bytes of its path:
/// `stations.json` in the configuration directory.
pub fn config_path() -> (r: Vec<u8>)
    ensures
        exists|c: Option<Seq<u8>>, h: Option<Seq<u8>>| r@ == spec_join(
            spec_config_dir(c, h),
            encode_utf8("stations.json"@),
        ),
{
    let dir = config_dir();
    join_path(&dir, &"stations.json".as_bytes_vec())
}

} // verus!
