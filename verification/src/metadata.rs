//! What the player reports about the stream: the ICY title and station name,
//! or the media title.

use vstd::prelude::*;

use crate::config::opt_view;
use crate::text::{spec_starts_with, spec_trim, starts_with, trim};

verus! {

/// One key of a metadata object; `text` holds its value when that value is
/// a string.
#[derive(Debug)]
pub struct MetaEntry {
    pub key: String,
    pub text: Option<String>,
}

/// A property value reported by the player, as far as the player reads it.
#[derive(Debug)]
pub enum MetaValue {
    Text(String),
    Object(Vec<MetaEntry>),
    Other,
}

/// Index of the first entry with key `key`, at or after `i`.
pub open spec fn entry_index_from(entries: Seq<MetaEntry>, key: Seq<char>, i: int) -> Option<int>
    decreases entries.len() - i,
{
    if i < 0 || i >= entries.len() {
        None
    } else if entries[i].key@ == key {
        Some(i)
    } else {
        entry_index_from(entries, key, i + 1)
    }
}

/// A text trimmed, or nothing when it is blank.
pub open spec fn non_blank(t: Seq<char>) -> Option<Seq<char>> {
    if spec_trim(t).len() == 0 {
        None
    } else {
        Some(spec_trim(t))
    }
}

/// The trimmed string value of `key`, when the key holds a non-blank string.
pub open spec fn spec_string_entry(entries: Seq<MetaEntry>, key: Seq<char>) -> Option<Seq<char>> {
    match entry_index_from(entries, key, 0) {
        Some(i) => match entries[i].text {
            Some(t) => non_blank(t@),
            None => None,
        },
        None => None,
    }
}

/// The trimmed text, or nothing when it is blank.
fn non_blank_text(text: &str) -> (r: Option<String>)
    ensures
        opt_view(r) == non_blank(text@),
{
    let t = trim(text);
    if t.as_str().unicode_len() == 0 {
        None
    } else {
        Some(t)
    }
}

/// The trimmed string under `key`, when it holds a non-blank string.
pub fn string_entry(entries: &Vec<MetaEntry>, key: &str) -> (r: Option<String>)
    ensures
        opt_view(r) == spec_string_entry(entries@, key@),
{
    let wanted = String::from_str(key);
    let mut i: usize = 0;
    while i < entries.len()
        invariant
            wanted@ == key@,
            i <= entries@.len(),
            entry_index_from(entries@, key@, 0) == entry_index_from(entries@, key@, i as int),
        decreases entries@.len() - i,
    {
        if entries[i].key == wanted {
            return match &entries[i].text {
                Some(t) => non_blank_text(t.as_str()),
                None => None,
            };
        }
        i = i + 1;
    }
    None
}

/// The track title (`icy-title`, else `title`) and station name
/// (`icy-name`) in a metadata object.
pub open spec fn spec_stream_metadata(data: MetaValue) -> (Option<Seq<char>>, Option<Seq<char>>) {
    match data {
        MetaValue::Object(entries) => (
            match spec_string_entry(entries@, "icy-title"@) {
                Some(t) => Some(t),
                None => spec_string_entry(entries@, "title"@),
            },
            spec_string_entry(entries@, "icy-name"@),
        ),
        _ => (None, None),
    }
}

/// The track title and station name a stream announces.
pub fn parse_stream_metadata(data: &MetaValue) -> (r: (Option<String>, Option<String>))
    ensures
        (opt_view(r.0), opt_view(r.1)) == spec_stream_metadata(*data),
{
    match data {
        MetaValue::Object(entries) => {
            let title = match string_entry(entries, "icy-title") {
                Some(t) => Some(t),
                None => string_entry(entries, "title"),
            };
            (title, string_entry(entries, "icy-name"))
        },
        _ => (None, None),
    }
}

/// A media title worth showing: a non-blank string that is not a URL.
pub open spec fn spec_title_from_value(value: MetaValue) -> Option<Seq<char>> {
    match value {
        MetaValue::Text(text) => {
            let t = spec_trim(text@);
            if t.len() == 0 || spec_starts_with(t, "http://"@) || spec_starts_with(t, "https://"@) {
                None
            } else {
                Some(t)
            }
        },
        _ => None,
    }
}

/// The media title to show, if it is a real title and not the stream URL.
pub fn title_from_value(value: &MetaValue) -> (r: Option<String>)
    ensures
        opt_view(r) == spec_title_from_value(*value),
{
    match value {
        MetaValue::Text(text) => {
            let t = trim(text.as_str());
            if t.as_str().unicode_len() == 0 || starts_with(t.as_str(), "http://") || starts_with(
                t.as_str(),
                "https://",
            ) {
                None
            } else {
                Some(t)
            }
        },
        _ => None,
    }
}

} // verus!
