//! How the player program is started and spoken to: its command line, the
//! place of its control socket, and which of its replies answers a request.

use vstd::prelude::*;

use vstd::utf8::encode_utf8;

use crate::config::{join_path, spec_join};
use crate::layout::views;
use crate::text::{decimal, spec_decimal};

verus! {

/// The audio filter that makes the player report loudness figures for the EQ.
pub open spec fn vu_filter() -> Seq<char> {
    "--af=@vu:astats=metadata=1:reset=1:measure_overall=RMS_level+Peak_level:measure_perchannel=RMS_level+Peak_level+Crest_factor+Zero_crossings_rate"@
}

/// The player's arguments for a stream: no video, quiet, no terminal input,
/// exit at the end, the loudness filter, the start volume, the control
/// socket, and the URL after `--` so that it is never read as an option.
pub open spec fn spec_player_args(volume: u8, socket: Seq<char>, url: Seq<char>) -> Seq<Seq<char>> {
    seq![
        "--no-video"@,
        "--really-quiet"@,
        "--no-input-terminal"@,
        "--idle=no"@,
        vu_filter(),
        "--volume="@ + spec_decimal(volume as nat),
        "--input-ipc-server="@ + socket,
        "--"@,
        url,
    ]
}

/// The arguments that start the player on `url` at `volume` percent, with its
/// control socket at `socket`.
pub fn player_args(volume: u8, socket: &str, url: &str) -> (r: Vec<String>)
    ensures
        views(r@) == spec_player_args(volume, socket@, url@),
{
    let mut v: Vec<String> = Vec::new();
    v.push(String::from_str("--no-video"));
    v.push(String::from_str("--really-quiet"));
    v.push(String::from_str("--no-input-terminal"));
    v.push(String::from_str("--idle=no"));
    v.push(
        String::from_str(
            "--af=@vu:astats=metadata=1:reset=1:measure_overall=RMS_level+Peak_level:measure_perchannel=RMS_level+Peak_level+Crest_factor+Zero_crossings_rate",
        ),
    );
    v.push(String::from_str("--volume=").concat(decimal(volume as usize).as_str()));
    v.push(String::from_str("--input-ipc-server=").concat(socket));
    v.push(String::from_str("--"));
    v.push(String::from_str(url));
    assert(views(v@) =~= spec_player_args(volume, socket@, url@));
    v
}

/// The control socket's file name for the process `pid`.
pub open spec fn socket_name(pid: u32) -> Seq<char> {
    "radio-tui-"@ + spec_decimal(pid as nat) + ".sock"@
}

/// Where the control socket of process `pid` is put, inside `dir` (the
/// runtime directory, else the temporary one), as the bytes of its path.
pub fn socket_path(dir: &Vec<u8>, pid: u32) -> (r: Vec<u8>)
    ensures
        r@ == spec_join(dir@, encode_utf8(socket_name(pid))),
{
    let name = String::from_str("radio-tui-").concat(decimal(pid as usize).as_str()).concat(
        ".sock",
    );
    join_path(dir, &name.as_str().as_bytes_vec())
}

/// The id of the next request: one more than the last, starting again at 1
/// when that would not be positive.
pub open spec fn spec_next_request_id(last: i64) -> i64 {
    if 0 <= last < i64::MAX {
        (last + 1) as i64
    } else {
        1
    }
}

/// The id to give the next request after `last`.
pub fn next_request_id(last: i64) -> (r: i64)
    ensures
        r == spec_next_request_id(last),
        r > 0,
{
    if 0 <= last && last < i64::MAX {
        last + 1
    } else {
        1
    }
}

/// What a reply line means for the request waited on.
#[derive(Debug, PartialEq, Eq)]
pub enum ReplyVerdict {
    /// It answers another request or none: keep reading.
    Unrelated,
    /// It answers the request and the property's value came with it.
    Answered,
    /// It answers the request with an error.
    Failed,
}

/// The meaning of a reply with the given request id and error text, when the
/// request waited on has the id `expected`.
pub open spec fn spec_reply_verdict(
    request_id: Option<i64>,
    expected: i64,
    error: Option<Seq<char>>,
) -> ReplyVerdict {
    if request_id != Some(expected) {
        ReplyVerdict::Unrelated
    } else if error == Some("success"@) {
        ReplyVerdict::Answered
    } else {
        ReplyVerdict::Failed
    }
}

/// Classify a reply of the player for the request with id `expected`.
pub fn reply_verdict(request_id: Option<i64>, expected: i64, error: Option<String>) -> (r:
    ReplyVerdict)
    ensures
        r == spec_reply_verdict(
            request_id,
            expected,
            match error {
                Some(e) => Some(e@),
                None => None,
            },
        ),
{
    let ours = match request_id {
        Some(id) => id == expected,
        None => false,
    };
    if !ours {
        return ReplyVerdict::Unrelated;
    }
    match error {
        Some(e) => {
            if e == String::from_str("success") {
                ReplyVerdict::Answered
            } else {
                ReplyVerdict::Failed
            }
        },
        None => ReplyVerdict::Failed,
    }
}

} // verus!
