use radio_tui::mpv::{next_request_id, player_args, reply_verdict, socket_path, ReplyVerdict};

#[test]
fn player_args_put_the_url_after_the_option_end() {
    let args = player_args(70, "/run/user/1000/radio-tui-42.sock", "https://example.com/x");
    assert_eq!(
        args,
        vec![
            "--no-video".to_string(),
            "--really-quiet".to_string(),
            "--no-input-terminal".to_string(),
            "--idle=no".to_string(),
            "--af=@vu:astats=metadata=1:reset=1:measure_overall=RMS_level+Peak_level:measure_perchannel=RMS_level+Peak_level+Crest_factor+Zero_crossings_rate".to_string(),
            "--volume=70".to_string(),
            "--input-ipc-server=/run/user/1000/radio-tui-42.sock".to_string(),
            "--".to_string(),
            "https://example.com/x".to_string(),
        ]
    );
}

#[test]
fn player_args_write_the_volume_in_decimal() {
    assert_eq!(player_args(0, "s", "u")[5], "--volume=0");
    assert_eq!(player_args(100, "s", "u")[5], "--volume=100");
    assert_eq!(player_args(255, "s", "u")[5], "--volume=255");
}

#[test]
fn socket_path_is_named_after_the_process() {
    assert_eq!(
        socket_path(&b"/run/user/1000".to_vec(), 4242),
        b"/run/user/1000/radio-tui-4242.sock".to_vec()
    );
    assert_eq!(socket_path(&b"/tmp/".to_vec(), 7), b"/tmp/radio-tui-7.sock".to_vec());
    assert_eq!(socket_path(&b"".to_vec(), 0), b"radio-tui-0.sock".to_vec());
    assert_eq!(
        socket_path(&vec![b'/', 0xff], 1),
        vec![b'/', 0xff, b'/', b'r', b'a', b'd', b'i', b'o', b'-', b't', b'u', b'i', b'-', b'1', b'.', b's', b'o', b'c', b'k']
    );
}

#[test]
fn request_ids_count_up_and_restart_at_one() {
    assert_eq!(next_request_id(1), 2);
    assert_eq!(next_request_id(0), 1);
    assert_eq!(next_request_id(41), 42);
    assert_eq!(next_request_id(i64::MAX), 1);
    assert_eq!(next_request_id(-5), 1);
}

#[test]
fn replies_are_matched_to_their_request() {
    assert_eq!(
        reply_verdict(Some(7), 7, Some("success".to_string())),
        ReplyVerdict::Answered
    );
    assert_eq!(
        reply_verdict(Some(7), 7, Some("property unavailable".to_string())),
        ReplyVerdict::Failed
    );
    assert_eq!(reply_verdict(Some(7), 7, None), ReplyVerdict::Failed);
    assert_eq!(
        reply_verdict(Some(6), 7, Some("success".to_string())),
        ReplyVerdict::Unrelated
    );
    assert_eq!(
        reply_verdict(None, 7, Some("success".to_string())),
        ReplyVerdict::Unrelated
    );
}
