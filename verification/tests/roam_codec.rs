use grouse_core::roam::{replay_tail_decision, RoamCodec, MAX_FRAME_BYTES, REPLAY_TAIL};
use grouse_core::spine::reconnect_delay_ms;

#[test]
fn codec_splits_newline_frames() {
    let mut codec = RoamCodec::new();
    let frames = codec.feed(b"{\"a\":1}\n{\"b\":2}\n");
    assert_eq!(frames, vec!["{\"a\":1}", "{\"b\":2}"]);
    assert!(codec.feed(b"").is_empty());
}

#[test]
fn codec_buffers_partial_frames_across_chunks() {
    let mut codec = RoamCodec::new();
    assert!(codec.feed(b"{\"a\":1").is_empty());
    assert!(codec.feed(b",\"b\"").is_empty());
    assert_eq!(codec.feed(b":2}\n"), vec!["{\"a\":1,\"b\":2}"]);
    // No trailing newline: the tail stays buffered until it arrives.
    assert!(codec.feed(b"tail").is_empty());
    assert_eq!(codec.feed(b"\n"), vec!["tail"]);
}

#[test]
fn codec_tolerates_crlf() {
    let mut codec = RoamCodec::new();
    assert_eq!(codec.feed(b"{\"a\":1}\r\n"), vec!["{\"a\":1}"]);
}

#[test]
fn codec_preserves_utf8() {
    let mut codec = RoamCodec::new();
    let bytes = "héllo 🦆".as_bytes();
    let mut chunk = bytes.to_vec();
    chunk.push(b'\n');
    assert_eq!(codec.feed(&chunk), vec!["héllo 🦆"]);
}

#[test]
fn codec_encode_terminates_with_newline() {
    assert_eq!(RoamCodec::encode("{\"a\":1}"), b"{\"a\":1}\n");
    assert_eq!(RoamCodec::encode(""), b"\n");
}

#[test]
fn reconnect_delay_curve() {
    // The shared curve both the main connection and the peer supervisor
    // use: 500ms·2^n capped at 15s.
    assert_eq!(reconnect_delay_ms(0), 500);
    assert_eq!(reconnect_delay_ms(1), 1000);
    assert_eq!(reconnect_delay_ms(4), 8000);
    assert_eq!(reconnect_delay_ms(5), 15000);
    assert_eq!(reconnect_delay_ms(9), 15000);
}

#[test]
fn replay_tail_only_when_stamps_agree() {
    assert_eq!(
        replay_tail_decision("2026-08-23T10:00:00Z", "2026-08-23T10:00:00Z"),
        Some(REPLAY_TAIL)
    );
    // The session moved while we were away — a tail could hide a gap.
    assert_eq!(
        replay_tail_decision("2026-08-23T10:00:00Z", "2026-08-23T11:00:00Z"),
        None
    );
    // No stamp on either side proves nothing.
    assert_eq!(replay_tail_decision("", ""), None);
    assert_eq!(replay_tail_decision("", "2026-08-23T10:00:00Z"), None);
}

#[test]
fn codec_replaces_invalid_utf8_with_the_replacement_character() {
    let mut codec = RoamCodec::new();
    assert_eq!(codec.feed(b"a\xffb\n"), vec!["a\u{fffd}b"]);
}

#[test]
fn codec_frames_do_not_depend_on_how_the_bytes_are_chunked() {
    let mut whole = RoamCodec::new();
    let all = whole.feed(b"one\ntwo\nthr");
    let mut split = RoamCodec::new();
    let mut parts = split.feed(b"on");
    parts.extend(split.feed(b"e\ntw"));
    parts.extend(split.feed(b"o\nthr"));
    assert_eq!(all, parts);
    assert_eq!(whole.feed(b"ee\n"), vec!["three"]);
    assert_eq!(split.feed(b"ee\n"), vec!["three"]);
}

#[test]
fn encode_then_feed_gives_the_text_back() {
    let mut codec = RoamCodec::new();
    let bytes = RoamCodec::encode("{\"x\":\"ü\"}");
    assert_eq!(codec.feed(&bytes), vec!["{\"x\":\"ü\"}"]);
}

#[test]
fn an_overlong_line_is_cut_at_the_frame_cap() {
    let mut codec = RoamCodec::new();
    let long = vec![b'a'; MAX_FRAME_BYTES + 10];
    assert!(codec.feed(&long).is_empty());
    let frames = codec.feed(b"\n{\"b\":2}\n");
    assert_eq!(frames.len(), 2);
    assert_eq!(frames[0].len(), MAX_FRAME_BYTES);
    assert_eq!(frames[1], "{\"b\":2}");
}

#[test]
fn a_plain_text_comes_back_whole() {
    let mut codec = RoamCodec::new();
    let frames = codec.feed(&RoamCodec::encode("héllo wörld ✓"));
    assert_eq!(frames, vec!["héllo wörld ✓".to_string()]);
    assert!(codec.feed(b"").is_empty());
}
