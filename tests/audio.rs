use gegensprech::audio::{
    bytes_for_ms, bytes_from_samples, cancel_latency_us, capture_exit_ok, mime_label, play_raw,
    playback_failure, samples_from_bytes, AudioError, CancelPoll, Capture, CaptureError, Flow, LoopTape,
    Rec, BLOCK_BYTES, MIN_CLIP_SAMPLES,
};

#[test]
fn sample_bytes_round_trip() {
    let s: Vec<i16> = vec![0, 1, -1, 256, i16::MIN, i16::MAX, -300];
    let b = bytes_from_samples(&s);
    assert_eq!(b.len(), 14);
    assert_eq!(&b[..6], &[0, 0, 1, 0, 0xff, 0xff]);
    assert_eq!(samples_from_bytes(&b), s);
    for x in &s {
        assert_eq!(&x.to_le_bytes()[..], &bytes_from_samples(&[*x])[..]);
    }
    assert_eq!(samples_from_bytes(&[1, 2, 3]), vec![0x0201]);
}

#[test]
fn tape_keeps_the_latest() {
    assert_eq!(bytes_for_ms(10), 960);
    let mut t = LoopTape::new(10);
    assert_eq!(t.capacity_bytes(), 960);
    assert!(t.get(10).is_empty());
    for k in 0..3u8 {
        t.push_block(&vec![k; 400]);
    }
    // 1200 bytes pushed, 960 kept: the oldest 240 are gone
    let all = t.get(1000);
    assert_eq!(all.len(), 480);
    assert_eq!(all[0], 0);
    assert_eq!(all[79], 0);
    assert_eq!(all[80], 0x0101);
    assert_eq!(all[479], 0x0202);
    let last = t.get(1);
    assert_eq!(last.len(), 48);
    assert_eq!(last[0], 0x0202);
}

#[test]
fn tape_get_beyond_capacity_gives_capacity() {
    let mut t = LoopTape::new(20);
    let cap = t.capacity_bytes();
    for _ in 0..(cap / 64 + 2) {
        t.push_block(&[7u8; 64]);
    }
    assert_eq!(t.get(1_000_000).len(), cap / 2);
    assert_eq!(t.get(u64::MAX).len(), cap / 2);
}

#[test]
fn capture_collects_and_stops() {
    let mut c = Capture::new();
    assert_eq!(c.on_block(&[1, 0, 2, 0], CancelPoll::Pending), Ok(Flow::Continue));
    assert_eq!(c.on_block(&[3, 0], CancelPoll::Fired), Ok(Flow::Break));
    assert_eq!(c.recorded, vec![1, 2, 3]);
    assert_eq!(c.on_block(&[], CancelPoll::Closed), Err(CaptureError::Aborted));
}

#[test]
fn short_capture_is_too_short() {
    let mut c = Capture::new();
    let block = vec![0u8; BLOCK_BYTES];
    c.on_block(&block, CancelPoll::Pending);
    c.on_block(&block, CancelPoll::Fired);
    assert!(c.recorded.len() < MIN_CLIP_SAMPLES);
    assert_eq!(c.finish(), Err(CaptureError::TooShort));
}

#[test]
fn long_enough_capture_is_kept() {
    let mut c = Capture::new();
    let block = vec![0u8; BLOCK_BYTES];
    for _ in 0..5 {
        c.on_block(&block, CancelPoll::Pending);
    }
    assert_eq!(c.finish().unwrap().len(), 5 * BLOCK_BYTES / 2);
}

#[test]
fn cancellation_latency_is_one_block() {
    assert_eq!(cancel_latency_us(), 21_333);
}

#[test]
fn clip_metadata() {
    let r = Rec::new(vec![1, 2, 3, 4, 5], 96_000);
    assert_eq!(r.duration_ms, 2000);
    assert_eq!(r.size, 5);
    assert_eq!(r.mimetype, "media/ogg");
    assert_eq!(Rec::new(vec![], 47).duration_ms, 0);
}

#[test]
fn playback_preparation() {
    assert_eq!(play_raw(&[1, 2], 0).unwrap_err(), AudioError::InvalidChannels);
    let job = play_raw(&[1, -2], 2).unwrap();
    assert_eq!(job.channels, 2);
    assert_eq!(job.bytes, vec![1, 0, 0xfe, 0xff]);
}

#[test]
fn labels_and_outcomes() {
    assert_eq!(mime_label(&Some("audio/ogg".to_string())), "audio/ogg");
    assert_eq!(mime_label(&None), "MIME unknown");
    assert!(capture_exit_ok(true, None));
    assert!(capture_exit_ok(false, Some(1)));
    assert!(!capture_exit_ok(false, Some(9)));
    assert!(!capture_exit_ok(false, None));
    assert_eq!(playback_failure("a\n", "b\n"), "Msg:\na\nErr:\nb\n");
    assert_eq!(playback_failure("", "b"), "b");
    assert_eq!(playback_failure("a", ""), "a");
    assert_eq!(playback_failure("", ""), "(silent failure)");
}
