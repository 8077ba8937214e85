use voice_type::recording::{
    elapsed_seconds, recording_file_name, recording_format, recording_id,
    u16_samples_to_i16, Recorder, RecordingSession, Timestamp,
};

#[test]
fn recording_id_is_millis() {
    let t = Timestamp { secs: 1_700_000_000, nanos: 123_456_789 };
    assert_eq!(recording_id(t), "rec_1700000000123");
    assert_eq!(recording_id(Timestamp { secs: 0, nanos: 0 }), "rec_0");
}

#[test]
fn file_name_has_wav_extension() {
    assert_eq!(recording_file_name("rec_42"), "rec_42.wav");
}

#[test]
fn elapsed_seconds_truncate() {
    let a = Timestamp { secs: 10, nanos: 900_000_000 };
    let b = Timestamp { secs: 13, nanos: 100_000_000 };
    assert_eq!(elapsed_seconds(a, b), 2);
    assert_eq!(elapsed_seconds(a, a), 0);
    // A clock that went back 2.2 s gives -2, stored as an unsigned wrap.
    assert_eq!(elapsed_seconds(b, a), (-2i64) as u64);
}

#[test]
fn recorder_begin_and_stop() {
    let mut r = Recorder::new();
    assert!(!r.is_recording());
    assert!(r.check_idle().is_ok());
    let s = RecordingSession {
        id: "rec_1".to_string(),
        file_path: "/tmp/voicetype/rec_1.wav".to_string(),
        start_time: Timestamp { secs: 100, nanos: 0 },
    };
    assert_eq!(r.begin(s), Ok("rec_1".to_string()));
    assert!(r.is_recording());
    assert_eq!(r.check_idle(), Err("已在錄音中".to_string()));
    let res = r.stop(Timestamp { secs: 105, nanos: 500_000_000 }).unwrap();
    assert_eq!(res.audio_path, "/tmp/voicetype/rec_1.wav");
    assert_eq!(res.duration, 5);
    assert!(!r.is_recording());
}

#[test]
fn recorder_refuses_second_recording() {
    let mut r = Recorder::new();
    let t = Timestamp { secs: 5, nanos: 0 };
    let a = RecordingSession { id: "a".to_string(), file_path: "a.wav".to_string(), start_time: t };
    let b = RecordingSession { id: "b".to_string(), file_path: "b.wav".to_string(), start_time: t };
    assert!(r.begin(a).is_ok());
    assert_eq!(r.begin(b), Err("已在錄音中".to_string()));
    let res = r.stop(Timestamp { secs: 6, nanos: 0 }).unwrap();
    assert_eq!(res.audio_path, "a.wav");
    assert_eq!(res.duration, 1);
}

#[test]
fn recorder_stop_without_recording() {
    let mut r = Recorder::new();
    let t = Timestamp { secs: 1, nanos: 0 };
    assert_eq!(r.stop(t).map(|s| s.audio_path), Err("沒有在錄音".to_string()));
}

#[test]
fn u16_samples_reinterpreted() {
    assert_eq!(u16_samples_to_i16(&[0, 1, 32767, 32768, 65535]), vec![0, 1, 32767, -32768, -1]);
    assert!(u16_samples_to_i16(&[]).is_empty());
}

#[test]
fn wav_format_is_16_bit() {
    let f = recording_format(2, 48_000);
    assert_eq!((f.channels, f.sample_rate, f.bits_per_sample), (2, 48_000, 16));
}
