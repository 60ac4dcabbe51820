use esp_voice::audio::{
    fetch_needs_audio, interpret_fetch, wakenet_change_message, wakenet_state_to_str, AFEResult, FetchOutput,
    WakenetChange, WakenetTracker, VAD_SILENCE, VAD_SPEECH, WAKENET_CHANNEL_VERIFIED,
    WAKENET_DETECTED, WAKENET_NO_DETECT,
};
use esp_voice::text::decimal_string;

#[test]
fn decimal_of_small_and_large_numbers() {
    assert_eq!(decimal_string(0), "0");
    assert_eq!(decimal_string(7), "7");
    assert_eq!(decimal_string(10), "10");
    assert_eq!(decimal_string(480000), "480000");
    assert_eq!(decimal_string(-1), "-1");
    assert_eq!(decimal_string(-250), "-250");
    assert_eq!(decimal_string(i64::MAX), "9223372036854775807");
    assert_eq!(decimal_string(i64::MIN), "-9223372036854775808");
}

#[test]
fn decimal_matches_display() {
    for x in [-1000001i64, -99, -10, -9, 1, 9, 99, 100, 65535, 1 << 40] {
        assert_eq!(decimal_string(x), x.to_string());
    }
}

#[test]
fn wakenet_state_names() {
    assert_eq!(wakenet_state_to_str(WAKENET_NO_DETECT), "NO_DETECT");
    assert_eq!(wakenet_state_to_str(WAKENET_DETECTED), "DETECTED");
    assert_eq!(wakenet_state_to_str(WAKENET_CHANNEL_VERIFIED), "CHANNEL_VERIFIED");
    assert_eq!(wakenet_state_to_str(2), "UNKNOWN");
    assert_eq!(wakenet_state_to_str(-7), "UNKNOWN");
}

fn output(ret_value: i32, wakeup_state: i32, vad_state: i32, cache: &[u8], data: &[u8]) -> FetchOutput {
    FetchOutput {
        ret_value,
        wakeup_state,
        wake_word_index: 3,
        wakenet_model_index: 2,
        vad_state,
        vad_cache: cache.to_vec(),
        data: data.to_vec(),
    }
}

#[test]
fn fetch_error_is_handed_back_and_state_kept() {
    let mut t = WakenetTracker::new();
    let r = interpret_fetch(&mut t, output(-5, WAKENET_DETECTED, VAD_SPEECH, &[1], &[2]));
    assert_eq!(r.result, Err(-5));
    assert_eq!(r.change, None);
    assert_eq!(t.last(), 0);
}

#[test]
fn fetch_speech_joins_cache_and_chunk() {
    let mut t = WakenetTracker::new();
    let r = interpret_fetch(&mut t, output(0, WAKENET_NO_DETECT, VAD_SPEECH, &[1, 2], &[3, 4, 5]));
    assert_eq!(r.result, Ok(AFEResult { data: vec![1, 2, 3, 4, 5], speech: true }));
    assert_eq!(r.change, None);
}

#[test]
fn fetch_silence_is_an_error_of_the_return_value() {
    let mut t = WakenetTracker::new();
    let r = interpret_fetch(&mut t, output(0, WAKENET_NO_DETECT, VAD_SILENCE, &[1], &[2]));
    assert_eq!(r.result, Err(0));
    assert_eq!(r.change, None);
}

#[test]
fn wakenet_change_is_reported_once() {
    let mut t = WakenetTracker::new();
    let r = interpret_fetch(&mut t, output(0, WAKENET_DETECTED, VAD_SILENCE, &[], &[]));
    assert_eq!(
        r.change,
        Some(WakenetChange { state: WAKENET_DETECTED, wake_word_index: 3, wakenet_model_index: 2 })
    );
    assert_eq!(t.last(), 1);
    let again = interpret_fetch(&mut t, output(0, WAKENET_DETECTED, VAD_SPEECH, &[], &[9]));
    assert_eq!(again.change, None);
    assert_eq!(again.result, Ok(AFEResult { data: vec![9], speech: true }));
    let back = interpret_fetch(&mut t, output(0, WAKENET_CHANNEL_VERIFIED, VAD_SILENCE, &[], &[]));
    assert!(back.change.is_some());
    assert_eq!(t.last(), -1);
}

#[test]
fn wakenet_state_compared_by_low_byte() {
    let mut t = WakenetTracker::new();
    let r = interpret_fetch(&mut t, output(0, 256, VAD_SILENCE, &[], &[]));
    assert_eq!(r.change, None);
    assert_eq!(t.last(), 0);
}

#[test]
fn wakenet_change_log_line() {
    let c = WakenetChange { state: WAKENET_DETECTED, wake_word_index: 1, wakenet_model_index: 0 };
    assert_eq!(
        wakenet_change_message(&c),
        "afe wakenet state: DETECTED wake_word_index: 1 model_index: 0"
    );
    let u = WakenetChange { state: 9, wake_word_index: -1, wakenet_model_index: 12 };
    assert_eq!(
        wakenet_change_message(&u),
        "afe wakenet state: UNKNOWN wake_word_index: -1 model_index: 12"
    );
}

#[test]
fn audio_buffers_read_only_for_speech() {
    assert!(fetch_needs_audio(0, VAD_SPEECH));
    assert!(!fetch_needs_audio(0, VAD_SILENCE));
    assert!(!fetch_needs_audio(3, VAD_SPEECH));
}
