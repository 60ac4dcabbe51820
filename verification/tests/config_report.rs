use esp_voice::config::{
    apply_wake_word_settings, chunksize_message, command_init_request, ringbuf_size_message,
    wake_word_init_request, AfeConfig, AfeMode, AfeType, PcmConfig, DET_MODE_90, VAD_MODE_1,
};
use esp_voice::report::afe_config_lines;

fn sample() -> AfeConfig {
    AfeConfig {
        aec_init: true,
        aec_mode: 2,
        aec_filter_length: 4,
        se_init: false,
        ns_init: true,
        afe_ns_mode: 1,
        vad_init: true,
        vad_mode: 3,
        vad_min_speech_ms: 128,
        vad_min_noise_ms: 1000,
        vad_delay_ms: 128,
        vad_mute_playback: false,
        vad_enable_channel_trigger: false,
        wakenet_init: false,
        wakenet_mode: 1,
        agc_init: false,
        agc_mode: 2,
        agc_compression_gain_db: 9,
        agc_target_level_dbfs: -3,
        pcm_config: PcmConfig { total_ch_num: 2, mic_num: 1, ref_num: 1, sample_rate: 16000 },
        afe_mode: 1,
        afe_type: 0,
        afe_perferred_core: 0,
        afe_perferred_priority: 5,
        afe_ringbuf_size: 50,
        memory_alloc_mode: 3,
        debug_init: false,
        fixed_first_channel: true,
    }
}

#[test]
fn wake_word_settings_change_only_their_fields() {
    let mut c = sample();
    apply_wake_word_settings(&mut c);
    let mut expected = sample();
    expected.pcm_config = PcmConfig { total_ch_num: 1, mic_num: 1, ref_num: 0, sample_rate: 16000 };
    expected.afe_ringbuf_size = 25;
    expected.vad_min_noise_ms = 500;
    expected.vad_mode = VAD_MODE_1;
    expected.agc_init = true;
    expected.wakenet_init = true;
    expected.wakenet_mode = DET_MODE_90;
    assert_eq!(c, expected);
}

#[test]
fn wake_word_settings_are_idempotent() {
    let mut once = sample();
    apply_wake_word_settings(&mut once);
    let mut twice = once;
    apply_wake_word_settings(&mut twice);
    assert_eq!(once, twice);
}

#[test]
fn init_requests() {
    let w = wake_word_init_request();
    assert_eq!(w.model_partition, "model");
    assert_eq!(w.input_format, "MR");
    assert_eq!(w.afe_type, AfeType::SpeechRecognition);
    assert_eq!(w.afe_mode, AfeMode::HighPerf);
    let c = command_init_request();
    assert_eq!(c.model_partition, "/vfat");
    assert_eq!(c.input_format, "M");
    assert_eq!(c.afe_type, AfeType::SpeechRecognition);
    assert_eq!(c.afe_mode, AfeMode::LowCost);
}

#[test]
fn size_messages() {
    assert_eq!(ringbuf_size_message(25), "afe ringbuf size: 25");
    assert_eq!(chunksize_message(512), "audio chunksize: 512");
    assert_eq!(chunksize_message(-1), "audio chunksize: -1");
}

#[test]
fn config_report_lines() {
    let lines = afe_config_lines(&sample(), "1");
    let expected = vec![
        "--- AFE Configuration ---",
        "AEC: init=true, mode=2, filter_length=4",
        "SE: init=false",
        "NS: init=true, mode=1",
        "VAD: init=true, mode=3, min_speech_ms=128, min_noise_ms=1000, delay_ms=128, mute_playback=false, enable_channel_trigger=false",
        "WakeNet: init=false, mode=1",
        "AGC: init=false, mode=2, compression_gain_db=9, target_level_dbfs=-3",
        "PCM: total_ch_num=2, mic_num=1, ref_num=1, sample_rate=16000",
        "General AFE: mode=1, type=0, preferred_core=0, preferred_priority=5, ringbuf_size=50, linear_gain=1",
        "Memory allocation mode=3, debug_init=false, fixed_first_channel=true",
        "--- End of AFE Configuration ---",
    ];
    assert_eq!(lines, expected);
}

#[test]
fn config_report_takes_rendered_gain() {
    let gain = format!("{}", 0.5f32);
    let lines = afe_config_lines(&sample(), &gain);
    assert!(lines[8].ends_with("ringbuf_size=50, linear_gain=0.5"));
    assert_eq!(lines.len(), 11);
}
