use vstd::prelude::*;

use crate::text::{int_decimal, push_int_decimal};

verus! {

/// `vad_mode_t`: voice activity detection mode 1.
pub const VAD_MODE_1: i64 = 1;

/// `det_mode_t`: wake word detection in the 90% mode.
pub const DET_MODE_90: i64 = 0;

/// Microphone channels in the front end's input.
pub const PCM_CHANNELS: i64 = 1;

/// Size of the front end's ring buffer, in frames.
pub const AFE_RINGBUF_SIZE: i64 = 25;

/// Silence that ends speech, in milliseconds.
pub const VAD_MIN_NOISE_MS: i64 = 500;

/// The input layout, kind and mode with which a front-end configuration is
/// first made.
#[derive(Clone, Copy, PartialEq, Eq, Structural, Debug)]
pub enum AfeType {
    /// Speech recognition.
    SpeechRecognition,
    /// Voice communication.
    VoiceCommunication,
}

/// Whether the front end favours speed or quality.
#[derive(Clone, Copy, PartialEq, Eq, Structural, Debug)]
pub enum AfeMode {
    LowCost,
    HighPerf,
}

/// The PCM layout of the front end's input.
#[derive(Clone, Copy, PartialEq, Eq, Structural, Debug)]
pub struct PcmConfig {
    pub total_ch_num: i64,
    pub mic_num: i64,
    pub ref_num: i64,
    pub sample_rate: i64,
}

/// The settings of the audio front end that this program reads or changes,
/// as plain values. Integer settings, including the codes of the C enums,
/// are held as `i64`; the linear gain, a float, is left out.
#[derive(Clone, Copy, PartialEq, Eq, Structural, Debug)]
pub struct AfeConfig {
    pub aec_init: bool,
    pub aec_mode: i64,
    pub aec_filter_length: i64,
    pub se_init: bool,
    pub ns_init: bool,
    pub afe_ns_mode: i64,
    pub vad_init: bool,
    pub vad_mode: i64,
    pub vad_min_speech_ms: i64,
    pub vad_min_noise_ms: i64,
    pub vad_delay_ms: i64,
    pub vad_mute_playback: bool,
    pub vad_enable_channel_trigger: bool,
    pub wakenet_init: bool,
    pub wakenet_mode: i64,
    pub agc_init: bool,
    pub agc_mode: i64,
    pub agc_compression_gain_db: i64,
    pub agc_target_level_dbfs: i64,
    pub pcm_config: PcmConfig,
    pub afe_mode: i64,
    pub afe_type: i64,
    pub afe_perferred_core: i64,
    pub afe_perferred_priority: i64,
    pub afe_ringbuf_size: i64,
    pub memory_alloc_mode: i64,
    pub debug_init: bool,
    pub fixed_first_channel: bool,
}

/// How a front end is first made: the partition its speech models are loaded
/// from, the input layout (one letter per channel, `M` for a microphone and
/// `R` for a playback reference), the kind of front end and its mode.
pub struct AfeInitRequest {
    pub model_partition: &'static str,
    pub input_format: &'static str,
    pub afe_type: AfeType,
    pub afe_mode: AfeMode,
}

/// The configuration `base` after the settings of the wake-word front end:
/// one microphone at the sample rate, a ring buffer of 25 frames, 500 ms of
/// silence to end speech, detection mode 1, gain control on, and wake-net on
/// in the 90% mode. Every other setting is that of `base`.
pub open spec fn with_wake_word_settings(base: AfeConfig) -> AfeConfig {
    AfeConfig {
        pcm_config: PcmConfig {
            total_ch_num: PCM_CHANNELS,
            mic_num: PCM_CHANNELS,
            ref_num: 0,
            sample_rate: crate::SAMPLE_RATE as i64,
        },
        afe_ringbuf_size: AFE_RINGBUF_SIZE,
        vad_min_noise_ms: VAD_MIN_NOISE_MS,
        vad_mode: VAD_MODE_1,
        agc_init: true,
        wakenet_init: true,
        wakenet_mode: DET_MODE_90,
        ..base
    }
}

/// Applies the settings of the wake-word front end to a configuration made
/// by the front end's defaults.
pub fn apply_wake_word_settings(config: &mut AfeConfig)
    ensures
        *final(config) == with_wake_word_settings(*old(config)),
{
    config.pcm_config.total_ch_num = PCM_CHANNELS;
    config.pcm_config.mic_num = PCM_CHANNELS;
    config.pcm_config.ref_num = 0;
    config.pcm_config.sample_rate = crate::SAMPLE_RATE as i64;
    config.afe_ringbuf_size = AFE_RINGBUF_SIZE;
    config.vad_min_noise_ms = VAD_MIN_NOISE_MS;
    config.vad_mode = VAD_MODE_1;
    config.agc_init = true;
    config.wakenet_init = true;
    config.wakenet_mode = DET_MODE_90;
}

/// The request with which the wake-word front end is made: models from the
/// `model` partition, a microphone and a playback reference, for speech
/// recognition, in the high-performance mode.
pub fn wake_word_init_request() -> (r: AfeInitRequest)
    ensures
        r.model_partition@ == "model"@,
        r.input_format@ == "MR"@,
        r.afe_type == AfeType::SpeechRecognition,
        r.afe_mode == AfeMode::HighPerf,
{
    AfeInitRequest {
        model_partition: "model",
        input_format: "MR",
        afe_type: AfeType::SpeechRecognition,
        afe_mode: AfeMode::HighPerf,
    }
}

/// The request with which the command recogniser's front end is made:
/// models from the `/vfat` partition, one microphone, for speech
/// recognition, in the low-cost mode.
pub fn command_init_request() -> (r: AfeInitRequest)
    ensures
        r.model_partition@ == "/vfat"@,
        r.input_format@ == "M"@,
        r.afe_type == AfeType::SpeechRecognition,
        r.afe_mode == AfeMode::LowCost,
{
    AfeInitRequest {
        model_partition: "/vfat",
        input_format: "M",
        afe_type: AfeType::SpeechRecognition,
        afe_mode: AfeMode::LowCost,
    }
}

/// Applying the wake-word settings twice gives what applying them once
/// gives.
pub proof fn law_wake_word_settings_idempotent(c: AfeConfig)
    ensures
        with_wake_word_settings(with_wake_word_settings(c)) == with_wake_word_settings(c),
{
}

/// What the wake-word settings are: one input channel, a microphone and no
/// playback reference, at 16000 Hz; a ring buffer of 25 frames; 500 ms of
/// silence to end speech; detection mode 1; gain control on; wake-net on in
/// the 90% mode (code 0).
pub proof fn law_wake_word_settings_values(c: AfeConfig)
    ensures
        ({
            let s = with_wake_word_settings(c);
            &&& s.pcm_config.total_ch_num == 1
            &&& s.pcm_config.mic_num == 1
            &&& s.pcm_config.ref_num == 0
            &&& s.pcm_config.sample_rate == 16000
            &&& s.afe_ringbuf_size == 25
            &&& s.vad_min_noise_ms == 500
            &&& s.vad_mode == 1
            &&& s.agc_init
            &&& s.wakenet_init
            &&& s.wakenet_mode == 0
        }),
{
}

/// The wake-word settings leave every other setting as it was.
pub proof fn law_wake_word_settings_keep_others(c: AfeConfig)
    ensures
        ({
            let s = with_wake_word_settings(c);
            &&& s.aec_init == c.aec_init
            &&& s.aec_mode == c.aec_mode
            &&& s.aec_filter_length == c.aec_filter_length
            &&& s.se_init == c.se_init
            &&& s.ns_init == c.ns_init
            &&& s.afe_ns_mode == c.afe_ns_mode
            &&& s.vad_init == c.vad_init
            &&& s.vad_min_speech_ms == c.vad_min_speech_ms
            &&& s.vad_delay_ms == c.vad_delay_ms
            &&& s.agc_mode == c.agc_mode
            &&& s.afe_mode == c.afe_mode
            &&& s.afe_type == c.afe_type
            &&& s.memory_alloc_mode == c.memory_alloc_mode
            &&& s.vad_mute_playback == c.vad_mute_playback
            &&& s.vad_enable_channel_trigger == c.vad_enable_channel_trigger
            &&& s.agc_compression_gain_db == c.agc_compression_gain_db
            &&& s.agc_target_level_dbfs == c.agc_target_level_dbfs
            &&& s.afe_perferred_core == c.afe_perferred_core
            &&& s.afe_perferred_priority == c.afe_perferred_priority
            &&& s.debug_init == c.debug_init
            &&& s.fixed_first_channel == c.fixed_first_channel
        }),
{
}

/// The log line that reports the size of the front end's ring buffer.
pub fn ringbuf_size_message(size: i64) -> (s: String)
    ensures
        s@ == "afe ringbuf size: "@ + int_decimal(size as int),
{
    let mut s = String::from_str("afe ringbuf size: ");
    push_int_decimal(&mut s, size);
    s
}

/// The log line that reports how many samples the front end takes per feed.
pub fn chunksize_message(chunksize: i64) -> (s: String)
    ensures
        s@ == "audio chunksize: "@ + int_decimal(chunksize as int),
{
    let mut s = String::from_str("audio chunksize: ");
    push_int_decimal(&mut s, chunksize);
    s
}

} // verus!
