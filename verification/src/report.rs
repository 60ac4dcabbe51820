use vstd::prelude::*;

use crate::config::AfeConfig;
use crate::text::{bool_text, int_decimal, labelled, push_bool, push_int_decimal};

verus! {

/// The lines that describe a front-end configuration, in order. The linear
/// gain, a float, comes as the text that the caller rendered for it.
pub open spec fn afe_config_text(c: AfeConfig, linear_gain: Seq<char>) -> Seq<Seq<char>> {
    seq![
        "--- AFE Configuration ---"@,
        "AEC: init="@ + bool_text(c.aec_init) + ", mode="@ + int_decimal(c.aec_mode as int)
            + ", filter_length="@ + int_decimal(c.aec_filter_length as int),
        "SE: init="@ + bool_text(c.se_init),
        "NS: init="@ + bool_text(c.ns_init) + ", mode="@ + int_decimal(c.afe_ns_mode as int),
        "VAD: init="@ + bool_text(c.vad_init) + ", mode="@ + int_decimal(c.vad_mode as int)
            + ", min_speech_ms="@ + int_decimal(c.vad_min_speech_ms as int) + ", min_noise_ms="@
            + int_decimal(c.vad_min_noise_ms as int) + ", delay_ms="@ + int_decimal(
            c.vad_delay_ms as int,
        ) + ", mute_playback="@ + bool_text(c.vad_mute_playback) + ", enable_channel_trigger="@
            + bool_text(c.vad_enable_channel_trigger),
        "WakeNet: init="@ + bool_text(c.wakenet_init) + ", mode="@ + int_decimal(
            c.wakenet_mode as int,
        ),
        "AGC: init="@ + bool_text(c.agc_init) + ", mode="@ + int_decimal(c.agc_mode as int)
            + ", compression_gain_db="@ + int_decimal(c.agc_compression_gain_db as int)
            + ", target_level_dbfs="@ + int_decimal(c.agc_target_level_dbfs as int),
        "PCM: total_ch_num="@ + int_decimal(c.pcm_config.total_ch_num as int) + ", mic_num="@
            + int_decimal(c.pcm_config.mic_num as int) + ", ref_num="@ + int_decimal(
            c.pcm_config.ref_num as int,
        ) + ", sample_rate="@ + int_decimal(c.pcm_config.sample_rate as int),
        "General AFE: mode="@ + int_decimal(c.afe_mode as int) + ", type="@ + int_decimal(
            c.afe_type as int,
        ) + ", preferred_core="@ + int_decimal(c.afe_perferred_core as int)
            + ", preferred_priority="@ + int_decimal(c.afe_perferred_priority as int)
            + ", ringbuf_size="@ + int_decimal(c.afe_ringbuf_size as int) + ", linear_gain="@
            + linear_gain,
        "Memory allocation mode="@ + int_decimal(c.memory_alloc_mode as int) + ", debug_init="@
            + bool_text(c.debug_init) + ", fixed_first_channel="@ + bool_text(
            c.fixed_first_channel,
        ),
        "--- End of AFE Configuration ---"@
    ]
}

/// The texts of a list of strings.
pub open spec fn texts(lines: Seq<String>) -> Seq<Seq<char>> {
    lines.map_values(|s: String| s@)
}

fn aec_line(c: &AfeConfig) -> (s: String)
    ensures
        s@ == afe_config_text(*c, seq![])[1],
{
    let mut s = String::from_str("AEC: init=");
    push_bool(&mut s, c.aec_init);
    s.append(", mode=");
    push_int_decimal(&mut s, c.aec_mode);
    s.append(", filter_length=");
    push_int_decimal(&mut s, c.aec_filter_length);
    s
}

fn se_line(c: &AfeConfig) -> (s: String)
    ensures
        s@ == afe_config_text(*c, seq![])[2],
{
    let mut s = String::from_str("SE: init=");
    push_bool(&mut s, c.se_init);
    s
}

fn ns_line(c: &AfeConfig) -> (s: String)
    ensures
        s@ == afe_config_text(*c, seq![])[3],
{
    let mut s = String::from_str("NS: init=");
    push_bool(&mut s, c.ns_init);
    s.append(", mode=");
    push_int_decimal(&mut s, c.afe_ns_mode);
    s
}

fn vad_line(c: &AfeConfig) -> (s: String)
    ensures
        s@ == afe_config_text(*c, seq![])[4],
{
    let mut s = String::from_str("VAD: init=");
    push_bool(&mut s, c.vad_init);
    s.append(", mode=");
    push_int_decimal(&mut s, c.vad_mode);
    s.append(", min_speech_ms=");
    push_int_decimal(&mut s, c.vad_min_speech_ms);
    s.append(", min_noise_ms=");
    push_int_decimal(&mut s, c.vad_min_noise_ms);
    s.append(", delay_ms=");
    push_int_decimal(&mut s, c.vad_delay_ms);
    s.append(", mute_playback=");
    push_bool(&mut s, c.vad_mute_playback);
    s.append(", enable_channel_trigger=");
    push_bool(&mut s, c.vad_enable_channel_trigger);
    s
}

fn wakenet_line(c: &AfeConfig) -> (s: String)
    ensures
        s@ == afe_config_text(*c, seq![])[5],
{
    let mut s = String::from_str("WakeNet: init=");
    push_bool(&mut s, c.wakenet_init);
    s.append(", mode=");
    push_int_decimal(&mut s, c.wakenet_mode);
    s
}

fn agc_line(c: &AfeConfig) -> (s: String)
    ensures
        s@ == afe_config_text(*c, seq![])[6],
{
    let mut s = String::from_str("AGC: init=");
    push_bool(&mut s, c.agc_init);
    s.append(", mode=");
    push_int_decimal(&mut s, c.agc_mode);
    s.append(", compression_gain_db=");
    push_int_decimal(&mut s, c.agc_compression_gain_db);
    s.append(", target_level_dbfs=");
    push_int_decimal(&mut s, c.agc_target_level_dbfs);
    s
}

fn pcm_line(c: &AfeConfig) -> (s: String)
    ensures
        s@ == afe_config_text(*c, seq![])[7],
{
    let mut s = String::from_str("PCM: total_ch_num=");
    push_int_decimal(&mut s, c.pcm_config.total_ch_num);
    s.append(", mic_num=");
    push_int_decimal(&mut s, c.pcm_config.mic_num);
    s.append(", ref_num=");
    push_int_decimal(&mut s, c.pcm_config.ref_num);
    s.append(", sample_rate=");
    push_int_decimal(&mut s, c.pcm_config.sample_rate);
    s
}

fn general_line(c: &AfeConfig, linear_gain: &str) -> (s: String)
    ensures
        s@ == afe_config_text(*c, linear_gain@)[8],
{
    let mut s = String::from_str("General AFE: mode=");
    push_int_decimal(&mut s, c.afe_mode);
    s.append(", type=");
    push_int_decimal(&mut s, c.afe_type);
    s.append(", preferred_core=");
    push_int_decimal(&mut s, c.afe_perferred_core);
    s.append(", preferred_priority=");
    push_int_decimal(&mut s, c.afe_perferred_priority);
    s.append(", ringbuf_size=");
    push_int_decimal(&mut s, c.afe_ringbuf_size);
    s.append(", linear_gain=");
    s.append(linear_gain);
    s
}

fn memory_line(c: &AfeConfig) -> (s: String)
    ensures
        s@ == afe_config_text(*c, seq![])[9],
{
    let mut s = String::from_str("Memory allocation mode=");
    push_int_decimal(&mut s, c.memory_alloc_mode);
    s.append(", debug_init=");
    push_bool(&mut s, c.debug_init);
    s.append(", fixed_first_channel=");
    push_bool(&mut s, c.fixed_first_channel);
    s
}

/// The lines that describe a front-end configuration: a header, one line per
/// group of settings (echo cancellation, speech enhancement, noise
/// suppression, voice activity detection, wake-net, gain control, PCM layout,
/// general settings, memory) and a footer. `linear_gain` is the rendered
/// value of the linear gain, which ends the line of general settings.
pub fn afe_config_lines(c: &AfeConfig, linear_gain: &str) -> (lines: Vec<String>)
    ensures
        texts(lines@) == afe_config_text(*c, linear_gain@),
{
    let mut lines: Vec<String> = Vec::new();
    lines.push(String::from_str("--- AFE Configuration ---"));
    lines.push(aec_line(c));
    lines.push(se_line(c));
    lines.push(ns_line(c));
    lines.push(vad_line(c));
    lines.push(wakenet_line(c));
    lines.push(agc_line(c));
    lines.push(pcm_line(c));
    lines.push(general_line(c, linear_gain));
    lines.push(memory_line(c));
    lines.push(String::from_str("--- End of AFE Configuration ---"));
    assert(texts(lines@) =~= afe_config_text(*c, linear_gain@));
    lines
}


proof fn lemma_line_1_field_0(c: AfeConfig, g: Seq<char>)
    ensures
        labelled(afe_config_text(c, g)[1], "AEC: init="@, bool_text(c.aec_init)),
{
    assert(afe_config_text(c, g)[1] =~= Seq::<char>::empty() + "AEC: init="@ + bool_text(c.aec_init) + (", mode="@ + int_decimal(c.aec_mode as int) + ", filter_length="@ + int_decimal(c.aec_filter_length as int)));
}

proof fn lemma_line_1_field_1(c: AfeConfig, g: Seq<char>)
    ensures
        labelled(afe_config_text(c, g)[1], ", mode="@, int_decimal(c.aec_mode as int)),
{
    assert(afe_config_text(c, g)[1] =~= ("AEC: init="@ + bool_text(c.aec_init)) + ", mode="@ + int_decimal(c.aec_mode as int) + (", filter_length="@ + int_decimal(c.aec_filter_length as int)));
}

proof fn lemma_line_1_field_2(c: AfeConfig, g: Seq<char>)
    ensures
        labelled(afe_config_text(c, g)[1], ", filter_length="@, int_decimal(c.aec_filter_length as int)),
{
    assert(afe_config_text(c, g)[1] =~= ("AEC: init="@ + bool_text(c.aec_init) + ", mode="@ + int_decimal(c.aec_mode as int)) + ", filter_length="@ + int_decimal(c.aec_filter_length as int) + Seq::<char>::empty());
}

proof fn lemma_line_1_fields(c: AfeConfig, g: Seq<char>)
    ensures
        labelled(afe_config_text(c, g)[1], "AEC: init="@, bool_text(c.aec_init)),
        labelled(afe_config_text(c, g)[1], ", mode="@, int_decimal(c.aec_mode as int)),
        labelled(afe_config_text(c, g)[1], ", filter_length="@, int_decimal(c.aec_filter_length as int)),
{
    lemma_line_1_field_0(c, g);
    lemma_line_1_field_1(c, g);
    lemma_line_1_field_2(c, g);
}

proof fn lemma_line_2_field_0(c: AfeConfig, g: Seq<char>)
    ensures
        labelled(afe_config_text(c, g)[2], "SE: init="@, bool_text(c.se_init)),
{
    assert(afe_config_text(c, g)[2] =~= Seq::<char>::empty() + "SE: init="@ + bool_text(c.se_init) + Seq::<char>::empty());
}

proof fn lemma_line_2_fields(c: AfeConfig, g: Seq<char>)
    ensures
        labelled(afe_config_text(c, g)[2], "SE: init="@, bool_text(c.se_init)),
{
    lemma_line_2_field_0(c, g);
}

proof fn lemma_line_3_field_0(c: AfeConfig, g: Seq<char>)
    ensures
        labelled(afe_config_text(c, g)[3], "NS: init="@, bool_text(c.ns_init)),
{
    assert(afe_config_text(c, g)[3] =~= Seq::<char>::empty() + "NS: init="@ + bool_text(c.ns_init) + (", mode="@ + int_decimal(c.afe_ns_mode as int)));
}

proof fn lemma_line_3_field_1(c: AfeConfig, g: Seq<char>)
    ensures
        labelled(afe_config_text(c, g)[3], ", mode="@, int_decimal(c.afe_ns_mode as int)),
{
    assert(afe_config_text(c, g)[3] =~= ("NS: init="@ + bool_text(c.ns_init)) + ", mode="@ + int_decimal(c.afe_ns_mode as int) + Seq::<char>::empty());
}

proof fn lemma_line_3_fields(c: AfeConfig, g: Seq<char>)
    ensures
        labelled(afe_config_text(c, g)[3], "NS: init="@, bool_text(c.ns_init)),
        labelled(afe_config_text(c, g)[3], ", mode="@, int_decimal(c.afe_ns_mode as int)),
{
    lemma_line_3_field_0(c, g);
    lemma_line_3_field_1(c, g);
}

#[verifier::rlimit(60)]
proof fn lemma_line_4_field_0(c: AfeConfig, g: Seq<char>)
    ensures
        labelled(afe_config_text(c, g)[4], "VAD: init="@, bool_text(c.vad_init)),
{
    assert(afe_config_text(c, g)[4] =~= Seq::<char>::empty() + "VAD: init="@ + bool_text(c.vad_init) + (", mode="@ + int_decimal(c.vad_mode as int) + ", min_speech_ms="@ + int_decimal(c.vad_min_speech_ms as int) + ", min_noise_ms="@ + int_decimal(c.vad_min_noise_ms as int) + ", delay_ms="@ + int_decimal(c.vad_delay_ms as int) + ", mute_playback="@ + bool_text(c.vad_mute_playback) + ", enable_channel_trigger="@ + bool_text(c.vad_enable_channel_trigger)));
}

#[verifier::rlimit(60)]
proof fn lemma_line_4_field_1(c: AfeConfig, g: Seq<char>)
    ensures
        labelled(afe_config_text(c, g)[4], ", mode="@, int_decimal(c.vad_mode as int)),
{
    assert(afe_config_text(c, g)[4] =~= ("VAD: init="@ + bool_text(c.vad_init)) + ", mode="@ + int_decimal(c.vad_mode as int) + (", min_speech_ms="@ + int_decimal(c.vad_min_speech_ms as int) + ", min_noise_ms="@ + int_decimal(c.vad_min_noise_ms as int) + ", delay_ms="@ + int_decimal(c.vad_delay_ms as int) + ", mute_playback="@ + bool_text(c.vad_mute_playback) + ", enable_channel_trigger="@ + bool_text(c.vad_enable_channel_trigger)));
}

proof fn lemma_line_4_field_2(c: AfeConfig, g: Seq<char>)
    ensures
        labelled(afe_config_text(c, g)[4], ", min_speech_ms="@, int_decimal(c.vad_min_speech_ms as int)),
{
    assert(afe_config_text(c, g)[4] =~= ("VAD: init="@ + bool_text(c.vad_init) + ", mode="@ + int_decimal(c.vad_mode as int)) + ", min_speech_ms="@ + int_decimal(c.vad_min_speech_ms as int) + (", min_noise_ms="@ + int_decimal(c.vad_min_noise_ms as int) + ", delay_ms="@ + int_decimal(c.vad_delay_ms as int) + ", mute_playback="@ + bool_text(c.vad_mute_playback) + ", enable_channel_trigger="@ + bool_text(c.vad_enable_channel_trigger)));
}

proof fn lemma_line_4_field_3(c: AfeConfig, g: Seq<char>)
    ensures
        labelled(afe_config_text(c, g)[4], ", min_noise_ms="@, int_decimal(c.vad_min_noise_ms as int)),
{
    assert(afe_config_text(c, g)[4] =~= ("VAD: init="@ + bool_text(c.vad_init) + ", mode="@ + int_decimal(c.vad_mode as int) + ", min_speech_ms="@ + int_decimal(c.vad_min_speech_ms as int)) + ", min_noise_ms="@ + int_decimal(c.vad_min_noise_ms as int) + (", delay_ms="@ + int_decimal(c.vad_delay_ms as int) + ", mute_playback="@ + bool_text(c.vad_mute_playback) + ", enable_channel_trigger="@ + bool_text(c.vad_enable_channel_trigger)));
}

proof fn lemma_line_4_field_4(c: AfeConfig, g: Seq<char>)
    ensures
        labelled(afe_config_text(c, g)[4], ", delay_ms="@, int_decimal(c.vad_delay_ms as int)),
{
    assert(afe_config_text(c, g)[4] =~= ("VAD: init="@ + bool_text(c.vad_init) + ", mode="@ + int_decimal(c.vad_mode as int) + ", min_speech_ms="@ + int_decimal(c.vad_min_speech_ms as int) + ", min_noise_ms="@ + int_decimal(c.vad_min_noise_ms as int)) + ", delay_ms="@ + int_decimal(c.vad_delay_ms as int) + (", mute_playback="@ + bool_text(c.vad_mute_playback) + ", enable_channel_trigger="@ + bool_text(c.vad_enable_channel_trigger)));
}

proof fn lemma_line_4_field_5(c: AfeConfig, g: Seq<char>)
    ensures
        labelled(afe_config_text(c, g)[4], ", mute_playback="@, bool_text(c.vad_mute_playback)),
{
    assert(afe_config_text(c, g)[4] =~= ("VAD: init="@ + bool_text(c.vad_init) + ", mode="@ + int_decimal(c.vad_mode as int) + ", min_speech_ms="@ + int_decimal(c.vad_min_speech_ms as int) + ", min_noise_ms="@ + int_decimal(c.vad_min_noise_ms as int) + ", delay_ms="@ + int_decimal(c.vad_delay_ms as int)) + ", mute_playback="@ + bool_text(c.vad_mute_playback) + (", enable_channel_trigger="@ + bool_text(c.vad_enable_channel_trigger)));
}

proof fn lemma_line_4_field_6(c: AfeConfig, g: Seq<char>)
    ensures
        labelled(afe_config_text(c, g)[4], ", enable_channel_trigger="@, bool_text(c.vad_enable_channel_trigger)),
{
    assert(afe_config_text(c, g)[4] =~= ("VAD: init="@ + bool_text(c.vad_init) + ", mode="@ + int_decimal(c.vad_mode as int) + ", min_speech_ms="@ + int_decimal(c.vad_min_speech_ms as int) + ", min_noise_ms="@ + int_decimal(c.vad_min_noise_ms as int) + ", delay_ms="@ + int_decimal(c.vad_delay_ms as int) + ", mute_playback="@ + bool_text(c.vad_mute_playback)) + ", enable_channel_trigger="@ + bool_text(c.vad_enable_channel_trigger) + Seq::<char>::empty());
}

proof fn lemma_line_4_fields(c: AfeConfig, g: Seq<char>)
    ensures
        labelled(afe_config_text(c, g)[4], "VAD: init="@, bool_text(c.vad_init)),
        labelled(afe_config_text(c, g)[4], ", mode="@, int_decimal(c.vad_mode as int)),
        labelled(afe_config_text(c, g)[4], ", min_speech_ms="@, int_decimal(c.vad_min_speech_ms as int)),
        labelled(afe_config_text(c, g)[4], ", min_noise_ms="@, int_decimal(c.vad_min_noise_ms as int)),
        labelled(afe_config_text(c, g)[4], ", delay_ms="@, int_decimal(c.vad_delay_ms as int)),
        labelled(afe_config_text(c, g)[4], ", mute_playback="@, bool_text(c.vad_mute_playback)),
        labelled(afe_config_text(c, g)[4], ", enable_channel_trigger="@, bool_text(c.vad_enable_channel_trigger)),
{
    lemma_line_4_field_0(c, g);
    lemma_line_4_field_1(c, g);
    lemma_line_4_field_2(c, g);
    lemma_line_4_field_3(c, g);
    lemma_line_4_field_4(c, g);
    lemma_line_4_field_5(c, g);
    lemma_line_4_field_6(c, g);
}

proof fn lemma_line_5_field_0(c: AfeConfig, g: Seq<char>)
    ensures
        labelled(afe_config_text(c, g)[5], "WakeNet: init="@, bool_text(c.wakenet_init)),
{
    assert(afe_config_text(c, g)[5] =~= Seq::<char>::empty() + "WakeNet: init="@ + bool_text(c.wakenet_init) + (", mode="@ + int_decimal(c.wakenet_mode as int)));
}

proof fn lemma_line_5_field_1(c: AfeConfig, g: Seq<char>)
    ensures
        labelled(afe_config_text(c, g)[5], ", mode="@, int_decimal(c.wakenet_mode as int)),
{
    assert(afe_config_text(c, g)[5] =~= ("WakeNet: init="@ + bool_text(c.wakenet_init)) + ", mode="@ + int_decimal(c.wakenet_mode as int) + Seq::<char>::empty());
}

proof fn lemma_line_5_fields(c: AfeConfig, g: Seq<char>)
    ensures
        labelled(afe_config_text(c, g)[5], "WakeNet: init="@, bool_text(c.wakenet_init)),
        labelled(afe_config_text(c, g)[5], ", mode="@, int_decimal(c.wakenet_mode as int)),
{
    lemma_line_5_field_0(c, g);
    lemma_line_5_field_1(c, g);
}

proof fn lemma_line_6_field_0(c: AfeConfig, g: Seq<char>)
    ensures
        labelled(afe_config_text(c, g)[6], "AGC: init="@, bool_text(c.agc_init)),
{
    assert(afe_config_text(c, g)[6] =~= Seq::<char>::empty() + "AGC: init="@ + bool_text(c.agc_init) + (", mode="@ + int_decimal(c.agc_mode as int) + ", compression_gain_db="@ + int_decimal(c.agc_compression_gain_db as int) + ", target_level_dbfs="@ + int_decimal(c.agc_target_level_dbfs as int)));
}

proof fn lemma_line_6_field_1(c: AfeConfig, g: Seq<char>)
    ensures
        labelled(afe_config_text(c, g)[6], ", mode="@, int_decimal(c.agc_mode as int)),
{
    assert(afe_config_text(c, g)[6] =~= ("AGC: init="@ + bool_text(c.agc_init)) + ", mode="@ + int_decimal(c.agc_mode as int) + (", compression_gain_db="@ + int_decimal(c.agc_compression_gain_db as int) + ", target_level_dbfs="@ + int_decimal(c.agc_target_level_dbfs as int)));
}

proof fn lemma_line_6_field_2(c: AfeConfig, g: Seq<char>)
    ensures
        labelled(afe_config_text(c, g)[6], ", compression_gain_db="@, int_decimal(c.agc_compression_gain_db as int)),
{
    assert(afe_config_text(c, g)[6] =~= ("AGC: init="@ + bool_text(c.agc_init) + ", mode="@ + int_decimal(c.agc_mode as int)) + ", compression_gain_db="@ + int_decimal(c.agc_compression_gain_db as int) + (", target_level_dbfs="@ + int_decimal(c.agc_target_level_dbfs as int)));
}

proof fn lemma_line_6_field_3(c: AfeConfig, g: Seq<char>)
    ensures
        labelled(afe_config_text(c, g)[6], ", target_level_dbfs="@, int_decimal(c.agc_target_level_dbfs as int)),
{
    assert(afe_config_text(c, g)[6] =~= ("AGC: init="@ + bool_text(c.agc_init) + ", mode="@ + int_decimal(c.agc_mode as int) + ", compression_gain_db="@ + int_decimal(c.agc_compression_gain_db as int)) + ", target_level_dbfs="@ + int_decimal(c.agc_target_level_dbfs as int) + Seq::<char>::empty());
}

proof fn lemma_line_6_fields(c: AfeConfig, g: Seq<char>)
    ensures
        labelled(afe_config_text(c, g)[6], "AGC: init="@, bool_text(c.agc_init)),
        labelled(afe_config_text(c, g)[6], ", mode="@, int_decimal(c.agc_mode as int)),
        labelled(afe_config_text(c, g)[6], ", compression_gain_db="@, int_decimal(c.agc_compression_gain_db as int)),
        labelled(afe_config_text(c, g)[6], ", target_level_dbfs="@, int_decimal(c.agc_target_level_dbfs as int)),
{
    lemma_line_6_field_0(c, g);
    lemma_line_6_field_1(c, g);
    lemma_line_6_field_2(c, g);
    lemma_line_6_field_3(c, g);
}

proof fn lemma_line_7_field_0(c: AfeConfig, g: Seq<char>)
    ensures
        labelled(afe_config_text(c, g)[7], "PCM: total_ch_num="@, int_decimal(c.pcm_config.total_ch_num as int)),
{
    assert(afe_config_text(c, g)[7] =~= Seq::<char>::empty() + "PCM: total_ch_num="@ + int_decimal(c.pcm_config.total_ch_num as int) + (", mic_num="@ + int_decimal(c.pcm_config.mic_num as int) + ", ref_num="@ + int_decimal(c.pcm_config.ref_num as int) + ", sample_rate="@ + int_decimal(c.pcm_config.sample_rate as int)));
}

proof fn lemma_line_7_field_1(c: AfeConfig, g: Seq<char>)
    ensures
        labelled(afe_config_text(c, g)[7], ", mic_num="@, int_decimal(c.pcm_config.mic_num as int)),
{
    assert(afe_config_text(c, g)[7] =~= ("PCM: total_ch_num="@ + int_decimal(c.pcm_config.total_ch_num as int)) + ", mic_num="@ + int_decimal(c.pcm_config.mic_num as int) + (", ref_num="@ + int_decimal(c.pcm_config.ref_num as int) + ", sample_rate="@ + int_decimal(c.pcm_config.sample_rate as int)));
}

proof fn lemma_line_7_field_2(c: AfeConfig, g: Seq<char>)
    ensures
        labelled(afe_config_text(c, g)[7], ", ref_num="@, int_decimal(c.pcm_config.ref_num as int)),
{
    assert(afe_config_text(c, g)[7] =~= ("PCM: total_ch_num="@ + int_decimal(c.pcm_config.total_ch_num as int) + ", mic_num="@ + int_decimal(c.pcm_config.mic_num as int)) + ", ref_num="@ + int_decimal(c.pcm_config.ref_num as int) + (", sample_rate="@ + int_decimal(c.pcm_config.sample_rate as int)));
}

proof fn lemma_line_7_field_3(c: AfeConfig, g: Seq<char>)
    ensures
        labelled(afe_config_text(c, g)[7], ", sample_rate="@, int_decimal(c.pcm_config.sample_rate as int)),
{
    assert(afe_config_text(c, g)[7] =~= ("PCM: total_ch_num="@ + int_decimal(c.pcm_config.total_ch_num as int) + ", mic_num="@ + int_decimal(c.pcm_config.mic_num as int) + ", ref_num="@ + int_decimal(c.pcm_config.ref_num as int)) + ", sample_rate="@ + int_decimal(c.pcm_config.sample_rate as int) + Seq::<char>::empty());
}

proof fn lemma_line_7_fields(c: AfeConfig, g: Seq<char>)
    ensures
        labelled(afe_config_text(c, g)[7], "PCM: total_ch_num="@, int_decimal(c.pcm_config.total_ch_num as int)),
        labelled(afe_config_text(c, g)[7], ", mic_num="@, int_decimal(c.pcm_config.mic_num as int)),
        labelled(afe_config_text(c, g)[7], ", ref_num="@, int_decimal(c.pcm_config.ref_num as int)),
        labelled(afe_config_text(c, g)[7], ", sample_rate="@, int_decimal(c.pcm_config.sample_rate as int)),
{
    lemma_line_7_field_0(c, g);
    lemma_line_7_field_1(c, g);
    lemma_line_7_field_2(c, g);
    lemma_line_7_field_3(c, g);
}

proof fn lemma_line_8_field_0(c: AfeConfig, g: Seq<char>)
    ensures
        labelled(afe_config_text(c, g)[8], "General AFE: mode="@, int_decimal(c.afe_mode as int)),
{
    assert(afe_config_text(c, g)[8] =~= Seq::<char>::empty() + "General AFE: mode="@ + int_decimal(c.afe_mode as int) + (", type="@ + int_decimal(c.afe_type as int) + ", preferred_core="@ + int_decimal(c.afe_perferred_core as int) + ", preferred_priority="@ + int_decimal(c.afe_perferred_priority as int) + ", ringbuf_size="@ + int_decimal(c.afe_ringbuf_size as int) + ", linear_gain="@ + g));
}

proof fn lemma_line_8_field_1(c: AfeConfig, g: Seq<char>)
    ensures
        labelled(afe_config_text(c, g)[8], ", type="@, int_decimal(c.afe_type as int)),
{
    assert(afe_config_text(c, g)[8] =~= ("General AFE: mode="@ + int_decimal(c.afe_mode as int)) + ", type="@ + int_decimal(c.afe_type as int) + (", preferred_core="@ + int_decimal(c.afe_perferred_core as int) + ", preferred_priority="@ + int_decimal(c.afe_perferred_priority as int) + ", ringbuf_size="@ + int_decimal(c.afe_ringbuf_size as int) + ", linear_gain="@ + g));
}

proof fn lemma_line_8_field_2(c: AfeConfig, g: Seq<char>)
    ensures
        labelled(afe_config_text(c, g)[8], ", preferred_core="@, int_decimal(c.afe_perferred_core as int)),
{
    assert(afe_config_text(c, g)[8] =~= ("General AFE: mode="@ + int_decimal(c.afe_mode as int) + ", type="@ + int_decimal(c.afe_type as int)) + ", preferred_core="@ + int_decimal(c.afe_perferred_core as int) + (", preferred_priority="@ + int_decimal(c.afe_perferred_priority as int) + ", ringbuf_size="@ + int_decimal(c.afe_ringbuf_size as int) + ", linear_gain="@ + g));
}

proof fn lemma_line_8_field_3(c: AfeConfig, g: Seq<char>)
    ensures
        labelled(afe_config_text(c, g)[8], ", preferred_priority="@, int_decimal(c.afe_perferred_priority as int)),
{
    assert(afe_config_text(c, g)[8] =~= ("General AFE: mode="@ + int_decimal(c.afe_mode as int) + ", type="@ + int_decimal(c.afe_type as int) + ", preferred_core="@ + int_decimal(c.afe_perferred_core as int)) + ", preferred_priority="@ + int_decimal(c.afe_perferred_priority as int) + (", ringbuf_size="@ + int_decimal(c.afe_ringbuf_size as int) + ", linear_gain="@ + g));
}

proof fn lemma_line_8_field_4(c: AfeConfig, g: Seq<char>)
    ensures
        labelled(afe_config_text(c, g)[8], ", ringbuf_size="@, int_decimal(c.afe_ringbuf_size as int)),
{
    assert(afe_config_text(c, g)[8] =~= ("General AFE: mode="@ + int_decimal(c.afe_mode as int) + ", type="@ + int_decimal(c.afe_type as int) + ", preferred_core="@ + int_decimal(c.afe_perferred_core as int) + ", preferred_priority="@ + int_decimal(c.afe_perferred_priority as int)) + ", ringbuf_size="@ + int_decimal(c.afe_ringbuf_size as int) + (", linear_gain="@ + g));
}

proof fn lemma_line_8_field_5(c: AfeConfig, g: Seq<char>)
    ensures
        labelled(afe_config_text(c, g)[8], ", linear_gain="@, g),
{
    assert(afe_config_text(c, g)[8] =~= ("General AFE: mode="@ + int_decimal(c.afe_mode as int) + ", type="@ + int_decimal(c.afe_type as int) + ", preferred_core="@ + int_decimal(c.afe_perferred_core as int) + ", preferred_priority="@ + int_decimal(c.afe_perferred_priority as int) + ", ringbuf_size="@ + int_decimal(c.afe_ringbuf_size as int)) + ", linear_gain="@ + g + Seq::<char>::empty());
}

proof fn lemma_line_8_fields(c: AfeConfig, g: Seq<char>)
    ensures
        labelled(afe_config_text(c, g)[8], "General AFE: mode="@, int_decimal(c.afe_mode as int)),
        labelled(afe_config_text(c, g)[8], ", type="@, int_decimal(c.afe_type as int)),
        labelled(afe_config_text(c, g)[8], ", preferred_core="@, int_decimal(c.afe_perferred_core as int)),
        labelled(afe_config_text(c, g)[8], ", preferred_priority="@, int_decimal(c.afe_perferred_priority as int)),
        labelled(afe_config_text(c, g)[8], ", ringbuf_size="@, int_decimal(c.afe_ringbuf_size as int)),
        labelled(afe_config_text(c, g)[8], ", linear_gain="@, g),
{
    lemma_line_8_field_0(c, g);
    lemma_line_8_field_1(c, g);
    lemma_line_8_field_2(c, g);
    lemma_line_8_field_3(c, g);
    lemma_line_8_field_4(c, g);
    lemma_line_8_field_5(c, g);
}

proof fn lemma_line_9_field_0(c: AfeConfig, g: Seq<char>)
    ensures
        labelled(afe_config_text(c, g)[9], "Memory allocation mode="@, int_decimal(c.memory_alloc_mode as int)),
{
    assert(afe_config_text(c, g)[9] =~= Seq::<char>::empty() + "Memory allocation mode="@ + int_decimal(c.memory_alloc_mode as int) + (", debug_init="@ + bool_text(c.debug_init) + ", fixed_first_channel="@ + bool_text(c.fixed_first_channel)));
}

proof fn lemma_line_9_field_1(c: AfeConfig, g: Seq<char>)
    ensures
        labelled(afe_config_text(c, g)[9], ", debug_init="@, bool_text(c.debug_init)),
{
    assert(afe_config_text(c, g)[9] =~= ("Memory allocation mode="@ + int_decimal(c.memory_alloc_mode as int)) + ", debug_init="@ + bool_text(c.debug_init) + (", fixed_first_channel="@ + bool_text(c.fixed_first_channel)));
}

proof fn lemma_line_9_field_2(c: AfeConfig, g: Seq<char>)
    ensures
        labelled(afe_config_text(c, g)[9], ", fixed_first_channel="@, bool_text(c.fixed_first_channel)),
{
    assert(afe_config_text(c, g)[9] =~= ("Memory allocation mode="@ + int_decimal(c.memory_alloc_mode as int) + ", debug_init="@ + bool_text(c.debug_init)) + ", fixed_first_channel="@ + bool_text(c.fixed_first_channel) + Seq::<char>::empty());
}

proof fn lemma_line_9_fields(c: AfeConfig, g: Seq<char>)
    ensures
        labelled(afe_config_text(c, g)[9], "Memory allocation mode="@, int_decimal(c.memory_alloc_mode as int)),
        labelled(afe_config_text(c, g)[9], ", debug_init="@, bool_text(c.debug_init)),
        labelled(afe_config_text(c, g)[9], ", fixed_first_channel="@, bool_text(c.fixed_first_channel)),
{
    lemma_line_9_field_0(c, g);
    lemma_line_9_field_1(c, g);
    lemma_line_9_field_2(c, g);
}

/// Each value in the configuration report is written right after its own
/// label, as the decimal of the setting the label names (or `true`/`false`),
/// for every configuration: `mic_num=` is followed by the microphone count,
/// `ref_num=` by the reference count, and so on; the linear gain's text
/// follows `linear_gain=`. The report has eleven lines, framed by its header
/// and footer.
pub proof fn law_config_report_fields(c: AfeConfig, g: Seq<char>)
    ensures
        afe_config_text(c, g).len() == 11,
        afe_config_text(c, g)[0] == "--- AFE Configuration ---"@,
        afe_config_text(c, g)[10] == "--- End of AFE Configuration ---"@,
        labelled(afe_config_text(c, g)[1], "AEC: init="@, bool_text(c.aec_init)),
        labelled(afe_config_text(c, g)[1], ", mode="@, int_decimal(c.aec_mode as int)),
        labelled(afe_config_text(c, g)[1], ", filter_length="@, int_decimal(c.aec_filter_length as int)),
        labelled(afe_config_text(c, g)[2], "SE: init="@, bool_text(c.se_init)),
        labelled(afe_config_text(c, g)[3], "NS: init="@, bool_text(c.ns_init)),
        labelled(afe_config_text(c, g)[3], ", mode="@, int_decimal(c.afe_ns_mode as int)),
        labelled(afe_config_text(c, g)[4], "VAD: init="@, bool_text(c.vad_init)),
        labelled(afe_config_text(c, g)[4], ", mode="@, int_decimal(c.vad_mode as int)),
        labelled(afe_config_text(c, g)[4], ", min_speech_ms="@, int_decimal(c.vad_min_speech_ms as int)),
        labelled(afe_config_text(c, g)[4], ", min_noise_ms="@, int_decimal(c.vad_min_noise_ms as int)),
        labelled(afe_config_text(c, g)[4], ", delay_ms="@, int_decimal(c.vad_delay_ms as int)),
        labelled(afe_config_text(c, g)[4], ", mute_playback="@, bool_text(c.vad_mute_playback)),
        labelled(afe_config_text(c, g)[4], ", enable_channel_trigger="@, bool_text(c.vad_enable_channel_trigger)),
        labelled(afe_config_text(c, g)[5], "WakeNet: init="@, bool_text(c.wakenet_init)),
        labelled(afe_config_text(c, g)[5], ", mode="@, int_decimal(c.wakenet_mode as int)),
        labelled(afe_config_text(c, g)[6], "AGC: init="@, bool_text(c.agc_init)),
        labelled(afe_config_text(c, g)[6], ", mode="@, int_decimal(c.agc_mode as int)),
        labelled(afe_config_text(c, g)[6], ", compression_gain_db="@, int_decimal(c.agc_compression_gain_db as int)),
        labelled(afe_config_text(c, g)[6], ", target_level_dbfs="@, int_decimal(c.agc_target_level_dbfs as int)),
        labelled(afe_config_text(c, g)[7], "PCM: total_ch_num="@, int_decimal(c.pcm_config.total_ch_num as int)),
        labelled(afe_config_text(c, g)[7], ", mic_num="@, int_decimal(c.pcm_config.mic_num as int)),
        labelled(afe_config_text(c, g)[7], ", ref_num="@, int_decimal(c.pcm_config.ref_num as int)),
        labelled(afe_config_text(c, g)[7], ", sample_rate="@, int_decimal(c.pcm_config.sample_rate as int)),
        labelled(afe_config_text(c, g)[8], "General AFE: mode="@, int_decimal(c.afe_mode as int)),
        labelled(afe_config_text(c, g)[8], ", type="@, int_decimal(c.afe_type as int)),
        labelled(afe_config_text(c, g)[8], ", preferred_core="@, int_decimal(c.afe_perferred_core as int)),
        labelled(afe_config_text(c, g)[8], ", preferred_priority="@, int_decimal(c.afe_perferred_priority as int)),
        labelled(afe_config_text(c, g)[8], ", ringbuf_size="@, int_decimal(c.afe_ringbuf_size as int)),
        labelled(afe_config_text(c, g)[8], ", linear_gain="@, g),
        labelled(afe_config_text(c, g)[9], "Memory allocation mode="@, int_decimal(c.memory_alloc_mode as int)),
        labelled(afe_config_text(c, g)[9], ", debug_init="@, bool_text(c.debug_init)),
        labelled(afe_config_text(c, g)[9], ", fixed_first_channel="@, bool_text(c.fixed_first_channel)),
{
    lemma_line_1_fields(c, g);
    lemma_line_2_fields(c, g);
    lemma_line_3_fields(c, g);
    lemma_line_4_fields(c, g);
    lemma_line_5_fields(c, g);
    lemma_line_6_fields(c, g);
    lemma_line_7_fields(c, g);
    lemma_line_8_fields(c, g);
    lemma_line_9_fields(c, g);
}

} // verus!
