use vstd::prelude::*;

use crate::text::{int_decimal, labelled, push_int_decimal};

verus! {

/// `wakenet_state_t`: the wake word was not detected.
pub const WAKENET_NO_DETECT: i32 = 0;

/// `wakenet_state_t`: the wake word was detected.
pub const WAKENET_DETECTED: i32 = 1;

/// `wakenet_state_t`: the output channel was verified.
pub const WAKENET_CHANNEL_VERIFIED: i32 = -1;

/// `vad_state_t`: the voice activity detector hears silence.
pub const VAD_SILENCE: i32 = 0;

/// `vad_state_t`: the voice activity detector hears speech.
pub const VAD_SPEECH: i32 = 1;

/// The name under which a wake-net state is logged.
pub open spec fn wakenet_state_name(state: i32) -> Seq<char> {
    if state == WAKENET_NO_DETECT {
        "NO_DETECT"@
    } else if state == WAKENET_DETECTED {
        "DETECTED"@
    } else if state == WAKENET_CHANNEL_VERIFIED {
        "CHANNEL_VERIFIED"@
    } else {
        "UNKNOWN"@
    }
}

/// The name of a wake-net state: `NO_DETECT`, `DETECTED`,
/// `CHANNEL_VERIFIED`, or `UNKNOWN` for any other code.
pub fn wakenet_state_to_str(state: i32) -> (s: &'static str)
    ensures
        s@ == wakenet_state_name(state),
{
    if state == WAKENET_NO_DETECT {
        "NO_DETECT"
    } else if state == WAKENET_DETECTED {
        "DETECTED"
    } else if state == WAKENET_CHANNEL_VERIFIED {
        "CHANNEL_VERIFIED"
    } else {
        "UNKNOWN"
    }
}

/// A chunk of processed audio handed out by the front end.
#[derive(Debug, PartialEq, Eq)]
pub struct AFEResult {
    /// 16-bit little-endian PCM samples, as bytes.
    pub data: Vec<u8>,
    /// Whether the voice activity detector heard speech in this chunk.
    pub speech: bool,
}

/// The mathematical content of an [`AFEResult`].
pub struct AFEResultView {
    pub data: Seq<u8>,
    pub speech: bool,
}

impl View for AFEResult {
    type V = AFEResultView;

    open spec fn view(&self) -> AFEResultView {
        AFEResultView { data: self.data@, speech: self.speech }
    }
}

/// What one fetch from the audio front end returned, as plain values: the
/// fields of its result record that the logic reads, and the bytes of its
/// two audio buffers (the samples cached by the voice activity detector
/// before speech was detected, then the current chunk).
#[derive(Debug, PartialEq, Eq)]
pub struct FetchOutput {
    pub ret_value: i32,
    pub wakeup_state: i32,
    pub wake_word_index: i32,
    pub wakenet_model_index: i32,
    pub vad_state: i32,
    pub vad_cache: Vec<u8>,
    pub data: Vec<u8>,
}

/// A change of the wake-net state, to be reported.
#[derive(Debug, Clone, Copy, PartialEq, Eq)]
pub struct WakenetChange {
    pub state: i32,
    pub wake_word_index: i32,
    pub wakenet_model_index: i32,
}

/// The last wake-net state seen by the fetch loop, stored as the low byte of
/// its code. It starts at `0` (no detection).
#[derive(Debug)]
pub struct WakenetTracker {
    last: i8,
}

impl WakenetTracker {
    /// The stored low byte of the last wake-net state.
    pub closed spec fn last_state(&self) -> i8 {
        self.last
    }

    /// A tracker that has seen no detection yet.
    pub fn new() -> (t: Self)
        ensures
            t.last_state() == 0,
    {
        WakenetTracker { last: 0 }
    }

    /// The stored low byte of the last wake-net state.
    pub fn last(&self) -> (s: i8)
        ensures
            s == self.last_state(),
    {
        self.last
    }
}

/// What the fetch loop does with one [`FetchOutput`].
#[derive(Debug, PartialEq, Eq)]
pub struct Fetched {
    /// The audio chunk, or the front end's return value when there is none.
    pub result: Result<AFEResult, i32>,
    /// A change of the wake-net state to report, if there was one.
    pub change: Option<WakenetChange>,
}

/// Whether a fetch produced audio: the front end reported success and the
/// voice activity detector hears speech.
pub open spec fn fetch_has_audio(ret_value: i32, vad_state: i32) -> bool {
    ret_value == 0 && vad_state == VAD_SPEECH
}

/// The last wake-net state after a fetch: the low byte of the state the
/// fetch reports, unless the fetch failed.
pub open spec fn tracked_state(last: i8, ret_value: i32, wakeup_state: i32) -> i8 {
    if ret_value == 0 {
        wakeup_state as i8
    } else {
        last
    }
}

/// Whether a fetch reports a change of the wake-net state: it succeeded and
/// the low byte of its state differs from the last one.
pub open spec fn state_changes(last: i8, ret_value: i32, wakeup_state: i32) -> bool {
    ret_value == 0 && last != wakeup_state as i8
}

/// A wake-net state is reported once: a second successful fetch with the
/// same state reports no change, and a failed fetch neither reports a change
/// nor forgets the last state.
pub proof fn law_wakenet_change_reported_once(last: i8, ret_value: i32, wakeup_state: i32)
    ensures
        !state_changes(tracked_state(last, 0, wakeup_state), 0, wakeup_state),
        tracked_state(tracked_state(last, 0, wakeup_state), 0, wakeup_state) == tracked_state(
            last,
            0,
            wakeup_state,
        ),
        ret_value != 0 ==> !state_changes(last, ret_value, wakeup_state) && tracked_state(
            last,
            ret_value,
            wakeup_state,
        ) == last,
{
}

/// Whether the audio buffers of a fetch are read: only when the fetch
/// succeeded and the voice activity detector hears speech.
pub fn fetch_needs_audio(ret_value: i32, vad_state: i32) -> (b: bool)
    ensures
        b == fetch_has_audio(ret_value, vad_state),
{
    ret_value == 0 && vad_state == VAD_SPEECH
}

/// Interprets one fetch of the audio front end.
///
/// A non-zero return value is an error, handed back as it is. Otherwise the
/// wake-net state is compared with the last one seen (by its low byte); a
/// change is recorded and reported. Without speech the return value is
/// handed back as an error too. With speech the audio is the detector's
/// cache followed by the current chunk.
pub fn interpret_fetch(tracker: &mut WakenetTracker, out: FetchOutput) -> (r: Fetched)
    ensures
        out.ret_value != 0 ==> {
            &&& r.result == Err::<AFEResult, i32>(out.ret_value)
            &&& r.change is None
            &&& final(tracker).last_state() == old(tracker).last_state()
        },
        out.ret_value == 0 ==> {
            &&& final(tracker).last_state() == tracked_state(
                old(tracker).last_state(),
                out.ret_value,
                out.wakeup_state,
            )
            &&& (state_changes(old(tracker).last_state(), out.ret_value, out.wakeup_state)
                <==> r.change is Some)
            &&& (r.change matches Some(c) ==> c.state == out.wakeup_state
                && c.wake_word_index == out.wake_word_index
                && c.wakenet_model_index == out.wakenet_model_index)
            &&& final(tracker).last_state() == out.wakeup_state as i8
            &&& (r.change is Some <==> old(tracker).last_state() != out.wakeup_state as i8)
        },
        out.ret_value == 0 && out.vad_state == VAD_SPEECH ==> (r.result matches Ok(a)
            && a@.data == out.vad_cache@ + out.data@ && a@.speech),
        out.ret_value == 0 && out.vad_state != VAD_SPEECH ==> r.result == Err::<AFEResult, i32>(
            0,
        ),
        fetch_has_audio(out.ret_value, out.vad_state) ==> (r.result matches Ok(a)
            && a@.data == out.vad_cache@ + out.data@ && a@.speech),
        !fetch_has_audio(out.ret_value, out.vad_state) ==> r.result == Err::<AFEResult, i32>(
            out.ret_value,
        ),
{
    let FetchOutput {
        ret_value,
        wakeup_state,
        wake_word_index,
        wakenet_model_index,
        vad_state,
        vad_cache,
        data,
    } = out;
    if ret_value != 0 {
        return Fetched { result: Err(ret_value), change: None };
    }
    let state_byte: i8 = wakeup_state as i8;
    let change = if tracker.last != state_byte {
        tracker.last = state_byte;
        Some(WakenetChange { state: wakeup_state, wake_word_index, wakenet_model_index })
    } else {
        None
    };
    if vad_state != VAD_SPEECH {
        return Fetched { result: Err(ret_value), change };
    }
    let mut audio = vad_cache;
    let mut rest = data;
    audio.append(&mut rest);
    let speech = vad_state == VAD_SPEECH;
    Fetched { result: Ok(AFEResult { data: audio, speech }), change }
}

/// The log line that reports a wake-net change.
pub open spec fn wakenet_change_text(c: WakenetChange) -> Seq<char> {
    "afe wakenet state: "@ + wakenet_state_name(c.state) + " wake_word_index: "@ + int_decimal(
        c.wake_word_index as int,
    ) + " model_index: "@ + int_decimal(c.wakenet_model_index as int)
}

/// The log line that reports a wake-net change: the state's name, the index
/// of the wake word and the index of the model.
pub fn wakenet_change_message(c: &WakenetChange) -> (s: String)
    ensures
        s@ == wakenet_change_text(*c),
{
    let mut s = String::from_str("afe wakenet state: ");
    s.append(wakenet_state_to_str(c.state));
    s.append(" wake_word_index: ");
    push_int_decimal(&mut s, c.wake_word_index as i64);
    s.append(" model_index: ");
    push_int_decimal(&mut s, c.wakenet_model_index as i64);
    s
}


/// The names of the wake-net states: each known state has its own name,
/// every other code is `UNKNOWN`, and no two of the four names are equal.
pub proof fn law_wakenet_state_names(state: i32)
    ensures
        wakenet_state_name(0) == "NO_DETECT"@,
        wakenet_state_name(1) == "DETECTED"@,
        wakenet_state_name(-1i32) == "CHANNEL_VERIFIED"@,
        state != 0 && state != 1 && state != -1 ==> wakenet_state_name(state) == "UNKNOWN"@,
        "NO_DETECT"@ != "DETECTED"@,
        "NO_DETECT"@ != "CHANNEL_VERIFIED"@,
        "NO_DETECT"@ != "UNKNOWN"@,
        "DETECTED"@ != "CHANNEL_VERIFIED"@,
        "DETECTED"@ != "UNKNOWN"@,
        "CHANNEL_VERIFIED"@ != "UNKNOWN"@,
{
    reveal_strlit("NO_DETECT");
    reveal_strlit("DETECTED");
    reveal_strlit("CHANNEL_VERIFIED");
    reveal_strlit("UNKNOWN");
    assert("NO_DETECT"@[0] != "DETECTED"@[0]);
    assert("NO_DETECT"@[0] != "CHANNEL_VERIFIED"@[0]);
    assert("NO_DETECT"@[0] != "UNKNOWN"@[0]);
    assert("DETECTED"@[0] != "CHANNEL_VERIFIED"@[0]);
    assert("DETECTED"@[0] != "UNKNOWN"@[0]);
    assert("CHANNEL_VERIFIED"@[0] != "UNKNOWN"@[0]);
}

/// Every successful fetch makes the tracker hold the low byte of the state it
/// reports, whatever that state is (no detection included), and reports a
/// change exactly when that byte differs from the one held before; a failed
/// fetch keeps the byte held and reports nothing. So a sequence of states
/// that alternates (detected, not detected, detected) reports every step.
pub proof fn law_wakenet_tracking(last: i8, ret_value: i32, wakeup_state: i32)
    ensures
        tracked_state(last, 0, wakeup_state) == wakeup_state as i8,
        state_changes(last, 0, wakeup_state) <==> last != wakeup_state as i8,
        ret_value != 0 ==> tracked_state(last, ret_value, wakeup_state) == last,
        ret_value != 0 ==> !state_changes(last, ret_value, wakeup_state),
        state_changes(1, 0, 0) && tracked_state(1, 0, 0) == 0,
        state_changes(0, 0, 1) && tracked_state(0, 0, 1) == 1,
{
}

/// The line for a wake-net change starts with the state's name as
/// [`wakenet_state_to_str`] gives it, and carries the wake word's index after
/// `wake_word_index: ` and the model's index after `model_index: `, in
/// decimal.
pub proof fn law_wakenet_change_line(c: WakenetChange)
    ensures
        exists|post: Seq<char>|
            wakenet_change_text(c) == "afe wakenet state: "@ + wakenet_state_name(c.state) + post,
        labelled(
            wakenet_change_text(c),
            " wake_word_index: "@,
            int_decimal(c.wake_word_index as int),
        ),
        labelled(wakenet_change_text(c), " model_index: "@, int_decimal(c.wakenet_model_index as int)),
{
    let t = wakenet_change_text(c);
    let head = "afe wakenet state: "@ + wakenet_state_name(c.state);
    let w = int_decimal(c.wake_word_index as int);
    let m = int_decimal(c.wakenet_model_index as int);
    let post = " wake_word_index: "@ + w + " model_index: "@ + m;
    assert(t =~= head + post);
    assert(t =~= head + " wake_word_index: "@ + w + (" model_index: "@ + m));
    assert(t =~= head + " wake_word_index: "@ + w + " model_index: "@ + m + Seq::<char>::empty());
}

} // verus!
