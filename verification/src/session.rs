use vstd::prelude::*;

use crate::audio::{AFEResult, AFEResultView};
use crate::text::{nat_decimal, push_nat_decimal};

verus! {

/// Something the program does at the edge: logging, the screen, the
/// microphone, the audio front end, the speaker, a pause.
#[derive(Debug, PartialEq, Eq)]
pub enum Action {
    /// Log the text at the information level.
    LogInfo(String),
    /// Log the text at the warning level.
    LogWarn(String),
    /// Show the text on the screen.
    Display(String),
    /// Log the free heap sizes.
    LogHeap,
    /// Set the flag that tells the recorder whether the speaker is playing.
    SetPlaying(bool),
    /// Sleep for this many milliseconds.
    Sleep(u64),
    /// Read exactly this many bytes from the microphone.
    ReadMic(usize),
    /// Feed these bytes to the audio front end.
    Feed(Vec<u8>),
    /// Fetch the next result from the audio front end.
    Fetch,
    /// Play these bytes on the speaker, with this timeout in milliseconds.
    Play(Vec<u8>, u32),
    /// End the loop.
    Stop,
}

/// The mathematical content of an [`Action`].
pub enum ActionView {
    LogInfo(Seq<char>),
    LogWarn(Seq<char>),
    Display(Seq<char>),
    LogHeap,
    SetPlaying(bool),
    Sleep(u64),
    ReadMic(usize),
    Feed(Seq<u8>),
    Fetch,
    Play(Seq<u8>, u32),
    Stop,
}

impl View for Action {
    type V = ActionView;

    open spec fn view(&self) -> ActionView {
        match self {
            Action::LogInfo(s) => ActionView::LogInfo(s@),
            Action::LogWarn(s) => ActionView::LogWarn(s@),
            Action::Display(s) => ActionView::Display(s@),
            Action::LogHeap => ActionView::LogHeap,
            Action::SetPlaying(b) => ActionView::SetPlaying(*b),
            Action::Sleep(ms) => ActionView::Sleep(*ms),
            Action::ReadMic(n) => ActionView::ReadMic(*n),
            Action::Feed(d) => ActionView::Feed(d@),
            Action::Fetch => ActionView::Fetch,
            Action::Play(d, t) => ActionView::Play(d@, *t),
            Action::Stop => ActionView::Stop,
        }
    }
}

/// The views of a list of actions.
pub open spec fn views(actions: Seq<Action>) -> Seq<ActionView> {
    actions.map_values(|a: Action| a@)
}

fn push_action(actions: &mut Vec<Action>, a: Action)
    ensures
        views(final(actions)@) == views(old(actions)@).push(a@),
{
    let ghost before = actions@;
    actions.push(a);
    assert(views(actions@) =~= views(before).push(a@));
}

/// What [`debug`] does with a text: log it, then show it.
pub open spec fn debug_actions(s: Seq<char>) -> Seq<ActionView> {
    seq![ActionView::LogInfo(s), ActionView::Display(s)]
}

fn push_debug(actions: &mut Vec<Action>, s: &str)
    ensures
        views(final(actions)@) == views(old(actions)@) + debug_actions(s@),
{
    let ghost before = views(actions@);
    push_action(actions, Action::LogInfo(String::from_str(s)));
    push_action(actions, Action::Display(String::from_str(s)));
    assert(views(actions@) =~= before + debug_actions(s@));
}

/// Reports a progress message: it is logged at the information level, then
/// shown on the screen.
pub fn debug(s: &str) -> (actions: Vec<Action>)
    ensures
        views(actions@) == debug_actions(s@),
{
    let mut actions: Vec<Action> = Vec::new();
    push_debug(&mut actions, s);
    assert(views(actions@) =~= debug_actions(s@));
    actions
}

// ----------------------------------------------------------------------
// Recording: the microphone feeds the audio front end while the speaker is
// silent.
// ----------------------------------------------------------------------

/// How long the recorder waits while the speaker plays, in milliseconds.
pub const PAUSE_MS: u64 = 20;

/// The loop that reads the microphone and feeds the audio front end.
pub struct Recorder {
    bytes_per_feed: usize,
}

impl Recorder {
    /// The number of bytes read from the microphone for each feed.
    pub closed spec fn feed_bytes(&self) -> nat {
        self.bytes_per_feed as nat
    }

    /// A recorder for a front end that takes `feed_chunksize` 16-bit
    /// samples per feed.
    pub fn new(feed_chunksize: usize) -> (r: Self)
        requires
            feed_chunksize * 2 <= usize::MAX,
        ensures
            r.feed_bytes() == feed_chunksize * 2,
    {
        Recorder { bytes_per_feed: feed_chunksize * 2 }
    }

    /// The number of bytes read from the microphone for each feed.
    pub fn bytes_per_feed(&self) -> (n: usize)
        ensures
            n == self.feed_bytes(),
    {
        self.bytes_per_feed
    }

    /// The next step of the loop: pause while the speaker plays, else read
    /// one feed's worth of bytes from the microphone.
    pub fn poll(&self, playing: bool) -> (actions: Vec<Action>)
        ensures
            views(actions@) == (if playing {
                seq![ActionView::Sleep(PAUSE_MS)]
            } else {
                seq![ActionView::ReadMic(self.feed_bytes() as usize)]
            }),
    {
        let mut actions: Vec<Action> = Vec::new();
        if playing {
            push_action(&mut actions, Action::Sleep(PAUSE_MS));
        } else {
            push_action(&mut actions, Action::ReadMic(self.bytes_per_feed));
        }
        assert(views(actions@) =~= (if playing {
            seq![ActionView::Sleep(PAUSE_MS)]
        } else {
            seq![ActionView::ReadMic(self.feed_bytes() as usize)]
        }));
        actions
    }

    /// What to do with the bytes read from the microphone: feed them to the
    /// front end, or, when nothing was read, warn and stop.
    pub fn on_read(&self, chunk: Vec<u8>) -> (actions: Vec<Action>)
        ensures
            views(actions@) == (if chunk@.len() == 0 {
                seq![ActionView::LogWarn("read zero"@), ActionView::Stop]
            } else {
                seq![ActionView::Feed(chunk@)]
            }),
    {
        let ghost data = chunk@;
        let mut actions: Vec<Action> = Vec::new();
        if chunk.len() == 0 {
            push_action(&mut actions, Action::LogWarn(String::from_str("read zero")));
            push_action(&mut actions, Action::Stop);
        } else {
            push_action(&mut actions, Action::Feed(chunk));
        }
        assert(views(actions@) =~= (if data.len() == 0 {
            seq![ActionView::LogWarn("read zero"@), ActionView::Stop]
        } else {
            seq![ActionView::Feed(data)]
        }));
        actions
    }
}


// ----------------------------------------------------------------------
// Playback: greet, then record what is said until it ends or grows too
// long, play it back, and listen again.
// ----------------------------------------------------------------------

/// How many seconds of speech one recording holds at most.
pub const MAX_RECORD_SECONDS: usize = 30;

/// The timeout for playing back a recording, in milliseconds.
pub const PLAYBACK_TIMEOUT_MS: u32 = 60000;

/// The most bytes one recording holds before it is cut off.
pub open spec fn max_record_bytes() -> nat {
    (MAX_RECORD_SECONDS * crate::SAMPLE_RATE) as nat
}

/// Where the playback loop stands.
#[derive(Clone, Copy, PartialEq, Eq, Structural, Debug)]
pub enum PlayPhase {
    /// The greeting is playing.
    Greeting,
    /// Speech is being fetched from the front end and recorded.
    Listening,
    /// A recording is being played back.
    Replaying,
}

/// The playback loop's state.
pub struct Player {
    phase: PlayPhase,
    recorded: Vec<u8>,
}

/// The mathematical content of a [`Player`]: its phase and the bytes
/// recorded so far.
pub struct PlayerView {
    pub phase: PlayPhase,
    pub recorded: Seq<u8>,
}

impl View for Player {
    type V = PlayerView;

    closed spec fn view(&self) -> PlayerView {
        PlayerView { phase: self.phase, recorded: self.recorded@ }
    }
}

/// The view of what a fetch gave.
pub open spec fn fetched_view(f: Result<AFEResult, i32>) -> Result<AFEResultView, i32> {
    match f {
        Ok(a) => Ok(a@),
        Err(e) => Err(e),
    }
}

/// `prefix`, the decimal number `n`, then ` bytes`.
pub open spec fn bytes_text(prefix: Seq<char>, n: nat) -> Seq<char> {
    prefix + nat_decimal(n) + " bytes"@
}

/// The actions that start listening for speech.
pub open spec fn listen_actions() -> Seq<ActionView> {
    debug_actions("Waiting for speech..."@) + seq![ActionView::Fetch]
}

/// A player whose greeting is playing.
pub open spec fn initial_player() -> PlayerView {
    PlayerView { phase: PlayPhase::Greeting, recorded: Seq::empty() }
}

/// A player listening with nothing recorded.
pub open spec fn listening() -> PlayerView {
    PlayerView { phase: PlayPhase::Listening, recorded: Seq::empty() }
}

/// The end of a recording: the recorder is paused and the length logged;
/// a non-empty recording is then played back, an empty one dropped.
pub open spec fn finish_recording(recorded: Seq<u8>) -> (PlayerView, Seq<ActionView>) {
    let head = seq![
        ActionView::SetPlaying(true),
        ActionView::LogInfo(bytes_text("Recording complete, length: "@, recorded.len())),
    ];
    if recorded.len() == 0 {
        (listening(), head + seq![ActionView::SetPlaying(false)] + listen_actions())
    } else {
        (
            PlayerView { phase: PlayPhase::Replaying, recorded: Seq::empty() },
            head + debug_actions("play record..."@) + seq![
                ActionView::Play(recorded, PLAYBACK_TIMEOUT_MS),
            ],
        )
    }
}

/// What the player does when the greeting has been played.
pub open spec fn greeting_step(p: PlayerView) -> (PlayerView, Seq<ActionView>) {
    if p.phase == PlayPhase::Greeting {
        (listening(), seq![ActionView::LogHeap, ActionView::SetPlaying(false)] + listen_actions())
    } else {
        (p, Seq::empty())
    }
}

/// What the player does with one fetch from the front end. While listening,
/// audio is appended to the recording, which ends once it holds at least
/// [`max_record_bytes`]; an error ends a non-empty recording and is waited
/// out otherwise. In the other phases a fetch is ignored.
pub open spec fn fetch_step(p: PlayerView, f: Result<AFEResultView, i32>) -> (
    PlayerView,
    Seq<ActionView>,
) {
    if p.phase != PlayPhase::Listening {
        (p, Seq::empty())
    } else {
        match f {
            Ok(a) => {
                let r = p.recorded + a.data;
                let log = seq![ActionView::LogInfo(bytes_text("Recording... total "@, r.len()))];
                if r.len() >= max_record_bytes() {
                    let done = finish_recording(r);
                    (
                        done.0,
                        log + seq![
                            ActionView::LogInfo(
                                bytes_text("Recording time exceeded "@, max_record_bytes())
                                    + seq!['.'],
                            ),
                        ] + done.1,
                    )
                } else {
                    (
                        PlayerView { phase: PlayPhase::Listening, recorded: r },
                        log + seq![ActionView::Fetch],
                    )
                }
            },
            Err(_) => {
                if p.recorded.len() == 0 {
                    (p, seq![ActionView::Fetch])
                } else {
                    let done = finish_recording(p.recorded);
                    (
                        done.0,
                        seq![
                            ActionView::LogInfo(
                                bytes_text("Recorded... total "@, p.recorded.len()),
                            ),
                        ] + done.1,
                    )
                }
            },
        }
    }
}

/// What the player does when a recording has been played back.
pub open spec fn playback_step(p: PlayerView) -> (PlayerView, Seq<ActionView>) {
    if p.phase == PlayPhase::Replaying {
        (
            listening(),
            debug_actions("play record end"@) + seq![
                ActionView::SetPlaying(false),
                ActionView::LogHeap,
            ] + listen_actions(),
        )
    } else {
        (p, Seq::empty())
    }
}

/// The player's invariant: a recording in progress is shorter than the
/// limit, and no bytes are held outside listening.
pub open spec fn player_inv(p: PlayerView) -> bool {
    &&& p.recorded.len() < max_record_bytes()
    &&& p.phase != PlayPhase::Listening ==> p.recorded.len() == 0
}

fn max_record_len() -> (n: usize)
    ensures
        n == max_record_bytes(),
{
    MAX_RECORD_SECONDS * (crate::SAMPLE_RATE as usize)
}

fn push_bytes_text(actions: &mut Vec<Action>, prefix: &str, n: usize, suffix: &str)
    ensures
        views(final(actions)@) == views(old(actions)@).push(
            ActionView::LogInfo(prefix@ + nat_decimal(n as nat) + suffix@),
        ),
{
    let mut s = String::from_str(prefix);
    push_nat_decimal(&mut s, n as u64);
    s.append(suffix);
    push_action(actions, Action::LogInfo(s));
}

fn push_listen(actions: &mut Vec<Action>)
    ensures
        views(final(actions)@) == views(old(actions)@) + listen_actions(),
{
    let ghost before = views(actions@);
    push_debug(actions, "Waiting for speech...");
    push_action(actions, Action::Fetch);
    assert(views(actions@) =~= before + listen_actions());
}

impl Player {
    /// The player's view satisfies its invariant.
    pub open spec fn wf(&self) -> bool {
        player_inv(self@)
    }

    /// A player whose greeting is playing.
    pub fn new() -> (p: Self)
        ensures
            p@ == initial_player(),
            p.wf(),
    {
        Player { phase: PlayPhase::Greeting, recorded: Vec::new() }
    }

    /// The phase the player is in.
    pub fn phase(&self) -> (ph: PlayPhase)
        ensures
            ph == self@.phase,
    {
        self.phase
    }

    /// The greeting has been played: log the heap, let the recorder run and
    /// start listening.
    pub fn greeting_done(&mut self) -> (actions: Vec<Action>)
        requires
            old(self).wf(),
        ensures
            final(self).wf(),
            (final(self)@, views(actions@)) == greeting_step(old(self)@),
    {
        let mut actions: Vec<Action> = Vec::new();
        if self.phase == PlayPhase::Greeting {
            push_action(&mut actions, Action::LogHeap);
            push_action(&mut actions, Action::SetPlaying(false));
            push_listen(&mut actions);
            self.phase = PlayPhase::Listening;
            self.recorded = Vec::new();
        }
        proof {
            assert(views(actions@) =~= greeting_step(old(self)@).1);
            assert(self@.recorded =~= greeting_step(old(self)@).0.recorded);
        }
        actions
    }

    /// Ends the current recording; the recorded bytes become the caller's.
    fn finish(&mut self, actions: &mut Vec<Action>, recorded: Vec<u8>)
        ensures
            ({
                let done = finish_recording(recorded@);
                &&& final(self)@ == done.0
                &&& views(final(actions)@) == views(old(actions)@) + done.1
            }),
    {
        let ghost before = views(actions@);
        let ghost rec = recorded@;
        let n = recorded.len();
        push_action(actions, Action::SetPlaying(true));
        push_bytes_text(actions, "Recording complete, length: ", n, " bytes");
        if n == 0 {
            push_action(actions, Action::SetPlaying(false));
            push_listen(actions);
            self.phase = PlayPhase::Listening;
        } else {
            push_debug(actions, "play record...");
            push_action(actions, Action::Play(recorded, PLAYBACK_TIMEOUT_MS));
            self.phase = PlayPhase::Replaying;
        }
        self.recorded = Vec::new();
        proof {
            let done = finish_recording(rec);
            assert(views(actions@) =~= before + done.1);
            assert(self@.recorded =~= done.0.recorded);
        }
    }

    /// One fetch from the audio front end has been made.
    pub fn on_fetch(&mut self, fetched: Result<AFEResult, i32>) -> (actions: Vec<Action>)
        requires
            old(self).wf(),
        ensures
            final(self).wf(),
            (final(self)@, views(actions@)) == fetch_step(old(self)@, fetched_view(fetched)),
    {
        let ghost f = fetched_view(fetched);
        let mut actions: Vec<Action> = Vec::new();
        if self.phase != PlayPhase::Listening {
            proof {
                assert(views(actions@) =~= Seq::<ActionView>::empty());
            }
            return actions;
        }
        let max = max_record_len();
        match fetched {
            Ok(a) => {
                let ghost r = self.recorded@ + a.data@;
                let mut data = a.data;
                let mut recorded: Vec<u8> = Vec::new();
                std::mem::swap(&mut recorded, &mut self.recorded);
                recorded.append(&mut data);
                assert(recorded@ =~= r);
                let n = recorded.len();
                push_bytes_text(&mut actions, "Recording... total ", n, " bytes");
                if n >= max {
                    push_bytes_text(&mut actions, "Recording time exceeded ", max, " bytes.");
                    proof {
                        reveal_strlit(" bytes");
                        reveal_strlit(" bytes.");
                        assert(" bytes."@ =~= " bytes"@ + seq!['.']);
                        assert("Recording time exceeded "@ + nat_decimal(max as nat) + " bytes."@
                            =~= bytes_text("Recording time exceeded "@, max_record_bytes())
                            + seq!['.']);
                    }
                    self.finish(&mut actions, recorded);
                } else {
                    push_action(&mut actions, Action::Fetch);
                    self.recorded = recorded;
                }
                proof {
                    assert(views(actions@) =~= fetch_step(old(self)@, f).1);
                    assert(self@.recorded =~= fetch_step(old(self)@, f).0.recorded);
                }
            },
            Err(_) => {
                if self.recorded.len() == 0 {
                    push_action(&mut actions, Action::Fetch);
                } else {
                    let mut recorded: Vec<u8> = Vec::new();
                    std::mem::swap(&mut recorded, &mut self.recorded);
                    let n = recorded.len();
                    push_bytes_text(&mut actions, "Recorded... total ", n, " bytes");
                    self.finish(&mut actions, recorded);
                }
                proof {
                    assert(views(actions@) =~= fetch_step(old(self)@, f).1);
                    assert(self@.recorded =~= fetch_step(old(self)@, f).0.recorded);
                }
            },
        }
        actions
    }

    /// A recording has been played back: let the recorder run again, log
    /// the heap and listen for the next speech.
    pub fn playback_done(&mut self) -> (actions: Vec<Action>)
        requires
            old(self).wf(),
        ensures
            final(self).wf(),
            (final(self)@, views(actions@)) == playback_step(old(self)@),
    {
        let mut actions: Vec<Action> = Vec::new();
        if self.phase == PlayPhase::Replaying {
            push_debug(&mut actions, "play record end");
            push_action(&mut actions, Action::SetPlaying(false));
            push_action(&mut actions, Action::LogHeap);
            push_listen(&mut actions);
            self.phase = PlayPhase::Listening;
            self.recorded = Vec::new();
        }
        proof {
            assert(views(actions@) =~= playback_step(old(self)@).1);
            assert(self@.recorded =~= playback_step(old(self)@).0.recorded);
        }
        actions
    }
}


// ----------------------------------------------------------------------
// Laws of the playback loop.
// ----------------------------------------------------------------------

/// The player after a sequence of fetches, in order.
pub open spec fn fetch_all(p: PlayerView, fs: Seq<Result<AFEResultView, i32>>) -> PlayerView
    decreases fs.len(),
{
    if fs.len() == 0 {
        p
    } else {
        fetch_step(fetch_all(p, fs.drop_last()), fs.last()).0
    }
}

/// The audio of the successful fetches of a sequence, concatenated in order.
pub open spec fn fetched_audio(fs: Seq<Result<AFEResultView, i32>>) -> Seq<u8>
    decreases fs.len(),
{
    if fs.len() == 0 {
        Seq::empty()
    } else {
        fetched_audio(fs.drop_last()) + match fs.last() {
            Ok(a) => a.data,
            Err(_) => Seq::empty(),
        }
    }
}

/// Whether every failed fetch of a sequence comes while nothing is recorded:
/// `held` and the audio fetched before it are empty. (A failure after some
/// audio ends the recording.)
pub open spec fn errors_before_audio(held: Seq<u8>, fs: Seq<Result<AFEResultView, i32>>) -> bool {
    forall|i: int|
        0 <= i < fs.len() && (#[trigger] fs[i]) is Err ==> held.len() + fetched_audio(
            fs.take(i),
        ).len() == 0
}

/// Every step of the player keeps its invariant.
pub proof fn law_steps_keep_invariant(p: PlayerView, f: Result<AFEResultView, i32>)
    requires
        player_inv(p),
    ensures
        player_inv(greeting_step(p).0),
        player_inv(fetch_step(p, f).0),
        player_inv(playback_step(p).0),
{
}

/// While it listens, the player's recording is what it held followed by the
/// audio of the fetches, in the order they came; failures that come while
/// nothing is recorded are waited out.
pub proof fn law_recording_is_fetched_audio(p: PlayerView, fs: Seq<Result<AFEResultView, i32>>)
    requires
        p.phase == PlayPhase::Listening,
        errors_before_audio(p.recorded, fs),
        p.recorded.len() + fetched_audio(fs).len() < max_record_bytes(),
    ensures
        fetch_all(p, fs) == (PlayerView {
            phase: PlayPhase::Listening,
            recorded: p.recorded + fetched_audio(fs),
        }),
    decreases fs.len(),
{
    if fs.len() == 0 {
        assert(p.recorded + fetched_audio(fs) =~= p.recorded);
    } else {
        let init = fs.drop_last();
        assert forall|i: int| 0 <= i < init.len() && (#[trigger] init[i]) is Err implies p.recorded.len()
            + fetched_audio(init.take(i)).len() == 0 by {
            assert(init[i] == fs[i]);
            assert(init.take(i) =~= fs.take(i));
        }
        law_recording_is_fetched_audio(p, init);
        match fs.last() {
            Ok(a) => {
                assert(p.recorded + fetched_audio(init) + a.data =~= p.recorded + fetched_audio(
                    fs,
                ));
            },
            Err(_) => {
                assert(fs[fs.len() - 1] is Err);
                assert(fs.take(fs.len() - 1) =~= init);
                assert(fetched_audio(fs) =~= fetched_audio(init) + Seq::<u8>::empty());
                assert(p.recorded + fetched_audio(init) =~= p.recorded + fetched_audio(fs));
            },
        }
    }
}

/// A fetch that fails before anything was recorded is waited out: the player
/// is unchanged and fetches again.
pub proof fn law_error_before_speech_is_waited_out(e: i32)
    ensures
        fetch_step(listening(), Err(e)) == (listening(), seq![ActionView::Fetch]),
{
}

/// When a recording ends, it is played back whole: the last action plays
/// exactly the audio fetched since listening began (failures before any
/// audio being waited out), the recording that
/// ends is never empty, and the player waits for the playback.
pub proof fn law_playback_is_whole_recording(
    fs: Seq<Result<AFEResultView, i32>>,
    last: Result<AFEResultView, i32>,
)
    requires
        errors_before_audio(Seq::empty(), fs),
        fetched_audio(fs).len() < max_record_bytes(),
        fetch_step(fetch_all(listening(), fs), last).0.phase == PlayPhase::Replaying,
    ensures
        ({
            let acts = fetch_step(fetch_all(listening(), fs), last).1;
            let all = fetched_audio(fs.push(last));
            &&& all.len() > 0
            &&& acts.len() > 0
            &&& acts.last() == ActionView::Play(all, PLAYBACK_TIMEOUT_MS)
        }),
{
    law_recording_is_fetched_audio(listening(), fs);
    assert(listening().recorded + fetched_audio(fs) =~= fetched_audio(fs));
    assert(fs.push(last).drop_last() =~= fs);
}

/// Before any playback the recorder is paused: whenever a step plays a
/// recording back, an earlier action of the same step sets the playing flag,
/// and no action between them clears it.
pub proof fn law_recorder_paused_before_playback(p: PlayerView, f: Result<AFEResultView, i32>)
    ensures
        ({
            let acts = fetch_step(p, f).1;
            forall|i: int|
                0 <= i < acts.len() && (#[trigger] acts[i]) is Play ==> exists|j: int|
                    0 <= j < i && acts[j] == ActionView::SetPlaying(true) && forall|k: int|
                        j < k < i ==> acts[k] != ActionView::SetPlaying(false)
        }),
        forall|i: int|
            0 <= i < greeting_step(p).1.len() ==> !((#[trigger] greeting_step(p).1[i]) is Play),
        forall|i: int|
            0 <= i < playback_step(p).1.len() ==> !((#[trigger] playback_step(p).1[i]) is Play),
{
    let acts = fetch_step(p, f).1;
    if p.phase == PlayPhase::Listening {
        match f {
            Ok(a) => {
                let r = p.recorded + a.data;
                if r.len() >= max_record_bytes() {
                    let done = finish_recording(r);
                    assert forall|i: int|
                        0 <= i < acts.len() && (#[trigger] acts[i]) is Play implies exists|j: int|
                        0 <= j < i && acts[j] == ActionView::SetPlaying(true) && forall|k: int|
                            j < k < i ==> acts[k] != ActionView::SetPlaying(false) by {
                        assert(acts[2] == ActionView::SetPlaying(true));
                    }
                }
            },
            Err(_) => {
                if p.recorded.len() != 0 {
                    assert forall|i: int|
                        0 <= i < acts.len() && (#[trigger] acts[i]) is Play implies exists|j: int|
                        0 <= j < i && acts[j] == ActionView::SetPlaying(true) && forall|k: int|
                            j < k < i ==> acts[k] != ActionView::SetPlaying(false) by {
                        assert(acts[1] == ActionView::SetPlaying(true));
                    }
                }
            },
        }
    }
}


/// What the playback loop is told.
pub enum PlayerEvent {
    /// The greeting has been played.
    GreetingDone,
    /// A fetch from the front end gave this.
    Fetched(Result<AFEResultView, i32>),
    /// The recording has been played back.
    PlaybackDone,
}

/// One step of the player on an event.
pub open spec fn player_step(p: PlayerView, e: PlayerEvent) -> (PlayerView, Seq<ActionView>) {
    match e {
        PlayerEvent::GreetingDone => greeting_step(p),
        PlayerEvent::Fetched(f) => fetch_step(p, f),
        PlayerEvent::PlaybackDone => playback_step(p),
    }
}

/// The player and all its actions after the events `es`, from the start.
pub open spec fn player_run(es: Seq<PlayerEvent>) -> (PlayerView, Seq<ActionView>)
    decreases es.len(),
{
    if es.len() == 0 {
        (initial_player(), Seq::empty())
    } else {
        let prev = player_run(es.drop_last());
        let next = player_step(prev.0, es.last());
        (next.0, prev.1 + next.1)
    }
}

/// The recorder's playing flag along a list of actions, and whether a
/// playback has happened since the flag was last stored.
pub struct FlagState {
    pub playing: bool,
    pub after_play: bool,
}

/// The flag state after one action.
pub open spec fn flag_update(a: ActionView, st: FlagState) -> FlagState {
    match a {
        ActionView::SetPlaying(v) => FlagState { playing: v, after_play: false },
        ActionView::Play(_, _) => FlagState { playing: st.playing, after_play: true },
        _ => st,
    }
}

/// What must hold of the flag when an action is taken: fetching (recording)
/// only while the flag is clear, playing back only while it is set, and
/// after a playback the first store clears it.
pub open spec fn flag_allows(a: ActionView, st: FlagState) -> bool {
    &&& a is Fetch ==> !st.playing
    &&& a is Play ==> st.playing
    &&& (a is SetPlaying && st.after_play) ==> a == ActionView::SetPlaying(false)
}

/// The flag state after the first `n` actions, from `init`.
pub open spec fn flag_after(acts: Seq<ActionView>, n: int, init: FlagState) -> FlagState
    decreases n,
{
    if n <= 0 {
        init
    } else {
        flag_update(acts[n - 1], flag_after(acts, n - 1, init))
    }
}

/// Whether each of the first `n` actions is allowed by the flag state before
/// it, from `init`.
pub open spec fn flag_ok_upto(acts: Seq<ActionView>, n: int, init: FlagState) -> bool
    decreases n,
{
    if n <= 0 {
        true
    } else {
        flag_ok_upto(acts, n - 1, init) && flag_allows(acts[n - 1], flag_after(acts, n - 1, init))
    }
}

/// The flag state that goes with each phase: set (its initial value) while
/// greeting, clear while listening, set while replaying, with a playback
/// outstanding only while replaying.
pub open spec fn phase_flag(ph: PlayPhase) -> FlagState {
    match ph {
        PlayPhase::Greeting => FlagState { playing: true, after_play: false },
        PlayPhase::Listening => FlagState { playing: false, after_play: false },
        PlayPhase::Replaying => FlagState { playing: true, after_play: true },
    }
}

proof fn lemma_flag_prefix(a: Seq<ActionView>, b: Seq<ActionView>, n: int, init: FlagState)
    requires
        0 <= n <= a.len(),
    ensures
        flag_after(a + b, n, init) == flag_after(a, n, init),
        flag_ok_upto(a + b, n, init) == flag_ok_upto(a, n, init),
    decreases n,
{
    if n > 0 {
        lemma_flag_prefix(a, b, n - 1, init);
        assert((a + b)[n - 1] == a[n - 1]);
    }
}

proof fn lemma_flag_suffix(a: Seq<ActionView>, b: Seq<ActionView>, m: int, init: FlagState)
    requires
        0 <= m <= b.len(),
    ensures
        flag_after(a + b, a.len() + m, init) == flag_after(b, m, flag_after(a, a.len() as int, init)),
        flag_ok_upto(a + b, a.len() + m, init) == (flag_ok_upto(a, a.len() as int, init)
            && flag_ok_upto(b, m, flag_after(a, a.len() as int, init))),
    decreases m,
{
    if m == 0 {
        lemma_flag_prefix(a, b, a.len() as int, init);
    } else {
        lemma_flag_suffix(a, b, m - 1, init);
        assert((a + b)[a.len() + m - 1] == b[m - 1]);
    }
}

proof fn lemma_step_flag(p: PlayerView, e: PlayerEvent)
    requires
        player_inv(p),
    ensures
        ({
            let n = player_step(p, e);
            &&& player_inv(n.0)
            &&& flag_ok_upto(n.1, n.1.len() as int, phase_flag(p.phase))
            &&& flag_after(n.1, n.1.len() as int, phase_flag(p.phase)) == phase_flag(n.0.phase)
        }),
{
    reveal_with_fuel(flag_after, 8);
    reveal_with_fuel(flag_ok_upto, 8);
    match e {
        PlayerEvent::Fetched(f) => {
            if p.phase == PlayPhase::Listening {
                match f {
                    Ok(a) => {
                        let r = p.recorded + a.data;
                        if r.len() >= max_record_bytes() {
                            assert(r.len() > 0);
                        }
                    },
                    Err(_) => {},
                }
            }
        },
        _ => {},
    }
}

proof fn lemma_run_flag(es: Seq<PlayerEvent>)
    ensures
        ({
            let r = player_run(es);
            let init = phase_flag(PlayPhase::Greeting);
            &&& player_inv(r.0)
            &&& flag_ok_upto(r.1, r.1.len() as int, init)
            &&& flag_after(r.1, r.1.len() as int, init) == phase_flag(r.0.phase)
        }),
    decreases es.len(),
{
    if es.len() > 0 {
        let init = es.drop_last();
        lemma_run_flag(init);
        let prev = player_run(init);
        let next = player_step(prev.0, es.last());
        lemma_step_flag(prev.0, es.last());
        lemma_flag_suffix(prev.1, next.1, next.1.len() as int, phase_flag(PlayPhase::Greeting));
    }
}

proof fn lemma_flag_ok_at(acts: Seq<ActionView>, n: int, j: int, init: FlagState)
    requires
        0 <= j < n <= acts.len(),
        flag_ok_upto(acts, n, init),
    ensures
        flag_allows(acts[j], flag_after(acts, j, init)),
    decreases n,
{
    if j < n - 1 {
        lemma_flag_ok_at(acts, n - 1, j, init);
    }
}

/// The playing flag that pauses the recorder, over any run of the playback
/// loop from its start (the flag starts set). The player fetches, that is
/// records, only while the flag is clear; it plays a recording back only
/// while the flag is set; after each playback the first store to the flag
/// clears it, so nothing sets it between a playback and the clearing. That
/// clearing comes when the playback is done: while the player replays the
/// flag is set with the playback outstanding, in the other phases no
/// playback is outstanding, and the flag is clear whenever the player
/// listens.
pub proof fn law_playing_flag(es: Seq<PlayerEvent>)
    ensures
        ({
            let r = player_run(es);
            let init = phase_flag(PlayPhase::Greeting);
            &&& forall|j: int|
                0 <= j < r.1.len() ==> flag_allows(#[trigger] r.1[j], flag_after(r.1, j, init))
            &&& flag_after(r.1, r.1.len() as int, init) == phase_flag(r.0.phase)
        }),
{
    let r = player_run(es);
    let init = phase_flag(PlayPhase::Greeting);
    lemma_run_flag(es);
    assert forall|j: int| 0 <= j < r.1.len() implies flag_allows(
        #[trigger] r.1[j],
        flag_after(r.1, j, init),
    ) by {
        lemma_flag_ok_at(r.1, r.1.len() as int, j, init);
    }
}


/// A failed fetch, whatever its code, ends a recording that holds audio: the
/// player logs the length, pauses the recorder, and its last action plays
/// back exactly the recorded bytes with a 60 s timeout; it then waits for the
/// playback with nothing held.
pub proof fn law_failure_ends_recording(p: PlayerView, e: i32)
    requires
        p.phase == PlayPhase::Listening,
        p.recorded.len() > 0,
    ensures
        ({
            let n = fetch_step(p, Err(e));
            let len = nat_decimal(p.recorded.len());
            &&& n.0.phase == PlayPhase::Replaying
            &&& n.0.recorded.len() == 0
            &&& n.1 == seq![
                ActionView::LogInfo("Recorded... total "@ + len + " bytes"@),
                ActionView::SetPlaying(true),
                ActionView::LogInfo("Recording complete, length: "@ + len + " bytes"@),
                ActionView::LogInfo("play record..."@),
                ActionView::Display("play record..."@),
                ActionView::Play(p.recorded, 60000),
            ]
        }),
{
    let n = fetch_step(p, Err(e));
    let len = nat_decimal(p.recorded.len());
    assert(n.1 =~= seq![
        ActionView::LogInfo("Recorded... total "@ + len + " bytes"@),
        ActionView::SetPlaying(true),
        ActionView::LogInfo("Recording complete, length: "@ + len + " bytes"@),
        ActionView::LogInfo("play record..."@),
        ActionView::Display("play record..."@),
        ActionView::Play(p.recorded, 60000),
    ]);
}

/// Audio fetched while listening is appended to the recording and its new
/// total is logged. Below 480000 bytes (30 s at 16000 Hz) the player keeps
/// listening and fetches again; at 480000 bytes or more it logs the cut-off,
/// pauses the recorder and plays back the whole recording, nothing lost.
pub proof fn law_audio_extends_recording(p: PlayerView, a: AFEResultView)
    requires
        p.phase == PlayPhase::Listening,
    ensures
        ({
            let n = fetch_step(p, Ok(a));
            let total = p.recorded + a.data;
            &&& n.1[0] == ActionView::LogInfo(
                "Recording... total "@ + nat_decimal(total.len()) + " bytes"@,
            )
            &&& total.len() < 480000 ==> n.0 == (PlayerView {
                phase: PlayPhase::Listening,
                recorded: total,
            }) && n.1 == seq![n.1[0], ActionView::Fetch]
            &&& total.len() >= 480000 ==> {
                &&& n.0.phase == PlayPhase::Replaying
                &&& n.0.recorded.len() == 0
                &&& n.1 == seq![
                    n.1[0],
                    ActionView::LogInfo("Recording time exceeded 480000 bytes."@),
                    ActionView::SetPlaying(true),
                    ActionView::LogInfo(
                        "Recording complete, length: "@ + nat_decimal(total.len()) + " bytes"@,
                    ),
                    ActionView::LogInfo("play record..."@),
                    ActionView::Display("play record..."@),
                    ActionView::Play(total, 60000),
                ]
            }
        }),
{
    let total = p.recorded + a.data;
    if total.len() >= 480000 {
        reveal_strlit(" bytes");
        reveal_strlit(" bytes.");
        reveal_strlit("Recording time exceeded ");
        reveal_strlit("Recording time exceeded 480000 bytes.");
        reveal_with_fuel(nat_decimal, 7);
        assert(nat_decimal(480000) =~= seq!['4', '8', '0', '0', '0', '0']);
        assert("Recording time exceeded "@ + nat_decimal(480000) + " bytes"@ + seq!['.']
            =~= "Recording time exceeded 480000 bytes."@);
        let n = fetch_step(p, Ok(a));
        assert(n.1 =~= seq![
            n.1[0],
            ActionView::LogInfo("Recording time exceeded 480000 bytes."@),
            ActionView::SetPlaying(true),
            ActionView::LogInfo(
                "Recording complete, length: "@ + nat_decimal(total.len()) + " bytes"@,
            ),
            ActionView::LogInfo("play record..."@),
            ActionView::Display("play record..."@),
            ActionView::Play(total, 60000),
        ]);
    }
}

/// Outside listening a fetch changes nothing and does nothing.
pub proof fn law_fetch_ignored_outside_listening(p: PlayerView, f: Result<AFEResultView, i32>)
    requires
        p.phase != PlayPhase::Listening,
    ensures
        fetch_step(p, f) == (p, Seq::<ActionView>::empty()),
{
}

/// The end of the greeting and the end of a playback both lead to listening
/// with nothing recorded: the recorder is let run (the flag cleared), the
/// heap is logged, and the last action fetches. Either event in another
/// phase changes nothing and does nothing.
pub proof fn law_listening_starts(p: PlayerView)
    ensures
        p.phase == PlayPhase::Greeting ==> greeting_step(p) == (listening(), seq![
            ActionView::LogHeap,
            ActionView::SetPlaying(false),
            ActionView::LogInfo("Waiting for speech..."@),
            ActionView::Display("Waiting for speech..."@),
            ActionView::Fetch,
        ]),
        p.phase == PlayPhase::Replaying ==> playback_step(p) == (listening(), seq![
            ActionView::LogInfo("play record end"@),
            ActionView::Display("play record end"@),
            ActionView::SetPlaying(false),
            ActionView::LogHeap,
            ActionView::LogInfo("Waiting for speech..."@),
            ActionView::Display("Waiting for speech..."@),
            ActionView::Fetch,
        ]),
        p.phase != PlayPhase::Greeting ==> greeting_step(p) == (p, Seq::<ActionView>::empty()),
        p.phase != PlayPhase::Replaying ==> playback_step(p) == (p, Seq::<ActionView>::empty()),
        listening().phase == PlayPhase::Listening && listening().recorded.len() == 0,
        initial_player().phase == PlayPhase::Greeting && initial_player().recorded.len() == 0,
{
    if p.phase == PlayPhase::Greeting {
        assert(greeting_step(p).1 =~= seq![
            ActionView::LogHeap,
            ActionView::SetPlaying(false),
            ActionView::LogInfo("Waiting for speech..."@),
            ActionView::Display("Waiting for speech..."@),
            ActionView::Fetch,
        ]);
    }
    if p.phase == PlayPhase::Replaying {
        assert(playback_step(p).1 =~= seq![
            ActionView::LogInfo("play record end"@),
            ActionView::Display("play record end"@),
            ActionView::SetPlaying(false),
            ActionView::LogHeap,
            ActionView::LogInfo("Waiting for speech..."@),
            ActionView::Display("Waiting for speech..."@),
            ActionView::Fetch,
        ]);
    }
}

/// A progress message is logged, then shown; the recorder pauses for 20 ms
/// while the speaker plays; a playback may take up to 60 s; a recording is
/// cut at 480000 bytes, 30 times the sample rate.
pub proof fn law_session_constants(s: Seq<char>)
    ensures
        debug_actions(s) == seq![ActionView::LogInfo(s), ActionView::Display(s)],
        PAUSE_MS == 20,
        PLAYBACK_TIMEOUT_MS == 60000,
        max_record_bytes() == 480000,
{
}

} // verus!
