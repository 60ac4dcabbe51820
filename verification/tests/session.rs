use esp_voice::audio::AFEResult;
use esp_voice::session::{debug, Action, PlayPhase, Player, Recorder, PAUSE_MS, PLAYBACK_TIMEOUT_MS};

fn info(s: &str) -> Action {
    Action::LogInfo(s.to_string())
}

fn show(s: &str) -> Action {
    Action::Display(s.to_string())
}

fn audio(data: Vec<u8>) -> Result<AFEResult, i32> {
    Ok(AFEResult { data, speech: true })
}

fn listen() -> Vec<Action> {
    vec![info("Waiting for speech..."), show("Waiting for speech..."), Action::Fetch]
}

#[test]
fn debug_logs_then_shows() {
    assert_eq!(debug("play record..."), vec![info("play record..."), show("play record...")]);
}

#[test]
fn recorder_pauses_while_playing() {
    let r = Recorder::new(512);
    assert_eq!(r.bytes_per_feed(), 1024);
    assert_eq!(r.poll(true), vec![Action::Sleep(PAUSE_MS)]);
    assert_eq!(r.poll(false), vec![Action::ReadMic(1024)]);
}

#[test]
fn recorder_feeds_or_stops() {
    let r = Recorder::new(2);
    assert_eq!(r.on_read(vec![1, 2, 3, 4]), vec![Action::Feed(vec![1, 2, 3, 4])]);
    assert_eq!(
        r.on_read(Vec::new()),
        vec![Action::LogWarn("read zero".to_string()), Action::Stop]
    );
}

#[test]
fn greeting_starts_listening() {
    let mut p = Player::new();
    assert_eq!(p.phase(), PlayPhase::Greeting);
    let mut expected = vec![Action::LogHeap, Action::SetPlaying(false)];
    expected.extend(listen());
    assert_eq!(p.greeting_done(), expected);
    assert_eq!(p.phase(), PlayPhase::Listening);
    assert_eq!(p.greeting_done(), vec![]);
}

#[test]
fn error_before_speech_is_waited_out() {
    let mut p = Player::new();
    p.greeting_done();
    assert_eq!(p.on_fetch(Err(0)), vec![Action::Fetch]);
    assert_eq!(p.phase(), PlayPhase::Listening);
}

#[test]
fn recording_ends_on_error_and_is_played_back() {
    let mut p = Player::new();
    p.greeting_done();
    assert_eq!(p.on_fetch(audio(vec![1, 2])), vec![info("Recording... total 2 bytes"), Action::Fetch]);
    assert_eq!(p.on_fetch(audio(vec![3])), vec![info("Recording... total 3 bytes"), Action::Fetch]);
    assert_eq!(
        p.on_fetch(Err(0)),
        vec![
            info("Recorded... total 3 bytes"),
            Action::SetPlaying(true),
            info("Recording complete, length: 3 bytes"),
            info("play record..."),
            show("play record..."),
            Action::Play(vec![1, 2, 3], PLAYBACK_TIMEOUT_MS),
        ]
    );
    assert_eq!(p.phase(), PlayPhase::Replaying);
    assert_eq!(p.on_fetch(audio(vec![9])), vec![]);
    let mut expected = vec![
        info("play record end"),
        show("play record end"),
        Action::SetPlaying(false),
        Action::LogHeap,
    ];
    expected.extend(listen());
    assert_eq!(p.playback_done(), expected);
    assert_eq!(p.phase(), PlayPhase::Listening);
    assert_eq!(p.on_fetch(Err(-1)), vec![Action::Fetch]);
}

#[test]
fn recording_is_cut_at_thirty_seconds() {
    let mut p = Player::new();
    p.greeting_done();
    assert_eq!(
        p.on_fetch(audio(vec![7; 479_999])),
        vec![info("Recording... total 479999 bytes"), Action::Fetch]
    );
    let actions = p.on_fetch(audio(vec![8, 8]));
    let mut whole = vec![7u8; 479_999];
    whole.extend([8, 8]);
    assert_eq!(
        actions,
        vec![
            info("Recording... total 480001 bytes"),
            info("Recording time exceeded 480000 bytes."),
            Action::SetPlaying(true),
            info("Recording complete, length: 480001 bytes"),
            info("play record..."),
            show("play record..."),
            Action::Play(whole, 60000),
        ]
    );
    assert_eq!(p.phase(), PlayPhase::Replaying);
}

#[test]
fn empty_audio_keeps_listening() {
    let mut p = Player::new();
    p.greeting_done();
    assert_eq!(p.on_fetch(audio(vec![])), vec![info("Recording... total 0 bytes"), Action::Fetch]);
    assert_eq!(p.on_fetch(Err(0)), vec![Action::Fetch]);
}

#[test]
fn playback_done_outside_replay_is_ignored() {
    let mut p = Player::new();
    assert_eq!(p.playback_done(), vec![]);
    assert_eq!(p.on_fetch(audio(vec![1])), vec![]);
    assert_eq!(p.phase(), PlayPhase::Greeting);
}

/// Replays actions against the playing flag (initially set) and checks that
/// fetches come while it is clear, playbacks while it is set, and the first
/// store after a playback clears it. Returns the final flag.
fn check_flag(actions: &[Action]) -> bool {
    let mut playing = true;
    let mut after_play = false;
    for a in actions {
        match a {
            Action::Fetch => assert!(!playing),
            Action::Play(..) => {
                assert!(playing);
                after_play = true;
            }
            Action::SetPlaying(v) => {
                if after_play {
                    assert!(!*v);
                }
                playing = *v;
                after_play = false;
            }
            _ => {}
        }
    }
    playing
}

#[test]
fn playing_flag_over_two_rounds() {
    let mut p = Player::new();
    let mut all = p.greeting_done();
    all.extend(p.on_fetch(Err(0)));
    all.extend(p.on_fetch(audio(vec![1])));
    all.extend(p.on_fetch(Err(0)));
    all.extend(p.on_fetch(audio(vec![5])));
    assert_eq!(p.phase(), PlayPhase::Replaying);
    assert!(check_flag(&all));
    all.extend(p.playback_done());
    all.extend(p.on_fetch(audio(vec![2; 480_000])));
    all.extend(p.playback_done());
    assert!(!check_flag(&all));
    assert_eq!(p.phase(), PlayPhase::Listening);
}

#[test]
fn errors_before_audio_do_not_enter_recording() {
    let mut p = Player::new();
    p.greeting_done();
    p.on_fetch(Err(1));
    p.on_fetch(audio(vec![]));
    p.on_fetch(Err(2));
    p.on_fetch(audio(vec![4, 5]));
    let actions = p.on_fetch(Err(0));
    assert_eq!(actions.last(), Some(&Action::Play(vec![4, 5], PLAYBACK_TIMEOUT_MS)));
}
