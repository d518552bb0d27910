use audio_output::output::{AudioOutput, PlayAction};
use audio_output::queue::{Audio, HandleId};
use audio_output::store::AssetStore;

#[test]
fn connection_starts_absent() {
    let output = AudioOutput::default();
    assert!(!output.connected);
}

#[test]
fn absent_device_recovered_within_one_call() {
    // The connection starts absent; the first playback attempt triggers a
    // device opening, and since it succeeds, playback proceeds on the retry
    // within the same call.
    let mut output = AudioOutput::default();
    let mut session = output.begin_play();

    assert!(matches!(output.next_action(&session), PlayAction::OpenDevice));
    output.device_result(&mut session, true);
    assert!(output.connected);

    assert!(matches!(output.next_action(&session), PlayAction::CreateVoice));
    output.voice_result(&mut session, true);

    assert!(matches!(
        output.next_action(&session),
        PlayAction::Done { played: true }
    ));
    assert_eq!(session.voices, 1);
}

#[test]
fn device_failure_twice_discards_silently() {
    // The connection is absent and both device openings within one playback
    // call fail: the asset is silently discarded, no voice attempted.
    let mut output = AudioOutput::default();
    let mut session = output.begin_play();

    assert!(matches!(output.next_action(&session), PlayAction::OpenDevice));
    output.device_result(&mut session, false);

    assert!(matches!(output.next_action(&session), PlayAction::OpenDevice));
    output.device_result(&mut session, false);

    assert!(matches!(
        output.next_action(&session),
        PlayAction::Done { played: false }
    ));
    assert_eq!(session.voices, 0);
    assert!(!output.connected);
}

#[test]
fn stale_connection_makes_two_voice_attempts() {
    // A connection is held but the backend refuses every voice and every
    // reopening: two voice attempts alternate with two reinitializations,
    // then the call gives up; the stale connection is kept optimistically.
    let mut output = AudioOutput { connected: true };
    let mut session = output.begin_play();

    assert!(matches!(output.next_action(&session), PlayAction::CreateVoice));
    output.voice_result(&mut session, false);

    assert!(matches!(output.next_action(&session), PlayAction::OpenDevice));
    output.device_result(&mut session, false);

    assert!(matches!(output.next_action(&session), PlayAction::CreateVoice));
    output.voice_result(&mut session, false);

    assert!(matches!(output.next_action(&session), PlayAction::OpenDevice));
    output.device_result(&mut session, false);

    assert!(matches!(
        output.next_action(&session),
        PlayAction::Done { played: false }
    ));
    assert_eq!(session.voices, 0);
    assert!(output.connected);
}

#[test]
fn refused_voice_recovered_by_reinit() {
    // The first voice is refused, reinitialization succeeds, and the retry
    // plays: exactly one voice is created in the whole call.
    let mut output = AudioOutput { connected: true };
    let mut session = output.begin_play();

    assert!(matches!(output.next_action(&session), PlayAction::CreateVoice));
    output.voice_result(&mut session, false);

    assert!(matches!(output.next_action(&session), PlayAction::OpenDevice));
    output.device_result(&mut session, true);
    assert!(output.connected);

    assert!(matches!(output.next_action(&session), PlayAction::CreateVoice));
    output.voice_result(&mut session, true);

    assert!(matches!(
        output.next_action(&session),
        PlayAction::Done { played: true }
    ));
    assert_eq!(session.voices, 1);
}

#[test]
fn successful_open_replaces_connection() {
    // A reopening that succeeds replaces the held connection wholesale; a
    // failed one leaves the holder as it was.
    let mut output = AudioOutput { connected: true };
    let mut session = output.begin_play();
    output.voice_result(&mut session, false);
    output.device_result(&mut session, false);
    assert!(output.connected);
    output.voice_result(&mut session, false);
    output.device_result(&mut session, true);
    assert!(output.connected);
}

#[test]
fn enqueue_keeps_arrival_order() {
    let mut audio = Audio::new();
    assert_eq!(audio.len(), 0);
    audio.enqueue(HandleId(1));
    audio.enqueue(HandleId(2));
    assert_eq!(audio.len(), 2);
    assert_eq!(audio.queue, vec![HandleId(1), HandleId(2)]);
}

#[test]
fn store_reports_only_marked_assets() {
    let mut store = AssetStore::new();
    assert!(!store.contains(HandleId(5)));
    store.mark_loaded(HandleId(5));
    assert!(store.contains(HandleId(5)));
    assert!(!store.contains(HandleId(6)));
}
