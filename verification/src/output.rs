use vstd::prelude::*;

verus! {

/// The holder of at most one live connection to the system audio device.
///
/// `connected` records whether a device connection is currently held. The
/// connection itself (a device and stream handle pair) is owned by the
/// host's audio backend; the holder tracks its presence and decides when the
/// backend must reopen it. A connection is acquired lazily, replaced
/// wholesale on reinitialization, and never pooled: reopening while a
/// connection is held drops the old one. A failed reopening leaves the
/// holder exactly as it was.
#[derive(Clone, Copy, PartialEq, Eq, Structural, Debug)]
pub struct AudioOutput {
    pub connected: bool,
}

/// Where one playback call stands.
///
/// A call attempts playback at most twice (`iter` 0 and 1). At the top of an
/// attempt (`Attempt`), a held connection is asked for a voice, and a missing
/// one sends the call straight to reinitialization. After a refused voice
/// (`Reopen`) the device is reinitialized. After the second
/// reinitialization, whatever its outcome, the call is `Finished`.
#[derive(Clone, Copy, PartialEq, Eq, Structural, Debug)]
pub enum PlayPhase {
    Attempt { iter: u8 },
    Reopen { iter: u8 },
    Finished { played: bool },
}

/// What the adapter asks the backend to do next within one playback call.
#[derive(Clone, Copy, PartialEq, Eq, Structural, Debug)]
pub enum PlayAction {
    /// Try to start one playback voice on the current connection and hand it
    /// the decoded asset; the voice is detached on success (fire and forget).
    CreateVoice,
    /// Try to open the default output device anew.
    OpenDevice,
    /// The call is over: the asset was played, or it is given up silently.
    Done { played: bool },
}

/// One playback call for one decoded asset, step by step.
///
/// `voices` counts the playback voices started during this call: 0 until the
/// backend accepts a voice, 1 afterwards, and the call ends right there.
#[derive(Clone, Copy, PartialEq, Eq, Structural, Debug)]
pub struct PlaySession {
    pub phase: PlayPhase,
    pub voices: u8,
}

impl PlaySession {
    /// Well-formedness: attempts are numbered 0 or 1, and a voice has been
    /// started exactly when the call has finished played.
    pub open spec fn wf(self) -> bool {
        &&& match self.phase {
            PlayPhase::Attempt { iter } => iter <= 1,
            PlayPhase::Reopen { iter } => iter <= 1,
            PlayPhase::Finished { .. } => true,
        }
        &&& self.voices == (if self.phase matches PlayPhase::Finished { played } && played {
            1u8
        } else {
            0u8
        })
    }
}

/// The state of a freshly begun playback call: at the top of attempt 0, no
/// voice started.
pub open spec fn spec_begin() -> PlaySession {
    PlaySession { phase: PlayPhase::Attempt { iter: 0 }, voices: 0 }
}

/// Which attempt a session stands in.
pub open spec fn spec_iter(session: PlaySession) -> u8 {
    match session.phase {
        PlayPhase::Attempt { iter } => iter,
        PlayPhase::Reopen { iter } => iter,
        PlayPhase::Finished { .. } => 0,
    }
}

/// The next backend action of a playback call: a held connection is asked
/// for a voice at the top of an attempt; otherwise the device is reopened;
/// a finished call asks for nothing more.
pub open spec fn spec_next_action(output: AudioOutput, session: PlaySession) -> PlayAction {
    match session.phase {
        PlayPhase::Attempt { .. } => if output.connected {
            PlayAction::CreateVoice
        } else {
            PlayAction::OpenDevice
        },
        PlayPhase::Reopen { .. } => PlayAction::OpenDevice,
        PlayPhase::Finished { played } => PlayAction::Done { played },
    }
}

/// How a voice-creation outcome advances a call: an accepted voice finishes
/// the call played and is counted; a refused one sends the same attempt to
/// reinitialization. The connection is untouched either way.
pub open spec fn spec_voice_result(
    output: AudioOutput,
    session: PlaySession,
    created: bool,
) -> (AudioOutput, PlaySession) {
    if created {
        (
            output,
            PlaySession {
                phase: PlayPhase::Finished { played: true },
                voices: (session.voices + 1) as u8,
            },
        )
    } else {
        (
            output,
            PlaySession { phase: PlayPhase::Reopen { iter: spec_iter(session) }, voices: session.voices },
        )
    }
}

/// How a device-opening outcome advances a call: a fresh connection replaces
/// any held one on success, and the holder is left as it was on failure.
/// After attempt 0 the call retries once; after attempt 1 it finishes
/// unplayed.
pub open spec fn spec_device_result(
    output: AudioOutput,
    session: PlaySession,
    opened: bool,
) -> (AudioOutput, PlaySession) {
    (
        AudioOutput { connected: opened || output.connected },
        PlaySession {
            phase: if spec_iter(session) == 0 {
                PlayPhase::Attempt { iter: 1 }
            } else {
                PlayPhase::Finished { played: false }
            },
            voices: session.voices,
        },
    )
}

impl Default for AudioOutput {
    /// A fresh holder: no device connection yet; one is acquired lazily on
    /// the first playback call.
    fn default() -> (output: Self)
        ensures
            !output.connected,
    {
        AudioOutput { connected: false }
    }
}

impl AudioOutput {
    /// Begin one playback call for one decoded asset.
    pub fn begin_play(&self) -> (session: PlaySession)
        ensures
            session == spec_begin(),
            session.wf(),
    {
        PlaySession { phase: PlayPhase::Attempt { iter: 0 }, voices: 0 }
    }

    /// What the backend should be asked next for this call.
    pub fn next_action(&self, session: &PlaySession) -> (action: PlayAction)
        ensures
            action == spec_next_action(*self, *session),
    {
        match session.phase {
            PlayPhase::Attempt { .. } => if self.connected {
                PlayAction::CreateVoice
            } else {
                PlayAction::OpenDevice
            },
            PlayPhase::Reopen { .. } => PlayAction::OpenDevice,
            PlayPhase::Finished { played } => PlayAction::Done { played },
        }
    }

    /// Record the backend's answer to a requested voice creation.
    pub fn voice_result(&mut self, session: &mut PlaySession, created: bool)
        requires
            old(session).wf(),
            spec_next_action(*old(self), *old(session)) is CreateVoice,
        ensures
            (*final(self), *final(session)) == spec_voice_result(
                *old(self),
                *old(session),
                created,
            ),
            final(session).wf(),
    {
        if created {
            session.voices = session.voices + 1;
            session.phase = PlayPhase::Finished { played: true };
        } else {
            let iter = match session.phase {
                PlayPhase::Attempt { iter } => iter,
                PlayPhase::Reopen { iter } => iter,
                PlayPhase::Finished { .. } => 0,
            };
            session.phase = PlayPhase::Reopen { iter };
        }
    }

    /// Record the backend's answer to a requested device (re)opening.
    pub fn device_result(&mut self, session: &mut PlaySession, opened: bool)
        requires
            old(session).wf(),
            spec_next_action(*old(self), *old(session)) is OpenDevice,
        ensures
            (*final(self), *final(session)) == spec_device_result(
                *old(self),
                *old(session),
                opened,
            ),
            final(session).wf(),
    {
        if opened {
            self.connected = true;
        }
        let iter = match session.phase {
            PlayPhase::Attempt { iter } => iter,
            PlayPhase::Reopen { iter } => iter,
            PlayPhase::Finished { .. } => 0,
        };
        session.phase = if iter == 0 {
            PlayPhase::Attempt { iter: 1 }
        } else {
            PlayPhase::Finished { played: false }
        };
    }
}

/// Law: one playback call starts at most one voice, and it starts exactly
/// one precisely when it finishes played; a call that finishes unplayed
/// started none.
pub proof fn lemma_one_voice_iff_played(session: PlaySession)
    requires
        session.wf(),
    ensures
        session.voices <= 1,
        session.phase matches PlayPhase::Finished { played } ==> (played <==> session.voices
            == 1),
{
}

/// Law: when no connection is held at the start of a playback call, the
/// call's first action reinitializes the device, and when that succeeds the
/// voice attempt proceeds on the retry within the same call; an accepted
/// voice then finishes the call played, with exactly one voice started.
pub proof fn lemma_reinit_recovers(output: AudioOutput)
    requires
        !output.connected,
    ensures
        ({
            let s0 = spec_begin();
            let (o1, s1) = spec_device_result(output, s0, true);
            let (o2, s2) = spec_voice_result(o1, s1, true);
            &&& spec_next_action(output, s0) == PlayAction::OpenDevice
            &&& o1.connected
            &&& spec_next_action(o1, s1) == PlayAction::CreateVoice
            &&& s2.phase == (PlayPhase::Finished { played: true })
            &&& s2.voices == 1
        }),
{
}

/// Law: when no connection is held and device opening fails on both
/// attempts of one playback call, no voice attempt is ever made: the call
/// gives up silently, no voice started, the holder still empty, and no
/// error surfaces (the call merely finishes unplayed).
pub proof fn lemma_device_failure_twice_gives_up(output: AudioOutput)
    requires
        !output.connected,
    ensures
        ({
            let s0 = spec_begin();
            let (o1, s1) = spec_device_result(output, s0, false);
            let (o2, s2) = spec_device_result(o1, s1, false);
            &&& spec_next_action(output, s0) == PlayAction::OpenDevice
            &&& spec_next_action(o1, s1) == PlayAction::OpenDevice
            &&& spec_next_action(o2, s2) == (PlayAction::Done { played: false })
            &&& s2.voices == 0
            &&& !o2.connected
        }),
{
}

/// Law: with a connection held but a backend that refuses every voice and
/// every reopening, one playback call makes exactly two voice attempts and
/// two reinitialization attempts, in alternation, then gives up with no
/// voice started. The stale connection is kept optimistically throughout.
pub proof fn lemma_all_attempts_fail_gives_up(output: AudioOutput)
    requires
        output.connected,
    ensures
        ({
            let s0 = spec_begin();
            let (o1, s1) = spec_voice_result(output, s0, false);
            let (o2, s2) = spec_device_result(o1, s1, false);
            let (o3, s3) = spec_voice_result(o2, s2, false);
            let (o4, s4) = spec_device_result(o3, s3, false);
            &&& spec_next_action(output, s0) == PlayAction::CreateVoice
            &&& spec_next_action(o1, s1) == PlayAction::OpenDevice
            &&& spec_next_action(o2, s2) == PlayAction::CreateVoice
            &&& spec_next_action(o3, s3) == PlayAction::OpenDevice
            &&& spec_next_action(o4, s4) == (PlayAction::Done { played: false })
            &&& s4.voices == 0
            &&& o4.connected
        }),
{
}

/// Law: a playback call attempts at most twice. The reinitialization that
/// closes attempt 1 ends the call, whatever its outcome and whatever the
/// backend answered before.
pub proof fn lemma_second_reinit_ends_call(
    output: AudioOutput,
    session: PlaySession,
    opened: bool,
)
    requires
        session.wf(),
        spec_next_action(output, session) is OpenDevice,
        spec_iter(session) == 1,
    ensures
        ({
            let (o1, s1) = spec_device_result(output, session, opened);
            &&& s1.phase == (PlayPhase::Finished { played: false })
            &&& s1.voices == 0
        }),
{
}

} // verus!
