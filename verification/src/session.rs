use vstd::prelude::*;
use crate::args::{construct_recording_args, recording_args};
use crate::drain::{chunk_file_name, chunk_names, lemma_session_uploads_the_directory, session_uploads};
use crate::error::RecordingError;
use crate::options::{platform_of, RecordingOptions, StreamKind};
use crate::text::texts;
use crate::watcher::{lemma_live_phase_dispatches_exactly_once, live_log};

verus! {

/// Where a recording session stands.
#[derive(Clone, Copy, Debug, PartialEq, Eq, Structural)]
pub enum SessionPhase {
    /// Nothing is recorded; a start is accepted.
    Idle,
    /// Both encoders and both watchers run; a stop is accepted.
    Recording,
    /// The shutdown flag is set and the drain is under way.
    Stopping,
}

/// The part of a session that decides what `start` and `stop` may do: the
/// phase, the active options and the shutdown flag.
pub struct RecordingState {
    phase: SessionPhase,
    options: Option<RecordingOptions>,
    shutdown: bool,
}

impl RecordingState {
    pub closed spec fn phase(&self) -> SessionPhase {
        self.phase
    }

    /// The options of the session that is active, if one is.
    pub closed spec fn options(&self) -> Option<RecordingOptions> {
        self.options
    }

    /// Whether the watchers were told to leave their loops.
    pub closed spec fn shutdown(&self) -> bool {
        self.shutdown
    }

    /// Options are held exactly while a session is active. The shutdown
    /// flag is clear while the session records and set while it stops; an
    /// idle session keeps the flag as the last stop left it.
    #[verifier::type_invariant]
    pub open spec fn well_formed(&self) -> bool {
        &&& (self.phase() == SessionPhase::Idle) == (self.options() is None)
        &&& self.phase() == SessionPhase::Recording ==> !self.shutdown()
        &&& self.phase() == SessionPhase::Stopping ==> self.shutdown()
    }

    /// An idle session.
    pub fn new() -> (session: Self)
        ensures
            session.well_formed(),
            session.phase() == SessionPhase::Idle,
            session.options() is None,
            !session.shutdown(),
    {
        RecordingState { phase: SessionPhase::Idle, options: None, shutdown: false }
    }

    pub fn current_phase(&self) -> (phase: SessionPhase)
        ensures
            phase == self.phase(),
            self.well_formed(),
    {
        proof {
            use_type_invariant(self);
        }
        self.phase
    }

    pub fn active_options(&self) -> (options: &Option<RecordingOptions>)
        ensures
            *options == self.options(),
    {
        &self.options
    }

    pub fn shutdown_requested(&self) -> (requested: bool)
        ensures
            requested == self.shutdown(),
    {
        self.shutdown
    }

    /// Enters the recording phase with `options` and a fresh, clear
    /// shutdown flag, once both encoders run. Accepted from the idle phase
    /// only; refused otherwise, with the session left as it was.
    pub fn begin_recording(&mut self, options: RecordingOptions) -> (result: Result<(), RecordingError>)
        ensures
            final(self).well_formed(),
            old(self).phase() == SessionPhase::Idle ==> {
                &&& result is Ok
                &&& final(self).phase() == SessionPhase::Recording
                &&& final(self).options() == Some(options)
                &&& !final(self).shutdown()
            },
            old(self).phase() != SessionPhase::Idle ==> {
                &&& result == Err::<(), RecordingError>(RecordingError::SessionActive)
                &&& *final(self) == *old(self)
            },
    {
        proof {
            use_type_invariant(&*self);
        }
        match self.phase {
            SessionPhase::Idle => {
                *self = RecordingState {
                    phase: SessionPhase::Recording,
                    options: Some(options),
                    shutdown: false,
                };
                Ok(())
            },
            _ => Err(RecordingError::SessionActive),
        }
    }

    /// Ends a stop: drops the options and returns the session to the idle
    /// phase. The shutdown flag stays set; only the next start clears it.
    /// Outside the stopping phase nothing changes. Returns whether a stop
    /// was ended.
    pub fn finish_stop(&mut self) -> (ended: bool)
        ensures
            final(self).well_formed(),
            ended == (old(self).phase() == SessionPhase::Stopping),
            final(self).shutdown() == old(self).shutdown(),
            ended ==> {
                &&& final(self).phase() == SessionPhase::Idle
                &&& final(self).options() is None
                &&& final(self).shutdown()
            },
            !ended ==> *final(self) == *old(self),
    {
        proof {
            use_type_invariant(&*self);
        }
        match self.phase {
            SessionPhase::Stopping => {
                *self = RecordingState { phase: SessionPhase::Idle, options: None, shutdown: true };
                true
            },
            _ => false,
        }
    }
}

/// The argument lists of the two encoders of a session.
#[derive(Debug, PartialEq, Eq)]
pub struct EncoderPlan {
    pub screen_args: Vec<String>,
    pub video_args: Vec<String>,
}

/// Prepares a start: checks that the session is idle and builds the
/// argument list of each encoder for the platform that `os` names, the
/// screen encoder on the screen source and the camera encoder on the video
/// source of `options`. The session is left as it is; it enters the
/// recording phase by `begin_recording`, once both encoders run.
pub fn start_dual_recording(
    state: &RecordingState,
    options: &RecordingOptions,
    screen_chunks_dir: &str,
    video_chunks_dir: &str,
    os: &str,
) -> (result: Result<EncoderPlan, RecordingError>)
    ensures
        state.phase() != SessionPhase::Idle ==> result == Err::<EncoderPlan, RecordingError>(
            RecordingError::SessionActive,
        ),
        state.phase() == SessionPhase::Idle && platform_of(os@) is None ==> result == Err::<
            EncoderPlan,
            RecordingError,
        >(RecordingError::UnsupportedPlatform),
        state.phase() == SessionPhase::Idle && platform_of(os@) is Some ==> {
            &&& result is Ok
            &&& texts(result->Ok_0.screen_args@) == recording_args(
                platform_of(os@)->Some_0,
                StreamKind::Screen,
                options.framerate@,
                options.resolution@,
                screen_chunks_dir@,
                options.screen_index@,
            )
            &&& texts(result->Ok_0.video_args@) == recording_args(
                platform_of(os@)->Some_0,
                StreamKind::Video,
                options.framerate@,
                options.resolution@,
                video_chunks_dir@,
                options.video_index@,
            )
        },
{
    match state.phase {
        SessionPhase::Idle => {},
        _ => {
            return Err(RecordingError::SessionActive);
        },
    }
    let screen_args = match construct_recording_args(
        options,
        screen_chunks_dir,
        StreamKind::Screen,
        options.screen_index.as_str(),
        os,
    ) {
        Ok(list) => list,
        Err(refused) => {
            return Err(refused);
        },
    };
    let video_args = match construct_recording_args(
        options,
        video_chunks_dir,
        StreamKind::Video,
        options.video_index.as_str(),
        os,
    ) {
        Ok(list) => list,
        Err(refused) => {
            return Err(refused);
        },
    };
    Ok(EncoderPlan { screen_args, video_args })
}

/// Stops a session. The shutdown flag is set first, whatever the session
/// holds, and a stop never clears it. Then the options of the drain are
/// looked up: without active options (a stop without a start) the stop
/// fails, and it is refused while an earlier stop is under way; in both
/// cases phase and options stay as they were. Otherwise the session enters
/// the stopping phase and the drain gets a copy of the active options.
pub fn stop_all_recordings(state: &mut RecordingState) -> (result: Result<
    RecordingOptions,
    RecordingError,
>)
    ensures
        final(state).well_formed(),
        final(state).shutdown(),
        final(state).options() == old(state).options(),
        old(state).options() is None ==> {
            &&& result == Err::<RecordingOptions, RecordingError>(
                RecordingError::NoRecordingOptions,
            )
            &&& final(state).phase() == old(state).phase()
        },
        old(state).options() is Some && old(state).phase() == SessionPhase::Stopping ==> {
            &&& result == Err::<RecordingOptions, RecordingError>(
                RecordingError::StopInProgress,
            )
            &&& *final(state) == *old(state)
        },
        old(state).options() is Some && old(state).phase() != SessionPhase::Stopping ==> {
            &&& result == Ok::<RecordingOptions, RecordingError>(old(state).options()->Some_0)
            &&& final(state).phase() == SessionPhase::Stopping
        },
{
    proof {
        use_type_invariant(&*state);
    }
    let copy = match &state.options {
        None => {
            *state = RecordingState { phase: SessionPhase::Idle, options: None, shutdown: true };
            return Err(RecordingError::NoRecordingOptions);
        },
        Some(active) => active.clone(),
    };
    match state.phase {
        SessionPhase::Stopping => Err(RecordingError::StopInProgress),
        _ => {
            *state = RecordingState {
                phase: SessionPhase::Stopping,
                options: Some(copy.clone()),
                shutdown: true,
            };
            Ok(copy)
        },
    }
}

/// One stream over a whole session, from the start to the end of the
/// stop: the watcher runs any number of polls, then the drain works through
/// the listing of the chunk directory. Where every chunk that a poll found
/// on disk is a finished chunk still in the directory at the stop, each
/// finished chunk of the directory is uploaded, by the watcher or by the
/// drain, whether the manifest ever listed it or not; nothing else is
/// uploaded; no chunk is dispatched twice by the watcher; and the number of
/// distinct names uploaded is the number of chunk files in the directory.
pub proof fn lemma_stop_uploads_every_chunk(
    polls: Seq<Seq<(Seq<char>, bool)>>,
    listing: Seq<Seq<char>>,
)
    requires
        listing.no_duplicates(),
        forall|p: int, i: int|
            0 <= p < polls.len() && 0 <= i < polls[p].len() && (#[trigger] polls[p][i]).1
                ==> listing.contains(polls[p][i].0) && chunk_file_name(polls[p][i].0),
    ensures
        live_log(Seq::empty(), polls).no_duplicates(),
        forall|name: Seq<char>|
            (#[trigger] session_uploads(live_log(Seq::empty(), polls), listing).contains(name))
                <==> listing.contains(name) && chunk_file_name(name),
        session_uploads(live_log(Seq::empty(), polls), listing).finite(),
        session_uploads(live_log(Seq::empty(), polls), listing).len() == chunk_names(
            listing,
        ).len(),
{
    let live = live_log(Seq::empty(), polls);
    lemma_live_phase_dispatches_exactly_once(polls);
    assert forall|k: int| 0 <= k < live.len() implies listing.contains(#[trigger] live[k])
        && chunk_file_name(live[k]) by {
        let (p, i) = choose|p: int, i: int|
            0 <= p < polls.len() && 0 <= i < polls[p].len() && polls[p][i].1 && #[trigger] live[k]
                == #[trigger] polls[p][i].0;
        assert(polls[p][i].1);
    }
    lemma_session_uploads_the_directory(live, listing);
}

} // verus!
