use vstd::prelude::*;
use vstd::string::StrSliceExecFns;
use crate::error::RecordingError;
use crate::options::RecordingOptions;
use crate::text::texts;

verus! {

/// Seconds to wait after the encoders are killed before the chunk directory
/// is listed, so that the last write can settle.
pub const DRAIN_SETTLE_SECS: u64 = 1;

/// Seconds between two polls of a file's size.
pub const STABILITY_POLL_SECS: u64 = 1;

/// Polls in a row that must find the size unchanged.
pub const STABILITY_CHECKS: u8 = 2;

/// Upload attempts granted to one file.
pub const MAX_UPLOAD_ATTEMPTS: u8 = 3;

/// Seconds after which one upload attempt is abandoned.
pub const UPLOAD_TIMEOUT_SECS: u64 = 15;

/// Seconds slept between two attempts.
pub const RETRY_INTERVAL_SECS: u64 = 2;

/// Uploads that a drain runs at the same time.
pub const DRAIN_PERMITS: usize = 8;

/// The options a drain works with: those of the active session.
/// Without them the drain fails before anything is listed.
pub fn drain_options(options: Option<RecordingOptions>) -> (result: Result<
    RecordingOptions,
    RecordingError,
>)
    ensures
        result == match options {
            Some(active) => Ok::<RecordingOptions, RecordingError>(active),
            None => Err::<RecordingOptions, RecordingError>(RecordingError::NoRecordingOptions),
        },
{
    match options {
        Some(active) => Ok(active),
        None => Err(RecordingError::NoRecordingOptions),
    }
}

/// A file name marks a finished chunk when it ends in `.mkv` and has at
/// least one character before that ending.
pub open spec fn chunk_file_name(name: Seq<char>) -> bool {
    &&& name.len() > 4
    &&& name[name.len() - 4] == '.'
    &&& name[name.len() - 3] == 'm'
    &&& name[name.len() - 2] == 'k'
    &&& name[name.len() - 1] == 'v'
}

/// Whether a directory entry's file name is that of a finished chunk.
pub fn is_chunk_file(name: &str) -> (chunk: bool)
    ensures
        chunk == chunk_file_name(name@),
{
    let n: usize = name.unicode_len();
    if n <= 4 {
        return false;
    }
    name.get_char(n - 4) == '.' && name.get_char(n - 3) == 'm' && name.get_char(n - 2) == 'k'
        && name.get_char(n - 1) == 'v'
}

/// The finished chunks among the file names of a directory, in the
/// order of the listing.
pub open spec fn chunk_names(names: Seq<Seq<char>>) -> Seq<Seq<char>>
    decreases names.len(),
{
    if names.len() == 0 {
        names
    } else if chunk_file_name(names.last()) {
        chunk_names(names.drop_last()).push(names.last())
    } else {
        chunk_names(names.drop_last())
    }
}

/// Picks the finished chunks out of a directory listing.
pub fn chunk_files(names: &Vec<String>) -> (chunks: Vec<String>)
    ensures
        texts(chunks@) == chunk_names(texts(names@)),
{
    let mut chunks: Vec<String> = Vec::new();
    let mut i: usize = 0;
    assert(texts(names@).take(0) =~= Seq::<Seq<char>>::empty());
    assert(texts(chunks@) =~= Seq::<Seq<char>>::empty());
    while i < names.len()
        invariant
            i <= names.len(),
            texts(chunks@) == chunk_names(texts(names@).take(i as int)),
        decreases names.len() - i,
    {
        let ghost sofar = texts(chunks@);
        let ghost upto = texts(names@).take(i + 1);
        assert(upto.drop_last() =~= texts(names@).take(i as int));
        assert(upto.last() == names[i as int]@);
        if is_chunk_file(names[i].as_str()) {
            chunks.push(names[i].clone());
            assert(texts(chunks@) =~= sofar.push(names[i as int]@));
        }
        i += 1;
    }
    assert(texts(names@).take(i as int) =~= texts(names@));
    chunks
}

/// The drain takes a name of the listing exactly when it marks a finished
/// chunk, whatever the manifest lists, and takes no name twice that the
/// listing holds once.
pub proof fn lemma_chunk_names(names: Seq<Seq<char>>)
    ensures
        forall|name: Seq<char>|
            (#[trigger] chunk_names(names).contains(name)) <==> names.contains(name)
                && chunk_file_name(name),
        names.no_duplicates() ==> chunk_names(names).no_duplicates(),
        chunk_names(names).len() <= names.len(),
    decreases names.len(),
{
    if names.len() > 0 {
        let front = names.drop_last();
        let last = names.last();
        let picked = chunk_names(front);
        lemma_chunk_names(front);
        assert forall|name: Seq<char>|
            (#[trigger] chunk_names(names).contains(name)) <==> names.contains(name)
                && chunk_file_name(name) by {
            if chunk_names(names).contains(name) {
                let at = choose|i: int|
                    0 <= i < chunk_names(names).len() && chunk_names(names)[i] == name;
                if at < picked.len() {
                    assert(picked[at] == name);
                    assert(picked.contains(name));
                    let from = choose|i: int| 0 <= i < front.len() && front[i] == name;
                    assert(names[from] == name);
                } else {
                    assert(name == last);
                    assert(names[names.len() - 1] == name);
                }
            }
            if names.contains(name) && chunk_file_name(name) {
                let from = choose|i: int| 0 <= i < names.len() && names[i] == name;
                if from < front.len() {
                    assert(front[from] == name);
                    assert(front.contains(name));
                    assert(picked.contains(name));
                    let at = choose|i: int| 0 <= i < picked.len() && picked[i] == name;
                    assert(chunk_names(names)[at] == name);
                } else {
                    assert(chunk_names(names)[picked.len() as int] == name);
                }
            }
        }
        if names.no_duplicates() {
            assert(front.no_duplicates());
            if chunk_file_name(last) && picked.contains(last) {
                let from = choose|i: int| 0 <= i < front.len() && front[i] == last;
                assert(names[from] == names[names.len() - 1]);
            }
        }
    }
}

/// The names uploaded over a whole session of one stream: those that the
/// watcher dispatched live, and those that the drain starts from the
/// listing of the chunk directory at the stop.
pub open spec fn session_uploads(live: Seq<Seq<char>>, listing: Seq<Seq<char>>) -> Set<
    Seq<char>,
> {
    live.to_set() + chunk_names(listing).to_set()
}

/// Where every chunk dispatched live is still in the directory at the stop,
/// the session uploads exactly the finished chunks of the directory: each
/// of them at least once, whether the manifest lists it or not, and
/// nothing else. Their number is that of the chunk files in the listing.
pub proof fn lemma_session_uploads_the_directory(live: Seq<Seq<char>>, listing: Seq<Seq<char>>)
    requires
        listing.no_duplicates(),
        forall|i: int|
            0 <= i < live.len() ==> listing.contains(#[trigger] live[i]) && chunk_file_name(
                live[i],
            ),
    ensures
        forall|name: Seq<char>|
            (#[trigger] session_uploads(live, listing).contains(name)) <==> listing.contains(name)
                && chunk_file_name(name),
        session_uploads(live, listing) == chunk_names(listing).to_set(),
        session_uploads(live, listing).finite(),
        session_uploads(live, listing).len() == chunk_names(listing).len(),
{
    lemma_chunk_names(listing);
    let drained = chunk_names(listing);
    assert forall|name: Seq<char>| live.contains(name) implies drained.contains(name) by {
        let at = choose|i: int| 0 <= i < live.len() && live[i] == name;
        assert(listing.contains(live[at]));
        assert(drained.contains(name));
    }
    assert(session_uploads(live, listing) =~= drained.to_set());
    drained.unique_seq_to_set();
    vstd::seq_lib::seq_to_set_is_finite(drained);
}

/// What the stability wait knows of a file: the size it saw last and how
/// many polls in a row found that size again.
#[derive(Clone, Copy, Debug, PartialEq, Eq, Structural)]
pub struct StabilityState {
    pub last_size: u64,
    pub stable_count: u8,
}

/// What to do after one poll of a file's size.
#[derive(Clone, Copy, Debug, PartialEq, Eq, Structural)]
pub enum StabilityVerdict {
    /// The size held still long enough: upload the file.
    Stable,
    /// Sleep for the poll interval, then poll again.
    PollAgain,
    /// The file is gone or unreadable: abandon it.
    Abandon,
}

/// The state before the first poll: no size was seen, which counts as a
/// size of zero.
pub open spec fn stability_start() -> StabilityState {
    StabilityState { last_size: 0, stable_count: 0 }
}

/// The state after a poll that found `size`.
pub open spec fn stability_step(state: StabilityState, size: u64) -> StabilityState {
    if state.stable_count >= STABILITY_CHECKS {
        state
    } else if state.last_size == size {
        StabilityState { last_size: size, stable_count: (state.stable_count + 1) as u8 }
    } else {
        StabilityState { last_size: size, stable_count: 0 }
    }
}

/// The state after polls that found `sizes`, one after the other.
pub open spec fn stability_after(sizes: Seq<u64>) -> StabilityState
    decreases sizes.len(),
{
    if sizes.len() == 0 {
        stability_start()
    } else {
        stability_step(stability_after(sizes.drop_last()), sizes.last())
    }
}

impl StabilityState {
    /// Whether the file counts as finished.
    pub open spec fn is_stable(self) -> bool {
        self.stable_count >= STABILITY_CHECKS
    }

    pub fn new() -> (state: Self)
        ensures
            state == stability_start(),
    {
        StabilityState { last_size: 0, stable_count: 0 }
    }

    /// Takes in one poll: the file's size, or `None` when the file is gone
    /// or its size cannot be read.
    pub fn observe(&mut self, size: Option<u64>) -> (verdict: StabilityVerdict)
        ensures
            match size {
                None => verdict == StabilityVerdict::Abandon && *final(self) == *old(self),
                Some(found) => {
                    &&& *final(self) == stability_step(*old(self), found)
                    &&& verdict == if final(self).is_stable() {
                        StabilityVerdict::Stable
                    } else {
                        StabilityVerdict::PollAgain
                    }
                },
            },
    {
        match size {
            None => StabilityVerdict::Abandon,
            Some(found) => {
                if self.stable_count < STABILITY_CHECKS {
                    if self.last_size == found {
                        self.stable_count = self.stable_count + 1;
                    } else {
                        self.last_size = found;
                        self.stable_count = 0;
                    }
                }
                if self.stable_count >= STABILITY_CHECKS {
                    StabilityVerdict::Stable
                } else {
                    StabilityVerdict::PollAgain
                }
            },
        }
    }
}

/// Whether every size is larger than the one before it.
pub open spec fn keeps_growing(sizes: Seq<u64>) -> bool {
    forall|i: int| 0 < i < sizes.len() ==> sizes[i - 1] < #[trigger] sizes[i]
}

/// A file whose size grows from each poll to the next never counts as
/// finished, however long it is polled: no prefix of the polls ends stable.
pub proof fn lemma_growing_file_never_stable(sizes: Seq<u64>, polls: int)
    requires
        keeps_growing(sizes),
        0 <= polls <= sizes.len(),
    ensures
        !stability_after(sizes.take(polls)).is_stable(),
        polls > 0 ==> stability_after(sizes.take(polls)).last_size == sizes[polls - 1],
        stability_after(sizes.take(polls)).stable_count <= 1,
    decreases polls,
{
    if polls > 0 {
        lemma_growing_file_never_stable(sizes, polls - 1);
        assert(sizes.take(polls).drop_last() =~= sizes.take(polls - 1));
        assert(sizes.take(polls).last() == sizes[polls - 1]);
        if polls > 1 {
            assert(sizes[polls - 2] < sizes[polls - 1]);
        }
    }
}

/// How one upload attempt ended.
#[derive(Clone, Copy, Debug, PartialEq, Eq, Structural)]
pub enum UploadOutcome {
    /// The object store took the file.
    Success,
    /// The upload reported an error.
    Failed,
    /// The attempt ran into its time limit.
    TimedOut,
}

/// What to do after one upload attempt.
#[derive(Clone, Copy, Debug, PartialEq, Eq, Structural)]
pub enum RetryDecision {
    /// The file is uploaded.
    Done,
    /// Sleep for the retry interval, then try again.
    RetryAfterPause,
    /// Every attempt failed: leave the file behind.
    GiveUp,
}

/// The attempts made so far to upload one file.
#[derive(Clone, Copy, Debug)]
pub struct UploadAttempts {
    made: u8,
    succeeded: bool,
}

/// A record of attempts as plain values: how many were made, and whether
/// the last of them uploaded the file.
pub struct AttemptsView {
    pub made: nat,
    pub succeeded: bool,
}

/// The record after one more attempt ended in `outcome`. A record that is
/// already closed, by a success or by the last attempt, stays as it is.
pub open spec fn attempts_step(record: AttemptsView, outcome: UploadOutcome) -> AttemptsView {
    if record.succeeded || record.made >= MAX_UPLOAD_ATTEMPTS {
        record
    } else {
        AttemptsView { made: record.made + 1, succeeded: outcome == UploadOutcome::Success }
    }
}

/// The record after attempts that ended in `outcomes`, one after the other.
pub open spec fn attempts_after(outcomes: Seq<UploadOutcome>) -> AttemptsView
    decreases outcomes.len(),
{
    if outcomes.len() == 0 {
        AttemptsView { made: 0, succeeded: false }
    } else {
        attempts_step(attempts_after(outcomes.drop_last()), outcomes.last())
    }
}

impl AttemptsView {
    /// At most three attempts, and a success only after an attempt.
    pub open spec fn well_formed(self) -> bool {
        &&& self.made <= MAX_UPLOAD_ATTEMPTS
        &&& self.succeeded ==> self.made >= 1
    }

    /// What follows from a record: done, one more attempt, or no more.
    pub open spec fn decision(self) -> RetryDecision {
        if self.succeeded {
            RetryDecision::Done
        } else if self.made < MAX_UPLOAD_ATTEMPTS {
            RetryDecision::RetryAfterPause
        } else {
            RetryDecision::GiveUp
        }
    }

    /// The pauses that the record asks for: one after each attempt that
    /// failed, but none after the last attempt granted.
    pub open spec fn pauses(self) -> nat {
        if self.succeeded {
            (self.made - 1) as nat
        } else if self.made < MAX_UPLOAD_ATTEMPTS {
            self.made
        } else {
            (MAX_UPLOAD_ATTEMPTS - 1) as nat
        }
    }
}

impl View for UploadAttempts {
    type V = AttemptsView;

    closed spec fn view(&self) -> AttemptsView {
        AttemptsView { made: self.made as nat, succeeded: self.succeeded }
    }
}

impl UploadAttempts {
    #[verifier::type_invariant]
    pub closed spec fn well_formed(&self) -> bool {
        self@.well_formed()
    }

    /// No attempt made yet.
    pub fn new() -> (record: Self)
        ensures
            record@ == attempts_after(Seq::empty()),
    {
        UploadAttempts { made: 0, succeeded: false }
    }

    /// Takes in how one attempt ended and says what to do next.
    pub fn record(&mut self, outcome: UploadOutcome) -> (decision: RetryDecision)
        ensures
            final(self)@ == attempts_step(old(self)@, outcome),
            final(self)@.well_formed(),
            decision == final(self)@.decision(),
    {
        proof {
            use_type_invariant(&*self);
        }
        if !self.succeeded && self.made < MAX_UPLOAD_ATTEMPTS {
            self.made = self.made + 1;
            match outcome {
                UploadOutcome::Success => {
                    self.succeeded = true;
                },
                _ => {},
            }
        }
        if self.succeeded {
            RetryDecision::Done
        } else if self.made < MAX_UPLOAD_ATTEMPTS {
            RetryDecision::RetryAfterPause
        } else {
            RetryDecision::GiveUp
        }
    }

    /// How many attempts were made: never more than three.
    pub fn attempts_made(&self) -> (made: u8)
        ensures
            made == self@.made,
            made <= MAX_UPLOAD_ATTEMPTS,
    {
        proof {
            use_type_invariant(self);
        }
        self.made
    }

    /// Whether the file is uploaded.
    pub fn has_succeeded(&self) -> (succeeded: bool)
        ensures
            succeeded == self@.succeeded,
    {
        self.succeeded
    }

    /// The seconds spent in pauses between attempts, the pause that the
    /// last decision asked for included.
    pub fn paused_secs(&self) -> (secs: u64)
        ensures
            secs == RETRY_INTERVAL_SECS * self@.pauses(),
    {
        proof {
            use_type_invariant(self);
        }
        let pauses: u8 = if self.succeeded {
            self.made - 1
        } else if self.made < MAX_UPLOAD_ATTEMPTS {
            self.made
        } else {
            MAX_UPLOAD_ATTEMPTS - 1
        };
        RETRY_INTERVAL_SECS * (pauses as u64)
    }
}

/// However the attempts end, no more than three are made, a success
/// closes the record, and after three that failed the file is given up.
pub proof fn lemma_attempts_bounded(outcomes: Seq<UploadOutcome>)
    ensures
        attempts_after(outcomes).well_formed(),
        attempts_after(outcomes).made <= outcomes.len(),
        (forall|i: int| 0 <= i < outcomes.len() ==> outcomes[i] != UploadOutcome::Success)
            ==> !attempts_after(outcomes).succeeded && attempts_after(outcomes).made == if outcomes.len()
            < MAX_UPLOAD_ATTEMPTS {
            outcomes.len()
        } else {
            MAX_UPLOAD_ATTEMPTS as nat
        },
    decreases outcomes.len(),
{
    if outcomes.len() > 0 {
        lemma_attempts_bounded(outcomes.drop_last());
    }
}

/// What the drain does next.
#[derive(Debug, PartialEq, Eq)]
pub enum DrainAction {
    /// Start the stability wait and the upload of this file.
    Start(String),
    /// Every permit is taken, or nothing is left to start: wait until one
    /// of the running uploads ends.
    Wait,
    /// Every file was started and every upload has ended.
    Finished,
}

/// The files of one drain and the permits that bound how many of them are
/// uploaded at the same time.
pub struct DrainPlan {
    files: Vec<String>,
    started: usize,
    running: usize,
}

impl DrainPlan {
    /// The files of the drain, in the order in which they are started.
    pub closed spec fn files(&self) -> Seq<String> {
        self.files@
    }

    /// How many files were started so far.
    pub closed spec fn started(&self) -> nat {
        self.started as nat
    }

    /// How many uploads hold a permit now.
    pub closed spec fn running(&self) -> nat {
        self.running as nat
    }

    /// The files handed out for upload so far.
    pub open spec fn handed_out(&self) -> Seq<String> {
        self.files().take(self.started() as int)
    }

    /// The uploads that run never outnumber the permits, nor the files
    /// that were started.
    #[verifier::type_invariant]
    pub open spec fn well_formed(&self) -> bool {
        &&& self.running() <= DRAIN_PERMITS
        &&& self.running() <= self.started()
        &&& self.started() <= self.files().len()
    }

    /// A plan for `files`, none of them started.
    pub fn new(files: Vec<String>) -> (plan: Self)
        ensures
            plan.well_formed(),
            plan.files() == files@,
            plan.started() == 0,
            plan.running() == 0,
    {
        DrainPlan { files, started: 0, running: 0 }
    }

    /// A plan for the finished chunks of a directory listing.
    pub fn for_directory(names: &Vec<String>) -> (plan: Self)
        ensures
            plan.well_formed(),
            texts(plan.files()) == chunk_names(texts(names@)),
            plan.started() == 0,
            plan.running() == 0,
    {
        DrainPlan::new(chunk_files(names))
    }

    pub fn file_count(&self) -> (count: usize)
        ensures
            count == self.files().len(),
    {
        self.files.len()
    }

    pub fn started_count(&self) -> (count: usize)
        ensures
            count == self.started(),
    {
        self.started
    }

    /// How many uploads hold a permit now: never more than there are
    /// permits.
    pub fn running_count(&self) -> (count: usize)
        ensures
            count == self.running(),
            count <= DRAIN_PERMITS,
            self.well_formed(),
    {
        proof {
            use_type_invariant(self);
        }
        self.running
    }

    /// Hands out the next file while a permit is free, asks to wait while
    /// uploads run, and reports the end when nothing runs or is left.
    pub fn next_action(&mut self) -> (action: DrainAction)
        ensures
            final(self).well_formed(),
            final(self).files() == old(self).files(),
            if old(self).started() < old(self).files().len() && old(self).running()
                < DRAIN_PERMITS {
                &&& action == DrainAction::Start(old(self).files()[old(self).started() as int])
                &&& final(self).started() == old(self).started() + 1
                &&& final(self).running() == old(self).running() + 1
            } else {
                &&& final(self).started() == old(self).started()
                &&& final(self).running() == old(self).running()
                &&& action == if old(self).running() > 0 {
                    DrainAction::Wait
                } else {
                    DrainAction::Finished
                }
            },
            action == DrainAction::Finished ==> final(self).started() == final(self).files().len()
                && final(self).running() == 0 && final(self).handed_out() == final(self).files(),
            action matches DrainAction::Start(file) ==> final(self).handed_out() == old(
                self,
            ).handed_out().push(file),
            !(action is Start) ==> final(self).handed_out() == old(self).handed_out(),
            final(self).running() <= DRAIN_PERMITS,
    {
        proof {
            use_type_invariant(&*self);
            assert(self.files@.take(self.files@.len() as int) =~= self.files@);
        }
        if self.started < self.files.len() && self.running < DRAIN_PERMITS {
            let file = self.files[self.started].clone();
            assert(self.files@.take(self.started + 1) =~= self.files@.take(self.started as int).push(
                file,
            ));
            self.started = self.started + 1;
            self.running = self.running + 1;
            DrainAction::Start(file)
        } else if self.running > 0 {
            DrainAction::Wait
        } else {
            DrainAction::Finished
        }
    }

    /// Takes back the permit of an upload that ended, whatever its end.
    /// Returns whether an upload was running at all.
    pub fn upload_ended(&mut self) -> (released: bool)
        ensures
            final(self).well_formed(),
            final(self).files() == old(self).files(),
            final(self).started() == old(self).started(),
            released == (old(self).running() > 0),
            final(self).running() == if released {
                old(self).running() - 1
            } else {
                0
            },
    {
        proof {
            use_type_invariant(&*self);
        }
        if self.running > 0 {
            self.running = self.running - 1;
            true
        } else {
            false
        }
    }
}

} // verus!
