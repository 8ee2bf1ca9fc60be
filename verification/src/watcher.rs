//! The decisions of the change watcher: which of the events that the
//! operating system reports about the data directory become a notification.
//!
//! Three guards stand in a fixed order before a notification. Names that end
//! in `.tmp` are this crate's own writes in flight and never count. While
//! the watcher is paused nothing is reported and nothing is remembered.
//! And of the events for one file within one debounce window only the first
//! is reported.

use std::collections::HashSet;
use vstd::prelude::*;
use vstd::string::*;
use crate::kind::{classified_file, classify_file, WatchedFile, TEMP_SUFFIX};
use crate::pause::WatcherState;
use crate::text::{ends_with, has_suffix};

verus! {

broadcast use vstd::std_specs::hash::group_hash_axioms;

/// Length of a debounce window, in seconds.
pub const DEBOUNCE_WINDOW_SECS: u64 = 2;

/// How many reported changes the watcher remembers at most.
pub const RECENT_LIMIT: usize = 100;

/// How a rename was seen.
#[derive(Debug, Clone, Copy, PartialEq, Eq, Structural)]
pub enum RenameMode {
    Any,
    /// The path is where the file arrived.
    To,
    /// The path is where the file left.
    From,
    /// Both paths are given, the old one first.
    Both,
    Other,
}

/// What was modified.
#[derive(Debug, Clone, Copy, PartialEq, Eq, Structural)]
pub enum ModifyKind {
    Any,
    Data,
    Metadata,
    Name(RenameMode),
    Other,
}

/// What the operating system reported.
#[derive(Debug, Clone, Copy, PartialEq, Eq, Structural)]
pub enum WatchEventKind {
    Any,
    Access,
    Create,
    Modify(ModifyKind),
    Remove,
    Other,
}

/// One report of the operating system about the data directory.
#[derive(Debug, Clone, PartialEq, Eq)]
pub struct WatchEvent {
    pub kind: WatchEventKind,
    /// The file name, without its directory, of each path that the event touched.
    pub file_names: Vec<String>,
    /// When the event was received, in seconds since the Unix epoch.
    pub observed_at: u64,
}

impl WatchEventKind {
    /// Whether the event may have put new content under a name: a creation,
    /// or a modification other than one of metadata alone or a rename away.
    pub open spec fn spec_is_write(self) -> bool {
        ||| self is Create
        ||| self matches WatchEventKind::Modify(what) && what != ModifyKind::Metadata && what
            != ModifyKind::Name(RenameMode::From)
    }

    /// Whether the event may have put new content under a name.
    pub fn is_write(&self) -> (res: bool)
        ensures
            res == self.spec_is_write(),
    {
        match self {
            WatchEventKind::Create => true,
            WatchEventKind::Modify(ModifyKind::Metadata) => false,
            WatchEventKind::Modify(ModifyKind::Name(RenameMode::From)) => false,
            WatchEventKind::Modify(_) => true,
            _ => false,
        }
    }
}

/// The debounce window that a moment falls into.
pub open spec fn window_of(observed_at: u64) -> u64 {
    observed_at / DEBOUNCE_WINDOW_SECS
}

/// The number under which a reported change is remembered: one for each
/// watched file and window.
pub open spec fn dedup_key(file: WatchedFile, window: u64) -> u128 {
    (window * 4 + file.spec_index()) as u128
}

/// The file that an event of this kind on this name is about, if it is about
/// one: the event is a write, the name is no temporary name, and it is the
/// name of a watched file.
pub open spec fn candidate_file(kind: WatchEventKind, file_name: Seq<char>) -> Option<WatchedFile> {
    if !kind.spec_is_write() || has_suffix(file_name, TEMP_SUFFIX@) {
        None
    } else {
        classified_file(file_name)
    }
}

/// What is remembered once a change has been reported. A full memory is
/// emptied instead of growing.
pub open spec fn remembered(recent: Set<u128>, key: u128) -> Set<u128> {
    if recent.len() >= RECENT_LIMIT {
        Set::empty()
    } else {
        recent.insert(key)
    }
}

/// What the watcher does with one name of an event: what it remembers
/// afterwards, and the file whose change it reports, if any.
pub open spec fn observe_file(
    recent: Set<u128>,
    kind: WatchEventKind,
    file_name: Seq<char>,
    paused: bool,
    observed_at: u64,
) -> (Set<u128>, Option<WatchedFile>) {
    match candidate_file(kind, file_name) {
        None => (recent, None),
        Some(file) => {
            let key = dedup_key(file, window_of(observed_at));
            if paused || recent.contains(key) {
                (recent, None)
            } else {
                (remembered(recent, key), Some(file))
            }
        },
    }
}

/// One name of one event, as it reaches the watcher.
pub ghost struct Observation {
    pub kind: WatchEventKind,
    pub file_name: Seq<char>,
    /// What the pause flag showed when it was consulted for this name.
    pub paused: bool,
    pub observed_at: u64,
}

/// What the watcher does with a run of observations, one after the other:
/// what it remembers afterwards, and the files whose change it reports, in order.
pub open spec fn observe_all(recent: Set<u128>, observations: Seq<Observation>) -> (
    Set<u128>,
    Seq<WatchedFile>,
)
    decreases observations.len(),
{
    if observations.len() == 0 {
        (recent, Seq::empty())
    } else {
        let (before, reported) = observe_all(recent, observations.drop_last());
        let last = observations.last();
        let (after, file) = observe_file(
            before,
            last.kind,
            last.file_name,
            last.paused,
            last.observed_at,
        );
        match file {
            Some(file) => (after, reported.push(file)),
            None => (after, reported),
        }
    }
}

/// The observations that one event makes, where `readings[i]` is what the
/// pause flag showed for the `i`-th name.
pub open spec fn observations_of(
    kind: WatchEventKind,
    file_names: Seq<Seq<char>>,
    readings: Seq<bool>,
    observed_at: u64,
) -> Seq<Observation> {
    Seq::new(
        file_names.len(),
        |i: int|
            Observation { kind, file_name: file_names[i], paused: readings[i], observed_at },
    )
}

/// A memory that the watcher can be in: finite and within its limit.
pub open spec fn recent_valid(recent: Set<u128>) -> bool {
    recent.finite() && recent.len() <= RECENT_LIMIT
}

/// The names of an event as the specifications see them.
pub open spec fn names_view(file_names: Seq<String>) -> Seq<Seq<char>> {
    file_names.map_values(|name: String| name@)
}

/// The watcher's memory of what it reported lately.
pub struct Watcher {
    recent: HashSet<u128>,
}

impl View for Watcher {
    type V = Set<u128>;

    closed spec fn view(&self) -> Set<u128> {
        self.recent@
    }
}

impl Watcher {
    #[verifier::type_invariant]
    spec fn bounded(self) -> bool {
        recent_valid(self.recent@)
    }

    /// A watcher that remembers nothing.
    pub fn new() -> (watcher: Watcher)
        ensures
            watcher@ == Set::<u128>::empty(),
    {
        Watcher { recent: HashSet::new() }
    }

    /// How many reported changes are remembered.
    pub fn remembered_len(&self) -> (len: usize)
        ensures
            len == self@.len(),
            recent_valid(self@),
    {
        proof {
            use_type_invariant(self);
        }
        self.recent.len()
    }

    /// Whether a change of this file was reported in the window of this moment.
    pub fn has_reported(&self, file: WatchedFile, observed_at: u64) -> (res: bool)
        ensures
            res == self@.contains(dedup_key(file, window_of(observed_at))),
    {
        let key = key_of(file, observed_at);
        self.recent.contains(&key)
    }

    /// Takes one name of an event, with what the pause flag showed for it,
    /// and says whether a change is to be reported, and of which file.
    pub fn observe(
        &mut self,
        kind: WatchEventKind,
        file_name: &str,
        paused: bool,
        observed_at: u64,
    ) -> (res: Option<WatchedFile>)
        ensures
            (final(self)@, res) == observe_file(old(self)@, kind, file_name@, paused, observed_at),
            recent_valid(final(self)@),
    {
        proof {
            use_type_invariant(&*self);
        }
        match candidate(kind, file_name) {
            None => None,
            Some(file) => {
                if paused {
                    None
                } else {
                    self.debounce(file, observed_at)
                }
            },
        }
    }

    /// The debounce guard: reports the file unless it was reported in this
    /// window already, and remembers that it was.
    fn debounce(&mut self, file: WatchedFile, observed_at: u64) -> (res: Option<WatchedFile>)
        ensures
            recent_valid(final(self)@),
            ({
                let key = dedup_key(file, window_of(observed_at));
                if old(self)@.contains(key) {
                    final(self)@ == old(self)@ && res is None
                } else {
                    final(self)@ == remembered(old(self)@, key) && res == Some(file)
                }
            }),
    {
        proof {
            use_type_invariant(&*self);
        }
        let key = key_of(file, observed_at);
        if self.recent.contains(&key) {
            return None;
        }
        let mut taken = Watcher::new();
        core::mem::swap(self, &mut taken);
        let mut recent = taken.recent;
        if recent.len() >= RECENT_LIMIT {
            recent.clear();
        } else {
            recent.insert(key);
        }
        *self = Watcher { recent };
        Some(file)
    }

    /// Takes an event and says which changes are to be reported, in the
    /// order of the event's names. The pause flag is consulted once for each
    /// name that passed the guards before it.
    pub fn handle_event(&mut self, state: &WatcherState, event: &WatchEvent) -> (reported: Vec<
        WatchedFile,
    >)
        ensures
            recent_valid(final(self)@),
            exists|readings: Seq<bool>|
                readings.len() == event.file_names.len() && (final(self)@, reported@)
                    == observe_all(
                    old(self)@,
                    #[trigger] observations_of(
                        event.kind,
                        names_view(event.file_names@),
                        readings,
                        event.observed_at,
                    ),
                ),
    {
        proof {
            use_type_invariant(&*self);
        }
        let mut reported: Vec<WatchedFile> = Vec::new();
        let ghost mut readings: Seq<bool> = Seq::empty();
        let ghost names = names_view(event.file_names@);
        let ghost start = self@;
        let mut i: usize = 0;
        while i < event.file_names.len()
            invariant
                i <= event.file_names.len(),
                names == names_view(event.file_names@),
                readings.len() == i,
                recent_valid(self@),
                (self@, reported@) == observe_all(
                    start,
                    observations_of(event.kind, names.take(i as int), readings, event.observed_at),
                ),
            decreases event.file_names.len() - i,
        {
            let file_name = event.file_names[i].as_str();
            let ghost before = self@;
            let mut paused = false;
            let mut outcome: Option<WatchedFile> = None;
            match candidate(event.kind, file_name) {
                None => {},
                Some(file) => {
                    paused = state.is_paused();
                    if !paused {
                        outcome = self.debounce(file, event.observed_at);
                    }
                },
            }
            let ghost earlier = reported@;
            match outcome {
                Some(file) => {
                    reported.push(file);
                },
                None => {},
            }
            proof {
                let seen = readings;
                readings = readings.push(paused);
                let so_far = observations_of(
                    event.kind,
                    names.take(i as int),
                    seen,
                    event.observed_at,
                );
                let upto = observations_of(
                    event.kind,
                    names.take(i + 1),
                    readings,
                    event.observed_at,
                );
                assert(upto.drop_last() =~= so_far);
                assert(upto.last() == Observation {
                    kind: event.kind,
                    file_name: file_name@,
                    paused,
                    observed_at: event.observed_at,
                });
                assert((self@, outcome) == observe_file(
                    before,
                    event.kind,
                    file_name@,
                    paused,
                    event.observed_at,
                ));
                assert(observe_all(start, upto) == (
                    self@,
                    match outcome {
                        Some(file) => earlier.push(file),
                        None => earlier,
                    },
                ));
            }
            i = i + 1;
        }
        proof {
            assert(names.take(i as int) =~= names);
        }
        reported
    }
}

/// Where a watcher stands in its life.
#[derive(Debug, Clone, Copy, PartialEq, Eq, Structural)]
pub enum WatcherPhase {
    /// The watch on the data directory is not registered yet.
    Starting,
    /// Events are received and looked at.
    Watching,
    /// The watch could not be registered, or the source of events has
    /// ended. Nothing brings a watcher back from here.
    Terminated,
}

/// What arrives from the source of events.
#[derive(Debug, Clone, PartialEq, Eq)]
pub enum SourceMessage {
    /// The operating system reported something.
    Event(WatchEvent),
    /// The source reported an error of its own in place of an event.
    Fault,
    /// The source has ended.
    Closed,
}

/// A source message as the specifications see it.
pub ghost enum SourceMessageModel {
    Event { kind: WatchEventKind, file_names: Seq<Seq<char>>, observed_at: u64 },
    Fault,
    Closed,
}

impl View for SourceMessage {
    type V = SourceMessageModel;

    open spec fn view(&self) -> SourceMessageModel {
        match *self {
            SourceMessage::Event(event) => SourceMessageModel::Event {
                kind: event.kind,
                file_names: names_view(event.file_names@),
                observed_at: event.observed_at,
            },
            SourceMessage::Fault => SourceMessageModel::Fault,
            SourceMessage::Closed => SourceMessageModel::Closed,
        }
    }
}

/// The phase after the attempt to register the watch: a failure is final.
pub open spec fn phase_after_registration(phase: WatcherPhase, registered: bool) -> WatcherPhase {
    if phase == WatcherPhase::Starting && registered {
        WatcherPhase::Watching
    } else {
        WatcherPhase::Terminated
    }
}

/// The phase after a message from the source: the end of the source ends the watcher.
pub open spec fn phase_after_message(
    phase: WatcherPhase,
    message: SourceMessageModel,
) -> WatcherPhase {
    if message is Closed {
        WatcherPhase::Terminated
    } else {
        phase
    }
}

/// What a watcher in this phase does with a message: it looks at events
/// while it is watching, and at nothing else.
pub open spec fn session_observations(
    phase: WatcherPhase,
    message: SourceMessageModel,
    readings: Seq<bool>,
) -> Seq<Observation> {
    match message {
        SourceMessageModel::Event { kind, file_names, observed_at } => if phase
            == WatcherPhase::Watching {
            observations_of(kind, file_names, readings, observed_at)
        } else {
            Seq::empty()
        },
        _ => Seq::empty(),
    }
}

/// A watcher from its start to its end: its phase, and what it remembers.
pub struct WatchSession {
    phase: WatcherPhase,
    watcher: Watcher,
}

impl WatchSession {
    /// The phase the session is in.
    pub closed spec fn spec_phase(&self) -> WatcherPhase {
        self.phase
    }

    /// What the session remembers of its reports.
    pub closed spec fn recent(&self) -> Set<u128> {
        self.watcher@
    }

    /// A session that has not registered its watch yet and remembers nothing.
    pub fn new() -> (session: WatchSession)
        ensures
            session.spec_phase() == WatcherPhase::Starting,
            session.recent() == Set::<u128>::empty(),
    {
        WatchSession { phase: WatcherPhase::Starting, watcher: Watcher::new() }
    }

    /// The phase the session is in.
    pub fn phase(&self) -> (phase: WatcherPhase)
        ensures
            phase == self.spec_phase(),
    {
        self.phase
    }

    /// Takes the outcome of registering the watch on the data directory. A
    /// failure ends the session and is handed back to be reported; nothing is
    /// tried again.
    pub fn registered(&mut self, outcome: Result<(), String>) -> (res: Result<(), String>)
        ensures
            final(self).spec_phase() == phase_after_registration(
                old(self).spec_phase(),
                outcome is Ok,
            ),
            final(self).recent() == old(self).recent(),
            res == outcome,
    {
        self.phase = match (self.phase, &outcome) {
            (WatcherPhase::Starting, Ok(_)) => WatcherPhase::Watching,
            _ => WatcherPhase::Terminated,
        };
        outcome
    }

    /// Takes a message from the source of events and says which changes are
    /// to be reported. Outside the watching phase nothing is looked at; the
    /// end of the source ends the session.
    pub fn receive(&mut self, state: &WatcherState, message: &SourceMessage) -> (reported: Vec<
        WatchedFile,
    >)
        ensures
            final(self).spec_phase() == phase_after_message(old(self).spec_phase(), message@),
            recent_valid(final(self).recent()),
            exists|readings: Seq<bool>|
                (final(self).recent(), reported@) == observe_all(
                    old(self).recent(),
                    #[trigger] session_observations(old(self).spec_phase(), message@, readings),
                ),
    {
        proof {
            use_type_invariant(&self.watcher);
        }
        let ghost before = self.watcher@;
        let ghost phase = self.phase;
        match message {
            SourceMessage::Event(event) => {
                if self.phase == WatcherPhase::Watching {
                    let mut watcher = Watcher::new();
                    core::mem::swap(&mut self.watcher, &mut watcher);
                    let reported = watcher.handle_event(state, event);
                    core::mem::swap(&mut self.watcher, &mut watcher);
                    proof {
                        let readings = choose|readings: Seq<bool>|
                            readings.len() == event.file_names.len() && (self.watcher@, reported@)
                                == observe_all(
                                before,
                                #[trigger] observations_of(
                                    event.kind,
                                    names_view(event.file_names@),
                                    readings,
                                    event.observed_at,
                                ),
                            );
                        assert(session_observations(phase, message@, readings) == observations_of(
                            event.kind,
                            names_view(event.file_names@),
                            readings,
                            event.observed_at,
                        ));
                    }
                    reported
                } else {
                    proof {
                        assert(session_observations(phase, message@, Seq::<bool>::empty())
                            == Seq::<Observation>::empty());
                    }
                    Vec::new()
                }
            },
            SourceMessage::Fault => {
                proof {
                    assert(session_observations(phase, message@, Seq::<bool>::empty())
                        == Seq::<Observation>::empty());
                }
                Vec::new()
            },
            SourceMessage::Closed => {
                self.phase = WatcherPhase::Terminated;
                proof {
                    assert(session_observations(phase, message@, Seq::<bool>::empty())
                        == Seq::<Observation>::empty());
                }
                Vec::new()
            },
        }
    }
}

/// Starts a watcher on the outcome of registering the watch on the data
/// directory. A watch that could not be registered is fatal to the watcher:
/// the failure is handed back to be reported, and there is no session.
pub fn start_watcher(registration: Result<(), String>) -> (res: Result<WatchSession, String>)
    ensures
        match res {
            Ok(session) => registration is Ok && session.spec_phase() == WatcherPhase::Watching
                && session.recent() == Set::<u128>::empty(),
            Err(reason) => registration == Err::<(), String>(reason),
        },
{
    let mut session = WatchSession::new();
    match session.registered(registration) {
        Ok(_) => Ok(session),
        Err(reason) => Err(reason),
    }
}

/// Steps one to three of the watcher: the kind of the event, the temporary
/// suffix, and the table of watched names.
pub fn candidate(kind: WatchEventKind, file_name: &str) -> (res: Option<WatchedFile>)
    ensures
        res == candidate_file(kind, file_name@),
{
    if !kind.is_write() || ends_with(file_name, TEMP_SUFFIX) {
        None
    } else {
        classify_file(file_name)
    }
}

/// The number under which a change of `file` at this moment is remembered.
pub fn key_of(file: WatchedFile, observed_at: u64) -> (key: u128)
    ensures
        key == dedup_key(file, window_of(observed_at)),
{
    let window = observed_at / DEBOUNCE_WINDOW_SECS;
    (window as u128) * 4 + (file.index() as u128)
}

/// Different files, or one file in different windows, are remembered under
/// different numbers.
pub proof fn lemma_dedup_key_injective(a: WatchedFile, wa: u64, b: WatchedFile, wb: u64)
    ensures
        dedup_key(a, wa) == dedup_key(b, wb) <==> a == b && wa == wb,
{
}

/// The memory stays within its limit whatever is observed.
pub proof fn lemma_memory_stays_bounded(recent: Set<u128>, observations: Seq<Observation>)
    requires
        recent_valid(recent),
    ensures
        recent_valid(observe_all(recent, observations).0),
    decreases observations.len(),
{
    if observations.len() > 0 {
        lemma_memory_stays_bounded(recent, observations.drop_last());
    }
}

/// Whether an observation passes every guard but the debounce: it is a
/// write to the watched file `file`, seen while the watcher was not paused, in window
/// `window`.
pub open spec fn qualifies(observation: Observation, file: WatchedFile, window: u64) -> bool {
    &&& observation.kind.spec_is_write()
    &&& observation.file_name == file.spec_filename()
    &&& !observation.paused
    &&& window_of(observation.observed_at) == window
}

/// Debounce: any number of writes to one watched file within one window are
/// reported once, by the first of them. The memory must have room for the
/// report: a full memory is emptied in place of remembering it.
pub proof fn lemma_burst_is_reported_once(
    recent: Set<u128>,
    observations: Seq<Observation>,
    file: WatchedFile,
    window: u64,
)
    requires
        recent_valid(recent),
        recent.len() < RECENT_LIMIT,
        !recent.contains(dedup_key(file, window)),
        observations.len() >= 1,
        forall|i: int|
            0 <= i < observations.len() ==> qualifies(#[trigger] observations[i], file, window),
    ensures
        observe_all(recent, observations) == (
            recent.insert(dedup_key(file, window)),
            seq![file],
        ),
    decreases observations.len(),
{
    crate::kind::lemma_watched_name_has_no_temp_suffix(file);
    crate::kind::lemma_watched_files_distinct(file, file);
    lemma_classified(file);
    let last = observations.last();
    assert(qualifies(last, file, window));
    if observations.len() == 1 {
        assert(observations.drop_last() =~= Seq::<Observation>::empty());
        assert(observe_all(recent, observations.drop_last()) == (
            recent,
            Seq::<WatchedFile>::empty(),
        ));
        assert(Seq::<WatchedFile>::empty().push(file) =~= seq![file]);
    } else {
        let earlier = observations.drop_last();
        assert forall|i: int| 0 <= i < earlier.len() implies qualifies(
            #[trigger] earlier[i],
            file,
            window,
        ) by {
            assert(earlier[i] == observations[i]);
        }
        lemma_burst_is_reported_once(recent, earlier, file, window);
    }
}

/// A watched file's name is classified as that file.
pub proof fn lemma_classified(file: WatchedFile)
    ensures
        classified_file(file.spec_filename()) == Some(file),
{
    crate::kind::reveal_names();
}

/// Writes to temporary files, however many, are never reported and never
/// remembered.
pub proof fn lemma_temp_files_are_silent(recent: Set<u128>, observations: Seq<Observation>)
    requires
        forall|i: int|
            0 <= i < observations.len() ==> has_suffix(
                (#[trigger] observations[i]).file_name,
                TEMP_SUFFIX@,
            ),
    ensures
        observe_all(recent, observations) == (recent, Seq::<WatchedFile>::empty()),
    decreases observations.len(),
{
    if observations.len() > 0 {
        let earlier = observations.drop_last();
        assert forall|i: int| 0 <= i < earlier.len() implies has_suffix(
            (#[trigger] earlier[i]).file_name,
            TEMP_SUFFIX@,
        ) by {
            assert(earlier[i] == observations[i]);
        }
        lemma_temp_files_are_silent(recent, earlier);
        assert(has_suffix(observations.last().file_name, TEMP_SUFFIX@));
    }
}

/// While the watcher is paused, whatever happens is neither reported nor remembered.
pub proof fn lemma_paused_is_silent(recent: Set<u128>, observations: Seq<Observation>)
    requires
        forall|i: int| 0 <= i < observations.len() ==> (#[trigger] observations[i]).paused,
    ensures
        observe_all(recent, observations) == (recent, Seq::<WatchedFile>::empty()),
    decreases observations.len(),
{
    if observations.len() > 0 {
        let earlier = observations.drop_last();
        assert forall|i: int| 0 <= i < earlier.len() implies (#[trigger] earlier[i]).paused by {
            assert(earlier[i] == observations[i]);
        }
        lemma_paused_is_silent(recent, earlier);
        assert(observations.last().paused);
    }
}

/// Pause, then resume: after any number of observations made while the
/// watcher was paused, the next write to a watched file that was not reported
/// in its window is reported, exactly once, as if there had been no pause.
pub proof fn lemma_resume_reports_next(
    recent: Set<u128>,
    silenced: Seq<Observation>,
    next: Observation,
    file: WatchedFile,
)
    requires
        forall|i: int| 0 <= i < silenced.len() ==> (#[trigger] silenced[i]).paused,
        qualifies(next, file, window_of(next.observed_at)),
        !recent.contains(dedup_key(file, window_of(next.observed_at))),
    ensures
        observe_all(recent, silenced.push(next)).1 == seq![file],
        observe_all(recent, silenced.push(next)) == observe_all(recent, seq![next]),
{
    crate::kind::lemma_watched_name_has_no_temp_suffix(file);
    lemma_classified(file);
    lemma_paused_is_silent(recent, silenced);
    assert(silenced.push(next).drop_last() =~= silenced);
    assert(seq![next].drop_last() =~= Seq::<Observation>::empty());
    assert(observe_all(recent, seq![next].drop_last()) == (recent, Seq::<WatchedFile>::empty()));
    assert(Seq::<WatchedFile>::empty().push(file) =~= seq![file]);
}

/// A watcher that has ended stays ended, and reports and remembers nothing
/// more, whatever arrives.
pub proof fn lemma_terminated_is_final(message: SourceMessageModel, readings: Seq<bool>)
    ensures
        phase_after_message(WatcherPhase::Terminated, message) == WatcherPhase::Terminated,
        forall|registered: bool|
            phase_after_registration(WatcherPhase::Terminated, registered)
                == WatcherPhase::Terminated,
        session_observations(WatcherPhase::Terminated, message, readings) == Seq::<
            Observation,
        >::empty(),
{
}

} // verus!
