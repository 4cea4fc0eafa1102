use crate::error::{DownloadError, ErrorView};
use crate::progress::{advance, advanced};
use crate::text::text_of;
use vstd::prelude::*;

verus! {

/// Where a transfer stands. A transfer moves down this list and never back;
/// `Completed` and `Failed` are final.
#[derive(Debug, Clone, Copy, PartialEq, Eq)]
pub enum Phase {
    /// Created, nothing asked of the network yet.
    Pending,
    /// The request is out; no response headers yet.
    Requesting,
    /// The headers gave a length; the destination file is not open yet.
    TotalSizeKnown,
    /// The file is open and chunks are being written.
    Streaming,
    /// The body ended and the progress is final.
    Completed,
    /// The transfer stopped with an error.
    Failed,
}

/// What the outside world reports back to a transfer.
#[derive(Debug, PartialEq, Eq)]
pub enum Event {
    /// The transfer is asked to begin.
    Begin,
    /// Response headers arrived, with the content length they declare.
    Response { content_length: Option<u64> },
    /// The request could not be sent or no response came back.
    RequestFailed { reason: String },
    /// The destination file was created, empty.
    FileCreated,
    /// The destination file could not be created.
    FileFailed { reason: String },
    /// A chunk was read from the body and `len` bytes of it were written.
    ChunkWritten { len: usize },
    /// Reading a chunk or writing it failed.
    StreamFailed { reason: String },
    /// The body has no further chunk.
    StreamEnded,
}

/// The mathematical value of an [`Event`].
pub enum EventView {
    Begin,
    Response { content_length: Option<u64> },
    RequestFailed { reason: Seq<char> },
    FileCreated,
    FileFailed { reason: Seq<char> },
    ChunkWritten { len: usize },
    StreamFailed { reason: Seq<char> },
    StreamEnded,
}

impl View for Event {
    type V = EventView;

    open spec fn view(&self) -> EventView {
        match self {
            Event::Begin => EventView::Begin,
            Event::Response { content_length } => EventView::Response {
                content_length: *content_length,
            },
            Event::RequestFailed { reason } => EventView::RequestFailed { reason: reason@ },
            Event::FileCreated => EventView::FileCreated,
            Event::FileFailed { reason } => EventView::FileFailed { reason: reason@ },
            Event::ChunkWritten { len } => EventView::ChunkWritten { len: *len },
            Event::StreamFailed { reason } => EventView::StreamFailed { reason: reason@ },
            Event::StreamEnded => EventView::StreamEnded,
        }
    }
}

/// What a transfer asks the outside world to do next.
#[derive(Debug, PartialEq, Eq)]
pub enum Action {
    /// Send a GET request to `url` and report the response headers.
    Request { url: String },
    /// Give the progress sink the bound `total` and the label `label`, then
    /// create the file at `path`, emptying it if it exists.
    Open { path: String, total: u64, label: String },
    /// Read the next chunk of the body and write it to the file.
    Read,
    /// Move the progress sink to `position`, then read and write the next
    /// chunk.
    Advance { position: u64 },
    /// Mark the progress sink as final.
    Finish,
    /// Stop: the transfer has failed with `error`.
    Fail { error: DownloadError },
}

/// The mathematical value of an [`Action`].
pub enum ActionView {
    Request { url: Seq<char> },
    Open { path: Seq<char>, total: u64, label: Seq<char> },
    Read,
    Advance { position: u64 },
    Finish,
    Fail { error: ErrorView },
}

impl View for Action {
    type V = ActionView;

    open spec fn view(&self) -> ActionView {
        match self {
            Action::Request { url } => ActionView::Request { url: url@ },
            Action::Open { path, total, label } => ActionView::Open {
                path: path@,
                total: *total,
                label: label@,
            },
            Action::Read => ActionView::Read,
            Action::Advance { position } => ActionView::Advance { position: *position },
            Action::Finish => ActionView::Finish,
            Action::Fail { error } => ActionView::Fail { error: error@ },
        }
    }
}

/// The mathematical value of a [`Transfer`]: its phase, what it was made
/// from, and its progress.
pub struct TransferView {
    pub phase: Phase,
    pub url: Seq<char>,
    pub path: Seq<char>,
    /// The file name of the destination, if it has one.
    pub file_name: Option<Seq<char>>,
    /// The declared length of the body, once the headers gave it.
    pub total: Option<u64>,
    /// The bytes accounted for so far.
    pub downloaded: u64,
    /// The label of the progress sink; empty until the length is known.
    pub label: Seq<char>,
}

impl TransferView {
    /// A transfer that has not begun.
    pub open spec fn initial(
        url: Seq<char>,
        path: Seq<char>,
        file_name: Option<Seq<char>>,
    ) -> TransferView {
        TransferView {
            phase: Phase::Pending,
            url,
            path,
            file_name,
            total: None,
            downloaded: 0,
            label: Seq::empty(),
        }
    }

    /// What holds of every transfer: nothing is counted before the length is
    /// known, and never more than the length afterwards.
    pub open spec fn wf(self) -> bool {
        match self.phase {
            Phase::Pending | Phase::Requesting => {
                &&& self.total is None
                &&& self.downloaded == 0
                &&& self.label == Seq::<char>::empty()
            },
            Phase::TotalSizeKnown => {
                &&& self.total is Some
                &&& self.downloaded == 0
                &&& self.file_name == Some(self.label)
            },
            Phase::Streaming | Phase::Completed => {
                &&& self.total is Some
                &&& self.downloaded <= self.total->0
                &&& self.file_name == Some(self.label)
            },
            Phase::Failed => match self.total {
                Some(total) => self.downloaded <= total,
                None => self.downloaded == 0,
            },
        }
    }

    /// Whether the transfer has reached a final phase.
    pub open spec fn terminal(self) -> bool {
        self.phase == Phase::Completed || self.phase == Phase::Failed
    }

    /// Whether `event` is one the transfer waits for in its phase.
    pub open spec fn awaits(self, event: EventView) -> bool {
        match self.phase {
            Phase::Pending => event is Begin,
            Phase::Requesting => event is Response || event is RequestFailed,
            Phase::TotalSizeKnown => event is FileCreated || event is FileFailed,
            Phase::Streaming => event is ChunkWritten || event is StreamFailed
                || event is StreamEnded,
            Phase::Completed | Phase::Failed => false,
        }
    }

    /// The error that `event` ends the transfer with, if it does.
    pub open spec fn failure(self, event: EventView) -> Option<ErrorView> {
        if !self.awaits(event) {
            None
        } else {
            match event {
                EventView::Response { content_length } => if content_length is None {
                    Some(ErrorView::MissingLength)
                } else if self.file_name is None {
                    Some(ErrorView::InvalidDestination)
                } else {
                    None
                },
                EventView::RequestFailed { reason } => Some(ErrorView::Request(reason)),
                EventView::FileFailed { reason } => Some(ErrorView::Io(reason)),
                EventView::StreamFailed { reason } => Some(ErrorView::Stream(reason)),
                _ => None,
            }
        }
    }

    /// The transfer after `event`. An event that the transfer does not wait
    /// for leaves it as it is.
    pub open spec fn next(self, event: EventView) -> TransferView {
        if !self.awaits(event) {
            self
        } else if self.failure(event) is Some {
            TransferView {
                phase: Phase::Failed,
                total: match event {
                    EventView::Response { content_length } => content_length,
                    _ => self.total,
                },
                ..self
            }
        } else {
            match event {
                EventView::Begin => TransferView { phase: Phase::Requesting, ..self },
                EventView::Response { content_length } => TransferView {
                    phase: Phase::TotalSizeKnown,
                    total: content_length,
                    label: self.file_name->0,
                    ..self
                },
                EventView::FileCreated => TransferView { phase: Phase::Streaming, ..self },
                EventView::ChunkWritten { len } => TransferView {
                    downloaded: advanced(self.downloaded, len, self.total->0),
                    ..self
                },
                EventView::StreamEnded => TransferView { phase: Phase::Completed, ..self },
                _ => self,
            }
        }
    }

    /// What the transfer asks for in answer to `event`: `None` exactly when
    /// it does not wait for that event.
    pub open spec fn action(self, event: EventView) -> Option<ActionView> {
        if !self.awaits(event) {
            None
        } else if self.failure(event) is Some {
            Some(ActionView::Fail { error: self.failure(event)->0 })
        } else {
            match event {
                EventView::Begin => Some(ActionView::Request { url: self.url }),
                EventView::Response { content_length } => Some(
                    ActionView::Open {
                        path: self.path,
                        total: content_length->0,
                        label: self.file_name->0,
                    },
                ),
                EventView::FileCreated => Some(ActionView::Read),
                EventView::ChunkWritten { len } => Some(
                    ActionView::Advance {
                        position: advanced(self.downloaded, len, self.total->0),
                    },
                ),
                EventView::StreamEnded => Some(ActionView::Finish),
                _ => None,
            }
        }
    }
}

impl TransferView {
    /// The transfer after all of `events`, in order.
    pub open spec fn run(self, events: Seq<EventView>) -> TransferView
        decreases events.len(),
    {
        if events.len() == 0 {
            self
        } else {
            self.run(events.drop_last()).next(events.last())
        }
    }

    /// How far along its life the transfer is. Both final phases rank
    /// highest.
    pub open spec fn rank(self) -> nat {
        match self.phase {
            Phase::Pending => 0,
            Phase::Requesting => 1,
            Phase::TotalSizeKnown => 2,
            Phase::Streaming => 3,
            Phase::Completed => 4,
            Phase::Failed => 4,
        }
    }
}

/// Whether `action` has the destination file created or written to.
pub open spec fn touches_file(action: Option<ActionView>) -> bool {
    action matches Some(a) && (a is Open || a is Read || a is Advance)
}

/// The bytes that `events` report as written.
pub open spec fn written(events: Seq<EventView>) -> nat
    decreases events.len(),
{
    if events.len() == 0 {
        0
    } else {
        written(events.drop_last()) + match events.last() {
            EventView::ChunkWritten { len } => len as nat,
            _ => 0,
        }
    }
}

/// The life of one download, as a machine that is told what happened and
/// answers with what to do next. It decides; it performs no I/O itself.
#[derive(Debug)]
pub struct Transfer {
    phase: Phase,
    url: String,
    path: String,
    file_name: Option<String>,
    total: Option<u64>,
    downloaded: u64,
    label: String,
}

impl View for Transfer {
    type V = TransferView;

    closed spec fn view(&self) -> TransferView {
        TransferView {
            phase: self.phase,
            url: self.url@,
            path: self.path@,
            file_name: text_of(self.file_name),
            total: self.total,
            downloaded: self.downloaded,
            label: self.label@,
        }
    }
}

impl Transfer {
    #[verifier::type_invariant]
    spec fn inv(self) -> bool {
        self@.wf()
    }

    /// A transfer of `url` to `path` that has not begun. `file_name` is the
    /// file name of `path`, or `None` if it has none.
    pub fn new(url: String, path: String, file_name: Option<String>) -> (transfer: Transfer)
        ensures
            transfer@ == TransferView::initial(url@, path@, text_of(file_name)),
            transfer@.wf(),
    {
        Transfer {
            phase: Phase::Pending,
            url,
            path,
            file_name,
            total: None,
            downloaded: 0,
            label: String::new(),
        }
    }

    /// Tells the transfer what happened and returns it in its next state,
    /// with what to do next. An event that the transfer does not wait for
    /// changes nothing and is answered with `None`.
    pub fn step(self, event: Event) -> (next: (Transfer, Option<Action>))
        ensures
            next.0@ == self@.next(event@),
            next.0@.wf(),
            match next.1 {
                Some(action) => self@.action(event@) == Some(action@),
                None => self@.action(event@) is None,
            },
            self@.downloaded <= next.0@.downloaded,
    {
        proof {
            use_type_invariant(&self);
        }
        let Transfer { phase, url, path, file_name, total, downloaded, label } = self;
        match (phase, event) {
            (Phase::Pending, Event::Begin) => {
                let target = url.clone();
                (
                    Transfer {
                        phase: Phase::Requesting,
                        url,
                        path,
                        file_name,
                        total,
                        downloaded,
                        label,
                    },
                    Some(Action::Request { url: target }),
                )
            },
            (Phase::Requesting, Event::Response { content_length }) => {
                match content_length {
                    None => (
                        Transfer {
                            phase: Phase::Failed,
                            url,
                            path,
                            file_name,
                            total: None,
                            downloaded,
                            label,
                        },
                        Some(Action::Fail { error: DownloadError::MissingLength }),
                    ),
                    Some(length) => match file_name {
                        None => (
                            Transfer {
                                phase: Phase::Failed,
                                url,
                                path,
                                file_name: None,
                                total: Some(length),
                                downloaded,
                                label,
                            },
                            Some(Action::Fail { error: DownloadError::InvalidDestination }),
                        ),
                        Some(name) => {
                            let shown = name.clone();
                            let sink_label = name.clone();
                            let target = path.clone();
                            (
                                Transfer {
                                    phase: Phase::TotalSizeKnown,
                                    url,
                                    path,
                                    file_name: Some(name),
                                    total: Some(length),
                                    downloaded,
                                    label: shown,
                                },
                                Some(
                                    Action::Open { path: target, total: length, label: sink_label },
                                ),
                            )
                        },
                    },
                }
            },
            (Phase::Requesting, Event::RequestFailed { reason }) => (
                Transfer { phase: Phase::Failed, url, path, file_name, total, downloaded, label },
                Some(Action::Fail { error: DownloadError::Request(reason) }),
            ),
            (Phase::TotalSizeKnown, Event::FileCreated) => (
                Transfer {
                    phase: Phase::Streaming,
                    url,
                    path,
                    file_name,
                    total,
                    downloaded,
                    label,
                },
                Some(Action::Read),
            ),
            (Phase::TotalSizeKnown, Event::FileFailed { reason }) => (
                Transfer { phase: Phase::Failed, url, path, file_name, total, downloaded, label },
                Some(Action::Fail { error: DownloadError::Io(reason) }),
            ),
            (Phase::Streaming, Event::ChunkWritten { len }) => {
                let bound: u64 = match total {
                    Some(length) => length,
                    None => 0,
                };
                let position = advance(downloaded, len, bound);
                (
                    Transfer {
                        phase: Phase::Streaming,
                        url,
                        path,
                        file_name,
                        total,
                        downloaded: position,
                        label,
                    },
                    Some(Action::Advance { position }),
                )
            },
            (Phase::Streaming, Event::StreamFailed { reason }) => (
                Transfer { phase: Phase::Failed, url, path, file_name, total, downloaded, label },
                Some(Action::Fail { error: DownloadError::Stream(reason) }),
            ),
            (Phase::Streaming, Event::StreamEnded) => (
                Transfer {
                    phase: Phase::Completed,
                    url,
                    path,
                    file_name,
                    total,
                    downloaded,
                    label,
                },
                Some(Action::Finish),
            ),
            (phase, _) => (
                Transfer { phase, url, path, file_name, total, downloaded, label },
                None,
            ),
        }
    }

    /// The phase the transfer is in.
    pub fn phase(&self) -> (phase: Phase)
        ensures
            phase == self@.phase,
    {
        self.phase
    }

    /// Whether the transfer has completed or failed.
    pub fn is_terminal(&self) -> (done: bool)
        ensures
            done == self@.terminal(),
    {
        match self.phase {
            Phase::Completed | Phase::Failed => true,
            _ => false,
        }
    }

    /// The declared length of the body, once known.
    pub fn total_bytes(&self) -> (total: Option<u64>)
        ensures
            total == self@.total,
    {
        self.total
    }

    /// The bytes accounted for so far; never more than the declared length.
    pub fn downloaded_bytes(&self) -> (downloaded: u64)
        ensures
            downloaded == self@.downloaded,
            self@.total matches Some(total) ==> downloaded <= total,
    {
        proof {
            use_type_invariant(self);
        }
        self.downloaded
    }

    /// The label of the progress sink.
    pub fn label(&self) -> (label: &str)
        ensures
            label@ == self@.label,
    {
        self.label.as_str()
    }
}

/// One event keeps a transfer well formed. The position never falls, the
/// phase never moves back, a length once known stays, and what the transfer
/// was made from never changes. The transfer answers exactly the events it
/// waits for; any other leaves it as it was.
pub proof fn lemma_next(state: TransferView, event: EventView)
    requires
        state.wf(),
    ensures
        state.next(event).wf(),
        state.downloaded <= state.next(event).downloaded,
        state.rank() <= state.next(event).rank(),
        state.total is Some ==> state.next(event).total == state.total,
        state.next(event).url == state.url,
        state.next(event).path == state.path,
        state.next(event).file_name == state.file_name,
        state.action(event) is Some <==> state.awaits(event),
        !state.awaits(event) ==> state.next(event) == state,
        touches_file(state.action(event)) ==> state.next(event).phase == Phase::TotalSizeKnown
            || state.next(event).phase == Phase::Streaming,
{
}

/// A run can be cut anywhere: the events after the cut run from the state
/// that the events before it lead to.
pub proof fn lemma_run_split(state: TransferView, events: Seq<EventView>, cut: int)
    requires
        0 <= cut <= events.len(),
    ensures
        state.run(events) == state.run(events.take(cut)).run(events.skip(cut)),
    decreases events.len(),
{
    if cut == events.len() {
        assert(events.take(cut) =~= events);
    } else {
        let front = events.drop_last();
        lemma_run_split(state, front, cut);
        assert(front.take(cut) =~= events.take(cut));
        assert(front.skip(cut) =~= events.skip(cut).drop_last());
    }
}

/// Every state that a transfer can reach is well formed, with a position no
/// lower and a phase no earlier than where it set out.
pub proof fn lemma_run(state: TransferView, events: Seq<EventView>)
    requires
        state.wf(),
    ensures
        state.run(events).wf(),
        state.downloaded <= state.run(events).downloaded,
        state.rank() <= state.run(events).rank(),
        state.total is Some ==> state.run(events).total == state.total,
    decreases events.len(),
{
    if events.len() > 0 {
        lemma_run(state, events.drop_last());
        lemma_next(state.run(events.drop_last()), events.last());
    }
}

/// The downloaded-byte counter never falls and never passes the declared
/// total: of any two moments of a transfer's life, the later one has the
/// counter at least as high, and at most at the total once that is known.
pub proof fn lemma_progress_monotone(
    state: TransferView,
    events: Seq<EventView>,
    earlier: int,
    later: int,
)
    requires
        state.wf(),
        0 <= earlier <= later <= events.len(),
    ensures
        state.run(events.take(earlier)).downloaded <= state.run(events.take(later)).downloaded,
        state.run(events.take(later)).total matches Some(total) ==> state.run(
            events.take(later),
        ).downloaded <= total,
{
    let until = events.take(later);
    lemma_run_split(state, until, earlier);
    assert(until.take(earlier) =~= events.take(earlier));
    lemma_run(state, events.take(earlier));
    lemma_run(state.run(events.take(earlier)), until.skip(earlier));
    lemma_run(state, until);
}

/// A completed or failed transfer is final: no event changes it and none
/// is answered.
pub proof fn lemma_terminal_is_final(state: TransferView, events: Seq<EventView>)
    requires
        state.terminal(),
    ensures
        state.run(events) == state,
        forall|event: EventView| state.action(event) is None,
    decreases events.len(),
{
    if events.len() > 0 {
        lemma_terminal_is_final(state, events.drop_last());
    }
}

/// A response without a content length fails the task with
/// `MissingLength`, and nothing is ever written for it: in the whole life
/// of the transfer, before and after, no action has the destination file
/// created or written to, and the counter stays at zero.
pub proof fn lemma_missing_length_writes_nothing(
    state: TransferView,
    events: Seq<EventView>,
    at: int,
)
    requires
        state.wf(),
        0 <= at < events.len(),
        events[at] == (EventView::Response { content_length: None }),
        state.run(events.take(at)).phase == Phase::Requesting,
    ensures
        state.run(events.take(at)).action(events[at]) == Some(
            ActionView::Fail { error: ErrorView::MissingLength },
        ),
        forall|moment: int|
            0 <= moment < events.len() ==> !touches_file(
                #[trigger] state.run(events.take(moment)).action(events[moment]),
            ),
        state.run(events).phase == Phase::Failed,
        state.run(events).downloaded == 0,
{
    let asked = state.run(events.take(at));
    let failed = asked.next(events[at]);
    lemma_run(state, events.take(at));
    assert(state.run(events.take(at + 1)) == failed) by {
        assert(events.take(at + 1).drop_last() =~= events.take(at));
    }
    assert forall|moment: int| 0 <= moment < events.len() implies !touches_file(
        #[trigger] state.run(events.take(moment)).action(events[moment]),
    ) by {
        let before = state.run(events.take(moment));
        lemma_run(state, events.take(moment));
        lemma_next(before, events[moment]);
        if moment < at {
            let after = before.next(events[moment]);
            assert(state.run(events.take(moment + 1)) == after) by {
                assert(events.take(moment + 1).drop_last() =~= events.take(moment));
            }
            lemma_progress_rank(state, events, moment + 1, at);
        } else if moment > at {
            lemma_progress_rank(state, events, at + 1, moment);
        }
    }
    lemma_run_split(state, events, at + 1);
    lemma_terminal_is_final(failed, events.skip(at + 1));
}

/// Of any two moments of a transfer's life, the later one is in a phase no
/// earlier.
pub proof fn lemma_progress_rank(
    state: TransferView,
    events: Seq<EventView>,
    earlier: int,
    later: int,
)
    requires
        state.wf(),
        0 <= earlier <= later <= events.len(),
    ensures
        state.run(events.take(earlier)).rank() <= state.run(events.take(later)).rank(),
{
    let until = events.take(later);
    lemma_run_split(state, until, earlier);
    assert(until.take(earlier) =~= events.take(earlier));
    lemma_run(state, events.take(earlier));
    lemma_run(state.run(events.take(earlier)), until.skip(earlier));
}

/// While chunks arrive, the counter is the sum of what was written, held at
/// the declared total: a body of exactly the declared length ends with the
/// counter at that length.
pub proof fn lemma_position_is_clamped_sum(state: TransferView, chunks: Seq<EventView>)
    requires
        state.wf(),
        state.phase == Phase::Streaming,
        forall|i: int| 0 <= i < chunks.len() ==> chunks[i] is ChunkWritten,
    ensures
        state.run(chunks).phase == Phase::Streaming,
        state.run(chunks).total == state.total,
        state.run(chunks).downloaded == if state.downloaded + written(chunks) >= state.total->0 {
            state.total->0 as int
        } else {
            state.downloaded + written(chunks)
        },
    decreases chunks.len(),
{
    if chunks.len() > 0 {
        let front = chunks.drop_last();
        lemma_position_is_clamped_sum(state, front);
        assert(chunks.last() == chunks[chunks.len() - 1]);
    }
}

} // verus!
