use vstd::prelude::*;
use crate::error::PipelineError;
use crate::ingest::{has_location, locate, IngestRecord, StorageLocation};
use crate::prompt::{build_prompt, prompt_text};
use crate::response::{response_error, response_text, validate, ModelResponse};

verus! {

/// Process-wide settings, read once when the process starts.
#[derive(Clone, Debug)]
pub struct PipelineConfig {
    /// The inference model every document is sent to.
    pub model_id: String,
    /// The queue that receives the extracted records.
    pub queue_url: String,
}

/// The declared format of a document handed to the model.
#[derive(Clone, Copy, Debug, PartialEq, Eq, Structural)]
pub enum DocumentFormat {
    Pdf,
}

/// The content of one stored document, named after its object key.
#[derive(Clone, Debug)]
pub struct DocumentBlob {
    pub name: String,
    pub format: DocumentFormat,
    pub bytes: Vec<u8>,
}

/// One user turn for the model: the instruction text first, the document
/// second.
#[derive(Clone, Debug)]
pub struct ModelRequest {
    pub model_id: String,
    pub prompt: String,
    pub document: DocumentBlob,
}

/// What the caller must do next on the pipeline's behalf.
#[derive(Clone, Debug)]
pub enum Action {
    /// Read the whole object at this location.
    Fetch(StorageLocation),
    /// Send this request to the inference service.
    Invoke(ModelRequest),
    /// Enqueue `body` as one message on the queue at `queue_url`.
    Publish { queue_url: String, body: String },
    /// Every record was processed: the batch succeeded.
    Finish,
    /// The batch stops with this error; later records stay unprocessed.
    Abort(PipelineError),
}

/// The outcome of the call that the last action asked for.
#[derive(Clone, Debug)]
pub enum Event {
    /// Asks for the first action; nothing was pending.
    Proceed,
    /// The object's full content.
    Fetched(Vec<u8>),
    FetchFailed,
    /// The envelope the inference service answered with.
    Invoked(ModelResponse),
    InvokeFailed,
    /// The queue acknowledged the message.
    Published,
    PublishFailed,
}

/// Where the orchestrator stands within the current record.
#[derive(Clone, Debug)]
pub enum Stage {
    Ready,
    Fetching(StorageLocation),
    Invoking,
    Publishing,
    Done,
    Failed(PipelineError),
}

/// The abstract stage, without the data it carries.
pub enum Phase {
    Ready,
    Fetching,
    Invoking,
    Publishing,
    Done,
    Failed(PipelineError),
}

/// The abstract state of a batch: the record in hand, how many records
/// were published, and the stage.
pub struct Progress {
    pub index: nat,
    pub published: nat,
    pub phase: Phase,
}

/// The abstract outcome of a call: for a model answer, only the error its
/// validation reports.
pub enum Outcome {
    Proceed,
    Fetched,
    FetchFailed,
    Invoked(Option<PipelineError>),
    InvokeFailed,
    Published,
    PublishFailed,
}

/// The abstract action: outside calls name the record they concern.
pub enum Call {
    Fetch(nat),
    Invoke(nat),
    Publish(nat),
    Finish,
    Abort(PipelineError),
}

pub open spec fn phase_of(stage: Stage) -> Phase {
    match stage {
        Stage::Ready => Phase::Ready,
        Stage::Fetching(_) => Phase::Fetching,
        Stage::Invoking => Phase::Invoking,
        Stage::Publishing => Phase::Publishing,
        Stage::Done => Phase::Done,
        Stage::Failed(e) => Phase::Failed(e),
    }
}

pub open spec fn outcome_of(event: Event) -> Outcome {
    match event {
        Event::Proceed => Outcome::Proceed,
        Event::Fetched(_) => Outcome::Fetched,
        Event::FetchFailed => Outcome::FetchFailed,
        Event::Invoked(resp) => Outcome::Invoked(response_error(resp)),
        Event::InvokeFailed => Outcome::InvokeFailed,
        Event::Published => Outcome::Published,
        Event::PublishFailed => Outcome::PublishFailed,
    }
}

/// The abstract action, where `index` is the record in hand after the step.
pub open spec fn call_of(action: Action, index: nat) -> Call {
    match action {
        Action::Fetch(_) => Call::Fetch(index),
        Action::Invoke(_) => Call::Invoke(index),
        Action::Publish { .. } => Call::Publish(index),
        Action::Finish => Call::Finish,
        Action::Abort(e) => Call::Abort(e),
    }
}

/// The record an outside call concerns; `None` for `Finish` and `Abort`.
pub open spec fn call_record(call: Call) -> Option<nat> {
    match call {
        Call::Fetch(i) => Some(i),
        Call::Invoke(i) => Some(i),
        Call::Publish(i) => Some(i),
        _ => None,
    }
}

/// Starts record `index`, given which records name a location: finish past
/// the last record, fail on a record without a location, else fetch.
pub open spec fn begin(index: nat, published: nat, present: Seq<bool>) -> (Progress, Call) {
    if index >= present.len() {
        (Progress { index, published, phase: Phase::Done }, Call::Finish)
    } else if !present[index as int] {
        (
            Progress { index, published, phase: Phase::Failed(PipelineError::LocationMissing) },
            Call::Abort(PipelineError::LocationMissing),
        )
    } else {
        (Progress { index, published, phase: Phase::Fetching }, Call::Fetch(index))
    }
}

pub open spec fn fail(s: Progress, e: PipelineError) -> (Progress, Call) {
    (Progress { index: s.index, published: s.published, phase: Phase::Failed(e) }, Call::Abort(e))
}

/// One step of the batch. An outcome that does not answer the pending call
/// counts as that call's failure; a finished or failed batch stays as it is.
pub open spec fn next(s: Progress, present: Seq<bool>, o: Outcome) -> (Progress, Call) {
    match s.phase {
        Phase::Ready => begin(s.index, s.published, present),
        Phase::Fetching => match o {
            Outcome::Fetched => (
                Progress { index: s.index, published: s.published, phase: Phase::Invoking },
                Call::Invoke(s.index),
            ),
            _ => fail(s, PipelineError::FetchFailure),
        },
        Phase::Invoking => match o {
            Outcome::Invoked(None) => (
                Progress { index: s.index, published: s.published, phase: Phase::Publishing },
                Call::Publish(s.index),
            ),
            Outcome::Invoked(Some(e)) => fail(s, e),
            _ => fail(s, PipelineError::InvocationFailure),
        },
        Phase::Publishing => match o {
            Outcome::Published => begin(s.index + 1, s.published + 1, present),
            _ => fail(s, PipelineError::PublishFailure),
        },
        Phase::Done => (s, Call::Finish),
        Phase::Failed(e) => (s, Call::Abort(e)),
    }
}

/// The state reached and the actions issued over a sequence of outcomes.
pub open spec fn run(s: Progress, present: Seq<bool>, outcomes: Seq<Outcome>) -> (Progress, Seq<Call>)
    decreases outcomes.len(),
{
    if outcomes.len() == 0 {
        (s, Seq::empty())
    } else {
        let (s1, c) = next(s, present, outcomes[0]);
        let (s2, cs) = run(s1, present, outcomes.drop_first());
        (s2, seq![c] + cs)
    }
}

pub open spec fn initial() -> Progress {
    Progress { index: 0, published: 0, phase: Phase::Ready }
}

/// Which records of a batch name a storage location.
pub open spec fn located(records: Seq<IngestRecord>) -> Seq<bool> {
    records.map_values(|r: IngestRecord| has_location(r))
}

/// A state that a batch over `present` can reach: every record before the
/// one in hand was published, and the record in hand exists unless the
/// batch is done.
pub open spec fn consistent(s: Progress, present: Seq<bool>) -> bool {
    &&& s.published == s.index
    &&& s.index <= present.len()
    &&& (s.phase is Done) ==> s.index == present.len()
    &&& (s.phase is Fetching || s.phase is Invoking || s.phase is Publishing || s.phase is Failed)
        ==> s.index < present.len()
}

proof fn lemma_next_consistent(s: Progress, present: Seq<bool>, o: Outcome)
    requires
        consistent(s, present),
    ensures
        consistent(next(s, present, o).0, present),
        next(s, present, o).0.index >= s.index,
        call_record(next(s, present, o).1) matches Some(i) ==> i == next(s, present, o).0.index,
{
}

proof fn lemma_run_consistent(s: Progress, present: Seq<bool>, outcomes: Seq<Outcome>)
    requires
        consistent(s, present),
    ensures
        consistent(run(s, present, outcomes).0, present),
        run(s, present, outcomes).0.index >= s.index,
        forall|i: int|
            0 <= i < run(s, present, outcomes).1.len()
                ==> (call_record(#[trigger] run(s, present, outcomes).1[i]) matches Some(r)
                ==> r <= run(s, present, outcomes).0.index),
    decreases outcomes.len(),
{
    if outcomes.len() > 0 {
        let (s1, c) = next(s, present, outcomes[0]);
        lemma_next_consistent(s, present, outcomes[0]);
        lemma_run_consistent(s1, present, outcomes.drop_first());
        let (s2, cs) = run(s1, present, outcomes.drop_first());
        assert forall|i: int| 0 <= i < run(s, present, outcomes).1.len() implies
            (call_record(#[trigger] run(s, present, outcomes).1[i]) matches Some(r)
                ==> r <= s2.index) by {
            if i > 0 {
                assert(run(s, present, outcomes).1[i] == cs[i - 1]);
            }
        }
    }
}

/// Whatever the outcomes of the outside calls, when a batch stops on a
/// failure at record `index` (counting from zero), exactly `index` records
/// were published, and no call was ever made for a later record.
pub proof fn lemma_failure_stops_batch(present: Seq<bool>, outcomes: Seq<Outcome>)
    ensures
        run(initial(), present, outcomes).0.phase is Failed ==> run(
            initial(),
            present,
            outcomes,
        ).0.published == run(initial(), present, outcomes).0.index,
        forall|i: int|
            0 <= i < run(initial(), present, outcomes).1.len() ==> (call_record(
                #[trigger] run(initial(), present, outcomes).1[i],
            ) matches Some(r) ==> r <= run(initial(), present, outcomes).0.index),
{
    lemma_run_consistent(initial(), present, outcomes);
}

/// A failed batch stays failed: every later step issues the same abort and
/// makes no outside call.
pub proof fn lemma_failure_is_final(s: Progress, present: Seq<bool>, o: Outcome)
    requires
        s.phase is Failed,
    ensures
        next(s, present, o).0 == s,
        next(s, present, o).1 == Call::Abort(s.phase->Failed_0),
{
}


/// Drives one batch of ingest records through fetch, invoke, validate and
/// publish, one record at a time and in order. The caller performs each
/// returned action and reports its outcome to `step`.
pub struct Orchestrator {
    records: Vec<IngestRecord>,
    config: PipelineConfig,
    prompt: String,
    index: usize,
    published: usize,
    stage: Stage,
}

impl Orchestrator {
    pub closed spec fn records_view(&self) -> Seq<IngestRecord> {
        self.records@
    }

    pub closed spec fn config_view(&self) -> PipelineConfig {
        self.config
    }

    pub closed spec fn prompt_view(&self) -> Seq<char> {
        self.prompt@
    }

    pub closed spec fn stage_view(&self) -> Stage {
        self.stage
    }

    pub closed spec fn index_view(&self) -> nat {
        self.index as nat
    }

    pub closed spec fn published_view(&self) -> nat {
        self.published as nat
    }

    /// Which of the batch's records name a storage location.
    pub open spec fn present(&self) -> Seq<bool> {
        located(self.records_view())
    }

    /// The abstract state of the batch.
    pub open spec fn progress(&self) -> Progress {
        Progress {
            index: self.index_view(),
            published: self.published_view(),
            phase: phase_of(self.stage_view()),
        }
    }

    pub closed spec fn wf(&self) -> bool {
        &&& consistent(self.progress(), self.present())
        &&& self.stage matches Stage::Fetching(loc) ==> {
            &&& self.records@[self.index as int].bucket matches Some(b) && loc.bucket@ == b@
            &&& self.records@[self.index as int].key matches Some(k) && loc.key@ == k@
        }
    }

    /// A batch over `records`, with the extraction instruction built once
    /// from `schema`.
    pub fn new(records: Vec<IngestRecord>, config: PipelineConfig, schema: &str) -> (r: Self)
        ensures
            r.wf(),
            r.progress() == initial(),
            r.records_view() == records@,
            r.config_view() == config,
            r.prompt_view() == prompt_text(schema@),
    {
        Orchestrator {
            records,
            config,
            prompt: build_prompt(schema),
            index: 0,
            published: 0,
            stage: Stage::Ready,
        }
    }

    /// Starts the record at `self.index`, or finishes past the last one.
    fn begin_record(&mut self) -> (action: Action)
        requires
            old(self).index <= old(self).records@.len(),
            old(self).published == old(self).index,
        ensures
            final(self).wf(),
            (final(self).progress(), call_of(action, final(self).index as nat)) == begin(
                old(self).index as nat,
                old(self).published as nat,
                old(self).present(),
            ),
            final(self).records == old(self).records,
            final(self).config == old(self).config,
            final(self).prompt == old(self).prompt,
            action matches Action::Fetch(loc) ==> final(self).stage matches Stage::Fetching(l)
                && l.bucket@ == loc.bucket@ && l.key@ == loc.key@,
    {
        if self.index >= self.records.len() {
            self.stage = Stage::Done;
            return Action::Finish;
        }
        let ghost present = self.present();
        assert(present[self.index as int] == has_location(self.records@[self.index as int]));
        match locate(&self.records[self.index]) {
            Ok(loc) => {
                let fetch_loc = StorageLocation { bucket: loc.bucket.clone(), key: loc.key.clone() };
                self.stage = Stage::Fetching(loc);
                Action::Fetch(fetch_loc)
            },
            Err(e) => {
                self.stage = Stage::Failed(e);
                Action::Abort(e)
            },
        }
    }

    /// Takes the outcome of the pending call and returns the next action.
    pub fn step(&mut self, event: Event) -> (action: Action)
        requires
            old(self).wf(),
        ensures
            final(self).wf(),
            (final(self).progress(), call_of(action, final(self).progress().index as nat)) == next(
                old(self).progress(),
                old(self).present(),
                outcome_of(event),
            ),
            final(self).records_view() == old(self).records_view(),
            final(self).config_view() == old(self).config_view(),
            final(self).prompt_view() == old(self).prompt_view(),
            action matches Action::Fetch(loc) ==> {
                &&& final(self).records_view()[final(self).progress().index as int].bucket matches Some(b)
                    && loc.bucket@ == b@
                &&& final(self).records_view()[final(self).progress().index as int].key matches Some(k)
                    && loc.key@ == k@
            },
            action matches Action::Invoke(req) ==> {
                &&& req.model_id@ == old(self).config_view().model_id@
                &&& req.prompt@ == old(self).prompt_view()
                &&& req.document.format == DocumentFormat::Pdf
                &&& event matches Event::Fetched(bytes) && req.document.bytes@ == bytes@
                &&& old(self).stage_view() matches Stage::Fetching(loc) && req.document.name@ == loc.key@
            },
            action matches Action::Publish { queue_url, body } ==> {
                &&& queue_url@ == old(self).config_view().queue_url@
                &&& event matches Event::Invoked(resp) && body@ == response_text(resp)
            },
    {
        assert(self.present().len() == self.records@.len());
        match &self.stage {
            Stage::Ready => self.begin_record(),
            Stage::Fetching(loc) => match event {
                Event::Fetched(bytes) => {
                    let document = DocumentBlob { name: loc.key.clone(), format: DocumentFormat::Pdf, bytes };
                    let request = ModelRequest {
                        model_id: self.config.model_id.clone(),
                        prompt: self.prompt.clone(),
                        document,
                    };
                    self.stage = Stage::Invoking;
                    Action::Invoke(request)
                },
                _ => self.fail(PipelineError::FetchFailure),
            },
            Stage::Invoking => match event {
                Event::Invoked(resp) => match validate(&resp) {
                    Ok(body) => {
                        self.stage = Stage::Publishing;
                        Action::Publish { queue_url: self.config.queue_url.clone(), body }
                    },
                    Err(e) => self.fail(e),
                },
                _ => self.fail(PipelineError::InvocationFailure),
            },
            Stage::Publishing => match event {
                Event::Published => {
                    let n = self.records.len();
                    assert(self.index < n);
                    self.index = self.index + 1;
                    self.published = self.published + 1;
                    self.begin_record()
                },
                _ => self.fail(PipelineError::PublishFailure),
            },
            Stage::Done => Action::Finish,
            Stage::Failed(e) => Action::Abort(*e),
        }
    }

    fn fail(&mut self, e: PipelineError) -> (action: Action)
        requires
            old(self).wf(),
            old(self).index < old(self).records@.len(),
        ensures
            final(self).wf(),
            (final(self).progress(), call_of(action, final(self).index as nat)) == fail(
                old(self).progress(),
                e,
            ),
            final(self).records == old(self).records,
            final(self).config == old(self).config,
            final(self).prompt == old(self).prompt,
    {
        assert(self.present().len() == self.records@.len());
        self.stage = Stage::Failed(e);
        Action::Abort(e)
    }

    /// How many records of the batch were published so far.
    pub fn published_count(&self) -> (r: usize)
        ensures
            r == self.progress().published,
    {
        self.published
    }

    /// The position of the record in hand.
    pub fn current_index(&self) -> (r: usize)
        ensures
            r == self.progress().index,
    {
        self.index
    }

    /// Whether the batch is over, successfully or not.
    pub fn is_finished(&self) -> (r: bool)
        ensures
            r <==> (self.progress().phase is Done || self.progress().phase is Failed),
    {
        match self.stage {
            Stage::Done | Stage::Failed(_) => true,
            _ => false,
        }
    }
}

} // verus!
