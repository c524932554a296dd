//! The application state: the readiness gate, the capture source, the speech
//! buffer and the one recording session there can be, tied together behind
//! the commands of the host (`start_recording`, `stop_recording`,
//! `set_model`) and the steps of the three stages.

use crate::capture::{capturable, AudioOutput, DeviceError, DeviceErrorModel, SampleFormat};
use crate::event::{Caption, CaptionModel};
use crate::gate::{EngineKind, ReadinessGate};
use crate::pipeline::{
    CollectOutcome, Phase, PipelineRun, RunModel, TranscriberWork, TranscriberWorkModel,
    TranslatorWork, TranslatorWorkModel,
};
use crate::speech::{SpeechBuffer, SpeechModel, CAPACITY, DEFAULT_BATCH_FRAMES};
use vstd::prelude::*;

verus! {

/// The answer to a request to start recording.
#[derive(Debug, Clone, Copy, PartialEq, Eq, Structural)]
pub enum StartOutcome {
    /// A session has begun. The caller announces [`Caption::Waiting`] and
    /// starts the capture device.
    Started,
    /// An engine is missing: the caller prompts for its installation.
    NotReady,
    /// A session is still active.
    AlreadyActive,
}

impl StartOutcome {
    /// Whether the request was accepted, as the host is told.
    pub open spec fn accepted(self) -> bool {
        self is Started
    }

    /// Whether the request was accepted, as the host is told.
    pub fn is_accepted(&self) -> (accepted: bool)
        ensures
            accepted == self.accepted(),
    {
        match self {
            StartOutcome::Started => true,
            _ => false,
        }
    }
}

/// What the application state is, mathematically.
pub struct AppModel {
    pub gate: ReadinessGate,
    pub speech: SpeechModel,
    pub run: RunModel,
}

impl AppModel {
    /// The states the application can be in.
    pub open spec fn wf(self) -> bool {
        &&& self.speech.wf()
        &&& self.run.inv()
        &&& !self.run.idle() ==> self.gate.ready()
    }

    /// Whether the capture source is stopped: it delivers from the start of
    /// a session until a stop is requested or capture ends.
    pub open spec fn capture_stopped(self) -> bool {
        self.run.stop || self.run.collector is Exited
    }

    /// The state at launch: no engine, an empty buffer, no session.
    pub open spec fn launched() -> AppModel {
        AppModel {
            gate: ReadinessGate { recognition: false, translation: false },
            speech: SpeechModel::fresh(DEFAULT_BATCH_FRAMES as nat),
            run: RunModel::ended(),
        }
    }

    /// The engine of this kind has been installed.
    pub open spec fn set_model(self, kind: EngineKind) -> AppModel {
        AppModel { gate: self.gate.with(kind), ..self }
    }

    /// The answer to a request to start recording.
    pub open spec fn start_outcome(self) -> StartOutcome {
        if !self.gate.ready() {
            StartOutcome::NotReady
        } else if !self.run.idle() {
            StartOutcome::AlreadyActive
        } else {
            StartOutcome::Started
        }
    }

    /// The state after a request to start recording: a new session where
    /// the request is accepted, no change where it is refused. What the
    /// buffer holds is kept from one session to the next.
    pub open spec fn start_recording(self) -> AppModel {
        if self.start_outcome().accepted() {
            AppModel { run: RunModel::started(), ..self }
        } else {
            self
        }
    }

    /// Whether a request to stop recording has a session to stop.
    pub open spec fn stop_takes_effect(self) -> bool {
        self.run.phase() is Recording
    }

    /// The state after a request to stop recording.
    pub open spec fn stop_recording(self) -> AppModel {
        if self.stop_takes_effect() {
            AppModel { run: self.run.stop_requested(), ..self }
        } else {
            self
        }
    }

    /// The collector receives a batch.
    pub open spec fn on_audio(self, batch: Seq<u32>) -> (AppModel, CollectOutcome) {
        let (run, speech, outcome) = self.run.collect(self.speech, batch);
        (AppModel { run, speech, ..self }, outcome)
    }

    /// Capture has ended.
    pub open spec fn capture_ended(self) -> AppModel {
        AppModel { run: self.run.capture_ended(), ..self }
    }

    /// One step of the transcriber.
    pub open spec fn transcriber_step(self) -> (AppModel, TranscriberWorkModel) {
        let (run, speech, work) = self.run.transcriber_step(self.speech);
        (AppModel { run, speech, ..self }, work)
    }

    /// The recognition call in flight has returned.
    pub open spec fn recognized(self, text: Option<Seq<char>>) -> AppModel {
        AppModel { run: self.run.recognized(text), ..self }
    }

    /// One step of the translator.
    pub open spec fn translator_step(self) -> (AppModel, TranslatorWorkModel) {
        let (run, work) = self.run.translator_step();
        (AppModel { run, ..self }, work)
    }

    /// The translation call in flight has returned.
    pub open spec fn translated(self, translation: Option<Seq<char>>) -> (
        AppModel,
        Option<CaptionModel>,
    ) {
        let (run, caption) = self.run.translated(translation);
        (AppModel { run, ..self }, caption)
    }
}

/// The view of an optional text.
pub open spec fn text_view(text: Option<String>) -> Option<Seq<char>> {
    match text {
        Some(text) => Some(text@),
        None => None,
    }
}

/// The view of an optional caption.
pub open spec fn caption_view(caption: Option<Caption>) -> Option<CaptionModel> {
    match caption {
        Some(caption) => Some(caption@),
        None => None,
    }
}

/// The application state.
pub struct AppState {
    gate: ReadinessGate,
    audio_output: AudioOutput,
    speech: SpeechBuffer,
    run: PipelineRun,
}

impl View for AppState {
    type V = AppModel;

    closed spec fn view(&self) -> AppModel {
        AppModel { gate: self.gate, speech: self.speech@, run: self.run@ }
    }
}

impl AppState {
    /// The invariant every method keeps.
    pub closed spec fn wf(&self) -> bool {
        &&& self.speech.wf()
        &&& self@.wf()
        &&& self.audio_output.stopped() == self@.capture_stopped()
    }

    /// A well-formed state has a well-formed model: in particular the
    /// buffer never holds more than its capacity.
    pub proof fn lemma_wf_model(&self)
        requires
            self.wf(),
        ensures
            self@.wf(),
            self@.speech.samples.len() <= CAPACITY,
    {
        self.speech.lemma_wf_model();
    }

    /// The state at launch, with capture set up on the probed default
    /// device (`None` where there is none, else its sample format). Fails
    /// where capture cannot be set up.
    pub fn new(device: Option<SampleFormat>) -> (state: Result<AppState, DeviceError>)
        ensures
            match state {
                Ok(state) => capturable(device) && state.wf() && state@ == AppModel::launched(),
                Err(error) => match device {
                    None => error@ == DeviceErrorModel::Unavailable,
                    Some(SampleFormat::F32) => false,
                    Some(SampleFormat::Other(name)) => error@
                        == DeviceErrorModel::UnsupportedFormat(name@),
                },
            },
    {
        match AudioOutput::new(device) {
            Ok(audio_output) => Ok(
                AppState {
                    gate: ReadinessGate::new(),
                    audio_output,
                    speech: SpeechBuffer::new(DEFAULT_BATCH_FRAMES),
                    run: PipelineRun::ended(),
                },
            ),
            Err(error) => Err(error),
        }
    }

    /// Whether both engines are installed.
    pub fn is_ready(&self) -> (ready: bool)
        ensures
            ready == self@.gate.ready(),
    {
        self.gate.is_ready()
    }

    /// Records that the engine of this kind has been installed. Returns
    /// whether it was missing before.
    pub fn set_model(&mut self, kind: EngineKind) -> (fresh: bool)
        requires
            old(self).wf(),
        ensures
            final(self).wf(),
            final(self)@ == old(self)@.set_model(kind),
            fresh == !old(self)@.gate.installed(kind),
    {
        self.gate.set_model(kind)
    }

    /// Where the session stands.
    pub fn phase(&self) -> (phase: Phase)
        ensures
            phase == self@.run.phase(),
    {
        self.run.phase()
    }

    /// Whether the capture source is stopped.
    pub fn is_stopped(&self) -> (stopped: bool)
        requires
            self.wf(),
        ensures
            stopped == self@.capture_stopped(),
    {
        self.audio_output.is_stopped()
    }

    /// The number of samples the buffer holds.
    pub fn buffered(&self) -> (n: usize)
        requires
            self.wf(),
        ensures
            n == self@.speech.samples.len(),
            n <= CAPACITY,
    {
        self.speech.len()
    }

    /// The batches counted since the last utterance was taken.
    pub fn batches(&self) -> (n: usize)
        ensures
            n == self@.speech.counter,
    {
        self.speech.counter()
    }

    /// Whether recognition is due.
    pub fn can_transcribe(&self) -> (ready: bool)
        requires
            self.wf(),
        ensures
            ready == self@.speech.ready(),
    {
        self.speech.can_transcribe()
    }

    /// A request to start recording. It is refused, and changes nothing,
    /// while an engine is missing or a session is active. Accepted, it
    /// begins a session whose three stages wait at their channels.
    pub fn start_recording(&mut self) -> (outcome: StartOutcome)
        requires
            old(self).wf(),
        ensures
            final(self).wf(),
            outcome == old(self)@.start_outcome(),
            final(self)@ == old(self)@.start_recording(),
    {
        if !self.gate.is_ready() {
            StartOutcome::NotReady
        } else if !self.run.is_idle() {
            StartOutcome::AlreadyActive
        } else {
            self.run = PipelineRun::started();
            let _ = self.audio_output.start_recording();
            StartOutcome::Started
        }
    }

    /// A request to stop recording. During a session that no stop was
    /// requested of yet, it sets the stop flag and stops the capture source,
    /// and returns `true`: the caller stops the device, delivers the closing
    /// signal and announces [`Caption::Paused`]. Otherwise nothing changes.
    pub fn stop_recording(&mut self) -> (stopping: bool)
        requires
            old(self).wf(),
        ensures
            final(self).wf(),
            stopping == old(self)@.stop_takes_effect(),
            final(self)@ == old(self)@.stop_recording(),
    {
        match self.run.phase() {
            Phase::Recording => {
                let _ = self.run.request_stop();
                let _ = self.audio_output.stop_recording();
                true
            },
            _ => false,
        }
    }

    /// The collector receives a batch of 16 kHz mono samples.
    pub fn on_audio(&mut self, batch: &[u32]) -> (outcome: CollectOutcome)
        requires
            old(self).wf(),
        ensures
            final(self).wf(),
            (final(self)@, outcome) == old(self)@.on_audio(batch@),
    {
        self.run.collect(&mut self.speech, batch)
    }

    /// Capture has ended, by the closing signal of a stop or by the loss of
    /// the source: the collector exits and the source counts as stopped.
    pub fn capture_ended(&mut self)
        requires
            old(self).wf(),
        ensures
            final(self).wf(),
            final(self)@ == old(self)@.capture_ended(),
    {
        self.run.capture_ended();
        let _ = self.audio_output.stop_recording();
    }

    /// One step of the transcriber.
    pub fn transcriber_step(&mut self) -> (work: TranscriberWork)
        requires
            old(self).wf(),
        ensures
            final(self).wf(),
            (final(self)@, work@) == old(self)@.transcriber_step(),
    {
        self.run.transcriber_step(&mut self.speech)
    }

    /// Reports the result of the recognition call in flight: the text, or
    /// `None` where the recogniser produced none.
    pub fn recognized(&mut self, text: Option<String>)
        requires
            old(self).wf(),
        ensures
            final(self).wf(),
            final(self)@ == old(self)@.recognized(text_view(text)),
    {
        self.run.recognized(text);
    }

    /// One step of the translator.
    pub fn translator_step(&mut self) -> (work: TranslatorWork)
        requires
            old(self).wf(),
        ensures
            final(self).wf(),
            (final(self)@, work@) == old(self)@.translator_step(),
    {
        self.run.translator_step()
    }

    /// Reports the result of the translation call in flight: the
    /// translation, or `None` where it failed. Returns the caption to send.
    pub fn translated(&mut self, translation: Option<String>) -> (caption: Option<Caption>)
        requires
            old(self).wf(),
        ensures
            final(self).wf(),
            (final(self)@, caption_view(caption)) == old(self)@.translated(text_view(translation)),
    {
        self.run.translated(translation)
    }
}

} // verus!
