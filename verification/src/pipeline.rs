//! One recording session: three stages (collector, transcriber, translator)
//! joined by two single-slot channels, and a cooperative stop flag.
//!
//! The session is a state machine. Each method is one atomic step of one
//! stage; the slow work between steps (recognising an utterance, translating
//! a text) is done by the caller, who hands the result back with the next
//! call. A stage looks at the stop flag whenever it is about to use a
//! channel, and exits if it is set; a call that is in flight is allowed to
//! complete first.
//!
//! A channel is closed when the stage that feeds it has exited. A stage that
//! finds its channel empty and closed exits in turn, so that the end of
//! capture travels downstream behind the work that was already queued.

use crate::event::{blank_marker, is_blank_marker, Caption, CaptionModel};
use crate::speech::{SpeechBuffer, SpeechModel};
use vstd::prelude::*;

verus! {

/// Where a session stands.
#[derive(Debug, Clone, Copy, PartialEq, Eq, Structural)]
pub enum Phase {
    /// No stage is running.
    Idle,
    /// Stages are running and no stop was requested.
    Recording,
    /// A stop was requested and some stage has not exited yet.
    Stopping,
}

/// The collector: feeds the speech buffer and raises the readiness signal.
#[derive(Debug, Clone, Copy, PartialEq, Eq, Structural)]
pub enum CollectorState {
    Collecting,
    Exited,
}

/// The transcriber: turns readiness signals into recognised text.
#[derive(Debug, PartialEq, Eq)]
pub enum TranscriberState {
    /// Waiting for a readiness signal.
    Waiting,
    /// A recognition call is in flight.
    Recognizing,
    /// Holds a recognised text until the channel to the translator is free.
    Forwarding(String),
    Exited,
}

/// The translator: turns recognised text into captions.
#[derive(Debug, PartialEq, Eq)]
pub enum TranslatorState {
    /// Waiting for a text.
    Waiting,
    /// A translation call for this text is in flight.
    Translating(String),
    Exited,
}

/// The mathematical value of a [`TranscriberState`].
pub enum TranscriberModel {
    Waiting,
    Recognizing,
    Forwarding(Seq<char>),
    Exited,
}

/// The mathematical value of a [`TranslatorState`].
pub enum TranslatorModel {
    Waiting,
    Translating(Seq<char>),
    Exited,
}

impl View for TranscriberState {
    type V = TranscriberModel;

    open spec fn view(&self) -> TranscriberModel {
        match self {
            TranscriberState::Waiting => TranscriberModel::Waiting,
            TranscriberState::Recognizing => TranscriberModel::Recognizing,
            TranscriberState::Forwarding(text) => TranscriberModel::Forwarding(text@),
            TranscriberState::Exited => TranscriberModel::Exited,
        }
    }
}

impl View for TranslatorState {
    type V = TranslatorModel;

    open spec fn view(&self) -> TranslatorModel {
        match self {
            TranslatorState::Waiting => TranslatorModel::Waiting,
            TranslatorState::Translating(text) => TranslatorModel::Translating(text@),
            TranslatorState::Exited => TranslatorModel::Exited,
        }
    }
}

/// What became of a batch handed to the collector.
#[derive(Debug, Clone, Copy, PartialEq, Eq, Structural)]
pub enum CollectOutcome {
    /// The batch was buffered; recognition is not due yet.
    Buffered,
    /// The batch was buffered and the readiness signal was raised.
    Signalled,
    /// The batch was buffered; recognition is due, and a signal raised
    /// earlier is still waiting to be taken, so no second one is raised.
    Coalesced,
    /// The collector saw the stop flag and exited; the batch was dropped.
    Exited,
    /// The collector had exited before; the batch was dropped.
    Ignored,
}

/// What the transcriber has to do, or did, in one step.
#[derive(Debug, PartialEq, Eq)]
pub enum TranscriberWork {
    /// No signal is waiting.
    Idle,
    /// A recognition call is in flight; its result is awaited.
    Busy,
    /// Recognise this utterance, then report the text.
    Recognize(Vec<u32>),
    /// A signal was taken, but the buffer held too little audio.
    Skipped,
    /// The recognised text was passed on to the translator.
    Forwarded,
    /// The channel to the translator is still occupied.
    Blocked,
    /// The transcriber has exited.
    Exited,
}

/// The mathematical value of a [`TranscriberWork`].
pub enum TranscriberWorkModel {
    Idle,
    Busy,
    Recognize(Seq<u32>),
    Skipped,
    Forwarded,
    Blocked,
    Exited,
}

impl View for TranscriberWork {
    type V = TranscriberWorkModel;

    open spec fn view(&self) -> TranscriberWorkModel {
        match self {
            TranscriberWork::Idle => TranscriberWorkModel::Idle,
            TranscriberWork::Busy => TranscriberWorkModel::Busy,
            TranscriberWork::Recognize(utterance) => TranscriberWorkModel::Recognize(utterance@),
            TranscriberWork::Skipped => TranscriberWorkModel::Skipped,
            TranscriberWork::Forwarded => TranscriberWorkModel::Forwarded,
            TranscriberWork::Blocked => TranscriberWorkModel::Blocked,
            TranscriberWork::Exited => TranscriberWorkModel::Exited,
        }
    }
}

/// What the translator has to do, or did, in one step.
#[derive(Debug, PartialEq, Eq)]
pub enum TranslatorWork {
    /// No text is waiting.
    Idle,
    /// A translation call is in flight; its result is awaited.
    Busy,
    /// Translate this text, then report the translation.
    Translate(String),
    /// Send this caption to the display.
    Emit(Caption),
    /// The translator had exited before.
    Exited,
}

/// The mathematical value of a [`TranslatorWork`].
pub enum TranslatorWorkModel {
    Idle,
    Busy,
    Translate(Seq<char>),
    Emit(CaptionModel),
    Exited,
}

impl View for TranslatorWork {
    type V = TranslatorWorkModel;

    open spec fn view(&self) -> TranslatorWorkModel {
        match self {
            TranslatorWork::Idle => TranslatorWorkModel::Idle,
            TranslatorWork::Busy => TranslatorWorkModel::Busy,
            TranslatorWork::Translate(text) => TranslatorWorkModel::Translate(text@),
            TranslatorWork::Emit(caption) => TranslatorWorkModel::Emit(caption@),
            TranslatorWork::Exited => TranslatorWorkModel::Exited,
        }
    }
}

/// What a session is, mathematically.
pub struct RunModel {
    /// The cooperative stop flag.
    pub stop: bool,
    pub collector: CollectorState,
    /// The channel from collector to transcriber: whether a readiness signal
    /// is waiting.
    pub ready_pending: bool,
    pub transcriber: TranscriberModel,
    /// The channel from transcriber to translator: the text that is waiting.
    pub text_pending: Option<Seq<char>>,
    pub translator: TranslatorModel,
}

impl RunModel {
    /// Whether every stage has exited.
    pub open spec fn idle(self) -> bool {
        &&& self.collector is Exited
        &&& self.transcriber is Exited
        &&& self.translator is Exited
    }

    /// What holds of every session however its steps interleave: a stage
    /// exits only on the stop flag or after the stage before it.
    pub open spec fn inv(self) -> bool {
        &&& self.transcriber is Exited ==> self.stop || self.collector is Exited
        &&& self.translator is Exited ==> self.stop || self.transcriber is Exited
    }

    /// Where the session stands.
    pub open spec fn phase(self) -> Phase {
        if self.idle() {
            Phase::Idle
        } else if self.stop {
            Phase::Stopping
        } else {
            Phase::Recording
        }
    }

    /// No session: every stage has exited and nothing is queued.
    pub open spec fn ended() -> RunModel {
        RunModel {
            stop: false,
            collector: CollectorState::Exited,
            ready_pending: false,
            transcriber: TranscriberModel::Exited,
            text_pending: None,
            translator: TranslatorModel::Exited,
        }
    }

    /// A session at its start: every stage waits at its channel.
    pub open spec fn started() -> RunModel {
        RunModel {
            stop: false,
            collector: CollectorState::Collecting,
            ready_pending: false,
            transcriber: TranscriberModel::Waiting,
            text_pending: None,
            translator: TranslatorModel::Waiting,
        }
    }

    /// The session after a stop was requested. Without a running stage there
    /// is nothing to stop.
    pub open spec fn stop_requested(self) -> RunModel {
        if self.idle() {
            self
        } else {
            RunModel { stop: true, ..self }
        }
    }

    /// The collector receives a batch.
    pub open spec fn collect(self, buffer: SpeechModel, batch: Seq<u32>) -> (
        RunModel,
        SpeechModel,
        CollectOutcome,
    ) {
        if self.collector is Exited {
            (self, buffer, CollectOutcome::Ignored)
        } else if self.stop {
            (RunModel { collector: CollectorState::Exited, ..self }, buffer, CollectOutcome::Exited)
        } else {
            let filled = buffer.pushed(batch);
            if !filled.ready() {
                (self, filled, CollectOutcome::Buffered)
            } else if self.ready_pending {
                (self, filled, CollectOutcome::Coalesced)
            } else {
                (RunModel { ready_pending: true, ..self }, filled, CollectOutcome::Signalled)
            }
        }
    }

    /// The collector learns that capture has ended, by a closing signal or
    /// by the loss of the source.
    pub open spec fn capture_ended(self) -> RunModel {
        RunModel { collector: CollectorState::Exited, ..self }
    }

    /// One step of the transcriber.
    pub open spec fn transcriber_step(self, buffer: SpeechModel) -> (
        RunModel,
        SpeechModel,
        TranscriberWorkModel,
    ) {
        let exited = RunModel { transcriber: TranscriberModel::Exited, ..self };
        match self.transcriber {
            TranscriberModel::Exited => (self, buffer, TranscriberWorkModel::Exited),
            TranscriberModel::Recognizing => (self, buffer, TranscriberWorkModel::Busy),
            TranscriberModel::Waiting => {
                if self.stop {
                    (exited, buffer, TranscriberWorkModel::Exited)
                } else if self.ready_pending {
                    match buffer.utterance() {
                        Some(utterance) => (
                            RunModel {
                                ready_pending: false,
                                transcriber: TranscriberModel::Recognizing,
                                ..self
                            },
                            buffer.rearmed(),
                            TranscriberWorkModel::Recognize(utterance),
                        ),
                        None => (
                            RunModel { ready_pending: false, ..self },
                            buffer,
                            TranscriberWorkModel::Skipped,
                        ),
                    }
                } else if self.collector is Exited {
                    (exited, buffer, TranscriberWorkModel::Exited)
                } else {
                    (self, buffer, TranscriberWorkModel::Idle)
                }
            },
            TranscriberModel::Forwarding(text) => {
                if self.stop || self.translator is Exited {
                    (exited, buffer, TranscriberWorkModel::Exited)
                } else if self.text_pending is None {
                    (
                        RunModel {
                            text_pending: Some(text),
                            transcriber: TranscriberModel::Waiting,
                            ..self
                        },
                        buffer,
                        TranscriberWorkModel::Forwarded,
                    )
                } else {
                    (self, buffer, TranscriberWorkModel::Blocked)
                }
            },
        }
    }

    /// The recognition call that was in flight has returned: a text, or
    /// nothing where the recogniser produced none. Without a call in flight
    /// the report changes nothing.
    pub open spec fn recognized(self, text: Option<Seq<char>>) -> RunModel {
        if self.transcriber is Recognizing {
            match text {
                Some(text) => RunModel { transcriber: TranscriberModel::Forwarding(text), ..self },
                None => RunModel { transcriber: TranscriberModel::Waiting, ..self },
            }
        } else {
            self
        }
    }

    /// One step of the translator.
    pub open spec fn translator_step(self) -> (RunModel, TranslatorWorkModel) {
        let exited = RunModel { translator: TranslatorModel::Exited, ..self };
        match self.translator {
            TranslatorModel::Exited => (self, TranslatorWorkModel::Exited),
            TranslatorModel::Translating(_) => (self, TranslatorWorkModel::Busy),
            TranslatorModel::Waiting => {
                if self.stop {
                    (exited, TranslatorWorkModel::Emit(CaptionModel::SessionEnd))
                } else {
                    match self.text_pending {
                        Some(text) => {
                            if text == blank_marker() {
                                (
                                    RunModel { text_pending: None, ..self },
                                    TranslatorWorkModel::Emit(CaptionModel::Blank),
                                )
                            } else {
                                (
                                    RunModel {
                                        text_pending: None,
                                        translator: TranslatorModel::Translating(text),
                                        ..self
                                    },
                                    TranslatorWorkModel::Translate(text),
                                )
                            }
                        },
                        None => {
                            if self.transcriber is Exited {
                                (exited, TranslatorWorkModel::Emit(CaptionModel::SessionEnd))
                            } else {
                                (self, TranslatorWorkModel::Idle)
                            }
                        },
                    }
                }
            },
        }
    }

    /// The translation call that was in flight has returned: a translation,
    /// or nothing where it failed. A failure costs the utterance, not the
    /// session. Without a call in flight the report changes nothing.
    pub open spec fn translated(self, translation: Option<Seq<char>>) -> (
        RunModel,
        Option<CaptionModel>,
    ) {
        match self.translator {
            TranslatorModel::Translating(original) => (
                RunModel { translator: TranslatorModel::Waiting, ..self },
                match translation {
                    Some(translated) => Some(CaptionModel::Utterance { original, translated }),
                    None => None,
                },
            ),
            _ => (self, None),
        }
    }
}

/// Every step of a session keeps [`RunModel::inv`].
pub proof fn lemma_steps_keep_inv(
    run: RunModel,
    buffer: SpeechModel,
    batch: Seq<u32>,
    text: Option<Seq<char>>,
)
    requires
        run.inv(),
    ensures
        RunModel::ended().inv(),
        RunModel::started().inv(),
        run.stop_requested().inv(),
        run.collect(buffer, batch).0.inv(),
        run.capture_ended().inv(),
        run.transcriber_step(buffer).0.inv(),
        run.recognized(text).inv(),
        run.translator_step().0.inv(),
        run.translated(text).0.inv(),
{
}

/// One recording session.
#[derive(Debug)]
pub struct PipelineRun {
    stop: bool,
    collector: CollectorState,
    ready_pending: bool,
    transcriber: TranscriberState,
    text_pending: Option<String>,
    translator: TranslatorState,
}

impl View for PipelineRun {
    type V = RunModel;

    closed spec fn view(&self) -> RunModel {
        RunModel {
            stop: self.stop,
            collector: self.collector,
            ready_pending: self.ready_pending,
            transcriber: self.transcriber@,
            text_pending: match self.text_pending {
                Some(text) => Some(text@),
                None => None,
            },
            translator: self.translator@,
        }
    }
}

impl PipelineRun {
    /// No session: every stage has exited.
    pub fn ended() -> (run: PipelineRun)
        ensures
            run@ == RunModel::ended(),
    {
        PipelineRun {
            stop: false,
            collector: CollectorState::Exited,
            ready_pending: false,
            transcriber: TranscriberState::Exited,
            text_pending: None,
            translator: TranslatorState::Exited,
        }
    }

    /// A session at its start: the three stages wait at their channels.
    pub fn started() -> (run: PipelineRun)
        ensures
            run@ == RunModel::started(),
    {
        PipelineRun {
            stop: false,
            collector: CollectorState::Collecting,
            ready_pending: false,
            transcriber: TranscriberState::Waiting,
            text_pending: None,
            translator: TranslatorState::Waiting,
        }
    }

    fn transcriber_exited(&self) -> (exited: bool)
        ensures
            exited == (self@.transcriber is Exited),
    {
        match &self.transcriber {
            TranscriberState::Exited => true,
            _ => false,
        }
    }

    fn translator_exited(&self) -> (exited: bool)
        ensures
            exited == (self@.translator is Exited),
    {
        match &self.translator {
            TranslatorState::Exited => true,
            _ => false,
        }
    }

    fn collector_exited(&self) -> (exited: bool)
        ensures
            exited == (self@.collector is Exited),
    {
        match self.collector {
            CollectorState::Exited => true,
            CollectorState::Collecting => false,
        }
    }

    /// Whether every stage has exited.
    pub fn is_idle(&self) -> (idle: bool)
        ensures
            idle == self@.idle(),
    {
        self.collector_exited() && self.transcriber_exited() && self.translator_exited()
    }

    /// Where the session stands.
    pub fn phase(&self) -> (phase: Phase)
        ensures
            phase == self@.phase(),
    {
        if self.is_idle() {
            Phase::Idle
        } else if self.stop {
            Phase::Stopping
        } else {
            Phase::Recording
        }
    }

    /// Whether a stop was requested.
    pub fn stop_requested(&self) -> (stop: bool)
        ensures
            stop == self@.stop,
    {
        self.stop
    }

    /// Sets the stop flag. Every stage that is still running exits at its
    /// next channel operation. Returns whether there was a stage to stop.
    pub fn request_stop(&mut self) -> (active: bool)
        ensures
            final(self)@ == old(self)@.stop_requested(),
            active == !old(self)@.idle(),
    {
        if self.is_idle() {
            false
        } else {
            self.stop = true;
            true
        }
    }

    /// The collector receives a batch of samples. Unless it has exited or
    /// sees the stop flag, it buffers the batch and, where recognition is
    /// due, raises the readiness signal, once for as long as the signal is
    /// not taken.
    pub fn collect(&mut self, buffer: &mut SpeechBuffer, batch: &[u32]) -> (outcome:
        CollectOutcome)
        requires
            old(buffer).wf(),
        ensures
            final(buffer).wf(),
            (final(self)@, final(buffer)@, outcome) == old(self)@.collect(old(buffer)@, batch@),
    {
        if self.collector_exited() {
            CollectOutcome::Ignored
        } else if self.stop {
            self.collector = CollectorState::Exited;
            CollectOutcome::Exited
        } else {
            buffer.push(batch);
            if !buffer.can_transcribe() {
                CollectOutcome::Buffered
            } else if self.ready_pending {
                CollectOutcome::Coalesced
            } else {
                self.ready_pending = true;
                CollectOutcome::Signalled
            }
        }
    }

    /// The collector learns that capture has ended and exits, which closes
    /// the channel to the transcriber.
    pub fn capture_ended(&mut self)
        ensures
            final(self)@ == old(self)@.capture_ended(),
    {
        self.collector = CollectorState::Exited;
    }

    /// One step of the transcriber: it exits on the stop flag or on a closed
    /// and empty channel, takes a waiting signal and asks for the utterance
    /// to be recognised, or passes a recognised text on.
    pub fn transcriber_step(&mut self, buffer: &mut SpeechBuffer) -> (work: TranscriberWork)
        requires
            old(buffer).wf(),
        ensures
            final(buffer).wf(),
            (final(self)@, final(buffer)@, work@) == old(self)@.transcriber_step(old(buffer)@),
    {
        let mut state = TranscriberState::Exited;
        core::mem::swap(&mut self.transcriber, &mut state);
        match state {
            TranscriberState::Exited => TranscriberWork::Exited,
            TranscriberState::Recognizing => {
                self.transcriber = TranscriberState::Recognizing;
                TranscriberWork::Busy
            },
            TranscriberState::Waiting => {
                if self.stop {
                    TranscriberWork::Exited
                } else if self.ready_pending {
                    self.ready_pending = false;
                    match buffer.take_utterance() {
                        Some(utterance) => {
                            self.transcriber = TranscriberState::Recognizing;
                            TranscriberWork::Recognize(utterance)
                        },
                        None => {
                            self.transcriber = TranscriberState::Waiting;
                            TranscriberWork::Skipped
                        },
                    }
                } else if self.collector_exited() {
                    TranscriberWork::Exited
                } else {
                    self.transcriber = TranscriberState::Waiting;
                    TranscriberWork::Idle
                }
            },
            TranscriberState::Forwarding(text) => {
                if self.stop || self.translator_exited() {
                    TranscriberWork::Exited
                } else if self.text_pending.is_none() {
                    self.text_pending = Some(text);
                    self.transcriber = TranscriberState::Waiting;
                    TranscriberWork::Forwarded
                } else {
                    self.transcriber = TranscriberState::Forwarding(text);
                    TranscriberWork::Blocked
                }
            },
        }
    }

    /// Reports the result of the recognition call that was in flight.
    pub fn recognized(&mut self, text: Option<String>)
        ensures
            final(self)@ == old(self)@.recognized(
                match text {
                    Some(text) => Some(text@),
                    None => None,
                },
            ),
    {
        let in_flight = match &self.transcriber {
            TranscriberState::Recognizing => true,
            _ => false,
        };
        if in_flight {
            match text {
                Some(text) => {
                    self.transcriber = TranscriberState::Forwarding(text);
                },
                None => {
                    self.transcriber = TranscriberState::Waiting;
                },
            }
        }
    }

    /// One step of the translator: it ends the session on the stop flag or
    /// on a closed and empty channel, answers the recogniser's "no speech"
    /// marker with the blank caption without a translation call, or asks for
    /// a waiting text to be translated.
    pub fn translator_step(&mut self) -> (work: TranslatorWork)
        ensures
            (final(self)@, work@) == old(self)@.translator_step(),
    {
        let mut state = TranslatorState::Exited;
        core::mem::swap(&mut self.translator, &mut state);
        match state {
            TranslatorState::Exited => TranslatorWork::Exited,
            TranslatorState::Translating(text) => {
                self.translator = TranslatorState::Translating(text);
                TranslatorWork::Busy
            },
            TranslatorState::Waiting => {
                if self.stop {
                    TranslatorWork::Emit(Caption::SessionEnd)
                } else {
                    match self.text_pending.take() {
                        Some(text) => {
                            if is_blank_marker(&text) {
                                self.translator = TranslatorState::Waiting;
                                TranslatorWork::Emit(Caption::Blank)
                            } else {
                                let copy = text.clone();
                                self.translator = TranslatorState::Translating(text);
                                TranslatorWork::Translate(copy)
                            }
                        },
                        None => {
                            if self.transcriber_exited() {
                                TranslatorWork::Emit(Caption::SessionEnd)
                            } else {
                                self.translator = TranslatorState::Waiting;
                                TranslatorWork::Idle
                            }
                        },
                    }
                }
            },
        }
    }

    /// Reports the result of the translation call that was in flight and
    /// returns the caption to send, if there is one.
    pub fn translated(&mut self, translation: Option<String>) -> (caption: Option<Caption>)
        ensures
            final(self)@ == old(self)@.translated(
                match translation {
                    Some(text) => Some(text@),
                    None => None,
                },
            ).0,
            match caption {
                Some(caption) => Some(caption@),
                None => None,
            } == old(self)@.translated(
                match translation {
                    Some(text) => Some(text@),
                    None => None,
                },
            ).1,
    {
        let mut state = TranslatorState::Waiting;
        core::mem::swap(&mut self.translator, &mut state);
        match state {
            TranslatorState::Translating(original) => match translation {
                Some(translated) => Some(Caption::Utterance { original, translated }),
                None => None,
            },
            other => {
                self.translator = other;
                None
            },
        }
    }
}

} // verus!
