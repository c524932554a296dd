//! What the pipeline tells the display: captions, and the pair of texts each
//! one is shown as.

use vstd::prelude::*;
use vstd::string::StringExecFns;

verus! {

/// The text the recogniser returns for audio without speech.
pub open spec fn blank_marker() -> Seq<char> {
    " [BLANK_AUDIO]"@
}

/// Whether a recognised text is the recogniser's "no speech" marker. The
/// match is exact: the marker with other text around it is an utterance.
pub fn is_blank_marker(text: &String) -> (blank: bool)
    ensures
        blank == (text@ == blank_marker()),
{
    let marker = String::from_str(" [BLANK_AUDIO]");
    *text == marker
}

/// One message from the pipeline to the display.
#[derive(Debug, PartialEq, Eq)]
pub enum Caption {
    /// A session was accepted and waits for audio.
    Waiting,
    /// A recognised utterance with its translation.
    Utterance { original: String, translated: String },
    /// The recogniser heard no speech.
    Blank,
    /// Recording was paused on request.
    Paused,
    /// The session is over; nothing follows.
    SessionEnd,
}

/// The mathematical value of a [`Caption`].
pub enum CaptionModel {
    Waiting,
    Utterance { original: Seq<char>, translated: Seq<char> },
    Blank,
    Paused,
    SessionEnd,
}

impl View for Caption {
    type V = CaptionModel;

    open spec fn view(&self) -> CaptionModel {
        match self {
            Caption::Waiting => CaptionModel::Waiting,
            Caption::Utterance { original, translated } => CaptionModel::Utterance {
                original: original@,
                translated: translated@,
            },
            Caption::Blank => CaptionModel::Blank,
            Caption::Paused => CaptionModel::Paused,
            Caption::SessionEnd => CaptionModel::SessionEnd,
        }
    }
}

impl CaptionModel {
    /// The original and the translated text a caption is shown as. The end
    /// of a session is the pair of two empty texts.
    pub open spec fn pair(self) -> (Seq<char>, Seq<char>) {
        match self {
            CaptionModel::Waiting => ("wait for audio"@, "等待音频"@),
            CaptionModel::Utterance { original, translated } => (original, translated),
            CaptionModel::Blank => ("BLANK_AUDIO"@, "空白"@),
            CaptionModel::Paused => ("已暂停"@, ""@),
            CaptionModel::SessionEnd => (""@, ""@),
        }
    }
}

/// The pair of texts sent to the display.
#[derive(Debug, PartialEq, Eq)]
pub struct Event {
    pub original_text: String,
    pub translated_text: String,
}

impl Caption {
    /// The event a caption is sent as.
    pub fn into_event(self) -> (event: Event)
        ensures
            (event.original_text@, event.translated_text@) == self@.pair(),
    {
        match self {
            Caption::Waiting => Event {
                original_text: String::from_str("wait for audio"),
                translated_text: String::from_str("等待音频"),
            },
            Caption::Utterance { original, translated } => Event {
                original_text: original,
                translated_text: translated,
            },
            Caption::Blank => Event {
                original_text: String::from_str("BLANK_AUDIO"),
                translated_text: String::from_str("空白"),
            },
            Caption::Paused => Event {
                original_text: String::from_str("已暂停"),
                translated_text: String::from_str(""),
            },
            Caption::SessionEnd => Event {
                original_text: String::from_str(""),
                translated_text: String::from_str(""),
            },
        }
    }

    /// Whether this caption ends a session.
    pub fn is_session_end(&self) -> (end: bool)
        ensures
            end == (self@ is SessionEnd),
    {
        match self {
            Caption::SessionEnd => true,
            _ => false,
        }
    }
}

} // verus!
