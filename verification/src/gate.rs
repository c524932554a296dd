//! The readiness gate: which of the two engines have been installed. A
//! session may start only when both are.

use vstd::prelude::*;
use vstd::string::StringExecFns;

verus! {

/// The two engines a session needs.
#[derive(Debug, Clone, Copy, PartialEq, Eq, Structural)]
pub enum EngineKind {
    /// Speech recognition.
    Recognition,
    /// Translation of the recognised text.
    Translation,
}

/// The file name of the recognition model.
pub open spec fn recognition_file() -> Seq<char> {
    "ggml-base-q5_1.bin"@
}

/// The file name of the translation model.
pub open spec fn translation_file() -> Seq<char> {
    "opus-mt-en-zh.bin"@
}

/// The engine a model file belongs to, by its name.
pub open spec fn kind_of_file(name: Seq<char>) -> Option<EngineKind> {
    if name == recognition_file() {
        Some(EngineKind::Recognition)
    } else if name == translation_file() {
        Some(EngineKind::Translation)
    } else {
        None
    }
}

impl EngineKind {
    /// The engine that the model file of this name belongs to; `None` for a
    /// name that is neither model's.
    pub fn from_file_name(name: &str) -> (kind: Option<EngineKind>)
        ensures
            kind == kind_of_file(name@),
    {
        let name = String::from_str(name);
        if name == String::from_str("ggml-base-q5_1.bin") {
            Some(EngineKind::Recognition)
        } else if name == String::from_str("opus-mt-en-zh.bin") {
            Some(EngineKind::Translation)
        } else {
            None
        }
    }

    /// The name of this engine's model file.
    pub fn file_name(self) -> (name: String)
        ensures
            kind_of_file(name@) == Some(self),
    {
        proof {
            lemma_model_files_differ();
        }
        match self {
            EngineKind::Recognition => String::from_str("ggml-base-q5_1.bin"),
            EngineKind::Translation => String::from_str("opus-mt-en-zh.bin"),
        }
    }
}

/// The two model files have different names.
pub proof fn lemma_model_files_differ()
    ensures
        recognition_file() != translation_file(),
{
    reveal_strlit("ggml-base-q5_1.bin");
    reveal_strlit("opus-mt-en-zh.bin");
    assert(recognition_file().len() != translation_file().len());
}

/// What to do at launch with a model that the registry of downloads lists.
#[derive(Debug, Clone, Copy, PartialEq, Eq, Structural)]
pub enum RegistryAction {
    /// The download is complete and the file is there: install the engine.
    Install,
    /// The entry is stale: remove it from the registry.
    Forget,
}

/// The rule for a listed model: it is installed only if its download was
/// recorded as completed and its file is present.
pub open spec fn registry_rule(status: Seq<char>, file_present: bool) -> RegistryAction {
    if status == "completed"@ && file_present {
        RegistryAction::Install
    } else {
        RegistryAction::Forget
    }
}

/// Decides what to do at launch with a listed model, from the status the
/// registry records for it and whether its file is present.
pub fn registry_action(status: &str, file_present: bool) -> (action: RegistryAction)
    ensures
        action == registry_rule(status@, file_present),
{
    if file_present && String::from_str(status) == String::from_str("completed") {
        RegistryAction::Install
    } else {
        RegistryAction::Forget
    }
}

/// Which engines are installed.
#[derive(Debug, Clone, Copy, PartialEq, Eq, Structural)]
pub struct ReadinessGate {
    pub recognition: bool,
    pub translation: bool,
}

impl ReadinessGate {
    /// Whether the engine of this kind is installed.
    pub open spec fn installed(self, kind: EngineKind) -> bool {
        match kind {
            EngineKind::Recognition => self.recognition,
            EngineKind::Translation => self.translation,
        }
    }

    /// Whether both engines are installed.
    pub open spec fn ready(self) -> bool {
        self.recognition && self.translation
    }

    /// This gate after the given engine has been recorded as installed.
    pub open spec fn with(self, kind: EngineKind) -> ReadinessGate {
        match kind {
            EngineKind::Recognition => ReadinessGate { recognition: true, ..self },
            EngineKind::Translation => ReadinessGate { translation: true, ..self },
        }
    }

    /// A gate with no engine installed.
    pub fn new() -> (gate: ReadinessGate)
        ensures
            !gate.recognition,
            !gate.translation,
    {
        ReadinessGate { recognition: false, translation: false }
    }

    /// Whether the engine of this kind is installed.
    pub fn is_installed(&self, kind: EngineKind) -> (installed: bool)
        ensures
            installed == self.installed(kind),
    {
        match kind {
            EngineKind::Recognition => self.recognition,
            EngineKind::Translation => self.translation,
        }
    }

    /// Whether both engines are installed.
    pub fn is_ready(&self) -> (ready: bool)
        ensures
            ready == self.ready(),
    {
        self.recognition && self.translation
    }

    /// Records that the engine of this kind has been installed. Returns
    /// whether it was missing before; an engine that is already installed
    /// stays as it is.
    pub fn set_model(&mut self, kind: EngineKind) -> (fresh: bool)
        ensures
            *final(self) == old(self).with(kind),
            fresh == !old(self).installed(kind),
    {
        let fresh = !self.is_installed(kind);
        match kind {
            EngineKind::Recognition => {
                self.recognition = true;
            },
            EngineKind::Translation => {
                self.translation = true;
            },
        }
        fresh
    }
}

} // verus!
