//! The transcription engine's state machine.
//!
//! The decoder itself — loading weights, running a greedy decoding pass
//! over the samples — runs in the unverified shell. This module owns the
//! engine's state (loaded or not, selected variant, configured language),
//! decides how the decoder must be configured, and assembles the decoder's
//! segments into the final transcript.

use vstd::prelude::*;

use crate::catalog::WhisperModel;
use crate::errors::SpeechError;
use crate::text::{concat_views, spec_trim, str_eq, concat_all, trim};

verus! {

/// How the decoder's language is to be configured for the next run.
#[derive(Clone, Debug)]
pub enum LanguageChoice {
    /// Detect the language from the audio.
    Detect,
    /// Force this language code.
    Forced(String),
}

/// The engine: an optionally loaded model context plus a configured
/// language code, `"auto"` meaning detection.
pub struct WhisperEngine {
    loaded: bool,
    current_model: WhisperModel,
    language: String,
}

impl WhisperEngine {
    /// Whether a model context is loaded.
    pub closed spec fn spec_loaded(self) -> bool {
        self.loaded
    }

    /// The engine's selected variant.
    pub closed spec fn spec_current_model(self) -> WhisperModel {
        self.current_model
    }

    /// The configured language code.
    pub closed spec fn spec_language(self) -> Seq<char> {
        self.language@
    }

    /// The state after the shell reports a load attempt: a success loads a
    /// context (discarding any previous one); a failure leaves the engine
    /// exactly as it was, keeping whatever context it had.
    pub closed spec fn spec_record_load(self, success: bool) -> WhisperEngine {
        if success {
            WhisperEngine { loaded: true, ..self }
        } else {
            self
        }
    }

    /// A fresh engine: nothing loaded, default variant, language
    /// detection.
    pub fn new() -> (r: WhisperEngine)
        ensures
            !r.spec_loaded(),
            r.spec_current_model() == WhisperModel::Turbo,
            r.spec_language() == "auto"@,
    {
        WhisperEngine {
            loaded: false,
            current_model: WhisperModel::default(),
            language: "auto".to_owned(),
        }
    }

    /// Whether a model context is loaded.
    pub fn is_loaded(&self) -> (r: bool)
        ensures
            r == self.spec_loaded(),
    {
        self.loaded
    }

    /// The engine's selected variant.
    pub fn current_model(&self) -> (r: WhisperModel)
        ensures
            r == self.spec_current_model(),
    {
        self.current_model
    }

    /// The configured language code.
    pub fn language(&self) -> (r: &String)
        ensures
            r@ == self.spec_language(),
    {
        &self.language
    }

    /// Set the language for transcription; `"auto"` selects detection.
    /// Takes effect from the next decoding run; the loaded context is
    /// untouched.
    pub fn set_language(&mut self, language: &str)
        ensures
            final(self).spec_language() == language@,
            final(self).spec_loaded() == old(self).spec_loaded(),
            final(self).spec_current_model() == old(self).spec_current_model(),
    {
        self.language = language.to_owned();
    }

    /// The shell reports the outcome of loading a model file. A failed
    /// load leaves the engine exactly as it was.
    pub fn record_load_result(&mut self, success: bool)
        ensures
            *final(self) == old(self).spec_record_load(success),
            final(self).spec_loaded() == (old(self).spec_loaded() || success),
            final(self).spec_language() == old(self).spec_language(),
            final(self).spec_current_model() == old(self).spec_current_model(),
    {
        if success {
            self.loaded = true;
        }
    }

    /// Decide how the decoder must be configured before a run.
    ///
    /// Fails with [`SpeechError::Model`] exactly when no context is
    /// loaded. Otherwise directs the decoder to detect the language
    /// exactly when the configured code is `"auto"`, and to force the
    /// configured code otherwise.
    pub fn begin_transcription(&self) -> (r: Result<LanguageChoice, SpeechError>)
        ensures
            match r {
                Ok(c) => self.spec_loaded() && match c {
                    LanguageChoice::Detect => self.spec_language() == "auto"@,
                    LanguageChoice::Forced(code) => self.spec_language() != "auto"@ && code@
                        == self.spec_language(),
                },
                Err(e) => e == SpeechError::Model && !self.spec_loaded(),
            },
    {
        if !self.loaded {
            return Err(SpeechError::Model);
        }
        if str_eq(self.language.as_str(), "auto") {
            Ok(LanguageChoice::Detect)
        } else {
            Ok(LanguageChoice::Forced(self.language.clone()))
        }
    }

    /// Assemble the decoder's output segments into the final transcript.
    ///
    /// Fails with [`SpeechError::Model`] exactly when no context is
    /// loaded. Otherwise the transcript is the segments concatenated in
    /// emission order, trimmed of leading and trailing whitespace.
    pub fn transcribe(&self, segments: &Vec<String>) -> (r: Result<String, SpeechError>)
        ensures
            match r {
                Ok(text) => self.spec_loaded() && text@ == spec_trim(concat_views(segments@)),
                Err(e) => e == SpeechError::Model && !self.spec_loaded(),
            },
    {
        if !self.loaded {
            return Err(SpeechError::Model);
        }
        let joined = concat_all(segments);
        Ok(trim(joined.as_str()))
    }
}

impl Default for WhisperEngine {
    /// Same as [`WhisperEngine::new`].
    fn default() -> (r: Self)
        ensures
            !r.spec_loaded(),
            r.spec_current_model() == WhisperModel::Turbo,
            r.spec_language() == "auto"@,
    {
        WhisperEngine::new()
    }
}

/// A successful load leaves the engine loaded whatever its state was, and
/// a failed load changes nothing — so a transcription that follows a
/// successful load cannot be rejected for a missing context.
pub proof fn lemma_load_outcome(e: WhisperEngine)
    ensures
        e.spec_record_load(true).spec_loaded(),
        e.spec_record_load(false) == e,
{
}

} // verus!
