//! The model catalog: a fixed, closed set of speech-model variants with
//! build-time metadata (identifier, canonical filename, download URL,
//! approximate size, display label).

use vstd::prelude::*;

use crate::errors::SpeechError;
use crate::text::str_eq;

verus! {

/// The supported model size variants.
#[derive(Clone, Copy, Debug, PartialEq, Eq, Structural)]
pub enum WhisperModel {
    Tiny,
    Base,
    Small,
    Medium,
    Turbo,
    Large,
}

impl WhisperModel {
    /// The stable identifier promised by [`Self::key`].
    pub open spec fn spec_key(self) -> Seq<char> {
        match self {
            WhisperModel::Tiny => "tiny"@,
            WhisperModel::Base => "base"@,
            WhisperModel::Small => "small"@,
            WhisperModel::Medium => "medium"@,
            WhisperModel::Turbo => "turbo"@,
            WhisperModel::Large => "large"@,
        }
    }

    /// The stable lower-case identifier of this variant.
    pub fn key(&self) -> (r: &'static str)
        ensures
            r@ == self.spec_key(),
    {
        match self {
            WhisperModel::Tiny => "tiny",
            WhisperModel::Base => "base",
            WhisperModel::Small => "small",
            WhisperModel::Medium => "medium",
            WhisperModel::Turbo => "turbo",
            WhisperModel::Large => "large",
        }
    }

    /// The canonical filename promised by [`Self::filename`].
    pub open spec fn spec_filename(self) -> Seq<char> {
        match self {
            WhisperModel::Tiny => "ggml-tiny.bin"@,
            WhisperModel::Base => "ggml-base.bin"@,
            WhisperModel::Small => "ggml-small.bin"@,
            WhisperModel::Medium => "ggml-medium.bin"@,
            WhisperModel::Turbo => "ggml-large-v3-turbo.bin"@,
            WhisperModel::Large => "ggml-large-v3.bin"@,
        }
    }

    /// The canonical filename of this variant's artifact.
    pub fn filename(&self) -> (r: &'static str)
        ensures
            r@ == self.spec_filename(),
    {
        match self {
            WhisperModel::Tiny => "ggml-tiny.bin",
            WhisperModel::Base => "ggml-base.bin",
            WhisperModel::Small => "ggml-small.bin",
            WhisperModel::Medium => "ggml-medium.bin",
            WhisperModel::Turbo => "ggml-large-v3-turbo.bin",
            WhisperModel::Large => "ggml-large-v3.bin",
        }
    }

    /// The download URL promised by [`Self::download_url`].
    pub open spec fn spec_download_url(self) -> Seq<char> {
        match self {
            WhisperModel::Tiny => "https://huggingface.co/ggerganov/whisper.cpp/resolve/main/ggml-tiny.bin"@,
            WhisperModel::Base => "https://huggingface.co/ggerganov/whisper.cpp/resolve/main/ggml-base.bin"@,
            WhisperModel::Small => "https://huggingface.co/ggerganov/whisper.cpp/resolve/main/ggml-small.bin"@,
            WhisperModel::Medium => "https://huggingface.co/ggerganov/whisper.cpp/resolve/main/ggml-medium.bin"@,
            WhisperModel::Turbo => "https://huggingface.co/ggerganov/whisper.cpp/resolve/main/ggml-large-v3-turbo.bin"@,
            WhisperModel::Large => "https://huggingface.co/ggerganov/whisper.cpp/resolve/main/ggml-large-v3.bin"@,
        }
    }

    /// The canonical URL the artifact is fetched from.
    pub fn download_url(&self) -> (r: &'static str)
        ensures
            r@ == self.spec_download_url(),
    {
        match self {
            WhisperModel::Tiny => "https://huggingface.co/ggerganov/whisper.cpp/resolve/main/ggml-tiny.bin",
            WhisperModel::Base => "https://huggingface.co/ggerganov/whisper.cpp/resolve/main/ggml-base.bin",
            WhisperModel::Small => "https://huggingface.co/ggerganov/whisper.cpp/resolve/main/ggml-small.bin",
            WhisperModel::Medium => "https://huggingface.co/ggerganov/whisper.cpp/resolve/main/ggml-medium.bin",
            WhisperModel::Turbo => "https://huggingface.co/ggerganov/whisper.cpp/resolve/main/ggml-large-v3-turbo.bin",
            WhisperModel::Large => "https://huggingface.co/ggerganov/whisper.cpp/resolve/main/ggml-large-v3.bin",
        }
    }

    /// The approximate artifact size in megabytes promised by
    /// [`Self::size_mb`].
    pub open spec fn spec_size_mb(self) -> u32 {
        match self {
            WhisperModel::Tiny => 75u32,
            WhisperModel::Base => 142u32,
            WhisperModel::Small => 466u32,
            WhisperModel::Medium => 1500u32,
            WhisperModel::Turbo => 809u32,
            WhisperModel::Large => 3100u32,
        }
    }

    /// The approximate artifact size in megabytes.
    pub fn size_mb(&self) -> (r: u32)
        ensures
            r == self.spec_size_mb(),
    {
        match self {
            WhisperModel::Tiny => 75,
            WhisperModel::Base => 142,
            WhisperModel::Small => 466,
            WhisperModel::Medium => 1500,
            WhisperModel::Turbo => 809,
            WhisperModel::Large => 3100,
        }
    }

    /// The display label promised by [`Self::display_name`].
    pub open spec fn spec_display_name(self) -> Seq<char> {
        match self {
            WhisperModel::Tiny => "Tiny (75MB)"@,
            WhisperModel::Base => "Base (142MB)"@,
            WhisperModel::Small => "Small (466MB)"@,
            WhisperModel::Medium => "Medium (1.5GB)"@,
            WhisperModel::Turbo => "Turbo (809MB) - 推荐"@,
            WhisperModel::Large => "Large (3.1GB)"@,
        }
    }

    /// The human-readable label of this variant.
    pub fn display_name(&self) -> (r: &'static str)
        ensures
            r@ == self.spec_display_name(),
    {
        match self {
            WhisperModel::Tiny => "Tiny (75MB)",
            WhisperModel::Base => "Base (142MB)",
            WhisperModel::Small => "Small (466MB)",
            WhisperModel::Medium => "Medium (1.5GB)",
            WhisperModel::Turbo => "Turbo (809MB) - 推荐",
            WhisperModel::Large => "Large (3.1GB)",
        }
    }

    /// Every catalog variant, in catalog order.
    pub open spec fn spec_all() -> Seq<WhisperModel> {
        seq![
            WhisperModel::Tiny,
            WhisperModel::Base,
            WhisperModel::Small,
            WhisperModel::Medium,
            WhisperModel::Turbo,
            WhisperModel::Large,
        ]
    }

    /// List every catalog variant, in catalog order.
    pub fn all() -> (r: Vec<WhisperModel>)
        ensures
            r@ == Self::spec_all(),
    {
        let mut v: Vec<WhisperModel> = Vec::new();
        v.push(WhisperModel::Tiny);
        v.push(WhisperModel::Base);
        v.push(WhisperModel::Small);
        v.push(WhisperModel::Medium);
        v.push(WhisperModel::Turbo);
        v.push(WhisperModel::Large);
        proof {
            assert(v@ =~= Self::spec_all());
        }
        v
    }

    /// Resolve a user-supplied key to a variant.
    ///
    /// Succeeds exactly on the six stable identifiers; every other key is
    /// rejected with [`SpeechError::InvalidModel`].
    pub fn from_key(key: &str) -> (r: Result<WhisperModel, SpeechError>)
        ensures
            match r {
                Ok(m) => key@ == m.spec_key(),
                Err(e) => e == SpeechError::InvalidModel && forall|m: WhisperModel|
                    key@ != #[trigger] m.spec_key(),
            },
    {
        if str_eq(key, "tiny") {
            Ok(WhisperModel::Tiny)
        } else if str_eq(key, "base") {
            Ok(WhisperModel::Base)
        } else if str_eq(key, "small") {
            Ok(WhisperModel::Small)
        } else if str_eq(key, "medium") {
            Ok(WhisperModel::Medium)
        } else if str_eq(key, "turbo") {
            Ok(WhisperModel::Turbo)
        } else if str_eq(key, "large") {
            Ok(WhisperModel::Large)
        } else {
            Err(SpeechError::InvalidModel)
        }
    }
}

impl Default for WhisperModel {
    /// The variant selected when none is configured.
    fn default() -> (r: Self)
        ensures
            r == WhisperModel::Turbo,
    {
        WhisperModel::Turbo
    }
}

/// Distinct variants have distinct canonical filenames, so their catalog
/// metadata can never collide on disk.
pub proof fn lemma_filename_injective(a: WhisperModel, b: WhisperModel)
    ensures
        a != b ==> a.spec_filename() != b.spec_filename(),
{
    reveal_strlit("ggml-tiny.bin");
    reveal_strlit("ggml-base.bin");
    reveal_strlit("ggml-small.bin");
    reveal_strlit("ggml-medium.bin");
    reveal_strlit("ggml-large-v3-turbo.bin");
    reveal_strlit("ggml-large-v3.bin");
    if a != b && a.spec_filename().len() == b.spec_filename().len() {
        assert(a.spec_filename()[5] != b.spec_filename()[5]);
    }
}

} // verus!
