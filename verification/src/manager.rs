//! On-disk lifecycle of model artifacts.
//!
//! The manager tracks, for every catalog variant, what the models
//! directory holds: whether the canonical file is installed, and whether a
//! transfer into the temporary sibling file is in flight. The unverified
//! shell performs the actual filesystem and network work and mirrors each
//! step here, so the transition contracts below are the authority on when
//! the canonical path may come into existence: only `complete_download`
//! ever sets the installed flag of a transfer; beginning, receiving chunks
//! and aborting never do.

use vstd::prelude::*;

use crate::catalog::WhisperModel;
use crate::errors::SpeechError;

verus! {

/// An in-flight transfer: bytes received so far, and the total the server
/// announced (`0` when the length is unknown).
#[derive(Clone, Copy, Debug, PartialEq, Eq, Structural)]
pub struct Transfer {
    pub received: u64,
    pub total: u64,
}

/// What the models directory holds for one variant.
#[derive(Clone, Copy, Debug)]
pub struct ArtifactState {
    /// Whether the canonical file is present and complete.
    pub installed: bool,
    /// The transfer into the temporary file, if one is in flight.
    pub transfer: Option<Transfer>,
}

/// A read-only projection of one variant's status, computed on demand.
#[derive(Clone, Debug)]
pub struct ModelStatus {
    pub model: WhisperModel,
    pub is_downloaded: bool,
    pub display_name: String,
    pub size_mb: u32,
}

/// Owner of the models directory and of the artifact lifecycle.
pub struct ModelManager {
    models_dir: String,
    tiny: ArtifactState,
    base: ArtifactState,
    small: ArtifactState,
    medium: ArtifactState,
    turbo: ArtifactState,
    large: ArtifactState,
}

impl ModelManager {
    /// The models directory this manager resolves paths under.
    pub closed spec fn spec_dir(self) -> Seq<char> {
        self.models_dir@
    }

    /// The tracked state of one variant's artifact.
    pub closed spec fn state_of(self, m: WhisperModel) -> ArtifactState {
        match m {
            WhisperModel::Tiny => self.tiny,
            WhisperModel::Base => self.base,
            WhisperModel::Small => self.small,
            WhisperModel::Medium => self.medium,
            WhisperModel::Turbo => self.turbo,
            WhisperModel::Large => self.large,
        }
    }

    /// Whether the canonical file of `m` is installed.
    pub open spec fn spec_installed(self, m: WhisperModel) -> bool {
        self.state_of(m).installed
    }

    /// The in-flight transfer of `m`, if any.
    pub open spec fn spec_transfer(self, m: WhisperModel) -> Option<Transfer> {
        self.state_of(m).transfer
    }

    /// `self` with the artifact state of `m` replaced.
    pub closed spec fn spec_with_state(self, m: WhisperModel, st: ArtifactState) -> ModelManager {
        match m {
            WhisperModel::Tiny => ModelManager { tiny: st, ..self },
            WhisperModel::Base => ModelManager { base: st, ..self },
            WhisperModel::Small => ModelManager { small: st, ..self },
            WhisperModel::Medium => ModelManager { medium: st, ..self },
            WhisperModel::Turbo => ModelManager { turbo: st, ..self },
            WhisperModel::Large => ModelManager { large: st, ..self },
        }
    }

    /// `post` agrees with `pre` on the directory and on every variant other
    /// than `m`.
    pub open spec fn eq_except(pre: ModelManager, post: ModelManager, m: WhisperModel) -> bool {
        &&& post.spec_dir() == pre.spec_dir()
        &&& forall|w: WhisperModel| w != m ==> #[trigger] post.state_of(w) == pre.state_of(w)
    }

    // -- spec-level transitions ---------------------------------------------

    /// A transfer for `m` begins: nothing received yet, canonical file
    /// untouched.
    pub open spec fn spec_begin_download(self, m: WhisperModel, total: u64) -> ModelManager {
        self.spec_with_state(
            m,
            ArtifactState {
                installed: self.spec_installed(m),
                transfer: Some(Transfer { received: 0, total }),
            },
        )
    }

    /// A chunk of `n` bytes lands in the temporary file of `m`.
    pub open spec fn spec_record_chunk(self, m: WhisperModel, n: u64) -> ModelManager {
        match self.spec_transfer(m) {
            Some(t) => self.spec_with_state(
                m,
                ArtifactState {
                    installed: self.spec_installed(m),
                    transfer: Some(
                        Transfer { received: (t.received + n) as u64, total: t.total },
                    ),
                },
            ),
            None => self,
        }
    }

    /// The finished temporary file of `m` is renamed onto the canonical
    /// path: the only transition that turns a transfer into an installed
    /// file.
    pub open spec fn spec_complete_download(self, m: WhisperModel) -> ModelManager {
        self.spec_with_state(m, ArtifactState { installed: true, transfer: None })
    }

    /// The transfer of `m` is abandoned; the canonical path is exactly as
    /// it was.
    pub open spec fn spec_abort_download(self, m: WhisperModel) -> ModelManager {
        self.spec_with_state(
            m,
            ArtifactState { installed: self.spec_installed(m), transfer: None },
        )
    }

    /// The canonical file of `m` is removed.
    pub open spec fn spec_delete(self, m: WhisperModel) -> ModelManager {
        self.spec_with_state(
            m,
            ArtifactState { installed: false, transfer: self.spec_transfer(m) },
        )
    }

    /// A canonical file of `m`, found already present, is recorded.
    pub open spec fn spec_note_installed(self, m: WhisperModel) -> ModelManager {
        self.spec_with_state(
            m,
            ArtifactState { installed: true, transfer: self.spec_transfer(m) },
        )
    }

    // -- executable interface -----------------------------------------------

    /// Create a manager for a models directory the shell has already
    /// resolved and created. Every artifact starts untracked: not
    /// installed, no transfer.
    pub fn new(models_dir: String) -> (r: ModelManager)
        ensures
            r.spec_dir() == models_dir@,
            forall|m: WhisperModel| !(#[trigger] r.spec_installed(m)),
            forall|m: WhisperModel| #[trigger] r.spec_transfer(m) is None,
    {
        let empty = ArtifactState { installed: false, transfer: None };
        let r = ModelManager {
            models_dir,
            tiny: empty,
            base: empty,
            small: empty,
            medium: empty,
            turbo: empty,
            large: empty,
        };
        proof {
            assert forall|m: WhisperModel| !(#[trigger] r.spec_installed(m))
                && #[trigger] r.spec_transfer(m) is None by {
                match m {
                    WhisperModel::Tiny => {},
                    WhisperModel::Base => {},
                    WhisperModel::Small => {},
                    WhisperModel::Medium => {},
                    WhisperModel::Turbo => {},
                    WhisperModel::Large => {},
                }
            }
        }
        r
    }

    /// Read one variant's tracked state.
    fn get_state(&self, m: WhisperModel) -> (r: ArtifactState)
        ensures
            r == self.state_of(m),
    {
        match m {
            WhisperModel::Tiny => self.tiny,
            WhisperModel::Base => self.base,
            WhisperModel::Small => self.small,
            WhisperModel::Medium => self.medium,
            WhisperModel::Turbo => self.turbo,
            WhisperModel::Large => self.large,
        }
    }

    /// Replace one variant's tracked state.
    fn set_state(&mut self, m: WhisperModel, st: ArtifactState)
        ensures
            *final(self) == old(self).spec_with_state(m, st),
    {
        match m {
            WhisperModel::Tiny => self.tiny = st,
            WhisperModel::Base => self.base = st,
            WhisperModel::Small => self.small = st,
            WhisperModel::Medium => self.medium = st,
            WhisperModel::Turbo => self.turbo = st,
            WhisperModel::Large => self.large = st,
        }
    }

    /// The models directory.
    pub fn models_directory(&self) -> (r: &String)
        ensures
            r@ == self.spec_dir(),
    {
        &self.models_dir
    }

    /// Deterministic join of the models directory and the variant's
    /// canonical filename.
    pub fn get_model_path(&self, model: WhisperModel) -> (r: String)
        ensures
            r@ == self.spec_dir() + "/"@ + model.spec_filename(),
    {
        let mut path = self.models_dir.clone();
        path.append("/");
        path.append(model.filename());
        path
    }

    /// The temporary sibling the transfer lands in before the atomic
    /// rename: the canonical filename with its extension replaced by
    /// `downloading`.
    pub fn temp_download_path(&self, model: WhisperModel) -> (r: String)
        ensures
            r@ == self.spec_dir() + "/"@ + model.spec_temp_filename(),
    {
        let mut path = self.models_dir.clone();
        path.append("/");
        path.append(model.temp_filename());
        path
    }

    /// Whether the canonical file of `model` is installed.
    pub fn is_model_available(&self, model: WhisperModel) -> (r: bool)
        ensures
            r == self.spec_installed(model),
    {
        self.get_state(model).installed
    }

    /// One conditional slice of [`Self::spec_available`].
    pub open spec fn avail_piece(self, m: WhisperModel) -> Seq<WhisperModel> {
        if self.spec_installed(m) {
            seq![m]
        } else {
            Seq::empty()
        }
    }

    /// The installed variants, in catalog order.
    pub open spec fn spec_available(self) -> Seq<WhisperModel> {
        self.avail_piece(WhisperModel::Tiny) + self.avail_piece(WhisperModel::Base)
            + self.avail_piece(WhisperModel::Small) + self.avail_piece(WhisperModel::Medium)
            + self.avail_piece(WhisperModel::Turbo) + self.avail_piece(WhisperModel::Large)
    }

    /// List the installed variants, in catalog order.
    pub fn get_available_models(&self) -> (r: Vec<WhisperModel>)
        ensures
            r@ == self.spec_available(),
    {
        let mut v: Vec<WhisperModel> = Vec::new();
        if self.is_model_available(WhisperModel::Tiny) {
            v.push(WhisperModel::Tiny);
        }
        if self.is_model_available(WhisperModel::Base) {
            v.push(WhisperModel::Base);
        }
        if self.is_model_available(WhisperModel::Small) {
            v.push(WhisperModel::Small);
        }
        if self.is_model_available(WhisperModel::Medium) {
            v.push(WhisperModel::Medium);
        }
        if self.is_model_available(WhisperModel::Turbo) {
            v.push(WhisperModel::Turbo);
        }
        if self.is_model_available(WhisperModel::Large) {
            v.push(WhisperModel::Large);
        }
        proof {
            assert(v@ =~= self.spec_available());
        }
        v
    }

    /// The status projection of one variant.
    fn status_of(&self, model: WhisperModel) -> (r: ModelStatus)
        ensures
            r.model == model,
            r.is_downloaded == self.spec_installed(model),
            r.display_name@ == model.spec_display_name(),
            r.size_mb == model.spec_size_mb(),
    {
        ModelStatus {
            model,
            is_downloaded: self.is_model_available(model),
            display_name: model.display_name().to_owned(),
            size_mb: model.size_mb(),
        }
    }

    /// Map every catalog variant to its status, in catalog order.
    pub fn get_all_models_status(&self) -> (r: Vec<ModelStatus>)
        ensures
            r@.len() == WhisperModel::spec_all().len(),
            forall|i: int|
                0 <= i < r@.len() ==> {
                    let m = WhisperModel::spec_all()[i];
                    &&& (#[trigger] r@[i]).model == m
                    &&& r@[i].is_downloaded == self.spec_installed(m)
                    &&& r@[i].display_name@ == m.spec_display_name()
                    &&& r@[i].size_mb == m.spec_size_mb()
                },
    {
        let models = WhisperModel::all();
        let mut v: Vec<ModelStatus> = Vec::new();
        let mut i: usize = 0;
        while i < models.len()
            invariant
                models@ == WhisperModel::spec_all(),
                i <= models@.len(),
                v@.len() == i,
                forall|k: int|
                    0 <= k < i ==> {
                        let m = WhisperModel::spec_all()[k];
                        &&& (#[trigger] v@[k]).model == m
                        &&& v@[k].is_downloaded == self.spec_installed(m)
                        &&& v@[k].display_name@ == m.spec_display_name()
                        &&& v@[k].size_mb == m.spec_size_mb()
                    },
            decreases models@.len() - i,
        {
            v.push(self.status_of(models[i]));
            i += 1;
        }
        v
    }

    /// Begin a transfer for `model`: the shell has created the temporary
    /// file and received the announced length (`0` when unknown). The
    /// canonical file is untouched.
    pub fn begin_download(&mut self, model: WhisperModel, total: u64)
        ensures
            *final(self) == old(self).spec_begin_download(model, total),
            ModelManager::eq_except(*old(self), *final(self), model),
            final(self).spec_transfer(model) == Some(Transfer { received: 0, total }),
            final(self).spec_installed(model) == old(self).spec_installed(model),
    {
        let installed = self.get_state(model).installed;
        self.set_state(
            model,
            ArtifactState { installed, transfer: Some(Transfer { received: 0, total }) },
        );
        proof {
            assert(ModelManager::eq_except(*old(self), *self, model));
        }
    }

    /// Record a chunk of `n` bytes written to the temporary file, and
    /// return the `(received, total)` pair owed to the progress callback.
    /// The canonical file is untouched.
    pub fn record_chunk(&mut self, model: WhisperModel, n: u64) -> (r: (u64, u64))
        requires
            old(self).spec_transfer(model) matches Some(t) && t.received + n <= u64::MAX,
        ensures
            *final(self) == old(self).spec_record_chunk(model, n),
            ModelManager::eq_except(*old(self), *final(self), model),
            old(self).spec_transfer(model) matches Some(t) ==> {
                &&& final(self).spec_transfer(model) == Some(
                    Transfer { received: (t.received + n) as u64, total: t.total },
                )
                &&& r == ((t.received + n) as u64, t.total)
            },
            final(self).spec_installed(model) == old(self).spec_installed(model),
    {
        let st = self.get_state(model);
        match st.transfer {
            Some(t) => {
                let received = t.received + n;
                self.set_state(
                    model,
                    ArtifactState {
                        installed: st.installed,
                        transfer: Some(Transfer { received, total: t.total }),
                    },
                );
                proof {
                    assert(ModelManager::eq_except(*old(self), *self, model));
                }
                (received, t.total)
            },
            None => {
                proof {
                    assert(false);
                }
                (0, 0)
            },
        }
    }

    /// The shell has renamed the finished temporary file onto the
    /// canonical path: the artifact becomes installed, atomically, and the
    /// transfer ends.
    pub fn complete_download(&mut self, model: WhisperModel)
        requires
            old(self).spec_transfer(model) is Some,
        ensures
            *final(self) == old(self).spec_complete_download(model),
            ModelManager::eq_except(*old(self), *final(self), model),
            final(self).spec_installed(model),
            final(self).spec_transfer(model) is None,
    {
        self.set_state(model, ArtifactState { installed: true, transfer: None });
        proof {
            assert(ModelManager::eq_except(*old(self), *self, model));
        }
    }

    /// The transfer failed or was abandoned and the temporary file is
    /// gone: the canonical path is exactly as it was before the download
    /// began.
    pub fn abort_download(&mut self, model: WhisperModel)
        ensures
            *final(self) == old(self).spec_abort_download(model),
            ModelManager::eq_except(*old(self), *final(self), model),
            final(self).spec_installed(model) == old(self).spec_installed(model),
            final(self).spec_transfer(model) is None,
    {
        let installed = self.get_state(model).installed;
        self.set_state(model, ArtifactState { installed, transfer: None });
        proof {
            assert(ModelManager::eq_except(*old(self), *self, model));
        }
    }

    /// The canonical file of `model` was removed (or was already absent):
    /// idempotent.
    pub fn delete_model(&mut self, model: WhisperModel)
        ensures
            *final(self) == old(self).spec_delete(model),
            ModelManager::eq_except(*old(self), *final(self), model),
            !final(self).spec_installed(model),
            final(self).spec_transfer(model) == old(self).spec_transfer(model),
    {
        let st = self.get_state(model);
        self.set_state(model, ArtifactState { installed: false, transfer: st.transfer });
        proof {
            assert(ModelManager::eq_except(*old(self), *self, model));
        }
    }

    /// Record a canonical file the shell found already present in the
    /// directory.
    pub fn note_installed(&mut self, model: WhisperModel)
        ensures
            *final(self) == old(self).spec_note_installed(model),
            ModelManager::eq_except(*old(self), *final(self), model),
            final(self).spec_installed(model),
            final(self).spec_transfer(model) == old(self).spec_transfer(model),
    {
        let st = self.get_state(model);
        self.set_state(model, ArtifactState { installed: true, transfer: st.transfer });
        proof {
            assert(ModelManager::eq_except(*old(self), *self, model));
        }
    }
}

impl WhisperModel {
    /// The temporary filename promised by [`Self::temp_filename`].
    pub open spec fn spec_temp_filename(self) -> Seq<char> {
        match self {
            WhisperModel::Tiny => "ggml-tiny.downloading"@,
            WhisperModel::Base => "ggml-base.downloading"@,
            WhisperModel::Small => "ggml-small.downloading"@,
            WhisperModel::Medium => "ggml-medium.downloading"@,
            WhisperModel::Turbo => "ggml-large-v3-turbo.downloading"@,
            WhisperModel::Large => "ggml-large-v3.downloading"@,
        }
    }

    /// The filename the transfer lands in before the atomic rename.
    pub fn temp_filename(&self) -> (r: &'static str)
        ensures
            r@ == self.spec_temp_filename(),
    {
        match self {
            WhisperModel::Tiny => "ggml-tiny.downloading",
            WhisperModel::Base => "ggml-base.downloading",
            WhisperModel::Small => "ggml-small.downloading",
            WhisperModel::Medium => "ggml-medium.downloading",
            WhisperModel::Turbo => "ggml-large-v3-turbo.downloading",
            WhisperModel::Large => "ggml-large-v3.downloading",
        }
    }
}

/// Canonical model paths are deterministic and unique: the path of a
/// variant is a pure function of the manager's directory and the
/// variant's fixed filename — as [`ModelManager::get_model_path`]'s
/// contract states — and distinct variants always resolve to distinct
/// paths under the same directory.
pub proof fn lemma_model_path_unique(m: ModelManager, a: WhisperModel, b: WhisperModel)
    requires
        a != b,
    ensures
        m.spec_dir() + "/"@ + a.spec_filename() != m.spec_dir() + "/"@ + b.spec_filename(),
{
    crate::catalog::lemma_filename_injective(a, b);
    crate::text::lemma_append_right_injective(
        m.spec_dir() + "/"@,
        a.spec_filename(),
        b.spec_filename(),
    );
}

// ---------------------------------------------------------------------------
// The central lifecycle property.
// ---------------------------------------------------------------------------

/// The manager after `ns` chunks have been recorded for `m`, in order.
pub open spec fn spec_record_chunks(s: ModelManager, m: WhisperModel, ns: Seq<u64>) -> ModelManager
    decreases ns.len(),
{
    if ns.len() == 0 {
        s
    } else {
        spec_record_chunks(s.spec_record_chunk(m, ns[0]), m, ns.subrange(1, ns.len() as int))
    }
}

/// Recording chunks never changes which files are installed, for any
/// variant.
pub proof fn lemma_record_chunks_preserve_installed(
    s: ModelManager,
    m: WhisperModel,
    ns: Seq<u64>,
    w: WhisperModel,
)
    ensures
        spec_record_chunks(s, m, ns).spec_installed(w) == s.spec_installed(w),
    decreases ns.len(),
{
    if ns.len() > 0 {
        lemma_record_chunks_preserve_installed(
            s.spec_record_chunk(m, ns[0]),
            m,
            ns.subrange(1, ns.len() as int),
            w,
        );
    }
}

/// A download interrupted mid-transfer leaves the canonical path exactly
/// as it was: beginning a transfer, receiving any sequence of chunks and
/// aborting never changes whether any variant is installed, and leaves no
/// transfer behind.
pub proof fn lemma_interrupted_download_preserves_installed(
    s: ModelManager,
    m: WhisperModel,
    total: u64,
    ns: Seq<u64>,
    w: WhisperModel,
)
    ensures
        spec_record_chunks(s.spec_begin_download(m, total), m, ns).spec_abort_download(
            m,
        ).spec_installed(w) == s.spec_installed(w),
        spec_record_chunks(s.spec_begin_download(m, total), m, ns).spec_abort_download(
            m,
        ).spec_transfer(m) is None,
{
    lemma_record_chunks_preserve_installed(s.spec_begin_download(m, total), m, ns, w);
}

/// Only a completed transfer installs a file: after beginning a transfer
/// and receiving any sequence of chunks, completing the download is what
/// makes the variant installed.
pub proof fn lemma_complete_download_installs(
    s: ModelManager,
    m: WhisperModel,
    total: u64,
    ns: Seq<u64>,
)
    ensures
        spec_record_chunks(s.spec_begin_download(m, total), m, ns).spec_complete_download(
            m,
        ).spec_transfer(m) is None,
        spec_record_chunks(s.spec_begin_download(m, total), m, ns).spec_complete_download(
            m,
        ).spec_installed(m),
{
}

} // verus!
