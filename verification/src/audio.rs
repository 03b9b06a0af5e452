//! Microphone capture as an explicit producer/consumer state machine.
//!
//! The real input stream lives in the unverified shell: a driver-owned
//! callback hands sample batches to [`AudioRecorder::capture_callback`],
//! and the start/stop calls bound one recording session. Samples are
//! carried as the raw bit patterns of the device's 32-bit float frames;
//! the capture logic never interprets them numerically, so the buffer
//! holds plain `u32` words.

use vstd::prelude::*;

use crate::errors::SpeechError;

verus! {

/// One recording session's state: the device's native sample rate, the
/// recording flag that gates the producer, and the append-only sample
/// buffer.
pub struct AudioRecorder {
    sample_rate: u32,
    recording: bool,
    buffer: Vec<u32>,
}

impl AudioRecorder {
    /// The capture device's native sample rate.
    pub closed spec fn spec_sample_rate(self) -> u32 {
        self.sample_rate
    }

    /// Whether a recording session is active.
    pub closed spec fn spec_recording(self) -> bool {
        self.recording
    }

    /// The samples captured so far, as raw 32-bit words.
    pub closed spec fn spec_buffer(self) -> Seq<u32> {
        self.buffer@
    }

    /// How a successful start changes the recorder: flag set, buffer
    /// cleared, rate kept.
    pub open spec fn start_post(pre: AudioRecorder, post: AudioRecorder) -> bool {
        &&& post.spec_recording()
        &&& post.spec_buffer() == Seq::<u32>::empty()
        &&& post.spec_sample_rate() == pre.spec_sample_rate()
    }

    /// How a delivered batch changes the recorder: appended only while the
    /// flag is set, everything else kept.
    pub open spec fn capture_post(pre: AudioRecorder, post: AudioRecorder, data: Seq<u32>) -> bool {
        &&& post.spec_recording() == pre.spec_recording()
        &&& post.spec_sample_rate() == pre.spec_sample_rate()
        &&& post.spec_buffer() == if pre.spec_recording() {
            pre.spec_buffer() + data
        } else {
            pre.spec_buffer()
        }
    }

    /// How a successful stop changes the recorder: flag cleared, buffer
    /// kept until the next start clears it, rate kept.
    pub open spec fn stop_post(pre: AudioRecorder, post: AudioRecorder) -> bool {
        &&& !post.spec_recording()
        &&& post.spec_buffer() == pre.spec_buffer()
        &&& post.spec_sample_rate() == pre.spec_sample_rate()
    }

    /// A recorder for a device whose native rate the shell has read;
    /// idle, with an empty buffer.
    pub fn new(sample_rate: u32) -> (r: AudioRecorder)
        ensures
            r.spec_sample_rate() == sample_rate,
            !r.spec_recording(),
            r.spec_buffer() == Seq::<u32>::empty(),
    {
        AudioRecorder { sample_rate, recording: false, buffer: Vec::new() }
    }

    /// Whether a recording session is active.
    pub fn is_recording(&self) -> (r: bool)
        ensures
            r == self.spec_recording(),
    {
        self.recording
    }

    /// The capture device's native sample rate.
    pub fn sample_rate(&self) -> (r: u32)
        ensures
            r == self.spec_sample_rate(),
    {
        self.sample_rate
    }

    /// Begin a recording session.
    ///
    /// Fails with [`SpeechError::State`] — leaving the recorder untouched —
    /// exactly when a session is already active; otherwise clears any
    /// previous buffer and sets the flag the producer is gated on.
    pub fn start_recording(&mut self) -> (r: Result<(), SpeechError>)
        ensures
            match r {
                Ok(_) => !old(self).spec_recording() && AudioRecorder::start_post(
                    *old(self),
                    *final(self),
                ),
                Err(e) => e == SpeechError::State && old(self).spec_recording() && *final(self)
                    == *old(self),
            },
    {
        if self.recording {
            return Err(SpeechError::State);
        }
        self.buffer.clear();
        self.recording = true;
        proof {
            assert(self.spec_buffer() =~= Seq::<u32>::empty());
        }
        Ok(())
    }

    /// The producer's entry point: append a batch of samples, gated by the
    /// recording flag. A batch delivered outside a session is discarded.
    pub fn capture_callback(&mut self, data: &[u32])
        ensures
            AudioRecorder::capture_post(*old(self), *final(self), data@),
    {
        if self.recording {
            let mut i: usize = 0;
            while i < data.len()
                invariant
                    i <= data@.len(),
                    self.buffer@ == old(self).spec_buffer() + data@.subrange(0, i as int),
                    self.recording == old(self).spec_recording(),
                    old(self).spec_recording(),
                    self.sample_rate == old(self).spec_sample_rate(),
                decreases data@.len() - i,
            {
                self.buffer.push(data[i]);
                proof {
                    assert(self.buffer@ =~= old(self).spec_buffer() + data@.subrange(
                        0,
                        i + 1 as int,
                    ));
                }
                i += 1;
            }
            proof {
                assert(data@.subrange(0, data@.len() as int) =~= data@);
            }
        }
    }

    /// End the recording session and snapshot the captured samples.
    ///
    /// Fails with [`SpeechError::State`] — leaving the recorder untouched —
    /// exactly when no session is active. On success the flag is cleared
    /// (the shell must have torn the stream down before mirroring this
    /// transition, so no further producer batch can land) and the snapshot
    /// holds every captured sample, in order.
    pub fn stop_recording(&mut self) -> (r: Result<Vec<u32>, SpeechError>)
        ensures
            match r {
                Ok(samples) => old(self).spec_recording() && samples@ == old(self).spec_buffer()
                    && AudioRecorder::stop_post(*old(self), *final(self)),
                Err(e) => e == SpeechError::State && !old(self).spec_recording() && *final(self)
                    == *old(self),
            },
    {
        if !self.recording {
            return Err(SpeechError::State);
        }
        self.recording = false;
        let mut samples: Vec<u32> = Vec::new();
        let mut i: usize = 0;
        while i < self.buffer.len()
            invariant
                i <= self.buffer@.len(),
                samples@ == self.buffer@.subrange(0, i as int),
                self.buffer@ == old(self).spec_buffer(),
                !self.recording,
                self.sample_rate == old(self).spec_sample_rate(),
            decreases self.buffer@.len() - i,
        {
            samples.push(self.buffer[i]);
            proof {
                assert(samples@ =~= self.buffer@.subrange(0, i + 1 as int));
            }
            i += 1;
        }
        proof {
            assert(samples@ =~= old(self).spec_buffer());
        }
        Ok(samples)
    }
}

/// After a session starts, the recorder is recording, so by
/// [`AudioRecorder::start_recording`]'s contract a second start without an
/// intervening stop must fail with [`SpeechError::State`] and leave the
/// recorder untouched.
pub proof fn lemma_second_start_rejected(pre: AudioRecorder, post: AudioRecorder)
    requires
        AudioRecorder::start_post(pre, post),
    ensures
        post.spec_recording(),
{
}

/// After a session stops, the recorder is idle, so by
/// [`AudioRecorder::stop_recording`]'s contract a further stop without an
/// intervening start must fail with [`SpeechError::State`] — as must a
/// stop on a freshly created recorder.
pub proof fn lemma_stop_requires_active_session(pre: AudioRecorder, post: AudioRecorder)
    requires
        AudioRecorder::stop_post(pre, post),
    ensures
        !post.spec_recording(),
{
}

/// A session's snapshot is exactly the batches the producer delivered
/// while the flag was set, in order: capturing `a` then `b` buffers
/// `a + b`.
pub proof fn lemma_capture_appends_in_order(
    r0: AudioRecorder,
    r1: AudioRecorder,
    r2: AudioRecorder,
    a: Seq<u32>,
    b: Seq<u32>,
)
    requires
        r0.spec_recording(),
        AudioRecorder::capture_post(r0, r1, a),
        AudioRecorder::capture_post(r1, r2, b),
    ensures
        r2.spec_buffer() == r0.spec_buffer() + a + b,
{
    assert(r2.spec_buffer() =~= r0.spec_buffer() + a + b);
}

} // verus!
