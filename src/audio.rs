//! The capture buffer and its recording flag, guarded together by the caller.
use vstd::prelude::*;
use crate::error::VoiceError;
use crate::resample::{convert, resampled, resampled_len, TARGET_SAMPLE_RATE};
use crate::text::option_chars;

verus! {

/// What a recorder holds: the captured samples, whether capture is on, and
/// the input device that the next capture should use.
pub struct RecorderModel {
    pub samples: Seq<i16>,
    pub recording: bool,
    pub device: Option<Seq<char>>,
}

/// A recorder that was never started.
pub open spec fn fresh_recorder() -> RecorderModel {
    RecorderModel { samples: Seq::empty(), recording: false, device: None }
}

/// Starting capture: the buffer is emptied and capture is on.
pub open spec fn started(m: RecorderModel) -> RecorderModel {
    RecorderModel { samples: Seq::empty(), recording: true, device: m.device }
}

/// A chunk delivered by the device: kept only while capture is on.
pub open spec fn fed(m: RecorderModel, chunk: Seq<i16>) -> RecorderModel {
    if m.recording {
        RecorderModel { samples: m.samples + chunk, recording: true, device: m.device }
    } else {
        m
    }
}

/// What stopping hands back: the samples captured so far.
pub open spec fn stop_result(m: RecorderModel) -> Seq<i16> {
    m.samples
}

/// Stopping capture: the samples stay for reading.
pub open spec fn stopped(m: RecorderModel) -> RecorderModel {
    RecorderModel { samples: m.samples, recording: false, device: m.device }
}

/// Stopping a recorder that was never started yields no samples and leaves
/// it idle; stopping it again yields none either.
pub proof fn lemma_stop_without_start()
    ensures
        stop_result(fresh_recorder()) == Seq::<i16>::empty(),
        !stopped(fresh_recorder()).recording,
        stop_result(stopped(fresh_recorder())) == Seq::<i16>::empty(),
{
}

/// Starting twice in a row drops whatever was captured between the two
/// starts: the second capture begins empty.
pub proof fn lemma_restart_clears(m: RecorderModel, chunk: Seq<i16>)
    ensures
        started(fed(started(m), chunk)).samples == Seq::<i16>::empty(),
        started(fed(started(m), chunk)) == started(m),
{
}

/// While capture is on, the buffer only grows, in delivery order.
pub proof fn lemma_capture_appends(m: RecorderModel, chunk: Seq<i16>)
    requires
        m.recording,
    ensures
        fed(m, chunk).samples.len() == m.samples.len() + chunk.len(),
        fed(m, chunk).samples.take(m.samples.len() as int) == m.samples,
{
    assert(fed(m, chunk).samples.take(m.samples.len() as int) =~= m.samples);
}

pub struct AudioRecorder {
    samples: Vec<i16>,
    is_recording: bool,
    device: Option<String>,
}

impl View for AudioRecorder {
    type V = RecorderModel;

    closed spec fn view(&self) -> RecorderModel {
        RecorderModel {
            samples: self.samples@,
            recording: self.is_recording,
            device: option_chars(self.device),
        }
    }
}

impl AudioRecorder {
    pub fn new() -> (r: Self)
        ensures
            r@ == fresh_recorder(),
    {
        AudioRecorder { samples: Vec::new(), is_recording: false, device: None }
    }

    /// Begins a capture. `device` is the outcome of opening the configured
    /// input device; when it failed, nothing changes and the failure is
    /// reported. Otherwise the buffer is emptied and capture is on, also when
    /// a capture was already running.
    pub fn start_recording(&mut self, device: Result<(), String>) -> (r: Result<(), VoiceError>)
        ensures
            match device {
                Ok(()) => r is Ok && final(self)@ == started(old(self)@),
                Err(e) => r == Err::<(), VoiceError>(VoiceError::DeviceUnavailable(e))
                    && final(self)@ == old(self)@,
            },
    {
        match device {
            Ok(()) => {
                self.samples.clear();
                self.is_recording = true;
                proof {
                    assert(self@.samples =~= Seq::<i16>::empty());
                }
                Ok(())
            },
            Err(e) => Err(VoiceError::DeviceUnavailable(e)),
        }
    }

    /// Takes a chunk from the capture device. The samples are appended while
    /// capture is on and dropped otherwise.
    pub fn push_samples(&mut self, chunk: &[i16])
        ensures
            final(self)@ == fed(old(self)@, chunk@),
    {
        if !self.is_recording {
            return;
        }
        let ghost before = self.samples@;
        let mut i: usize = 0;
        while i < chunk.len()
            invariant
                i <= chunk@.len(),
                self.samples@ == before + chunk@.take(i as int),
                self.is_recording,
                self.device == old(self).device,
                before == old(self)@.samples,
            decreases chunk@.len() - i,
        {
            self.samples.push(chunk[i]);
            proof {
                assert(before + chunk@.take(i + 1) =~= (before + chunk@.take(i as int)).push(
                    chunk@[i as int],
                ));
            }
            i = i + 1;
        }
        proof {
            assert(chunk@.take(i as int) =~= chunk@);
        }
    }

    /// Ends the capture and returns what was captured. When no capture was
    /// running, this returns the last capture's samples (none if there was
    /// none).
    pub fn stop_recording(&mut self) -> (r: Vec<i16>)
        ensures
            final(self)@ == stopped(old(self)@),
            r@ == stop_result(old(self)@),
    {
        self.is_recording = false;
        vstd::slice::slice_to_vec(self.samples.as_slice())
    }

    pub fn is_recording(&self) -> (r: bool)
        ensures
            r == self@.recording,
    {
        self.is_recording
    }

    /// A copy of the samples captured so far; capture goes on.
    pub fn get_current_samples(&self) -> (r: Vec<i16>)
        ensures
            r@ == self@.samples,
    {
        vstd::slice::slice_to_vec(self.samples.as_slice())
    }

    /// Number of samples captured so far.
    pub fn sample_count(&self) -> (r: usize)
        ensures
            r == self@.samples.len(),
    {
        self.samples.len()
    }

    /// The last `count` samples, or all of them when fewer were captured.
    pub fn latest_samples(&self, count: usize) -> (r: Vec<i16>)
        ensures
            count <= self@.samples.len() ==> r@ == self@.samples.subrange(
                self@.samples.len() - count,
                self@.samples.len() as int,
            ),
            count > self@.samples.len() ==> r@ == self@.samples,
    {
        let len = self.samples.len();
        let start = if count <= len {
            len - count
        } else {
            0
        };
        let mut out: Vec<i16> = Vec::new();
        let mut i: usize = start;
        while i < len
            invariant
                start <= i <= len,
                len == self@.samples.len(),
                out@ == self@.samples.subrange(start as int, i as int),
            decreases len - i,
        {
            out.push(self.samples[i]);
            proof {
                assert(out@ =~= self@.samples.subrange(start as int, i + 1));
            }
            i = i + 1;
        }
        proof {
            assert(start == 0 ==> self@.samples.subrange(0, len as int) =~= self@.samples);
        }
        out
    }

    /// Chooses the input device for later captures; a running capture keeps
    /// its device.
    pub fn set_device(&mut self, device_name: Option<String>)
        ensures
            final(self)@ == (RecorderModel { device: option_chars(device_name), ..old(self)@ }),
    {
        self.device = device_name;
    }

    /// The input device that the next capture should use.
    pub fn device(&self) -> (r: Option<String>)
        ensures
            option_chars(r) == self@.device,
    {
        match &self.device {
            Some(d) => Some(d.clone()),
            None => None,
        }
    }

    /// Converts samples captured at `source_sample_rate` to the rate the
    /// transcription step expects.
    pub fn convert_to_16khz_mono(&self, samples: &[i16], source_sample_rate: u32) -> (r: Vec<
        i16,
    >)
        requires
            source_sample_rate > 0,
            resampled_len(samples@.len(), source_sample_rate as nat, 16000) <= usize::MAX,
        ensures
            r@ == resampled(samples@, source_sample_rate as nat, 16000),
    {
        convert(samples, source_sample_rate, TARGET_SAMPLE_RATE)
    }
}

impl Default for AudioRecorder {
    fn default() -> (r: Self)
        ensures
            r@ == fresh_recorder(),
    {
        Self::new()
    }
}

} // verus!
