//! The recording session: when capture runs, when voice activity ends it,
//! how captured audio is handed to transcription, and how a transcript maps
//! to an intent.
use vstd::prelude::*;
use crate::audio::{fed, fresh_recorder, started, stopped, AudioRecorder, RecorderModel};
use crate::error::VoiceError;
use crate::resample::{lemma_decimation_length, resampled};
use crate::text::{
    chars_of, contains_chars, contains_seq, contains_str, lowercase, lowercase_of, option_chars,
};
use crate::vad::{
    frame_active, frame_outcome, next_silent_frames, silence_frame_target, SilenceState,
    VadModel, VoiceActivityDetector, FRAME_SIZE,
};

verus! {

/// Rate at which the capture device is assumed to deliver samples.
pub const CAPTURE_SAMPLE_RATE: u32 = 48000;

/// Confidence is counted in thousandths; this is 1.0.
pub const FULL_CONFIDENCE: u16 = 1000;

/// Energy threshold of the detector that ends a command: 0.02 of full scale.
pub const COMMAND_ENERGY_THRESHOLD: u16 = 655;

/// Silence that ends a command, in milliseconds.
pub const COMMAND_SILENCE_MS: u32 = 1500;

/// Sample rate the command detector is configured for.
pub const COMMAND_VAD_SAMPLE_RATE: u32 = 16000;

/// Longest a command recording may run, in milliseconds.
pub const MAX_COMMAND_MS: u64 = 10000;

/// Fewer samples than this are not worth transcribing for a wake word.
pub const MIN_WAKE_WORD_SAMPLES: usize = 1000;

/// A finished utterance as text.
pub struct VoiceCommand {
    pub text: String,
    /// In thousandths; the engine reports none, so it is always full.
    pub confidence: u16,
    /// Seconds since the Unix epoch when transcription finished.
    pub timestamp: u64,
}

#[derive(Debug, Clone, Copy, PartialEq, Eq, Structural)]
pub struct RecordingStatus {
    pub is_recording: bool,
    pub is_listening: bool,
    /// Not tracked; always zero.
    pub duration_ms: u64,
}

#[derive(Debug)]
pub struct ListeningEvent {
    pub event_type: String,
    pub message: String,
}

/// What one tick of a voice-activity-driven recording decided.
#[derive(Debug, Clone, Copy, PartialEq, Eq, Structural)]
pub enum VadPoll {
    /// Keep recording and poll again.
    Continue,
    /// The speaker fell silent long enough: finish the command.
    SilenceReached,
    /// The recording ran past its time limit: finish the command.
    TimeLimitReached,
    /// Capture was stopped by someone else: finish the command.
    RecordingStopped,
}

/// The intent that a lower-cased transcript expresses: the first keyword
/// group that has a member occurring in the text decides.
pub open spec fn intent_of(t: Seq<char>) -> Option<Seq<char>> {
    if contains_chars(t, "hello"@) || contains_chars(t, "hi"@) {
        Some("greeting"@)
    } else if contains_chars(t, "start"@) || contains_chars(t, "begin"@) {
        Some("start_workflow"@)
    } else if contains_chars(t, "stop"@) || contains_chars(t, "end"@) {
        Some("stop_workflow"@)
    } else if contains_chars(t, "status"@) || contains_chars(t, "report"@) {
        Some("status_check"@)
    } else if contains_chars(t, "help"@) {
        Some("show_help"@)
    } else {
        None
    }
}

/// The first of `words` that occurs in `t`.
pub open spec fn first_wake_word(words: Seq<Seq<char>>, t: Seq<char>) -> Option<Seq<char>>
    decreases words.len(),
{
    if words.len() == 0 {
        None
    } else if contains_chars(t, words[0]) {
        Some(words[0])
    } else {
        first_wake_word(words.drop_first(), t)
    }
}

/// The session as values.
pub struct HandlerModel {
    pub initialized: bool,
    pub listening: bool,
    pub recorder: RecorderModel,
    pub wake_words: Seq<Seq<char>>,
}

/// The audio of a stopped recording, converted for transcription.
pub struct TranscriptionJob {
    audio: Vec<i16>,
}

impl View for TranscriptionJob {
    type V = Seq<i16>;

    closed spec fn view(&self) -> Seq<i16> {
        self.audio@
    }
}

impl TranscriptionJob {
    /// Mono samples at 16 kHz, ready for the transcription engine.
    pub fn samples(&self) -> (r: &Vec<i16>)
        ensures
            r@ == self@,
    {
        &self.audio
    }

    /// Turns the engine's outcome into a command stamped with `timestamp`
    /// (seconds since the Unix epoch), or into a transcription failure.
    pub fn complete(self, outcome: Result<String, String>, timestamp: u64) -> (r: Result<
        VoiceCommand,
        VoiceError,
    >)
        ensures
            match outcome {
                Ok(text) => r matches Ok(c) && c.text@ == text@ && c.confidence == FULL_CONFIDENCE
                    && c.timestamp == timestamp,
                Err(e) => r == Err::<VoiceCommand, VoiceError>(VoiceError::Transcribe(e)),
            },
    {
        match outcome {
            Ok(text) => Ok(VoiceCommand { text, confidence: FULL_CONFIDENCE, timestamp }),
            Err(e) => Err(VoiceError::Transcribe(e)),
        }
    }
}

/// The detector that watches a voice-activity-driven recording.
pub struct VadMonitor {
    vad: VoiceActivityDetector,
}

impl View for VadMonitor {
    type V = VadModel;

    closed spec fn view(&self) -> VadModel {
        self.vad@
    }
}

impl VadMonitor {
    pub closed spec fn well_formed(&self) -> bool {
        self.vad.well_formed()
    }

    /// Consecutive silent frames seen so far.
    pub fn silent_frames(&self) -> (r: u64)
        ensures
            r == self@.silent_frames,
    {
        self.vad.silent_frames()
    }
}

pub struct VoiceCommandHandler {
    recorder: AudioRecorder,
    is_initialized: bool,
    is_listening: bool,
    wake_words: Vec<String>,
}

impl View for VoiceCommandHandler {
    type V = HandlerModel;

    closed spec fn view(&self) -> HandlerModel {
        HandlerModel {
            initialized: self.is_initialized,
            listening: self.is_listening,
            recorder: self.recorder@,
            wake_words: self.wake_words@.map_values(|w: String| w@),
        }
    }
}

impl VoiceCommandHandler {
    /// A session with no model loaded, nothing recorded, and the wake words
    /// "kiku" and "computer".
    pub fn new() -> (r: Self)
        ensures
            !r@.initialized,
            !r@.listening,
            r@.recorder == fresh_recorder(),
            r@.wake_words == seq!["kiku"@, "computer"@],
    {
        let mut wake_words: Vec<String> = Vec::new();
        wake_words.push("kiku".to_owned());
        wake_words.push("computer".to_owned());
        let r = VoiceCommandHandler {
            recorder: AudioRecorder::new(),
            is_initialized: false,
            is_listening: false,
            wake_words,
        };
        assert(r@.wake_words =~= seq!["kiku"@, "computer"@]);
        r
    }

    /// Chooses the input device for later recordings.
    pub fn set_audio_device(&mut self, device_name: Option<String>)
        ensures
            final(self)@ == (HandlerModel {
                recorder: RecorderModel { device: option_chars(device_name), ..old(self)@.recorder },
                ..old(self)@
            }),
    {
        self.recorder.set_device(device_name);
    }

    /// The input device that the next recording should use.
    pub fn audio_device(&self) -> (r: Option<String>)
        ensures
            option_chars(r) == self@.recorder.device,
    {
        self.recorder.device()
    }

    /// Takes a chunk from the capture device; it is kept only while
    /// recording.
    pub fn push_samples(&mut self, chunk: &[i16])
        ensures
            final(self)@ == (HandlerModel { recorder: fed(old(self)@.recorder, chunk@), ..old(self)@ }),
    {
        self.recorder.push_samples(chunk);
    }

    /// A copy of the samples captured so far; recording goes on.
    pub fn current_samples(&self) -> (r: Vec<i16>)
        ensures
            r@ == self@.recorder.samples,
    {
        self.recorder.get_current_samples()
    }

    /// Records the outcome of loading the transcription model. Once the
    /// session is initialized this succeeds and changes nothing, whatever the
    /// outcome; the caller need not load again.
    pub fn initialize(&mut self, model_load: Result<(), String>) -> (r: Result<(), VoiceError>)
        ensures
            old(self)@.initialized ==> r is Ok && final(self)@ == old(self)@,
            !old(self)@.initialized ==> match model_load {
                Ok(()) => r is Ok && final(self)@ == (HandlerModel {
                    initialized: true,
                    ..old(self)@
                }),
                Err(e) => r == Err::<(), VoiceError>(VoiceError::ModelLoad(e)) && final(self)@
                    == old(self)@,
            },
    {
        if self.is_initialized {
            return Ok(());
        }
        match model_load {
            Ok(()) => {
                self.is_initialized = true;
                Ok(())
            },
            Err(e) => Err(VoiceError::ModelLoad(e)),
        }
    }

    /// Starts a manual recording; `device` is the outcome of opening the
    /// input device.
    pub fn start_recording(&mut self, device: Result<(), String>) -> (r: Result<(), VoiceError>)
        ensures
            !old(self)@.initialized ==> r == Err::<(), VoiceError>(VoiceError::NotInitialized)
                && final(self)@ == old(self)@,
            old(self)@.initialized ==> match device {
                Ok(()) => r is Ok && final(self)@ == (HandlerModel {
                    recorder: started(old(self)@.recorder),
                    ..old(self)@
                }),
                Err(e) => r == Err::<(), VoiceError>(VoiceError::DeviceUnavailable(e))
                    && final(self)@ == old(self)@,
            },
    {
        if !self.is_initialized {
            return Err(VoiceError::NotInitialized);
        }
        self.recorder.start_recording(device)
    }

    /// Stops capture and prepares the captured audio for transcription:
    /// it is converted from the capture rate to 16 kHz. Fails when nothing
    /// was captured. Capture is off afterwards either way.
    pub fn stop_recording_and_transcribe(&mut self) -> (r: Result<TranscriptionJob, VoiceError>)
        ensures
            final(self)@ == (HandlerModel { recorder: stopped(old(self)@.recorder), ..old(self)@ }),
            old(self)@.recorder.samples.len() == 0 ==> r matches Err(VoiceError::EmptyRecording),
            old(self)@.recorder.samples.len() > 0 ==> (r matches Ok(job) && job@ == resampled(
                old(self)@.recorder.samples,
                CAPTURE_SAMPLE_RATE as nat,
                16000,
            )),
    {
        let samples = self.recorder.stop_recording();
        if samples.len() == 0 {
            return Err(VoiceError::EmptyRecording);
        }
        proof {
            lemma_decimation_length(samples@);
        }
        let audio = self.recorder.convert_to_16khz_mono(samples.as_slice(), CAPTURE_SAMPLE_RATE);
        Ok(TranscriptionJob { audio })
    }

    pub fn get_recording_status(&self) -> (r: RecordingStatus)
        ensures
            r == (RecordingStatus {
                is_recording: self@.recorder.recording,
                is_listening: self@.listening,
                duration_ms: 0,
            }),
    {
        RecordingStatus {
            is_recording: self.recorder.is_recording(),
            is_listening: self.is_listening,
            duration_ms: 0,
        }
    }

    pub fn is_background_listening(&self) -> (r: bool)
        ensures
            r == self@.listening,
    {
        self.is_listening
    }

    /// Turns on listening for wake words.
    pub fn start_background_listening(&mut self) -> (r: Result<(), VoiceError>)
        ensures
            !old(self)@.initialized ==> r == Err::<(), VoiceError>(VoiceError::NotInitialized)
                && final(self)@ == old(self)@,
            old(self)@.initialized && old(self)@.listening ==> r == Err::<(), VoiceError>(
                VoiceError::AlreadyListening,
            ) && final(self)@ == old(self)@,
            old(self)@.initialized && !old(self)@.listening ==> r is Ok && final(self)@ == (
            HandlerModel { listening: true, ..old(self)@ }),
    {
        if !self.is_initialized {
            return Err(VoiceError::NotInitialized);
        }
        if self.is_listening {
            return Err(VoiceError::AlreadyListening);
        }
        self.is_listening = true;
        Ok(())
    }

    /// Turns off listening for wake words and stops any recording.
    pub fn stop_background_listening(&mut self) -> (r: Result<(), VoiceError>)
        ensures
            r is Ok,
            final(self)@ == (HandlerModel {
                listening: false,
                recorder: stopped(old(self)@.recorder),
                ..old(self)@
            }),
    {
        self.is_listening = false;
        if self.recorder.is_recording() {
            let _ = self.recorder.stop_recording();
        }
        Ok(())
    }

    /// Starts a recording that a voice activity detector will end; `device`
    /// is the outcome of opening the input device. The returned monitor is
    /// fed by `poll_vad`.
    pub fn record_command_with_vad(&mut self, device: Result<(), String>) -> (r: Result<
        VadMonitor,
        VoiceError,
    >)
        ensures
            !old(self)@.initialized ==> (r matches Err(VoiceError::NotInitialized) && final(self)@
                == old(self)@),
            old(self)@.initialized ==> match device {
                Ok(()) => r matches Ok(m) && final(self)@ == (HandlerModel {
                    recorder: started(old(self)@.recorder),
                    ..old(self)@
                }) && m@.energy_threshold == COMMAND_ENERGY_THRESHOLD
                    && m@.silence_target == silence_frame_target(
                    COMMAND_SILENCE_MS,
                    COMMAND_VAD_SAMPLE_RATE,
                ) && m@.silent_frames == 0 && m.well_formed(),
                Err(e) => r matches Err(VoiceError::DeviceUnavailable(d)) && d@ == e@
                    && final(self)@ == old(self)@,
            },
    {
        if !self.is_initialized {
            return Err(VoiceError::NotInitialized);
        }
        match self.recorder.start_recording(device) {
            Ok(()) => {
                let vad = VoiceActivityDetector::new(
                    COMMAND_ENERGY_THRESHOLD,
                    COMMAND_SILENCE_MS,
                    COMMAND_VAD_SAMPLE_RATE,
                );
                Ok(VadMonitor { vad })
            },
            Err(e) => Err(e),
        }
    }

    /// One tick of a voice-activity-driven recording, `elapsed_ms` after it
    /// started. Capture stopped elsewhere ends it first, then the time limit.
    /// Otherwise, once a whole frame has been captured, the latest frame is
    /// classified and silence ends the recording.
    pub fn poll_vad(&self, monitor: &mut VadMonitor, elapsed_ms: u64) -> (r: VadPoll)
        requires
            old(monitor).well_formed(),
        ensures
            final(monitor).well_formed(),
            final(monitor)@.energy_threshold == old(monitor)@.energy_threshold,
            final(monitor)@.silence_target == old(monitor)@.silence_target,
            !self@.recorder.recording ==> r == VadPoll::RecordingStopped && final(monitor)@
                == old(monitor)@,
            self@.recorder.recording && elapsed_ms > MAX_COMMAND_MS ==> r
                == VadPoll::TimeLimitReached && final(monitor)@ == old(monitor)@,
            self@.recorder.recording && elapsed_ms <= MAX_COMMAND_MS && self@.recorder.samples.len()
                < FRAME_SIZE ==> r == VadPoll::Continue && final(monitor)@ == old(monitor)@,
            self@.recorder.recording && elapsed_ms <= MAX_COMMAND_MS && self@.recorder.samples.len()
                >= FRAME_SIZE ==> ({
                let s = self@.recorder.samples;
                let frame = s.subrange(s.len() - FRAME_SIZE, s.len() as int);
                let active = frame_active(frame, old(monitor)@.energy_threshold as int);
                let count = next_silent_frames(old(monitor)@.silent_frames, active);
                &&& final(monitor)@.silent_frames == count
                &&& r == (if frame_outcome(active, count, old(monitor)@.silence_target)
                    == SilenceState::SilenceDetected {
                    VadPoll::SilenceReached
                } else {
                    VadPoll::Continue
                })
            }),
    {
        if !self.recorder.is_recording() {
            return VadPoll::RecordingStopped;
        }
        if elapsed_ms > MAX_COMMAND_MS {
            return VadPoll::TimeLimitReached;
        }
        let size = monitor.vad.frame_size();
        if self.recorder.sample_count() < size {
            return VadPoll::Continue;
        }
        let frame = self.recorder.latest_samples(size);
        let state = monitor.vad.process_frame(frame.as_slice());
        if state == SilenceState::SilenceDetected {
            VadPoll::SilenceReached
        } else {
            VadPoll::Continue
        }
    }

    pub fn is_initialized(&self) -> (r: bool)
        ensures
            r == self@.initialized,
    {
        self.is_initialized
    }

    /// The intent of a transcript that is already lower case.
    pub fn intent_for(lowered: &str) -> (r: Option<String>)
        ensures
            option_chars(r) == intent_of(lowered@),
    {
        let t = chars_of(lowered);
        if contains_str(&t, "hello") || contains_str(&t, "hi") {
            return Some("greeting".to_owned());
        }
        if contains_str(&t, "start") || contains_str(&t, "begin") {
            return Some("start_workflow".to_owned());
        }
        if contains_str(&t, "stop") || contains_str(&t, "end") {
            return Some("stop_workflow".to_owned());
        }
        if contains_str(&t, "status") || contains_str(&t, "report") {
            return Some("status_check".to_owned());
        }
        if contains_str(&t, "help") {
            return Some("show_help".to_owned());
        }
        None
    }

    /// The intent of a command, matched on its lower-cased text.
    pub fn process_command(&self, command: &VoiceCommand) -> (r: Option<String>)
        ensures
            option_chars(r) == intent_of(lowercase_of(command.text@)),
    {
        let lowered = lowercase(command.text.as_str());
        Self::intent_for(lowered.as_str())
    }

    /// Whether enough audio was captured to look for a wake word in it.
    pub fn enough_for_wake_word(sample_count: usize) -> (r: bool)
        ensures
            r == (sample_count >= MIN_WAKE_WORD_SAMPLES),
    {
        sample_count >= MIN_WAKE_WORD_SAMPLES
    }

    /// The first wake word that occurs in a transcript that is already lower
    /// case.
    pub fn find_wake_word(&self, lowered: &str) -> (r: Option<String>)
        ensures
            option_chars(r) == first_wake_word(self@.wake_words, lowered@),
    {
        let t = chars_of(lowered);
        let ghost words = self@.wake_words;
        let mut i: usize = 0;
        assert(words.skip(0) =~= words);
        while i < self.wake_words.len()
            invariant
                words == self@.wake_words,
                words.len() == self.wake_words@.len(),
                i <= words.len(),
                t@ == lowered@,
                first_wake_word(words, lowered@) == first_wake_word(words.skip(i as int), lowered@),
            decreases self.wake_words@.len() - i,
        {
            let w = chars_of(self.wake_words[i].as_str());
            proof {
                assert(words.skip(i as int).drop_first() =~= words.skip(i + 1));
                assert(words.skip(i as int)[0] == words[i as int]);
                assert(w@ == words[i as int]);
            }
            if contains_seq(&t, &w) {
                return Some(self.wake_words[i].clone());
            }
            i = i + 1;
        }
        assert(words.skip(i as int).len() == 0);
        None
    }

    /// The first wake word that occurs in a transcript, ignoring case.
    pub fn detect_wake_word(&self, transcript: &str) -> (r: Option<String>)
        ensures
            option_chars(r) == first_wake_word(self@.wake_words, lowercase_of(transcript@)),
    {
        let lowered = lowercase(transcript);
        self.find_wake_word(lowered.as_str())
    }
}

} // verus!
