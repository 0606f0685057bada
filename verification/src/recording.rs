//! The recording that a player starts and stops, and the WAV format the
//! recording is written in.
use vstd::prelude::*;
use std::path::PathBuf;
use std::sync::mpsc::Sender;

verus! {

#[verifier::external_type_specification]
#[verifier::external_body]
pub struct ExPathBuf(PathBuf);

#[verifier::external_type_specification]
#[verifier::external_body]
#[verifier::reject_recursive_types(T)]
pub struct ExSender<T>(Sender<T>);

/// `Sender::send` of the stop signal; true when it was delivered. Whether
/// it is depends on the recording thread still listening, so nothing is
/// stated of the result.
#[verifier::external_body]
fn send_stop_signal(sender: &Sender<()>) -> bool {
    sender.send(()).is_ok()
}

/// A recording in progress: the file it is written to, and the channel
/// that stops it.
pub struct CurrentRecordingInner {
    pub path: PathBuf,
    pub sender: Sender<()>,
}

/// What becomes of a recording once the stop signal was sent: it is handed
/// back when the signal reached the recorder, and dropped otherwise.
pub fn after_stop_signal(inner: CurrentRecordingInner, delivered: bool) -> (r: Option<CurrentRecordingInner>)
    ensures
        delivered ==> r == Some(inner),
        !delivered ==> r is None,
{
    if delivered {
        Some(inner)
    } else {
        None
    }
}

/// The recording a player has in progress, if any.
pub struct CurrentRecording {
    state: Option<CurrentRecordingInner>,
}

impl CurrentRecording {
    /// The recording in progress.
    pub closed spec fn current(&self) -> Option<CurrentRecordingInner> {
        self.state
    }

    /// No recording in progress.
    pub fn default() -> (r: Self)
        ensures
            r.current() is None,
    {
        CurrentRecording { state: None }
    }

    /// A new recording is in progress, in place of any earlier one.
    pub fn set(&mut self, state: CurrentRecordingInner)
        ensures
            final(self).current() == Some(state),
    {
        self.state = Some(state);
    }

    /// Ends the recording in progress: it is taken out and signalled to
    /// stop, and handed back if the signal was delivered.
    pub fn get(&mut self) -> (r: Option<CurrentRecordingInner>)
        ensures
            final(self).current() is None,
            old(self).current() is None ==> r is None,
            r matches Some(inner) ==> old(self).current() == Some(inner),
    {
        let mut taken: Option<CurrentRecordingInner> = None;
        std::mem::swap(&mut taken, &mut self.state);
        match taken {
            Some(inner) => {
                let delivered = send_stop_signal(&inner.sender);
                after_stop_signal(inner, delivered)
            },
            None => None,
        }
    }

    /// Stops the recording in progress and gives the file it was written to.
    pub fn stop(&mut self) -> (r: Result<PathBuf, String>)
        ensures
            final(self).current() is None,
            old(self).current() is None ==> (r matches Err(e) && e@ == "No recording in progress"@),
            r matches Ok(p) ==> old(self).current() matches Some(inner) && inner.path == p,
            r matches Err(e) ==> e@ == "No recording in progress"@,
    {
        match self.get() {
            Some(inner) => Ok(inner.path),
            None => Err(String::from_str("No recording in progress")),
        }
    }
}

/// How the samples of a WAV file are encoded.
#[derive(PartialEq, Eq, Structural, Clone, Copy, Debug)]
pub enum SampleFormat {
    Float,
    Int,
}

/// The WAV sample format for an input's samples.
pub fn sample_format(is_float: bool) -> (f: SampleFormat)
    ensures
        is_float ==> f == SampleFormat::Float,
        !is_float ==> f == SampleFormat::Int,
{
    if is_float {
        SampleFormat::Float
    } else {
        SampleFormat::Int
    }
}

/// The header of a WAV file.
pub struct WavSpec {
    pub channels: u16,
    pub sample_rate: u32,
    pub bits_per_sample: u16,
    pub sample_format: SampleFormat,
}

/// The WAV header for an input with the given channels, rate, sample size
/// in bytes and encoding; the bit count is taken modulo 2^16.
pub fn wav_spec_from_config(channels: u16, sample_rate: u32, sample_size: usize, is_float: bool) -> (w: WavSpec)
    requires
        sample_size <= usize::MAX / 8,
    ensures
        w.channels == channels,
        w.sample_rate == sample_rate,
        w.bits_per_sample == (sample_size * 8) as u16,
        w.sample_format == sample_format_spec(is_float),
        is_float ==> w.sample_format == SampleFormat::Float,
        !is_float ==> w.sample_format == SampleFormat::Int,
{
    WavSpec {
        channels,
        sample_rate,
        bits_per_sample: #[verifier::truncate] ((sample_size * 8) as u16),
        sample_format: sample_format(is_float),
    }
}

/// The WAV sample format for an input's samples.
pub open spec fn sample_format_spec(is_float: bool) -> SampleFormat {
    if is_float {
        SampleFormat::Float
    } else {
        SampleFormat::Int
    }
}

/// A WAV file's samples are floats exactly when the input's are, and
/// integers otherwise.
pub proof fn lemma_sample_format_follows_input()
    ensures
        sample_format_spec(true) == SampleFormat::Float,
        sample_format_spec(false) == SampleFormat::Int,
        sample_format_spec(true) != sample_format_spec(false),
{
}

} // verus!
