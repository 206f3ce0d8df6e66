use vstd::prelude::*;

verus! {

/// Number of interleaved channels the separation model works on.
pub const N_CHANNELS: usize = 2;

/// Number of stems the separation model produces.
pub const N_STEMS: usize = 4;

/// Sample rate the separation model was trained at.
pub const MODEL_SAMPLE_RATE: u32 = 44_100;

/// Interleaved audio: `samples` holds `channels` samples per frame.
/// The sample type is left open; decoded audio uses 32-bit floats.
#[derive(Clone, Debug)]
pub struct AudioBuffer<S> {
    pub samples: Vec<S>,
    pub sample_rate: u32,
    pub channels: u16,
}

/// The four separated parts of a track.
#[derive(Clone, Debug)]
pub struct Stems<S> {
    pub drums: AudioBuffer<S>,
    pub bass: AudioBuffer<S>,
    pub other: AudioBuffer<S>,
    pub vocals: AudioBuffer<S>,
}

/// Why an input buffer cannot be separated.
#[derive(Clone, Copy, Debug, PartialEq, Eq, Structural)]
pub enum AudioError {
    /// The model needs two channels.
    NotStereo { channels: u16 },
    /// The model needs audio at `MODEL_SAMPLE_RATE`.
    WrongSampleRate { sample_rate: u32 },
    /// There are no samples.
    Empty,
    /// A stereo interleaved buffer must hold whole frames.
    OddSampleCount,
}

/// The outcome of checking a buffer, first failing condition first.
pub open spec fn audio_check(channels: u16, sample_rate: u32, n_samples: nat) -> Result<(), AudioError> {
    if channels != 2 {
        Err(AudioError::NotStereo { channels })
    } else if sample_rate != MODEL_SAMPLE_RATE {
        Err(AudioError::WrongSampleRate { sample_rate })
    } else if n_samples == 0 {
        Err(AudioError::Empty)
    } else if n_samples % 2 != 0 {
        Err(AudioError::OddSampleCount)
    } else {
        Ok(())
    }
}

/// A buffer passes the check exactly when it is stereo, at 44.1 kHz,
/// non-empty and made of whole frames; otherwise the first failing
/// condition, in that order, is reported with the offending value.
pub proof fn lemma_audio_check(channels: u16, sample_rate: u32, n_samples: nat)
    ensures
        audio_check(channels, sample_rate, n_samples) is Ok <==> channels == 2 && sample_rate
            == 44_100 && n_samples > 0 && n_samples % 2 == 0,
        channels != 2 ==> audio_check(channels, sample_rate, n_samples) == Err::<(), AudioError>(
            AudioError::NotStereo { channels },
        ),
        channels == 2 && sample_rate != 44_100 ==> audio_check(channels, sample_rate, n_samples)
            == Err::<(), AudioError>(AudioError::WrongSampleRate { sample_rate }),
        MODEL_SAMPLE_RATE == 44_100,
{
}

/// Checks that `audio` is non-empty stereo at the model's sample rate,
/// made of whole interleaved frames.
pub fn validate_audio<S>(audio: &AudioBuffer<S>) -> (r: Result<(), AudioError>)
    ensures
        r == audio_check(audio.channels, audio.sample_rate, audio.samples@.len()),
        r is Ok <==> audio.channels == 2 && audio.sample_rate == 44_100
            && audio.samples@.len() > 0 && audio.samples@.len() % 2 == 0,
        audio.channels != 2 ==> r == Err::<(), AudioError>(
            AudioError::NotStereo { channels: audio.channels },
        ),
        audio.channels == 2 && audio.sample_rate != 44_100 ==> r == Err::<(), AudioError>(
            AudioError::WrongSampleRate { sample_rate: audio.sample_rate },
        ),
        audio.channels == 2 && audio.sample_rate == 44_100 && audio.samples@.len() == 0 ==> r
            == Err::<(), AudioError>(AudioError::Empty),
        audio.channels == 2 && audio.sample_rate == 44_100 && audio.samples@.len() > 0
            && audio.samples@.len() % 2 != 0 ==> r == Err::<(), AudioError>(
            AudioError::OddSampleCount,
        ),
{
    if audio.channels != 2 {
        return Err(AudioError::NotStereo { channels: audio.channels });
    }
    if audio.sample_rate != MODEL_SAMPLE_RATE {
        return Err(AudioError::WrongSampleRate { sample_rate: audio.sample_rate });
    }
    if audio.samples.len() == 0 {
        return Err(AudioError::Empty);
    }
    if audio.samples.len() % 2 != 0 {
        return Err(AudioError::OddSampleCount);
    }
    Ok(())
}

/// The separated buffers did not come as one per stem.
#[derive(Clone, Copy, Debug, PartialEq, Eq, Structural)]
pub struct StemCountError {
    pub got: usize,
}

impl<S> Stems<S> {
    /// Names the separated buffers, which come in the order drums, bass,
    /// other, vocals; refuses any other number of buffers.
    pub fn from_buffers(buffers: Vec<AudioBuffer<S>>) -> (r: Result<Stems<S>, StemCountError>)
        ensures
            buffers@.len() == N_STEMS <==> r is Ok,
            r matches Err(e) ==> e.got == buffers@.len(),
            r matches Ok(stems) ==> {
                &&& stems.drums == buffers@[0]
                &&& stems.bass == buffers@[1]
                &&& stems.other == buffers@[2]
                &&& stems.vocals == buffers@[3]
            },
    {
        if buffers.len() != N_STEMS {
            return Err(StemCountError { got: buffers.len() });
        }
        let mut buffers = buffers;
        let vocals = buffers.pop().unwrap();
        let other = buffers.pop().unwrap();
        let bass = buffers.pop().unwrap();
        let drums = buffers.pop().unwrap();
        Ok(Stems { drums, bass, other, vocals })
    }
}

} // verus!
