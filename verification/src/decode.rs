use vstd::prelude::*;
use crate::audio::AudioBuffer;

verus! {

/// What a container reports of its default audio track.
#[derive(Clone, Copy, Debug)]
pub struct TrackInfo {
    pub id: u32,
    pub sample_rate: Option<u32>,
    pub channel_count: Option<usize>,
}

/// The stream a decode reads: the track's id and its sample layout.
#[derive(Clone, Copy, Debug, PartialEq, Eq, Structural)]
pub struct StreamFormat {
    pub track_id: u32,
    pub sample_rate: u32,
    pub channels: u16,
}

/// Why a container cannot be decoded.
#[derive(Clone, Copy, Debug, PartialEq, Eq, Structural)]
pub enum SetupError {
    NoDefaultTrack,
    UnknownSampleRate,
    UnknownChannelCount,
}

/// The channel count as stored in a buffer: its low 16 bits.
pub open spec fn stored_channels(count: usize) -> u16 {
    (count % 0x1_0000) as u16
}

/// Reads the stream format off the default track, if there is one and it
/// states both its sample rate and its channel count.
pub fn stream_format(track: Option<TrackInfo>) -> (r: Result<StreamFormat, SetupError>)
    ensures
        track is None ==> r == Err::<StreamFormat, SetupError>(SetupError::NoDefaultTrack),
        track matches Some(t) ==> {
            &&& t.sample_rate is None ==> r == Err::<StreamFormat, SetupError>(
                SetupError::UnknownSampleRate,
            )
            &&& t.sample_rate is Some && t.channel_count is None ==> r == Err::<
                StreamFormat,
                SetupError,
            >(SetupError::UnknownChannelCount)
            &&& t.sample_rate is Some && t.channel_count is Some ==> r == Ok::<
                StreamFormat,
                SetupError,
            >(
                StreamFormat {
                    track_id: t.id,
                    sample_rate: t.sample_rate.unwrap(),
                    channels: stored_channels(t.channel_count.unwrap()),
                },
            )
        },
{
    let t = match track {
        Some(t) => t,
        None => return Err(SetupError::NoDefaultTrack),
    };
    let sample_rate: u32 = match t.sample_rate {
        Some(s) => s,
        None => return Err(SetupError::UnknownSampleRate),
    };
    let count: usize = match t.channel_count {
        Some(c) => c,
        None => return Err(SetupError::UnknownChannelCount),
    };
    let channels: u16 = (count % 0x1_0000) as u16;
    Ok(StreamFormat { track_id: t.id, sample_rate, channels })
}

/// What reading the next packet gave.
#[derive(Clone, Copy, Debug, PartialEq, Eq, Structural)]
pub enum ReadEvent {
    /// A packet of the track with this id.
    Packet { track_id: u32 },
    /// The stream has no more data.
    EndOfStream,
    /// A damaged packet, which is skipped.
    Corrupt,
    /// Any other failure, which ends the decode with an error.
    Failed,
}

/// What decoding a packet gave.
#[derive(Clone, Debug)]
pub enum DecodeEvent<S> {
    /// The packet's samples, interleaved.
    Decoded(Vec<S>),
    /// A damaged packet, which is skipped.
    Corrupt,
    /// Any other failure, which ends the decode with an error.
    Failed,
}

/// What the decode loop does next.
#[derive(Clone, Copy, Debug, PartialEq, Eq, Structural)]
pub enum Step {
    /// Decode the packet just read.
    Decode,
    /// Read the next packet.
    ReadNext,
    /// Stop and hand back the samples gathered.
    Finish,
    /// Stop with an error.
    Abort,
}

/// The step that follows reading a packet, for a decode of `track_id`.
pub open spec fn step_after_read(track_id: u32, event: ReadEvent) -> Step {
    match event {
        ReadEvent::Packet { track_id: id } => if id == track_id {
            Step::Decode
        } else {
            Step::ReadNext
        },
        ReadEvent::EndOfStream => Step::Finish,
        ReadEvent::Corrupt => Step::ReadNext,
        ReadEvent::Failed => Step::Abort,
    }
}

/// Only packets of the decoded track are decoded; packets of other tracks
/// and damaged packets are skipped, the end of the stream finishes the
/// decode and any other failure aborts it.
pub proof fn lemma_step_after_read(track_id: u32, event: ReadEvent)
    ensures
        step_after_read(track_id, event) == Step::Decode <==> event == (ReadEvent::Packet {
            track_id,
        }),
        step_after_read(track_id, event) == Step::Finish <==> event == ReadEvent::EndOfStream,
        step_after_read(track_id, event) == Step::Abort <==> event == ReadEvent::Failed,
        step_after_read(track_id, event) == Step::ReadNext <==> (event == ReadEvent::Corrupt
            || (event matches ReadEvent::Packet { track_id: id } && id != track_id)),
{
}

/// A decode in progress: the stream read and the samples gathered so far.
pub struct DecodeSession<S> {
    format: StreamFormat,
    samples: Vec<S>,
}

impl<S> DecodeSession<S> {
    /// The stream this session decodes.
    pub closed spec fn format_spec(&self) -> StreamFormat {
        self.format
    }

    /// The samples gathered so far.
    pub closed spec fn gathered(&self) -> Seq<S> {
        self.samples@
    }

    /// Starts decoding the stream `format`, with nothing gathered.
    pub fn new(format: StreamFormat) -> (s: Self)
        ensures
            s.format_spec() == format,
            s.gathered() == Seq::<S>::empty(),
    {
        DecodeSession { format, samples: Vec::new() }
    }

    /// The stream this session decodes.
    pub fn format(&self) -> (f: StreamFormat)
        ensures
            f == self.format_spec(),
    {
        self.format
    }

    /// After reading: decode packets of this session's track, skip packets
    /// of other tracks and damaged packets, finish at the end of the
    /// stream, abort on any other failure.
    pub fn after_read(&self, event: ReadEvent) -> (step: Step)
        ensures
            step == step_after_read(self.format_spec().track_id, event),
            event matches ReadEvent::Packet { track_id: id } ==> (step == Step::Decode <==> id
                == self.format_spec().track_id),
            event matches ReadEvent::Packet { track_id: id } ==> (step == Step::ReadNext <==> id
                != self.format_spec().track_id),
            event == ReadEvent::EndOfStream ==> step == Step::Finish,
            event == ReadEvent::Corrupt ==> step == Step::ReadNext,
            event == ReadEvent::Failed ==> step == Step::Abort,
    {
        match event {
            ReadEvent::Packet { track_id } => if track_id == self.format.track_id {
                Step::Decode
            } else {
                Step::ReadNext
            },
            ReadEvent::EndOfStream => Step::Finish,
            ReadEvent::Corrupt => Step::ReadNext,
            ReadEvent::Failed => Step::Abort,
        }
    }

    /// After decoding: gather decoded samples at the end and read on,
    /// skip damaged packets, abort on any other failure.
    pub fn after_decode(&mut self, event: DecodeEvent<S>) -> (step: Step)
        ensures
            final(self).format_spec() == old(self).format_spec(),
            event matches DecodeEvent::Decoded(chunk) ==> final(self).gathered() == old(
                self,
            ).gathered() + chunk@ && step == Step::ReadNext,
            event is Corrupt ==> final(self).gathered() == old(self).gathered() && step
                == Step::ReadNext,
            event is Failed ==> final(self).gathered() == old(self).gathered() && step
                == Step::Abort,
    {
        match event {
            DecodeEvent::Decoded(chunk) => {
                let mut chunk = chunk;
                self.samples.append(&mut chunk);
                Step::ReadNext
            },
            DecodeEvent::Corrupt => Step::ReadNext,
            DecodeEvent::Failed => Step::Abort,
        }
    }

    /// The decoded audio: every sample gathered, at the stream's rate and
    /// channel count.
    pub fn finish(self) -> (audio: AudioBuffer<S>)
        ensures
            audio.samples@ == self.gathered(),
            audio.sample_rate == self.format_spec().sample_rate,
            audio.channels == self.format_spec().channels,
    {
        AudioBuffer {
            samples: self.samples,
            sample_rate: self.format.sample_rate,
            channels: self.format.channels,
        }
    }
}

} // verus!
