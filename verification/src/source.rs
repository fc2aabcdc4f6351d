//! The element capability model: the packets and frames that flow between
//! elements, the base [`Element`] trait, and the per-media-kind source,
//! sink and decoder contracts.
//!
//! An element is the base unit of the pipeline. It reports which
//! capabilities it implements through the query methods of [`Element`]
//! (all absent by default); a concrete element additionally implements the
//! source, sink or decoder trait of each media kind it handles. One element
//! may be both a sink and a source of the same kind, such as a filter that
//! receives, transforms and re-emits frames.
//!
//! Capability-mismatched links are rejected at compile time: the builder's
//! `link_*` methods accept an element only under the matching source or
//! sink bound.

use vstd::prelude::*;

use crate::error::Error;
use crate::format::AudioFrameFormat;
use crate::format::AudioPacketFormat;
use crate::format::SubtitleFrameFormat;
use crate::format::SubtitlePacketFormat;
use crate::format::TimeStamp;
use crate::format::VideoFrameFormat;
use crate::format::VideoPacketFormat;
use crate::pipline::AudioPipeline;
use crate::pipline::SubtitlePipeline;
use crate::pipline::VideoPipeline;

verus! {

/// A compressed video payload with its presentation time.
#[derive(Debug)]
pub struct VideoPacket {
    pub data: Vec<u8>,
    pub time_stamp: TimeStamp,
}

/// A compressed audio payload with its presentation time.
#[derive(Debug)]
pub struct AudioPacket {
    pub data: Vec<u8>,
    pub time_stamp: TimeStamp,
}

/// A compressed subtitle payload with its presentation time.
#[derive(Debug)]
pub struct SubtitlePacket {
    pub data: Vec<u8>,
    pub time_stamp: TimeStamp,
}

/// A decoded video frame: raw pixel bytes with a presentation time.
#[derive(Debug)]
pub struct VideoFrame {
    pub raw: Vec<u8>,
    pub time_stamp: TimeStamp,
}

/// A decoded audio frame: signed 16-bit samples with a presentation time.
#[derive(Debug)]
pub struct AudioFrame {
    pub data: Vec<i16>,
    pub time_stamp: TimeStamp,
}

/// A decoded subtitle frame: a text with a display duration in
/// milliseconds, or an image marker.
#[derive(Debug)]
pub enum SubtitleFrame {
    Text { text: String, duration: u64 },
    Image,
}

/// The base unit of the pipeline.
///
/// Each query below answers whether this element implements the matching
/// capability trait; every query defaults to "capability absent". A
/// concrete element overrides exactly the queries matching the traits it
/// implements.
pub trait Element {
    /// A short human-readable name for diagnostics.
    fn name(&self) -> (r: &'static str) {
        "element"
    }

    fn is_video_decoder(&self) -> (r: bool) {
        false
    }

    fn is_audio_decoder(&self) -> (r: bool) {
        false
    }

    fn is_subtitle_decoder(&self) -> (r: bool) {
        false
    }

    fn is_video_source(&self) -> (r: bool) {
        false
    }

    fn is_audio_source(&self) -> (r: bool) {
        false
    }

    fn is_subtitle_source(&self) -> (r: bool) {
        false
    }

    fn is_video_sink(&self) -> (r: bool) {
        false
    }

    fn is_audio_sink(&self) -> (r: bool) {
        false
    }

    fn is_subtitle_sink(&self) -> (r: bool) {
        false
    }
}

/// An element that produces decoded video frames.
pub trait VideoSource: Element {
    /// Whether this source can already declare its output format.
    ///
    /// A source must be ready before it is linked: `format` may only be
    /// asked of a ready source.
    spec fn format_ready(&self) -> bool;

    /// The output format this source declares, meaningful once the
    /// source is ready.
    spec fn declared_format(&self) -> VideoFrameFormat;

    /// The format of the frames this source emits, concrete (non-vendor)
    /// once the element is linked.
    fn format(&self) -> (r: VideoFrameFormat)
        requires
            self.format_ready(),
        ensures
            r == self.declared_format(),
    ;

    /// Read up to one upstream frame through the given transport, and
    /// return the next available frame, `None` when nothing is available,
    /// or an error that aborts this pull attempt only.
    fn on_pull(&mut self, pipline: &mut VideoPipeline) -> (r: Result<Option<VideoFrame>, Error>);
}

/// An element that consumes decoded video frames.
pub trait VideoSink: Element {
    /// The format negotiated so far: `None` until `add_source` succeeds,
    /// then the format of that one successful negotiation.
    spec fn negotiated_source(&self) -> Option<VideoFrameFormat>;

    /// Negotiate the upstream format. Called exactly once per sink
    /// instance, by the builder when a link to this sink is made: a
    /// vendor pixel format is always rejected as unsupported, a second
    /// negotiation is always rejected as duplicated, success fixes
    /// exactly the offered format, and failure changes nothing. Whether
    /// a concrete format on a fresh sink is accepted stays with the
    /// implementation.
    fn add_source(&mut self, format: VideoFrameFormat) -> (r: Result<(), Error>)
        ensures
            r matches Ok(_) ==> final(self).negotiated_source() == Some(format),
            r matches Err(_) ==> final(self).negotiated_source() == old(self).negotiated_source(),
            format.image_format.spec_is_vendor() ==> r == Err::<(), Error>(
                Error::UnsupportedFormat,
            ),
            !format.image_format.spec_is_vendor() && (old(
                self,
            ).negotiated_source() matches Some(_)) ==> r == Err::<(), Error>(
                Error::DuplicatedSource,
            ),
    ;

    /// Consume one frame, with implementation-defined effect (buffer,
    /// transform and forward through the transport, or discard).
    fn on_push(&mut self, pipline: &mut VideoPipeline, frame: VideoFrame) -> (r: Result<
        (),
        Error,
    >);
}

/// An element that produces decoded audio frames.
pub trait AudioSource: Element {
    /// Whether this source can already declare its output format.
    spec fn format_ready(&self) -> bool;

    /// The output format this source declares, meaningful once the
    /// source is ready.
    spec fn declared_format(&self) -> AudioFrameFormat;

    /// The format of the frames this source emits.
    fn format(&self) -> (r: AudioFrameFormat)
        requires
            self.format_ready(),
        ensures
            r == self.declared_format(),
    ;

    /// Read up to one upstream frame through the given transport, and
    /// return the next available frame, `None` when nothing is available,
    /// or an error that aborts this pull attempt only.
    fn on_pull(&mut self, pipline: &mut AudioPipeline) -> (r: Result<Option<AudioFrame>, Error>);
}

/// An element that consumes decoded audio frames.
pub trait AudioSink: Element {
    /// The format negotiated so far: `None` until `add_source` succeeds,
    /// then the format of that one successful negotiation.
    spec fn negotiated_source(&self) -> Option<AudioFrameFormat>;

    /// Negotiate the upstream format. Called exactly once per sink
    /// instance, by the builder when a link to this sink is made: a
    /// second negotiation is always rejected as duplicated, success fixes
    /// exactly the offered format, and failure changes nothing. Whether a
    /// format on a fresh sink is accepted stays with the implementation.
    fn add_source(&mut self, format: AudioFrameFormat) -> (r: Result<(), Error>)
        ensures
            r matches Ok(_) ==> final(self).negotiated_source() == Some(format),
            r matches Err(_) ==> final(self).negotiated_source() == old(self).negotiated_source(),
            (old(self).negotiated_source() matches Some(_)) ==> r == Err::<(), Error>(
                Error::DuplicatedSource,
            ),
    ;

    /// Consume one frame, with implementation-defined effect.
    fn on_push(&mut self, pipline: &mut AudioPipeline, frame: AudioFrame) -> (r: Result<
        (),
        Error,
    >);
}

/// An element that produces decoded subtitle frames.
pub trait SubtitleSource: Element {
    /// Whether this source can already declare its output format.
    spec fn format_ready(&self) -> bool;

    /// The output format this source declares, meaningful once the
    /// source is ready.
    spec fn declared_format(&self) -> SubtitleFrameFormat;

    /// The format of the frames this source emits.
    fn format(&self) -> (r: SubtitleFrameFormat)
        requires
            self.format_ready(),
        ensures
            r == self.declared_format(),
    ;

    /// Read up to one upstream frame through the given transport, and
    /// return the next available frame, `None` when nothing is available,
    /// or an error that aborts this pull attempt only.
    fn on_pull(&mut self, pipline: &mut SubtitlePipeline) -> (r: Result<
        Option<SubtitleFrame>,
        Error,
    >);
}

/// An element that consumes decoded subtitle frames.
pub trait SubtitleSink: Element {
    /// The format negotiated so far: `None` until `add_source` succeeds,
    /// then the format of that one successful negotiation.
    spec fn negotiated_source(&self) -> Option<SubtitleFrameFormat>;

    /// Negotiate the upstream format. Called exactly once per sink
    /// instance, by the builder when a link to this sink is made: a
    /// second negotiation is always rejected as duplicated, success fixes
    /// exactly the offered format, and failure changes nothing. Whether a
    /// format on a fresh sink is accepted stays with the implementation.
    fn add_source(&mut self, format: SubtitleFrameFormat) -> (r: Result<(), Error>)
        ensures
            r matches Ok(_) ==> final(self).negotiated_source() == Some(format),
            r matches Err(_) ==> final(self).negotiated_source() == old(self).negotiated_source(),
            (old(self).negotiated_source() matches Some(_)) ==> r == Err::<(), Error>(
                Error::DuplicatedSource,
            ),
    ;

    /// Consume one frame, with implementation-defined effect.
    fn on_push(&mut self, pipline: &mut SubtitlePipeline, frame: SubtitleFrame) -> (r: Result<
        (),
        Error,
    >);
}

/// A video source that first accepts compressed-format configuration,
/// then emits decoded frames.
pub trait VideoDecoder: VideoSource {
    /// Whether the one-time configuration has been made.
    spec fn configured(&self) -> bool;

    /// Fix the codec parameters. Must be called exactly once before
    /// decoding starts; `on_pull` before `config` is a programming error
    /// reported as [`Error::Unconfigured`].
    fn config(&mut self, format: VideoPacketFormat) -> (r: Result<(), Error>)
        ensures
            r matches Ok(_) ==> final(self).configured(),
            r matches Err(_) ==> final(self).configured() == old(self).configured(),
    ;
}

/// An audio source that first accepts compressed-format configuration,
/// then emits decoded frames.
pub trait AudioDecoder: AudioSource {
    /// Whether the one-time configuration has been made.
    spec fn configured(&self) -> bool;

    /// Fix the codec parameters. Must be called exactly once before
    /// decoding starts; `on_pull` before `config` is a programming error
    /// reported as [`Error::Unconfigured`].
    fn config(&mut self, format: AudioPacketFormat) -> (r: Result<(), Error>)
        ensures
            r matches Ok(_) ==> final(self).configured(),
            r matches Err(_) ==> final(self).configured() == old(self).configured(),
    ;
}

/// A subtitle source that first accepts compressed-format configuration,
/// then emits decoded frames.
pub trait SubtitleDecoder: SubtitleSource {
    /// Whether the one-time configuration has been made.
    spec fn configured(&self) -> bool;

    /// Fix the codec parameters. Must be called exactly once before
    /// decoding starts; `on_pull` before `config` is a programming error
    /// reported as [`Error::Unconfigured`].
    fn config(&mut self, format: SubtitlePacketFormat) -> (r: Result<(), Error>)
        ensures
            r matches Ok(_) ==> final(self).configured(),
            r matches Err(_) ==> final(self).configured() == old(self).configured(),
    ;
}

/// A container demuxer, consumed as an external collaborator: each method
/// is a restartable-until-exhausted lazy sequence terminated by `None`.
pub trait Demuxer {
    fn next_video_packet(&mut self) -> (r: Option<VideoPacket>);

    fn next_audio_packet(&mut self) -> (r: Option<AudioPacket>);

    fn next_subtitle_packet(&mut self) -> (r: Option<SubtitlePacket>);
}

} // verus!
