//! The pipeline graph builder with link validation, the shared lifecycle
//! state machine, and the per-kind duplex frame transports.
//!
//! The builder is pure and single-threaded: it registers elements,
//! validates directed links between capability-typed handles, and drives
//! format negotiation eagerly at link time, so a bad link fails fast and
//! leaves the graph unchanged.
//!
//! A completed build produces one runtime per-kind handle set sharing one
//! lifecycle: pausing through any handle pauses every media kind in
//! lockstep. The lifecycle is a single sequentially-consistent atomic
//! cell, the only state safe for concurrent access from several threads;
//! the stored byte is decoded back to a state by a total, explicit
//! mapping, never by reinterpreting memory.
//!
//! Each per-kind handle owns an independent frame transport of its kind's
//! frame type. The transport is non-blocking and polled: `pull_frame`
//! returns `None` immediately when no frame is available, whether or not
//! end-of-stream was signaled, and never blocks. Frames of one transport
//! come out in the order they were pushed in (FIFO); nothing is promised
//! across media kinds.

use vstd::prelude::*;

use crate::error::Error;
use crate::source::AudioFrame;
use crate::source::AudioSink;
use crate::source::AudioSource;
use crate::source::Element;
use crate::source::SubtitleFrame;
use crate::source::SubtitleSink;
use crate::source::SubtitleSource;
use crate::source::VideoFrame;
use crate::source::VideoSink;
use crate::source::VideoSource;

verus! {

use core::marker::PhantomData;
use core::sync::atomic::AtomicU8;
use core::sync::atomic::Ordering;
use std::collections::VecDeque;
use std::sync::Arc;

/// The stable identity of a registered element: its registration index,
/// assigned in registration order, never reused or reassigned.
#[derive(Debug, Clone, Copy, PartialEq, Eq, Structural)]
pub struct ElementID(pub usize);

/// A directed edge of the pipeline graph, keyed by media kind, source
/// element index and sink element index. No two links of one builder share
/// an identical key.
#[derive(Debug, Clone, Copy, PartialEq, Eq, Structural)]
pub enum Link {
    Video(usize, usize),
    Audio(usize, usize),
    Subtitle(usize, usize),
}

/// A capability-typed handle to a registered element.
///
/// The handle carries the element's concrete type, so the compiler accepts
/// it as a link endpoint only where that type implements the matching
/// source or sink contract.
#[derive(Debug)]
pub struct ElementRef<T> {
    loc: usize,
    _m: PhantomData<T>,
}

impl<T> ElementRef<T> {
    /// The registration index this handle stands for.
    pub closed spec fn spec_id(&self) -> usize {
        self.loc
    }

    /// The stable identity of the element this handle stands for.
    pub fn id(&self) -> (r: ElementID)
        ensures
            r.0 == self.spec_id(),
    {
        ElementID(self.loc)
    }
}

/// A pure, I/O-free graph constructor: registers elements, validates
/// directed links, and drives format negotiation between a source's
/// declared output and a sink's `add_source` acceptance.
///
/// Elements stay owned by the application; registration assigns each one
/// the next index and hands back a typed handle. The caller passes the
/// registered elements themselves to `link_*`, which negotiates eagerly.
/// A handle is a plain index: nothing ties the element argument of a
/// `link_*` call to the handle beside it, so the caller must pass, next
/// to each handle, the very element that was registered under it.
/// A sink accepts at most one upstream source per kind (enforced by the
/// sink's own negotiation), while one source may drive several sinks:
/// fan-out links are accepted as long as their keys differ.
pub struct PiplineBuilder {
    element_count: usize,
    links: Vec<Link>,
}

impl PiplineBuilder {
    /// How many elements have been registered.
    pub closed spec fn spec_element_count(&self) -> usize {
        self.element_count
    }

    /// The link keys accepted so far, in acceptance order.
    pub closed spec fn spec_links(&self) -> Seq<Link> {
        self.links@
    }

    /// An empty builder: no elements, no links.
    pub fn new() -> (r: PiplineBuilder)
        ensures
            r.spec_element_count() == 0,
            r.spec_links() == Seq::<Link>::empty(),
    {
        PiplineBuilder { element_count: 0, links: Vec::new() }
    }

    /// How many links have been accepted so far.
    pub fn link_count(&self) -> (r: usize)
        ensures
            r == self.spec_links().len(),
    {
        self.links.len()
    }

    /// Register an element: assign it the next index and return a handle
    /// bound to the element's concrete type. The element itself stays with
    /// the caller, who hands it back to `link_*` for negotiation.
    pub fn add_element<T: Element>(&mut self, elem: &T) -> (r: ElementRef<T>)
        requires
            old(self).spec_element_count() < usize::MAX,
        ensures
            r.spec_id() == old(self).spec_element_count(),
            final(self).spec_element_count() == old(self).spec_element_count() + 1,
            final(self).spec_links() == old(self).spec_links(),
    {
        let _ = elem;
        let id = self.element_count;
        self.element_count = self.element_count + 1;
        ElementRef { loc: id, _m: PhantomData }
    }

    /// Accept the link key if no identical key exists yet.
    fn check_link(&self, link: Link) -> (r: Result<(), Error>)
        ensures
            r matches Ok(_) <==> !self.spec_links().contains(link),
            r matches Err(e) ==> e == Error::DuplicatedLink,
    {
        let n = self.links.len();
        let mut i: usize = 0;
        while i < n
            invariant
                i <= n,
                n == self.spec_links().len(),
                forall|j: int| 0 <= j < i ==> self.spec_links()[j] != link,
            decreases n - i,
        {
            if self.links[i] == link {
                assert(self.spec_links().contains(link));
                return Err(Error::DuplicatedLink);
            }
            i = i + 1;
        }
        assert(!self.spec_links().contains(link)) by {
            assert(forall|j: int| 0 <= j < self.spec_links().len() ==> self.spec_links()[j] != link);
        }
        Ok(())
    }

    /// Link a video source to a video sink.
    ///
    /// Builds the video link key from the two handles, rejects it with
    /// [`Error::DuplicatedLink`] if that exact key already exists, and
    /// otherwise negotiates by offering the source's declared format to
    /// the sink's `add_source`. A negotiation failure is surfaced to the
    /// caller as-is and aborts the link; on success the link is appended.
    /// A rejected link leaves the graph unchanged, and the builder stays
    /// usable: the caller may retry with a corrected link.
    pub fn link_video<SRC: VideoSource, SINK: VideoSink>(
        &mut self,
        source: &SRC,
        source_ref: &ElementRef<SRC>,
        sink: &mut SINK,
        sink_ref: &ElementRef<SINK>,
    ) -> (r: Result<(), Error>)
        requires
            source.format_ready(),
        ensures
            final(self).spec_element_count() == old(self).spec_element_count(),
            old(self).spec_links().contains(Link::Video(source_ref.spec_id(), sink_ref.spec_id()))
                ==> r == Err::<(), Error>(Error::DuplicatedLink)
                    && final(self).spec_links() == old(self).spec_links()
                    && *final(sink) == *old(sink),
            r matches Ok(_) ==> final(self).spec_links() == old(self).spec_links().push(
                Link::Video(source_ref.spec_id(), sink_ref.spec_id()),
            ),
            r matches Err(_) ==> final(self).spec_links() == old(self).spec_links(),
            r matches Ok(_) ==> final(sink).negotiated_source() == Some(source.declared_format()),
            r matches Err(_) ==> final(sink).negotiated_source() == old(sink).negotiated_source(),
            !old(self).spec_links().contains(Link::Video(source_ref.spec_id(), sink_ref.spec_id()))
                && source.declared_format().image_format.spec_is_vendor() ==> r == Err::<
                (),
                Error,
            >(Error::UnsupportedFormat),
            !old(self).spec_links().contains(Link::Video(source_ref.spec_id(), sink_ref.spec_id()))
                && !source.declared_format().image_format.spec_is_vendor() && (old(
                sink,
            ).negotiated_source() matches Some(_)) ==> r == Err::<(), Error>(
                Error::DuplicatedSource,
            ),
    {
        let link = Link::Video(source_ref.loc, sink_ref.loc);
        match self.check_link(link) {
            Err(e) => {
                return Err(e);
            },
            Ok(_) => {},
        }
        let format = source.format();
        match sink.add_source(format) {
            Err(e) => {
                return Err(e);
            },
            Ok(_) => {},
        }
        self.links.push(link);
        Ok(())
    }

    /// Link an audio source to an audio sink. Same validation and
    /// negotiation as `link_video`, with the audio link key.
    pub fn link_audio<SRC: AudioSource, SINK: AudioSink>(
        &mut self,
        source: &SRC,
        source_ref: &ElementRef<SRC>,
        sink: &mut SINK,
        sink_ref: &ElementRef<SINK>,
    ) -> (r: Result<(), Error>)
        requires
            source.format_ready(),
        ensures
            final(self).spec_element_count() == old(self).spec_element_count(),
            old(self).spec_links().contains(Link::Audio(source_ref.spec_id(), sink_ref.spec_id()))
                ==> r == Err::<(), Error>(Error::DuplicatedLink)
                    && final(self).spec_links() == old(self).spec_links()
                    && *final(sink) == *old(sink),
            r matches Ok(_) ==> final(self).spec_links() == old(self).spec_links().push(
                Link::Audio(source_ref.spec_id(), sink_ref.spec_id()),
            ),
            r matches Err(_) ==> final(self).spec_links() == old(self).spec_links(),
            r matches Ok(_) ==> final(sink).negotiated_source() == Some(source.declared_format()),
            r matches Err(_) ==> final(sink).negotiated_source() == old(sink).negotiated_source(),
            !old(self).spec_links().contains(Link::Audio(source_ref.spec_id(), sink_ref.spec_id()))
                && (old(sink).negotiated_source() matches Some(_)) ==> r == Err::<(), Error>(
                Error::DuplicatedSource,
            ),
    {
        let link = Link::Audio(source_ref.loc, sink_ref.loc);
        match self.check_link(link) {
            Err(e) => {
                return Err(e);
            },
            Ok(_) => {},
        }
        let format = source.format();
        match sink.add_source(format) {
            Err(e) => {
                return Err(e);
            },
            Ok(_) => {},
        }
        self.links.push(link);
        Ok(())
    }

    /// Link a subtitle source to a subtitle sink. Same validation and
    /// negotiation as `link_video`, with the subtitle link key.
    pub fn link_subtitle<SRC: SubtitleSource, SINK: SubtitleSink>(
        &mut self,
        source: &SRC,
        source_ref: &ElementRef<SRC>,
        sink: &mut SINK,
        sink_ref: &ElementRef<SINK>,
    ) -> (r: Result<(), Error>)
        requires
            source.format_ready(),
        ensures
            final(self).spec_element_count() == old(self).spec_element_count(),
            old(self).spec_links().contains(
                Link::Subtitle(source_ref.spec_id(), sink_ref.spec_id()),
            ) ==> r == Err::<(), Error>(Error::DuplicatedLink)
                && final(self).spec_links() == old(self).spec_links()
                && *final(sink) == *old(sink),
            r matches Ok(_) ==> final(self).spec_links() == old(self).spec_links().push(
                Link::Subtitle(source_ref.spec_id(), sink_ref.spec_id()),
            ),
            r matches Err(_) ==> final(self).spec_links() == old(self).spec_links(),
            r matches Ok(_) ==> final(sink).negotiated_source() == Some(source.declared_format()),
            r matches Err(_) ==> final(sink).negotiated_source() == old(sink).negotiated_source(),
            !old(self).spec_links().contains(
                Link::Subtitle(source_ref.spec_id(), sink_ref.spec_id()),
            ) && (old(sink).negotiated_source() matches Some(_)) ==> r == Err::<(), Error>(
                Error::DuplicatedSource,
            ),
    {
        let link = Link::Subtitle(source_ref.loc, sink_ref.loc);
        match self.check_link(link) {
            Err(e) => {
                return Err(e);
            },
            Ok(_) => {},
        }
        let format = source.format();
        match sink.add_source(format) {
            Err(e) => {
                return Err(e);
            },
            Ok(_) => {},
        }
        self.links.push(link);
        Ok(())
    }

    /// Finish building: produce the per-kind runtime handles, all sharing
    /// one lifecycle that starts in the ready state, each owning an empty
    /// transport of its kind with no end-of-stream signaled yet.
    pub fn build(self) -> (r: (VideoPipeline, AudioPipeline, SubtitlePipeline))
        ensures
            r.0.frames() == Seq::<VideoFrame>::empty(),
            !r.0.ended(),
            r.1.frames() == Seq::<AudioFrame>::empty(),
            !r.1.ended(),
            r.2.frames() == Seq::<SubtitleFrame>::empty(),
            !r.2.ended(),
    {
        let lifecycle = Arc::new(Pipeline::ready());
        let video = VideoPipeline {
            pipeline: lifecycle.clone(),
            transport: FrameTransport::new(),
        };
        let audio = AudioPipeline {
            pipeline: lifecycle.clone(),
            transport: FrameTransport::new(),
        };
        let subtitle = SubtitlePipeline { pipeline: lifecycle, transport: FrameTransport::new() };
        (video, audio, subtitle)
    }
}

/// Linking one (kind, source, sink) key twice cannot grow the link set
/// twice: a successful link appends its key, after which the key is
/// contained in the set, so the identical request hits the duplicate case
/// of `link_video`, `link_audio` and `link_subtitle`, which returns
/// [`Error::DuplicatedLink`] and leaves the set as it was — one link, not
/// two.
pub proof fn lemma_relinked_key_is_duplicate(links: Seq<Link>, key: Link)
    ensures
        links.push(key).contains(key),
        links.push(key).len() == links.len() + 1,
{
    assert(links.push(key)[links.len() as int] == key);
}

/// The shared lifecycle of one built pipeline.
#[derive(Debug, Clone, Copy, PartialEq, Eq, Structural)]
pub enum PiplineState {
    Null,
    Ready,
    Pause,
    Play,
}

/// The byte stored for each lifecycle state.
pub open spec fn spec_state_code(s: PiplineState) -> u8 {
    match s {
        PiplineState::Null => 0,
        PiplineState::Ready => 1,
        PiplineState::Pause => 2,
        PiplineState::Play => 3,
    }
}

/// The lifecycle state a stored byte decodes to: a total, explicit
/// mapping, with every byte outside the four codes reading as `Null`.
pub open spec fn spec_state_of_code(code: u8) -> PiplineState {
    if code == 1 {
        PiplineState::Ready
    } else if code == 2 {
        PiplineState::Pause
    } else if code == 3 {
        PiplineState::Play
    } else {
        PiplineState::Null
    }
}

/// The byte stored for a lifecycle state.
pub fn state_code(s: PiplineState) -> (r: u8)
    ensures
        r == spec_state_code(s),
{
    match s {
        PiplineState::Null => 0,
        PiplineState::Ready => 1,
        PiplineState::Pause => 2,
        PiplineState::Play => 3,
    }
}

/// Decode a stored byte back to a lifecycle state, totally: no byte is
/// reinterpreted, and an out-of-range byte reads as `Null`.
pub fn state_of_code(code: u8) -> (r: PiplineState)
    ensures
        r == spec_state_of_code(code),
{
    if code == 1 {
        PiplineState::Ready
    } else if code == 2 {
        PiplineState::Pause
    } else if code == 3 {
        PiplineState::Play
    } else {
        PiplineState::Null
    }
}

/// Encoding and decoding of the lifecycle state round-trip: every state
/// stored through its code is read back as itself.
pub proof fn lemma_state_code_round_trip(s: PiplineState)
    ensures
        spec_state_of_code(spec_state_code(s)) == s,
{
}

/// One shared lifecycle per built pipeline.
///
/// The state lives in one atomic byte; `play`/`pause` store with
/// sequentially-consistent ordering and the observers load with the same
/// ordering, so no further locking is needed for any thread to observe a
/// transition made by another. What an observer returns reflects the
/// state at the moment of its load; under concurrent stores no stronger
/// promise is possible, so the observers carry no postcondition.
#[derive(Debug)]
pub struct Pipeline {
    state: AtomicU8,
}

impl Pipeline {
    /// A lifecycle in the ready state, as a successful build produces it.
    pub fn ready() -> (r: Pipeline) {
        Pipeline { state: AtomicU8::new(state_code(PiplineState::Ready)) }
    }

    /// Store the pause state, with one sequentially-consistent store.
    pub fn pause(&self) {
        self.state.store(state_code(PiplineState::Pause), Ordering::SeqCst);
    }

    /// Store the play state, with one sequentially-consistent store.
    pub fn play(&self) {
        self.state.store(state_code(PiplineState::Play), Ordering::SeqCst);
    }

    /// Whether the state at the moment of the load was `Pause`.
    pub fn is_paused(&self) -> (r: bool) {
        self.state.load(Ordering::SeqCst) == state_code(PiplineState::Pause)
    }

    /// Whether the state at the moment of the load was `Play`.
    pub fn is_playing(&self) -> (r: bool) {
        self.state.load(Ordering::SeqCst) == state_code(PiplineState::Play)
    }

    /// The state at the moment of the load, decoded by the total mapping.
    pub fn state(&self) -> (r: PiplineState) {
        state_of_code(self.state.load(Ordering::SeqCst))
    }
}

/// The duplex frame channel of one media kind: a FIFO queue of frames
/// plus an end-of-stream mark.
///
/// The transport is non-blocking and polled. `pull` returns `None`
/// immediately when the queue is empty — before end-of-stream that reads
/// as "no frame available yet", after it as exhaustion — and exhaustion
/// is idempotent: once the queue is drained every further `pull` returns
/// `None` and changes nothing.
#[derive(Debug)]
pub struct FrameTransport<T> {
    queue: VecDeque<T>,
    eos: bool,
}

impl<T> FrameTransport<T> {
    /// The queued frames, oldest first.
    pub closed spec fn frames(&self) -> Seq<T> {
        self.queue@
    }

    /// Whether the upstream has signaled end-of-stream.
    pub closed spec fn ended(&self) -> bool {
        self.eos
    }

    /// An empty transport with no end-of-stream signaled.
    pub fn new() -> (r: FrameTransport<T>)
        ensures
            r.frames() == Seq::<T>::empty(),
            !r.ended(),
    {
        FrameTransport { queue: VecDeque::new(), eos: false }
    }

    /// Enqueue a frame for the downstream consumer, behind every frame
    /// pushed before it.
    pub fn push(&mut self, frame: T)
        ensures
            final(self).frames() == old(self).frames().push(frame),
            final(self).ended() == old(self).ended(),
    {
        self.queue.push_back(frame);
    }

    /// Dequeue the oldest frame, or `None` immediately when the queue is
    /// empty, whether or not end-of-stream was signaled.
    pub fn pull(&mut self) -> (r: Option<T>)
        ensures
            old(self).frames().len() > 0 ==> r == Some(old(self).frames()[0])
                && final(self).frames() == old(self).frames().drop_first(),
            old(self).frames().len() == 0 ==> r == None::<T>
                && final(self).frames() == old(self).frames(),
            final(self).ended() == old(self).ended(),
    {
        self.queue.pop_front()
    }

    /// Record the upstream's end-of-stream signal; the frames already
    /// queued stay available until drained.
    pub fn end_of_stream(&mut self)
        ensures
            final(self).ended(),
            final(self).frames() == old(self).frames(),
    {
        self.eos = true;
    }

    /// Whether the upstream has signaled end-of-stream.
    pub fn is_ended(&self) -> (r: bool)
        ensures
            r == self.ended(),
    {
        self.eos
    }

    /// How many frames are queued.
    pub fn len(&self) -> (r: usize)
        ensures
            r == self.frames().len(),
    {
        self.queue.len()
    }
}

/// The video branch of a built pipeline: the shared lifecycle by
/// reference, plus this kind's own frame transport.
#[derive(Debug)]
pub struct VideoPipeline {
    pub(crate) pipeline: Arc<Pipeline>,
    pub(crate) transport: FrameTransport<VideoFrame>,
}

impl VideoPipeline {
    /// The queued video frames, oldest first.
    pub closed spec fn frames(&self) -> Seq<VideoFrame> {
        self.transport.frames()
    }

    /// Whether the upstream has signaled end-of-stream.
    pub closed spec fn ended(&self) -> bool {
        self.transport.ended()
    }

    /// Pause the shared lifecycle: every media kind of this build pauses.
    pub fn pause(&self) {
        self.pipeline.pause();
    }

    /// Start the shared lifecycle playing: every media kind of this build
    /// plays.
    pub fn play(&self) {
        self.pipeline.play();
    }

    /// Whether the shared state at the moment of the load was `Pause`.
    pub fn is_paused(&self) -> (r: bool) {
        self.pipeline.is_paused()
    }

    /// Whether the shared state at the moment of the load was `Play`.
    pub fn is_playing(&self) -> (r: bool) {
        self.pipeline.is_playing()
    }

    /// The shared state at the moment of the load.
    pub fn state(&self) -> (r: PiplineState) {
        self.pipeline.state()
    }

    /// Dequeue the next available frame, `None` immediately when the
    /// transport is empty: before end-of-stream that reads as "no frame
    /// available yet", after it as idempotent exhaustion.
    pub fn pull_frame(&mut self) -> (r: Option<VideoFrame>)
        ensures
            old(self).frames().len() > 0 ==> r == Some(old(self).frames()[0])
                && final(self).frames() == old(self).frames().drop_first(),
            old(self).frames().len() == 0 ==> r == None::<VideoFrame>
                && final(self).frames() == old(self).frames(),
            final(self).ended() == old(self).ended(),
    {
        self.transport.pull()
    }

    /// Enqueue a frame for the downstream consumer, in FIFO order.
    pub fn push_frame(&mut self, frame: VideoFrame)
        ensures
            final(self).frames() == old(self).frames().push(frame),
            final(self).ended() == old(self).ended(),
    {
        self.transport.push(frame);
    }

    /// Record the upstream's end-of-stream signal; queued frames stay
    /// available until drained.
    pub fn end_of_stream(&mut self)
        ensures
            final(self).ended(),
            final(self).frames() == old(self).frames(),
    {
        self.transport.end_of_stream();
    }
}

/// The audio branch of a built pipeline: the shared lifecycle by
/// reference, plus this kind's own frame transport.
#[derive(Debug)]
pub struct AudioPipeline {
    pub(crate) pipeline: Arc<Pipeline>,
    pub(crate) transport: FrameTransport<AudioFrame>,
}

impl AudioPipeline {
    /// The queued audio frames, oldest first.
    pub closed spec fn frames(&self) -> Seq<AudioFrame> {
        self.transport.frames()
    }

    /// Whether the upstream has signaled end-of-stream.
    pub closed spec fn ended(&self) -> bool {
        self.transport.ended()
    }

    /// Pause the shared lifecycle: every media kind of this build pauses.
    pub fn pause(&self) {
        self.pipeline.pause();
    }

    /// Start the shared lifecycle playing: every media kind of this build
    /// plays.
    pub fn play(&self) {
        self.pipeline.play();
    }

    /// Whether the shared state at the moment of the load was `Pause`.
    pub fn is_paused(&self) -> (r: bool) {
        self.pipeline.is_paused()
    }

    /// Whether the shared state at the moment of the load was `Play`.
    pub fn is_playing(&self) -> (r: bool) {
        self.pipeline.is_playing()
    }

    /// The shared state at the moment of the load.
    pub fn state(&self) -> (r: PiplineState) {
        self.pipeline.state()
    }

    /// Dequeue the next available frame, `None` immediately when the
    /// transport is empty: before end-of-stream that reads as "no frame
    /// available yet", after it as idempotent exhaustion.
    pub fn pull_frame(&mut self) -> (r: Option<AudioFrame>)
        ensures
            old(self).frames().len() > 0 ==> r == Some(old(self).frames()[0])
                && final(self).frames() == old(self).frames().drop_first(),
            old(self).frames().len() == 0 ==> r == None::<AudioFrame>
                && final(self).frames() == old(self).frames(),
            final(self).ended() == old(self).ended(),
    {
        self.transport.pull()
    }

    /// Enqueue a frame for the downstream consumer, in FIFO order.
    pub fn push_frame(&mut self, frame: AudioFrame)
        ensures
            final(self).frames() == old(self).frames().push(frame),
            final(self).ended() == old(self).ended(),
    {
        self.transport.push(frame);
    }

    /// Record the upstream's end-of-stream signal; queued frames stay
    /// available until drained.
    pub fn end_of_stream(&mut self)
        ensures
            final(self).ended(),
            final(self).frames() == old(self).frames(),
    {
        self.transport.end_of_stream();
    }
}

/// The subtitle branch of a built pipeline: the shared lifecycle by
/// reference, plus this kind's own frame transport.
#[derive(Debug)]
pub struct SubtitlePipeline {
    pub(crate) pipeline: Arc<Pipeline>,
    pub(crate) transport: FrameTransport<SubtitleFrame>,
}

impl SubtitlePipeline {
    /// The queued subtitle frames, oldest first.
    pub closed spec fn frames(&self) -> Seq<SubtitleFrame> {
        self.transport.frames()
    }

    /// Whether the upstream has signaled end-of-stream.
    pub closed spec fn ended(&self) -> bool {
        self.transport.ended()
    }

    /// Pause the shared lifecycle: every media kind of this build pauses.
    pub fn pause(&self) {
        self.pipeline.pause();
    }

    /// Start the shared lifecycle playing: every media kind of this build
    /// plays.
    pub fn play(&self) {
        self.pipeline.play();
    }

    /// Whether the shared state at the moment of the load was `Pause`.
    pub fn is_paused(&self) -> (r: bool) {
        self.pipeline.is_paused()
    }

    /// Whether the shared state at the moment of the load was `Play`.
    pub fn is_playing(&self) -> (r: bool) {
        self.pipeline.is_playing()
    }

    /// The shared state at the moment of the load.
    pub fn state(&self) -> (r: PiplineState) {
        self.pipeline.state()
    }

    /// Dequeue the next available frame, `None` immediately when the
    /// transport is empty: before end-of-stream that reads as "no frame
    /// available yet", after it as idempotent exhaustion.
    pub fn pull_frame(&mut self) -> (r: Option<SubtitleFrame>)
        ensures
            old(self).frames().len() > 0 ==> r == Some(old(self).frames()[0])
                && final(self).frames() == old(self).frames().drop_first(),
            old(self).frames().len() == 0 ==> r == None::<SubtitleFrame>
                && final(self).frames() == old(self).frames(),
            final(self).ended() == old(self).ended(),
    {
        self.transport.pull()
    }

    /// Enqueue a frame for the downstream consumer, in FIFO order.
    pub fn push_frame(&mut self, frame: SubtitleFrame)
        ensures
            final(self).frames() == old(self).frames().push(frame),
            final(self).ended() == old(self).ended(),
    {
        self.transport.push(frame);
    }

    /// Record the upstream's end-of-stream signal; queued frames stay
    /// available until drained.
    pub fn end_of_stream(&mut self)
        ensures
            final(self).ended(),
            final(self).frames() == old(self).frames(),
    {
        self.transport.end_of_stream();
    }
}

} // verus!
