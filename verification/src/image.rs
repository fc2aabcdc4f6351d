//! The resize filter element: a video sink and video source in one, which
//! receives raw frames, resamples them to a fixed destination resolution
//! through the `fast_image_resize` backend, and re-emits them with their
//! timestamps unchanged.

use vstd::prelude::*;

use crate::error::Error;
use crate::format::Dimentions;
use crate::format::FrameRate;
use crate::format::ImageFormat;
use crate::format::VideoFrameFormat;
use crate::pipline::VideoPipeline;
use crate::source::Element;
use crate::source::VideoFrame;
use crate::source::VideoSink;
use crate::source::VideoSource;

use fast_image_resize::FilterType;
use fast_image_resize::PixelType;
use fast_image_resize::ResizeAlg;
use fast_image_resize::ResizeOptions;
use fast_image_resize::Resizer;
use fast_image_resize::images::Image;

verus! {

/// Declares `fast_image_resize::PixelType`, the backend's pixel layout
/// tag: a fieldless enum, so its variants can be built and matched here.
#[verifier::external_type_specification]
pub struct ExPixelType(PixelType);

/// Declares `fast_image_resize::Filter`, the backend's custom-filter
/// descriptor, opaquely; it only occurs as the payload of the custom
/// variant of `FilterType`, which this module never builds.
#[verifier::external_type_specification]
#[verifier::external_body]
pub struct ExFilter(fast_image_resize::Filter);

/// Declares `fast_image_resize::FilterType`, the backend's convolution
/// filter choice.
#[verifier::external_type_specification]
pub struct ExFilterType(FilterType);

/// Declares `fast_image_resize::ResizeAlg`, the backend's resize
/// algorithm choice.
#[verifier::external_type_specification]
pub struct ExResizeAlg(ResizeAlg);

/// The resampling algorithm a resize filter uses.
#[derive(Debug, Default, Clone, Copy, PartialEq, Eq, Structural)]
pub enum ScaleSampler {
    /// Fastest algorithm.
    Nearest,
    #[default]
    Bilinear,
    CatmullRom,
    Lanczos,
}

/// How many bytes one pixel of the given backend pixel type occupies.
pub open spec fn spec_pixel_size(p: PixelType) -> int {
    match p {
        PixelType::U8 => 1,
        PixelType::U8x2 => 2,
        PixelType::U8x3 => 3,
        PixelType::U16 => 2,
        PixelType::U16x2 => 4,
        PixelType::U16x3 => 6,
        PixelType::U16x4 => 8,
        PixelType::F32x2 => 8,
        PixelType::F32x3 => 12,
        PixelType::F32x4 => 16,
        _ => 4,
    }
}

/// The backend pixel types made of bare bytes (one to four `u8`
/// components), whose buffers need no alignment beyond one byte, so a
/// `Vec<u8>` payload can never be misaligned for them.
pub open spec fn one_byte_aligned(p: PixelType) -> bool {
    match p {
        PixelType::U8 => true,
        PixelType::U8x2 => true,
        PixelType::U8x3 => true,
        PixelType::U8x4 => true,
        _ => false,
    }
}

/// The backend pixel type the filter resamples each image format as.
///
/// CMYK and vendor formats have no backend equivalent; they are resampled
/// as their component width alone, one or two bytes per pixel.
pub open spec fn spec_pixel_type_of(format: ImageFormat) -> PixelType {
    match format {
        ImageFormat::Luma8 => PixelType::U8,
        ImageFormat::LumaA8 => PixelType::U8x2,
        ImageFormat::Luma16 => PixelType::U16,
        ImageFormat::LumaA16 => PixelType::U16x2,
        ImageFormat::Rgb8 => PixelType::U8x3,
        ImageFormat::Rgba8 => PixelType::U8x4,
        ImageFormat::Rgb16 => PixelType::U16x3,
        ImageFormat::Rgba16 => PixelType::U16x4,
        ImageFormat::CMYK8 => PixelType::U8,
        ImageFormat::CMYK16 => PixelType::U16,
        ImageFormat::Vendor(_) => PixelType::U8,
    }
}

/// How many bytes one pixel of a raw frame of the given format occupies,
/// as the filter resamples it: the size of its backend pixel type.
pub open spec fn pixel_bytes(format: ImageFormat) -> int {
    spec_pixel_size(spec_pixel_type_of(format))
}

/// The backend pixel type the filter resamples each image format as.
pub fn image_format_to_pixel_type(format: ImageFormat) -> (r: PixelType)
    ensures
        r == spec_pixel_type_of(format),
        spec_pixel_size(r) == pixel_bytes(format),
{
    match format {
        ImageFormat::Vendor(_) => PixelType::U8,
        ImageFormat::Luma8 => PixelType::U8,
        ImageFormat::LumaA8 => PixelType::U8x2,
        ImageFormat::Luma16 => PixelType::U16,
        ImageFormat::LumaA16 => PixelType::U16x2,
        ImageFormat::CMYK16 => PixelType::U16,
        ImageFormat::CMYK8 => PixelType::U8,
        ImageFormat::Rgb8 => PixelType::U8x3,
        ImageFormat::Rgba8 => PixelType::U8x4,
        ImageFormat::Rgb16 => PixelType::U16x3,
        ImageFormat::Rgba16 => PixelType::U16x4,
    }
}

/// The backend algorithm each sampler stands for.
pub open spec fn spec_resize_alg_of(sampler: ScaleSampler) -> ResizeAlg {
    match sampler {
        ScaleSampler::Nearest => ResizeAlg::Nearest,
        ScaleSampler::Bilinear => ResizeAlg::Convolution(FilterType::Bilinear),
        ScaleSampler::CatmullRom => ResizeAlg::Convolution(FilterType::CatmullRom),
        ScaleSampler::Lanczos => ResizeAlg::Convolution(FilterType::Lanczos3),
    }
}

/// The backend algorithm each sampler stands for.
pub fn sampler_to_resize_alg(sampler: ScaleSampler) -> (r: ResizeAlg)
    ensures
        r == spec_resize_alg_of(sampler),
{
    match sampler {
        ScaleSampler::Nearest => ResizeAlg::Nearest,
        ScaleSampler::Bilinear => ResizeAlg::Convolution(FilterType::Bilinear),
        ScaleSampler::CatmullRom => ResizeAlg::Convolution(FilterType::CatmullRom),
        ScaleSampler::Lanczos => ResizeAlg::Convolution(FilterType::Lanczos3),
    }
}

/// Relies on `fast_image_resize`: `Image::from_vec_u8` wraps the source
/// buffer (failing, never panicking, on a short or misaligned buffer),
/// `Image::new` allocates the destination as exactly
/// `dst_width * dst_height` pixels of `pixel_type.size()` bytes each,
/// `Resizer::resize` resamples between images of this same pixel type
/// without changing the destination's dimensions, and `into_vec` returns
/// the destination's whole buffer. A failure is returned as the backend's
/// own message.
///
/// Success is owed for the byte-aligned pixel types given a long-enough
/// buffer: `from_vec_u8` fails only on a short or misaligned buffer, the
/// one-byte-aligned pixel structs can never misalign a byte buffer, and
/// with equal pixel types on both sides and no cropping `Resizer::resize`
/// has no failing path. The bounds on the two cross products keep the
/// convolution's intermediate buffer (one image's width at the other's
/// height) within addressable memory.
#[verifier::external_body]
fn resize_pixels(
    data: Vec<u8>,
    src_width: u32,
    src_height: u32,
    dst_width: u32,
    dst_height: u32,
    pixel_type: PixelType,
    alg: ResizeAlg,
) -> (r: Result<Vec<u8>, String>)
    requires
        src_width > 0,
        src_height > 0,
        dst_width > 0,
        dst_height > 0,
        (src_width as int) * (src_height as int) * spec_pixel_size(pixel_type) <= usize::MAX as int,
        (dst_width as int) * (dst_height as int) * spec_pixel_size(pixel_type) <= usize::MAX as int,
        (src_width as int) * (dst_height as int) * spec_pixel_size(pixel_type) <= usize::MAX as int,
        (dst_width as int) * (src_height as int) * spec_pixel_size(pixel_type) <= usize::MAX as int,
    ensures
        r matches Ok(v) ==> v@.len() == (dst_width as int) * (dst_height as int)
            * spec_pixel_size(pixel_type),
        one_byte_aligned(pixel_type) && data@.len() >= (src_width as int) * (src_height as int)
            * spec_pixel_size(pixel_type) ==> (r matches Ok(_)),
{
    let src = match Image::from_vec_u8(src_width, src_height, data, pixel_type) {
        Ok(v) => v,
        Err(e) => return Err(format!("{}", e)),
    };
    let mut dst = Image::new(dst_width, dst_height, pixel_type);
    let options = ResizeOptions::new().resize_alg(alg);
    let mut resizer = Resizer::new();
    match resizer.resize(&src, &mut dst, &options) {
        Ok(()) => Ok(dst.into_vec()),
        Err(e) => Err(format!("{}", e)),
    }
}

/// Whether a negotiated format and resolution are within what the filter
/// can resample to this destination: positive source dimensions, and
/// source, destination and intermediate resampling buffers that fit in
/// memory (the intermediate buffer spans one image's width at the
/// other's height).
pub open spec fn acceptable_source(
    format: ImageFormat,
    resolution: Dimentions,
    dst: Dimentions,
) -> bool {
    &&& resolution.width > 0
    &&& resolution.height > 0
    &&& (resolution.width as int) * (resolution.height as int) * pixel_bytes(format)
        <= usize::MAX as int
    &&& (dst.width as int) * (dst.height as int) * pixel_bytes(format) <= usize::MAX as int
    &&& (resolution.width as int) * (dst.height as int) * pixel_bytes(format) <= usize::MAX as int
    &&& (dst.width as int) * (resolution.height as int) * pixel_bytes(format) <= usize::MAX as int
}

/// The payloads the filter owes a successful resample for: a source has
/// been negotiated, its pixel type is one of the byte-aligned ones (the
/// backend rejects a misaligned buffer, and a byte buffer can misalign
/// only for the wider pixel types), and the payload covers the negotiated
/// source resolution.
pub open spec fn resample_guaranteed(s: Scale, payload_len: int) -> bool {
    s.negotiated() matches Some(f) && one_byte_aligned(spec_pixel_type_of(f)) && payload_len
        >= (s.spec_src().width as int) * (s.spec_src().height as int) * pixel_bytes(f)
}

/// Whether the filter's destination has no pixels, so every output
/// payload is empty.
pub open spec fn dst_is_empty(s: Scale) -> bool {
    s.spec_dst().width == 0 || s.spec_dst().height == 0
}

/// How many bytes one output payload of the filter holds when its
/// negotiated format is `f`: the destination pixel count times the bytes
/// per pixel of `f`.
pub open spec fn dst_payload_bytes(s: Scale, f: ImageFormat) -> int {
    (s.spec_dst().width as int) * (s.spec_dst().height as int) * pixel_bytes(f)
}

/// A resize filter: consumes raw video frames of the negotiated source
/// resolution and re-emits them resampled to a fixed destination
/// resolution, timestamps unchanged.
#[derive(Debug)]
pub struct Scale {
    dst_width: u32,
    dst_height: u32,
    src_width: u32,
    src_height: u32,
    sampler: ScaleSampler,
    format: Option<ImageFormat>,
    fps: FrameRate,
}

impl Scale {
    /// Once a source is negotiated it is concrete (non-vendor), its
    /// resolution is positive, and both buffers fit in memory.
    #[verifier::type_invariant]
    pub closed spec fn wf(self) -> bool {
        self.format matches Some(f) ==> {
            &&& !f.spec_is_vendor()
            &&& acceptable_source(
                f,
                Dimentions { width: self.src_width, height: self.src_height },
                Dimentions { width: self.dst_width, height: self.dst_height },
            )
        }
    }

    /// The negotiated upstream pixel format, `None` until `add_source`
    /// succeeds.
    pub closed spec fn negotiated(self) -> Option<ImageFormat> {
        self.format
    }

    /// The fixed destination resolution.
    pub closed spec fn spec_dst(self) -> Dimentions {
        Dimentions { width: self.dst_width, height: self.dst_height }
    }

    /// The negotiated upstream resolution.
    pub closed spec fn spec_src(self) -> Dimentions {
        Dimentions { width: self.src_width, height: self.src_height }
    }

    /// The negotiated upstream frame rate.
    pub closed spec fn spec_fps(self) -> FrameRate {
        self.fps
    }

    /// The sampler this filter resamples with.
    pub closed spec fn spec_sampler(self) -> ScaleSampler {
        self.sampler
    }

    /// A filter resampling to the given destination resolution with the
    /// given sampler, with no source negotiated yet.
    pub fn new(width: u32, height: u32, sampler: ScaleSampler) -> (r: Scale)
        ensures
            r.spec_dst() == (Dimentions { width, height }),
            r.spec_src() == (Dimentions { width: 0, height: 0 }),
            r.spec_sampler() == sampler,
            r.negotiated() == None::<ImageFormat>,
            r.spec_fps() == FrameRate::Unknown,
    {
        Scale {
            dst_width: width,
            dst_height: height,
            src_width: 0,
            src_height: 0,
            sampler,
            format: None,
            fps: FrameRate::Unknown,
        }
    }

    /// Resample one raw frame payload to the destination resolution.
    ///
    /// A zero-sized destination yields an empty payload outright; an
    /// unconfigured filter reports [`Error::Unconfigured`]; a backend
    /// failure is passed through as [`Error::Backend`].
    fn resize(&self, data: Vec<u8>) -> (r: Result<Vec<u8>, Error>)
        ensures
            dst_is_empty(*self) ==> (r matches Ok(v) && v@.len() == 0),
            !dst_is_empty(*self) && self.negotiated() == None::<ImageFormat> ==> r == Err::<
                Vec<u8>,
                Error,
            >(Error::Unconfigured),
            !dst_is_empty(*self) ==> (r matches Ok(v) ==> (self.negotiated() matches Some(f)
                && v@.len() == dst_payload_bytes(*self, f))),
            (self.negotiated() matches Some(_)) ==> (r matches Err(e) ==> e.spec_is_backend()),
            resample_guaranteed(*self, data@.len() as int) ==> (r matches Ok(_)),
    {
        if self.dst_width == 0 || self.dst_height == 0 {
            return Ok(Vec::new());
        }
        let format = match self.format {
            Some(f) => f,
            None => {
                return Err(Error::Unconfigured);
            },
        };
        proof {
            use_type_invariant(self);
        }
        let pixel_type = image_format_to_pixel_type(format);
        let alg = sampler_to_resize_alg(self.sampler);
        match resize_pixels(
            data,
            self.src_width,
            self.src_height,
            self.dst_width,
            self.dst_height,
            pixel_type,
            alg,
        ) {
            Ok(v) => Ok(v),
            Err(message) => Err(Error::Backend(message)),
        }
    }
}

impl Element for Scale {
    fn is_video_sink(&self) -> (r: bool)
        ensures
            r,
    {
        true
    }

    fn is_video_source(&self) -> (r: bool)
        ensures
            r,
    {
        true
    }
}

impl VideoSink for Scale {
    /// The negotiated source format, rebuilt from the stored pixel
    /// format, source resolution and frame rate.
    open spec fn negotiated_source(&self) -> Option<VideoFrameFormat> {
        match self.negotiated() {
            Some(f) => Some(
                VideoFrameFormat {
                    image_format: f,
                    resolution: self.spec_src(),
                    fps: self.spec_fps(),
                },
            ),
            None => None,
        }
    }

    /// Negotiate the upstream format, exactly once.
    ///
    /// A vendor pixel format is always rejected with
    /// [`Error::UnsupportedFormat`], configuring nothing. A second call
    /// on an already-negotiated filter is rejected with
    /// [`Error::DuplicatedSource`], whatever the offered format, and the
    /// negotiated format remains the first one. A concrete format whose
    /// resolution the filter cannot resample (zero-sized, or too large
    /// for memory) is rejected with [`Error::UnsupportedFormat`].
    fn add_source(&mut self, format: VideoFrameFormat) -> (r: Result<(), Error>)
        ensures
            format.image_format.spec_is_vendor() ==> r == Err::<(), Error>(
                Error::UnsupportedFormat,
            ) && *final(self) == *old(self),
            !format.image_format.spec_is_vendor() && (old(self).negotiated() matches Some(_))
                ==> r == Err::<(), Error>(Error::DuplicatedSource) && *final(self) == *old(self),
            final(self).negotiated() == if r matches Ok(_) {
                Some(format.image_format)
            } else {
                old(self).negotiated()
            },
            !format.image_format.spec_is_vendor() && old(self).negotiated() == None::<ImageFormat>
                && !acceptable_source(format.image_format, format.resolution, old(self).spec_dst())
                ==> r == Err::<(), Error>(Error::UnsupportedFormat) && *final(self) == *old(self),
            !format.image_format.spec_is_vendor() && old(self).negotiated() == None::<ImageFormat>
                && acceptable_source(format.image_format, format.resolution, old(self).spec_dst())
                ==> r == Ok::<(), Error>(()) && final(self).negotiated() == Some(
                format.image_format,
            ) && final(self).spec_src() == format.resolution && final(self).spec_fps() == format.fps
                && final(self).spec_dst() == old(self).spec_dst() && final(self).spec_sampler()
                == old(self).spec_sampler(),
    {
        if format.image_format.is_vendor() {
            return Err(Error::UnsupportedFormat);
        }
        if self.format.is_some() {
            return Err(Error::DuplicatedSource);
        }
        let bytes = pixel_bytes_exec(format.image_format);
        let width = format.resolution.width;
        let height = format.resolution.height;
        if width == 0 || height == 0 {
            return Err(Error::UnsupportedFormat);
        }
        proof {
            assert((width as int) * (height as int) * (bytes as int) <= 0xffff_ffff * 0xffff_ffff
                * 0xff && (self.dst_width as int) * (self.dst_height as int) * (bytes as int)
                <= 0xffff_ffff * 0xffff_ffff * 0xff && (width as int) * (self.dst_height as int)
                * (bytes as int) <= 0xffff_ffff * 0xffff_ffff * 0xff && (self.dst_width as int)
                * (height as int) * (bytes as int) <= 0xffff_ffff * 0xffff_ffff * 0xff)
                by (nonlinear_arith)
                requires
                    width as int <= 0xffff_ffff,
                    height as int <= 0xffff_ffff,
                    self.dst_width as int <= 0xffff_ffff,
                    self.dst_height as int <= 0xffff_ffff,
                    bytes as int <= 0xff,
            ;
        }
        let src_bytes: u128 = (width as u128) * (height as u128) * (bytes as u128);
        let dst_bytes: u128 = (self.dst_width as u128) * (self.dst_height as u128) * (
        bytes as u128);
        let across_bytes: u128 = (width as u128) * (self.dst_height as u128) * (bytes as u128);
        let down_bytes: u128 = (self.dst_width as u128) * (height as u128) * (bytes as u128);
        if src_bytes > usize::MAX as u128 || dst_bytes > usize::MAX as u128 || across_bytes
            > usize::MAX as u128 || down_bytes > usize::MAX as u128 {
            return Err(Error::UnsupportedFormat);
        }
        proof {
            assert(src_bytes == (width as int) * (height as int) * (bytes as int));
            assert(dst_bytes == (self.dst_width as int) * (self.dst_height as int) * (
            bytes as int));
            assert(acceptable_source(
                format.image_format,
                format.resolution,
                Dimentions { width: self.dst_width, height: self.dst_height },
            ));
        }
        self.src_width = width;
        self.src_height = height;
        self.fps = format.fps;
        self.format = Some(format.image_format);
        Ok(())
    }

    /// Consume one frame: resample it to the destination resolution and
    /// forward it through the transport, timestamp unchanged. On failure
    /// nothing is forwarded and the error aborts this push only.
    fn on_push(&mut self, pipline: &mut VideoPipeline, frame: VideoFrame) -> (r: Result<
        (),
        Error,
    >)
        ensures
            *final(self) == *old(self),
            final(pipline).ended() == old(pipline).ended(),
            r matches Ok(_) ==> final(pipline).frames().len() == old(pipline).frames().len() + 1
                && final(pipline).frames().drop_last() == old(pipline).frames()
                && final(pipline).frames().last().time_stamp == frame.time_stamp,
            !dst_is_empty(*old(self)) ==> (r matches Ok(_) ==> (old(self).negotiated() matches Some(f) && final(pipline).frames().last().raw@.len()
                == dst_payload_bytes(*old(self), f))),
            dst_is_empty(*old(self)) ==> ((r matches Ok(_)) && final(pipline).frames().last().raw@.len() == 0),
            !dst_is_empty(*old(self)) && old(self).negotiated() == None::<ImageFormat> ==> r
                == Err::<(), Error>(Error::Unconfigured),
            resample_guaranteed(*old(self), frame.raw@.len() as int) ==> (r matches Ok(_)),
            r matches Err(_) ==> final(pipline).frames() == old(pipline).frames(),
    {
        let VideoFrame { raw, time_stamp } = frame;
        let resized = match self.resize(raw) {
            Ok(v) => v,
            Err(e) => {
                return Err(e);
            },
        };
        pipline.push_frame(VideoFrame { raw: resized, time_stamp });
        Ok(())
    }
}

impl VideoSource for Scale {
    /// The filter can declare its output format once a source has been
    /// negotiated.
    open spec fn format_ready(&self) -> bool {
        self.negotiated() matches Some(_)
    }

    /// The negotiated pixel format and frame rate at the destination
    /// resolution; meaningless until a source is negotiated.
    open spec fn declared_format(&self) -> VideoFrameFormat {
        match self.negotiated() {
            Some(f) => VideoFrameFormat {
                image_format: f,
                resolution: self.spec_dst(),
                fps: self.spec_fps(),
            },
            None => vstd::pervasive::arbitrary(),
        }
    }

    /// The format of the frames this filter emits: the negotiated pixel
    /// format and frame rate at the destination resolution.
    fn format(&self) -> (r: VideoFrameFormat)
        ensures
            self.negotiated() matches Some(f) ==> r == (VideoFrameFormat {
                image_format: f,
                resolution: self.spec_dst(),
                fps: self.spec_fps(),
            }),
    {
        match self.format {
            Some(f) => VideoFrameFormat {
                image_format: f,
                resolution: Dimentions { width: self.dst_width, height: self.dst_height },
                fps: self.fps,
            },
            None => vstd::pervasive::unreached(),
        }
    }

    /// Pull one frame from the upstream transport, resample it and return
    /// it, timestamp unchanged; `Ok(None)` exactly when no frame was
    /// available.
    fn on_pull(&mut self, pipline: &mut VideoPipeline) -> (r: Result<Option<VideoFrame>, Error>)
        ensures
            *final(self) == *old(self),
            final(pipline).ended() == old(pipline).ended(),
            r == Ok::<Option<VideoFrame>, Error>(None) <==> old(pipline).frames().len() == 0,
            old(pipline).frames().len() == 0 ==> final(pipline).frames() == old(pipline).frames(),
            old(pipline).frames().len() > 0 ==> final(pipline).frames() == old(pipline).frames().drop_first(),
            r matches Ok(o) ==> (o matches Some(f) ==> old(pipline).frames().len() > 0
                && f.time_stamp == old(pipline).frames()[0].time_stamp),
            !dst_is_empty(*old(self)) ==> (r matches Ok(o) ==> (o matches Some(f) ==> (old(self).negotiated() matches Some(nf) && f.raw@.len() == dst_payload_bytes(
                *old(self),
                nf,
            )))),
            old(pipline).frames().len() > 0 && !dst_is_empty(*old(self)) && old(self).negotiated() == None::<ImageFormat> ==> r == Err::<Option<VideoFrame>, Error>(
                Error::Unconfigured,
            ),
            old(pipline).frames().len() > 0 && resample_guaranteed(
                *old(self),
                old(pipline).frames()[0].raw@.len() as int,
            ) ==> (r matches Ok(_)),
    {
        match pipline.pull_frame() {
            Some(frame) => {
                let VideoFrame { raw, time_stamp } = frame;
                let resized = match self.resize(raw) {
                    Ok(v) => v,
                    Err(e) => {
                        return Err(e);
                    },
                };
                Ok(Some(VideoFrame { raw: resized, time_stamp }))
            },
            None => Ok(None),
        }
    }
}

/// How many bytes one pixel of a raw frame of the given format occupies,
/// as the filter resamples it.
pub fn pixel_bytes_exec(format: ImageFormat) -> (r: u8)
    ensures
        r as int == pixel_bytes(format),
{
    match format {
        ImageFormat::Luma8 => 1,
        ImageFormat::LumaA8 => 2,
        ImageFormat::Luma16 => 2,
        ImageFormat::LumaA16 => 4,
        ImageFormat::Rgb8 => 3,
        ImageFormat::Rgba8 => 4,
        ImageFormat::Rgb16 => 6,
        ImageFormat::Rgba16 => 8,
        ImageFormat::CMYK8 => 1,
        ImageFormat::CMYK16 => 2,
        ImageFormat::Vendor(_) => 1,
    }
}

} // verus!
