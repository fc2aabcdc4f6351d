//! Descriptors for raw frame shapes (image pixel format, audio shape,
//! subtitle kind) and for compressed encodings.
//!
//! Pure data: the only behavior here is classification (alpha presence,
//! vendor detection) and the convenience lexicographic order on dimensions.
//! Each closed enum carries a `Vendor` extension point naming a format
//! unknown to the core; no operation ever guesses what a vendor value means.

use vstd::prelude::*;

verus! {

use core::cmp::Ordering;

/// Width and height of an image in pixels.
#[derive(Debug, Default, Clone, Copy, PartialEq, Eq, Structural)]
pub struct Dimentions {
    pub width: u32,
    pub height: u32,
}

impl Dimentions {
    /// Lexicographic order: width first, then height.
    ///
    /// This is a convenience ordering only, not a semantic guarantee:
    /// `a < b` does not mean that `a` fits within `b`.
    pub open spec fn spec_cmp(&self, other: &Dimentions) -> Ordering {
        if self.width < other.width {
            Ordering::Less
        } else if self.width > other.width {
            Ordering::Greater
        } else if self.height < other.height {
            Ordering::Less
        } else if self.height > other.height {
            Ordering::Greater
        } else {
            Ordering::Equal
        }
    }
}

impl PartialOrd for Dimentions {
    fn partial_cmp(&self, other: &Dimentions) -> (r: Option<Ordering>) {
        if self.width < other.width {
            Some(Ordering::Less)
        } else if self.width > other.width {
            Some(Ordering::Greater)
        } else if self.height < other.height {
            Some(Ordering::Less)
        } else if self.height > other.height {
            Some(Ordering::Greater)
        } else {
            Some(Ordering::Equal)
        }
    }
}

impl vstd::std_specs::cmp::PartialOrdSpecImpl for Dimentions {
    open spec fn obeys_partial_cmp_spec() -> bool {
        true
    }

    open spec fn partial_cmp_spec(&self, other: &Dimentions) -> Option<Ordering> {
        Some(self.spec_cmp(other))
    }
}

/// Pixel layout of a raw (decoded) image.
#[derive(Debug, Clone, Copy, PartialEq, Eq, Hash)]
pub enum ImageFormat {
    Luma8,
    LumaA8,
    Luma16,
    LumaA16,
    Rgb8,
    Rgba8,
    Rgb16,
    Rgba16,
    CMYK8,
    CMYK16,
    /// A pixel format unknown to the core, tagged by name.
    Vendor(&'static str),
}

impl ImageFormat {
    /// The four variants that carry an alpha channel.
    ///
    /// Alpha presence is never inferred for vendor formats: every
    /// `Vendor` value is alpha-free as far as the core is concerned.
    pub open spec fn spec_has_alpha(&self) -> bool {
        match *self {
            ImageFormat::LumaA8 => true,
            ImageFormat::LumaA16 => true,
            ImageFormat::Rgba8 => true,
            ImageFormat::Rgba16 => true,
            _ => false,
        }
    }

    /// True exactly for the four alpha-carrying variants
    /// (8/16-bit luma+alpha, 8/16-bit RGB+alpha); false for every other
    /// variant, including every vendor value.
    pub fn has_alpha(&self) -> (r: bool)
        ensures
            r == self.spec_has_alpha(),
    {
        match self {
            ImageFormat::LumaA16 | ImageFormat::LumaA8 | ImageFormat::Rgba16
                | ImageFormat::Rgba8 => true,
            _ => false,
        }
    }

    /// True exactly for the vendor extension variant.
    pub open spec fn spec_is_vendor(&self) -> bool {
        self matches ImageFormat::Vendor(_)
    }

    /// True exactly for the vendor extension variant.
    pub fn is_vendor(&self) -> (r: bool)
        ensures
            r == self.spec_is_vendor(),
    {
        match self {
            ImageFormat::Vendor(_) => true,
            _ => false,
        }
    }
}

/// Presentation time of a packet or frame, in ticks chosen by the producer.
#[derive(Debug, Clone, Copy, PartialEq, Eq, Structural)]
pub struct TimeStamp(pub usize);

/// Frame rate of a video source.
///
/// `Unknown` stands for a static or unknown rate; `MilliFps` counts
/// thousandths of a frame per second, so 30 fps is `MilliFps(30_000)`.
#[derive(Debug, Clone, Copy, PartialEq, Eq, Structural)]
pub enum FrameRate {
    Unknown,
    MilliFps(u64),
}

/// Shape of the raw frames a video source emits.
#[derive(Debug, Clone, Copy, PartialEq, Eq)]
pub struct VideoFrameFormat {
    pub image_format: ImageFormat,
    pub resolution: Dimentions,
    pub fps: FrameRate,
}

/// Shape of the raw samples an audio source emits.
#[derive(Debug, Clone, Copy, PartialEq, Eq, Structural)]
pub struct AudioFrameFormat {
    pub channels: u32,
    /// Samples per second.
    pub sample_rate: u32,
}

/// Kind of a subtitle stream.
#[derive(Debug, Clone, Copy, PartialEq, Eq, Structural)]
pub enum SubtitleFormat {
    Text,
    Image,
}

/// Shape of the frames a subtitle source emits.
#[derive(Debug, Clone, Copy, PartialEq, Eq)]
pub struct SubtitleFrameFormat {
    pub subtitle_format: SubtitleFormat,
    pub language: (),
}

/// Shape of the compressed packets a video decoder accepts.
#[derive(Debug, Clone, Copy, PartialEq, Eq)]
pub struct VideoPacketFormat {
    pub encoding: VideoEncoding,
}

/// Shape of the compressed packets an audio decoder accepts.
#[derive(Debug, Clone, Copy, PartialEq, Eq)]
pub struct AudioPacketFormat {
    pub encoding: AudioEncoding,
    pub channels: u32,
    /// Samples per second.
    pub sample_rate: u32,
}

/// Shape of the compressed packets a subtitle decoder accepts.
#[derive(Debug, Clone, Copy, PartialEq, Eq)]
pub struct SubtitlePacketFormat {
    pub encoding: SubtitleEncoding,
}

/// Compressed encodings of a video stream.
#[derive(Debug, Clone, Copy, PartialEq, Eq, Hash)]
pub enum VideoEncoding {
    RAW(ImageFormat),
    JPEG,
    PNG,
    WEBP,
    AV1,
    AVS2,
    H264,
    H265,
    VP8,
    VP9,
    Theora,
    /// An encoding unknown to the core, tagged by name.
    Vendor(&'static str),
}

impl VideoEncoding {
    /// True exactly for the vendor extension variant.
    pub open spec fn spec_is_vendor(&self) -> bool {
        self matches VideoEncoding::Vendor(_)
    }

    /// True exactly for the vendor extension variant. Any operation that
    /// needs a concrete codec must reject such a value rather than guess.
    pub fn is_vendor(&self) -> (r: bool)
        ensures
            r == self.spec_is_vendor(),
    {
        match self {
            VideoEncoding::Vendor(_) => true,
            _ => false,
        }
    }
}

/// Compressed encodings of an audio stream.
#[derive(Debug, Clone, Copy, PartialEq, Eq, Hash)]
pub enum AudioEncoding {
    RAW,
    AAC,
    AC3,
    FLAC,
    OPUS,
    OPENCORE,
    VISUALON,
    VORBIS,
    WAVPACK,
    /// An encoding unknown to the core, tagged by name.
    Vendor(&'static str),
}

impl AudioEncoding {
    /// True exactly for the vendor extension variant.
    pub open spec fn spec_is_vendor(&self) -> bool {
        self matches AudioEncoding::Vendor(_)
    }

    /// True exactly for the vendor extension variant. Any operation that
    /// needs a concrete codec must reject such a value rather than guess.
    pub fn is_vendor(&self) -> (r: bool)
        ensures
            r == self.spec_is_vendor(),
    {
        match self {
            AudioEncoding::Vendor(_) => true,
            _ => false,
        }
    }
}

/// Compressed encodings of a subtitle stream.
#[derive(Debug, Clone, Copy, PartialEq, Eq, Hash)]
pub enum SubtitleEncoding {
    UTF8,
    UTF16,
    ARIB,
    DVDSUB,
    DVB,
    /// An encoding unknown to the core, tagged by name.
    Vendor(&'static str),
}

impl SubtitleEncoding {
    /// True exactly for the vendor extension variant.
    pub open spec fn spec_is_vendor(&self) -> bool {
        self matches SubtitleEncoding::Vendor(_)
    }

    /// True exactly for the vendor extension variant. Any operation that
    /// needs a concrete codec must reject such a value rather than guess.
    pub fn is_vendor(&self) -> (r: bool)
        ensures
            r == self.spec_is_vendor(),
    {
        match self {
            SubtitleEncoding::Vendor(_) => true,
            _ => false,
        }
    }
}

} // verus!
