use rstreamer::error::Error;
use rstreamer::format::Dimentions;
use rstreamer::format::FrameRate;
use rstreamer::format::ImageFormat;
use rstreamer::format::TimeStamp;
use rstreamer::format::VideoFrameFormat;
use rstreamer::image::Scale;
use rstreamer::image::ScaleSampler;
use rstreamer::image::pixel_bytes_exec;
use rstreamer::pipline::PiplineBuilder;
use rstreamer::source::Element;
use rstreamer::source::VideoFrame;
use rstreamer::source::VideoSink;
use rstreamer::source::VideoSource;

fn rgb_1080p(fps_milli: u64) -> VideoFrameFormat {
    VideoFrameFormat {
        image_format: ImageFormat::Rgb8,
        resolution: Dimentions { width: 1920, height: 1080 },
        fps: FrameRate::MilliFps(fps_milli),
    }
}

#[test]
fn add_source_rejects_every_vendor_image_format_and_configures_nothing() {
    let mut sink = Scale::new(640, 480, ScaleSampler::Bilinear);
    let vendor = VideoFrameFormat {
        image_format: ImageFormat::Vendor("ten-bit"),
        resolution: Dimentions { width: 16, height: 16 },
        fps: FrameRate::Unknown,
    };
    assert!(matches!(sink.add_source(vendor), Err(Error::UnsupportedFormat)));

    // the sink was left unconfigured: a concrete format still negotiates
    assert!(sink.add_source(rgb_1080p(30_000)).is_ok());
}

#[test]
fn second_add_source_is_duplicated_source_and_first_format_stays() {
    let mut sink = Scale::new(640, 480, ScaleSampler::Bilinear);
    assert!(sink.add_source(rgb_1080p(30_000)).is_ok());

    // an identical offer is still a duplicate
    assert!(matches!(sink.add_source(rgb_1080p(30_000)), Err(Error::DuplicatedSource)));

    // a different offer is still a duplicate, and changes nothing
    let other = VideoFrameFormat {
        image_format: ImageFormat::Rgba16,
        resolution: Dimentions { width: 4, height: 4 },
        fps: FrameRate::Unknown,
    };
    assert!(matches!(sink.add_source(other), Err(Error::DuplicatedSource)));

    let negotiated = sink.format();
    assert_eq!(negotiated.image_format, ImageFormat::Rgb8);
    assert_eq!(negotiated.fps, FrameRate::MilliFps(30_000));
}

#[test]
fn add_source_rejects_zero_sized_resolutions() {
    let mut sink = Scale::new(640, 480, ScaleSampler::Bilinear);
    let flat = VideoFrameFormat {
        image_format: ImageFormat::Rgb8,
        resolution: Dimentions { width: 0, height: 1080 },
        fps: FrameRate::Unknown,
    };
    assert!(matches!(sink.add_source(flat), Err(Error::UnsupportedFormat)));
}

#[test]
fn push_before_negotiation_is_unconfigured() {
    let mut sink = Scale::new(640, 480, ScaleSampler::Bilinear);
    let builder = PiplineBuilder::new();
    let (mut video, _, _) = builder.build();
    let frame = VideoFrame { raw: vec![0; 48], time_stamp: TimeStamp(0) };
    assert!(matches!(sink.on_push(&mut video, frame), Err(Error::Unconfigured)));
    assert!(video.pull_frame().is_none());
}

#[test]
fn wrong_payload_length_surfaces_the_backend_error() {
    let mut sink = Scale::new(640, 480, ScaleSampler::Bilinear);
    assert!(sink.add_source(rgb_1080p(30_000)).is_ok());
    let builder = PiplineBuilder::new();
    let (mut video, _, _) = builder.build();
    // far too short for 1920x1080 RGB
    let frame = VideoFrame { raw: vec![0; 10], time_stamp: TimeStamp(0) };
    let result = sink.on_push(&mut video, frame);
    match result {
        Err(e) => assert!(e.is_backend()),
        Ok(()) => panic!("a short payload cannot be resized"),
    }
    assert!(video.pull_frame().is_none());
}

#[test]
fn duplicate_link_keys_are_rejected_and_the_link_set_grows_by_one() {
    let mut source = Scale::new(1920, 1080, ScaleSampler::Nearest);
    // make the source able to declare {Rgb8, 1920x1080, 30 fps}
    let feed = VideoFrameFormat {
        image_format: ImageFormat::Rgb8,
        resolution: Dimentions { width: 1920, height: 1080 },
        fps: FrameRate::MilliFps(30_000),
    };
    assert!(source.add_source(feed).is_ok());

    let mut filter = Scale::new(640, 480, ScaleSampler::Bilinear);

    let mut builder = PiplineBuilder::new();
    let source_ref = builder.add_element(&source);
    let filter_ref = builder.add_element(&filter);

    assert_eq!(builder.link_count(), 0);
    assert!(builder.link_video(&source, &source_ref, &mut filter, &filter_ref).is_ok());
    assert_eq!(builder.link_count(), 1);

    // the identical (kind, source, sink) key a second time
    let again = builder.link_video(&source, &source_ref, &mut filter, &filter_ref);
    assert!(matches!(again, Err(Error::DuplicatedLink)));
    // the link set grew by exactly one, not two
    assert_eq!(builder.link_count(), 1);
}

#[test]
fn linked_resize_filter_scales_one_frame_and_keeps_its_timestamp() {
    // a source element declaring {Rgb8, 1920x1080, fps 30.0}
    let mut source = Scale::new(1920, 1080, ScaleSampler::Nearest);
    assert!(source.add_source(rgb_1080p(30_000)).is_ok());
    let declared = source.format();
    assert_eq!(declared.image_format, ImageFormat::Rgb8);
    assert_eq!(declared.resolution, Dimentions { width: 1920, height: 1080 });
    assert_eq!(declared.fps, FrameRate::MilliFps(30_000));

    // a resize filter configured for destination 640x480
    let mut filter = Scale::new(640, 480, ScaleSampler::Bilinear);

    let mut builder = PiplineBuilder::new();
    let source_ref = builder.add_element(&source);
    let filter_ref = builder.add_element(&filter);

    // linking negotiates: add_source on the filter with the source's format
    assert!(builder.link_video(&source, &source_ref, &mut filter, &filter_ref).is_ok());

    // a second negotiation with any format fails with DuplicatedSource
    assert!(matches!(filter.add_source(declared), Err(Error::DuplicatedSource)));

    // one frame whose raw payload length matches 1920x1080x3 bytes (Rgb8)
    let (mut video, _, _) = builder.build();
    let payload = vec![127u8; 1920 * 1080 * 3];
    let frame = VideoFrame { raw: payload, time_stamp: TimeStamp(424242) };
    assert!(filter.on_push(&mut video, frame).is_ok());

    let out = video.pull_frame().expect("the filter forwards one frame");
    assert_eq!(out.raw.len(), 640 * 480 * 3);
    assert_eq!(out.time_stamp, TimeStamp(424242));
    assert!(video.pull_frame().is_none());
}

#[test]
fn pulling_through_the_filter_resizes_the_upstream_frame() {
    let mut filter = Scale::new(8, 8, ScaleSampler::Nearest);
    let feed = VideoFrameFormat {
        image_format: ImageFormat::Rgba8,
        resolution: Dimentions { width: 16, height: 16 },
        fps: FrameRate::Unknown,
    };
    assert!(filter.add_source(feed).is_ok());

    let builder = PiplineBuilder::new();
    let (mut video, _, _) = builder.build();

    // nothing upstream yet
    assert!(matches!(filter.on_pull(&mut video), Ok(None)));

    video.push_frame(VideoFrame { raw: vec![9; 16 * 16 * 4], time_stamp: TimeStamp(5) });
    let pulled = filter.on_pull(&mut video);
    match pulled {
        Ok(Some(f)) => {
            assert_eq!(f.raw.len(), 8 * 8 * 4);
            assert_eq!(f.time_stamp, TimeStamp(5));
        }
        _ => panic!("one upstream frame must come out resized"),
    }
}

#[test]
fn zero_sized_destination_yields_empty_frames() {
    let mut filter = Scale::new(0, 480, ScaleSampler::Bilinear);
    assert!(filter.add_source(rgb_1080p(1_000)).is_ok());
    let builder = PiplineBuilder::new();
    let (mut video, _, _) = builder.build();
    let frame = VideoFrame { raw: vec![1; 1920 * 1080 * 3], time_stamp: TimeStamp(3) };
    assert!(filter.on_push(&mut video, frame).is_ok());
    let out = video.pull_frame().unwrap();
    assert_eq!(out.raw.len(), 0);
    assert_eq!(out.time_stamp, TimeStamp(3));
}

#[test]
fn scale_declares_its_capabilities() {
    let filter = Scale::new(2, 2, ScaleSampler::Lanczos);
    assert!(filter.is_video_sink());
    assert!(filter.is_video_source());
    assert!(!filter.is_audio_sink());
    assert!(!filter.is_audio_source());
    assert!(!filter.is_video_decoder());
    assert!(!filter.is_subtitle_sink());
    assert_eq!(filter.name(), "element");
}

#[test]
fn sampler_default_and_pixel_sizes() {
    assert_eq!(ScaleSampler::default(), ScaleSampler::Bilinear);
    assert_eq!(pixel_bytes_exec(ImageFormat::Luma8), 1);
    assert_eq!(pixel_bytes_exec(ImageFormat::LumaA8), 2);
    assert_eq!(pixel_bytes_exec(ImageFormat::Luma16), 2);
    assert_eq!(pixel_bytes_exec(ImageFormat::LumaA16), 4);
    assert_eq!(pixel_bytes_exec(ImageFormat::Rgb8), 3);
    assert_eq!(pixel_bytes_exec(ImageFormat::Rgba8), 4);
    assert_eq!(pixel_bytes_exec(ImageFormat::Rgb16), 6);
    assert_eq!(pixel_bytes_exec(ImageFormat::Rgba16), 8);
    assert_eq!(pixel_bytes_exec(ImageFormat::CMYK8), 1);
    assert_eq!(pixel_bytes_exec(ImageFormat::CMYK16), 2);
    assert_eq!(pixel_bytes_exec(ImageFormat::Vendor("v")), 1);
}
