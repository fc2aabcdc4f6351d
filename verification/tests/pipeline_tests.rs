use rstreamer::format::TimeStamp;
use rstreamer::pipline::PiplineBuilder;
use rstreamer::pipline::PiplineState;
use rstreamer::pipline::state_code;
use rstreamer::pipline::state_of_code;
use rstreamer::source::AudioFrame;
use rstreamer::source::SubtitleFrame;
use rstreamer::source::VideoFrame;

#[test]
fn fresh_pipeline_reports_ready_then_lifecycle_follows_calls() {
    let builder = PiplineBuilder::new();
    let (video, audio, subtitle) = builder.build();

    assert_eq!(video.state(), PiplineState::Ready);
    assert_eq!(audio.state(), PiplineState::Ready);
    assert!(!video.is_playing());
    assert!(!video.is_paused());

    video.play();
    assert!(video.is_playing());
    assert!(!video.is_paused());
    assert_eq!(video.state(), PiplineState::Play);

    // the lifecycle is shared: pausing through one kind pauses them all
    audio.pause();
    assert!(video.is_paused());
    assert!(!video.is_playing());
    assert!(subtitle.is_paused());
    assert_eq!(subtitle.state(), PiplineState::Pause);

    subtitle.play();
    assert_eq!(video.state(), PiplineState::Play);
    assert!(audio.is_playing());
}

#[test]
fn state_codes_round_trip_and_unknown_bytes_read_as_null() {
    let states = [
        PiplineState::Null,
        PiplineState::Ready,
        PiplineState::Pause,
        PiplineState::Play,
    ];
    for s in states {
        assert_eq!(state_of_code(state_code(s)), s);
    }
    assert_eq!(state_code(PiplineState::Null), 0);
    assert_eq!(state_code(PiplineState::Ready), 1);
    assert_eq!(state_code(PiplineState::Pause), 2);
    assert_eq!(state_code(PiplineState::Play), 3);
    assert_eq!(state_of_code(4), PiplineState::Null);
    assert_eq!(state_of_code(255), PiplineState::Null);
}

#[test]
fn empty_transport_pulls_none_without_error_and_exhaustion_is_idempotent() {
    let builder = PiplineBuilder::new();
    let (mut video, _, _) = builder.build();

    // nothing pushed, no end-of-stream: "no frame available", not an error
    assert!(video.pull_frame().is_none());
    assert!(video.pull_frame().is_none());

    video.push_frame(VideoFrame { raw: vec![1, 2, 3], time_stamp: TimeStamp(7) });
    video.end_of_stream();

    // frames already queued stay available until drained
    let got = video.pull_frame().expect("queued frame must come out");
    assert_eq!(got.raw, vec![1, 2, 3]);
    assert_eq!(got.time_stamp, TimeStamp(7));

    // drained after end-of-stream: none, indefinitely
    assert!(video.pull_frame().is_none());
    assert!(video.pull_frame().is_none());
    assert!(video.pull_frame().is_none());
}

#[test]
fn transport_is_fifo_per_kind() {
    let builder = PiplineBuilder::new();
    let (mut video, mut audio, mut subtitle) = builder.build();

    video.push_frame(VideoFrame { raw: vec![1], time_stamp: TimeStamp(1) });
    video.push_frame(VideoFrame { raw: vec![2], time_stamp: TimeStamp(2) });
    assert_eq!(video.pull_frame().unwrap().time_stamp, TimeStamp(1));
    assert_eq!(video.pull_frame().unwrap().time_stamp, TimeStamp(2));
    assert!(video.pull_frame().is_none());

    audio.push_frame(AudioFrame { data: vec![-1, 0, 1], time_stamp: TimeStamp(3) });
    let a = audio.pull_frame().unwrap();
    assert_eq!(a.data, vec![-1, 0, 1]);
    assert_eq!(a.time_stamp, TimeStamp(3));

    subtitle.push_frame(SubtitleFrame::Text { text: String::from("hi"), duration: 1500 });
    subtitle.push_frame(SubtitleFrame::Image);
    match subtitle.pull_frame().unwrap() {
        SubtitleFrame::Text { text, duration } => {
            assert_eq!(text, "hi");
            assert_eq!(duration, 1500);
        }
        SubtitleFrame::Image => panic!("text frame was pushed first"),
    }
    assert!(matches!(subtitle.pull_frame().unwrap(), SubtitleFrame::Image));
}

#[test]
fn builder_counts_elements_and_links() {
    let mut builder = PiplineBuilder::new();
    assert_eq!(builder.link_count(), 0);
    let filter = rstreamer::image::Scale::new(10, 10, rstreamer::image::ScaleSampler::Nearest);
    let first = builder.add_element(&filter);
    let second = builder.add_element(&filter);
    assert_eq!(first.id().0, 0);
    assert_eq!(second.id().0, 1);
    assert_eq!(builder.link_count(), 0);
}
