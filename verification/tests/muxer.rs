use crossbeam::channel::bounded;
use slickscreen::audio_recorder::audio_capture_settings;
use slickscreen::audio_recorder::audio_encoder_settings;
use slickscreen::audio_recorder::AudioCaptureSettings;
use slickscreen::audio_recorder::SampleLayout;
use slickscreen::audio_recorder::CHANNEL_COUNT;
use slickscreen::audio_recorder::CHUNKS_PER_SECOND;
use slickscreen::audio_recorder::SAMPLE_RATE;
use slickscreen::forward_packet;
use slickscreen::mux_step;
use slickscreen::next_mux_step;
use slickscreen::start_order;
use slickscreen::stop_order;
use slickscreen::stop_report;
use slickscreen::util::TimeBase;
use slickscreen::video_recorder::video_encoder_settings;
use slickscreen::video_recorder::ColorRange;
use slickscreen::video_recorder::ColorSpace;
use slickscreen::video_recorder::PixelLayout;
use slickscreen::worker::request_quit;
use slickscreen::worker::LoopControl;
use slickscreen::worker::WorkerError;
use slickscreen::MuxAction;
use slickscreen::MuxerStreams;
use slickscreen::SlickscreenConfig;
use slickscreen::SlickscreenError;
use slickscreen::SlickscreenMessage;
use slickscreen::Stage;
use slickscreen::StreamKind;
use slickscreen::StreamSlot;

const MICROS: TimeBase = TimeBase {
    numerator: 1,
    denominator: 1_000_000,
};

fn streams() -> MuxerStreams {
    MuxerStreams {
        audio: StreamSlot {
            index: 0,
            time_base: TimeBase {
                numerator: 1,
                denominator: 48000,
            },
        },
        video: StreamSlot {
            index: 1,
            time_base: TimeBase {
                numerator: 1,
                denominator: 15360,
            },
        },
    }
}

#[test]
fn a_default_config_names_no_output() {
    assert!(SlickscreenConfig::default().output_file.is_none());
}

#[test]
fn a_config_carries_its_output() {
    let config = SlickscreenConfig {
        output_file: Some("out.mkv".to_string()),
        ..SlickscreenConfig::default()
    };
    assert_eq!(config.clone().output_file, Some("out.mkv".to_string()));
}

#[test]
fn setup_errors_read_as_lines() {
    assert_eq!(
        SlickscreenError::AlreadyRunning.message(),
        "Slickscreen is already running"
    );
    assert_eq!(
        SlickscreenError::FFmpegInitError.message(),
        "Unable to initialize FFmpeg library"
    );
    assert_eq!(
        SlickscreenError::AudioEncoderNotFound.message(),
        "Audio encoder not found"
    );
    assert_eq!(
        SlickscreenError::AudioCaptureError("no device".to_string()).message(),
        "Unable to configure audio capture"
    );
    assert_eq!(
        SlickscreenError::VideoEncoderNotFound("not found".to_string()).message(),
        "Video encoder not found: not found"
    );
    assert_eq!(
        SlickscreenError::VideoEncoderNotFound(String::new()).message(),
        "Video encoder not found: "
    );
    assert_eq!(
        SlickscreenError::ScreenCaptureError("no display".to_string()).message(),
        "Unable to configure screen capture"
    );
    assert_eq!(SlickscreenError::Unexpected.message(), "unexpected error");
}

#[test]
fn an_audio_packet_goes_to_the_audio_stream() {
    match mux_step(&streams(), Some(SlickscreenMessage::Audio(41u32))) {
        MuxAction::Write {
            packet,
            kind,
            from,
            to,
        } => {
            assert_eq!(packet, 41);
            assert_eq!(kind, StreamKind::Audio);
            assert_eq!(from, MICROS);
            assert_eq!(to, streams().audio);
            assert_eq!(to.index, 0);
        }
        _ => panic!("a packet is written"),
    }
}

#[test]
fn a_video_packet_goes_to_the_video_stream() {
    match mux_step(&streams(), Some(SlickscreenMessage::Video(42u32))) {
        MuxAction::Write {
            packet,
            kind,
            from,
            to,
        } => {
            assert_eq!(packet, 42);
            assert_eq!(kind, StreamKind::Video);
            assert_eq!(from, MICROS);
            assert_eq!(to, streams().video);
            assert_eq!(to.time_base.denominator, 15360);
        }
        _ => panic!("a packet is written"),
    }
}

#[test]
fn quit_finishes_the_container() {
    assert!(matches!(
        mux_step(&streams(), Some(SlickscreenMessage::<u32>::Quit)),
        MuxAction::Finish
    ));
}

#[test]
fn a_closed_queue_stops_the_muxer_without_a_trailer() {
    assert!(matches!(
        mux_step::<u32>(&streams(), None),
        MuxAction::Stop
    ));
    let (sender, receiver) = bounded::<SlickscreenMessage<u32>>(2);
    drop(sender);
    assert!(matches!(
        next_mux_step(&streams(), &receiver),
        MuxAction::Stop
    ));
}

#[test]
fn streams_are_looked_up_by_kind() {
    assert_eq!(streams().slot(StreamKind::Audio), streams().audio);
    assert_eq!(streams().slot(StreamKind::Video), streams().video);
}

#[test]
fn a_synthetic_session_is_written_in_order_and_finished() {
    // two seconds: an audio packet every 10 ms, a video packet every 16.666 ms
    let (sender, receiver) = bounded::<SlickscreenMessage<(StreamKind, i64)>>(512);
    let mut audio_at: i64 = 0;
    let mut video_at: i64 = 0;
    let mut audio_sent = 0;
    let mut video_sent = 0;
    while audio_sent < 200 || video_sent < 120 {
        if video_sent >= 120 || (audio_sent < 200 && audio_at <= video_at) {
            let packet = (StreamKind::Audio, audio_at);
            assert_eq!(
                forward_packet(&sender, StreamKind::Audio, packet),
                LoopControl::Continue
            );
            audio_at += 10_000;
            audio_sent += 1;
        } else {
            let packet = (StreamKind::Video, video_at);
            assert_eq!(
                forward_packet(&sender, StreamKind::Video, packet),
                LoopControl::Continue
            );
            video_at += 16_666;
            video_sent += 1;
        }
    }
    assert!(request_quit(&sender));
    // what is sent after the quit signal is never written
    assert_eq!(
        forward_packet(&sender, StreamKind::Audio, (StreamKind::Audio, 9_999_999)),
        LoopControl::Continue
    );

    let layout = streams();
    let mut audio: Vec<i64> = Vec::new();
    let mut video: Vec<i64> = Vec::new();
    let mut finished = false;
    loop {
        match next_mux_step(&layout, &receiver) {
            MuxAction::Write {
                packet,
                kind,
                from,
                to,
            } => {
                assert_eq!(packet.0, kind);
                assert_eq!(from, MICROS);
                assert_eq!(to, layout.slot(kind));
                match kind {
                    StreamKind::Audio => audio.push(packet.1),
                    StreamKind::Video => video.push(packet.1),
                }
            }
            MuxAction::Finish => {
                finished = true;
                break;
            }
            MuxAction::Stop => break,
        }
    }
    assert!(finished);
    assert_eq!(audio.len(), 200);
    assert_eq!(video.len(), 120);
    assert_eq!(audio[0], 0);
    assert_eq!(audio[199], 1_990_000);
    assert_eq!(video[119], 119 * 16_666);
    assert!(audio.windows(2).all(|pair| pair[0] <= pair[1]));
    assert!(video.windows(2).all(|pair| pair[0] <= pair[1]));
}

#[test]
fn the_muxer_starts_first_and_stops_last() {
    assert_eq!(start_order(), [Stage::Muxer, Stage::Audio, Stage::Video]);
    assert_eq!(stop_order(), [Stage::Audio, Stage::Video, Stage::Muxer]);
}

#[test]
fn a_clean_stop_reports_nothing() {
    assert!(stop_report(Ok(()), Ok(()), Ok(())).is_empty());
}

#[test]
fn stop_failures_are_reported_in_stop_order() {
    let failures = stop_report(
        Err(WorkerError::WorkerSendError),
        Ok(()),
        Err(WorkerError::WorkerPanic("mux".to_string())),
    );
    assert_eq!(failures.len(), 2);
    assert_eq!(failures[0].0, Stage::Audio);
    assert!(matches!(failures[0].1, WorkerError::WorkerSendError));
    assert_eq!(failures[1].0, Stage::Muxer);
    match &failures[1].1 {
        WorkerError::WorkerPanic(text) => assert_eq!(text, "mux"),
        _ => panic!("the muxer panicked"),
    }

    let all = stop_report(
        Err(WorkerError::WorkerSendError),
        Err(WorkerError::WorkerSendError),
        Err(WorkerError::WorkerSendError),
    );
    let stages: Vec<Stage> = all.iter().map(|failure| failure.0).collect();
    assert_eq!(stages, vec![Stage::Audio, Stage::Video, Stage::Muxer]);
}

#[test]
fn the_capture_device_is_opened_for_ten_millisecond_stereo_chunks() {
    assert_eq!(
        audio_capture_settings(),
        AudioCaptureSettings {
            channels: 2,
            sample_rate: 48000,
            chunk_samples: 480
        }
    );
    assert_eq!(SAMPLE_RATE, 48000);
    assert_eq!(CHANNEL_COUNT, 2);
    assert_eq!(CHUNKS_PER_SECOND, 100);
}

#[test]
fn the_audio_encoder_is_configured_as_fixed() {
    let settings = audio_encoder_settings();
    assert_eq!(settings.encoder, "libfdk_aac");
    assert_eq!(settings.time_base, MICROS);
    assert_eq!(settings.rate, 48000);
    assert_eq!(settings.layout, SampleLayout::PackedI16);
    assert_eq!(settings.channels, 2);
}

#[test]
fn the_video_encoder_is_configured_as_fixed() {
    let settings = video_encoder_settings(1920, 1080);
    assert_eq!(settings.encoder, "libx264");
    assert_eq!(settings.time_base, MICROS);
    assert_eq!(settings.layout, PixelLayout::Yuv420p);
    assert_eq!(settings.width, 1920);
    assert_eq!(settings.height, 1080);
    assert_eq!(settings.gop, 4096);
    assert_eq!(settings.max_b_frames, 0);
    assert_eq!(settings.color_space, ColorSpace::Bt709);
    assert_eq!(settings.color_range, ColorRange::Jpeg);
    assert_eq!(settings.me_range, 16);
    assert_eq!(settings.qmin, 10);
    assert_eq!(settings.qmax, 51);
    assert_eq!(
        settings.options,
        vec![
            ("preset", "medium"),
            ("tune", "zerolatency"),
            ("level", "4.2"),
            ("profile", "high"),
            ("refs", "1"),
            ("crf", "15"),
            ("qdiff", "4"),
            ("qcompress", "0.6"),
            ("color_primaries", "bt709"),
            ("color_trc", "bt709"),
        ]
    );
}

#[test]
fn the_video_encoder_takes_the_size_of_the_display() {
    let settings = video_encoder_settings(2560, 1440);
    assert_eq!((settings.width, settings.height), (2560, 1440));
    assert_eq!(settings.gop, 4096);
}
