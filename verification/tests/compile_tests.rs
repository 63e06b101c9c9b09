use screentool::ffmpeg::AudioBackend;
use screentool::ffmpeg::AudioChannels;
use screentool::ffmpeg::AudioDevice;
use screentool::ffmpeg::ConfigError;
use screentool::ffmpeg::FfmpegBuilder;
use screentool::ffmpeg::HwAccelType;
use screentool::ffmpeg::Output;
use screentool::ffmpeg::ResultType;

fn strings(args: &[&str]) -> Vec<String> {
    args.iter().map(|s| s.to_string()).collect()
}

#[test]
fn test_video_file_scenario() {
    let b = FfmpegBuilder::new(Output::FILE("out.mp4".to_string()))
        .set_result_type(ResultType::MP4)
        .set_size(1920, 1080)
        .set_position(0, 0)
        .set_record_audio(false);
    let args = b.compile().unwrap();
    assert_eq!(
        args,
        strings(&[
            "-video_size",
            "1920x1080",
            "-framerate",
            "60",
            "-loglevel",
            "error",
            "-f",
            "x11grab",
            "-i",
            ":0.0+0,0",
            "-y",
            "-bf",
            "0",
            "-f",
            "mp4",
            "out.mp4",
        ])
    );
}

#[test]
fn test_still_png_stream_scenario() {
    let b = FfmpegBuilder::new(Output::STREAM)
        .set_result_type(ResultType::PNG)
        .set_size(800, 600)
        .set_position(100, 50);
    let args = b.compile().unwrap();
    assert_eq!(
        args,
        strings(&[
            "-video_size",
            "800x600",
            "-framerate",
            "1",
            "-loglevel",
            "error",
            "-f",
            "x11grab",
            "-i",
            ":0.0+100,50",
            "-vframes",
            "1",
            "-y",
            "-bf",
            "0",
            "-f",
            "apng",
            "-",
        ])
    );
    let n = args.len();
    assert_eq!(&args[n - 3..], &strings(&["-f", "apng", "-"])[..]);
    assert!(args.windows(2).any(|w| w[0] == "-framerate" && w[1] == "1"));
    assert!(args.windows(2).any(|w| w[0] == "-vframes" && w[1] == "1"));
}

#[test]
fn test_compile_is_deterministic() {
    let b = FfmpegBuilder::new(Output::FILE("cap.mp4".to_string()))
        .set_result_type(ResultType::MP4)
        .set_size(640, 480)
        .set_position(5, 7)
        .set_hardware_acceleration(HwAccelType::VAAPI)
        .set_record_audio(true)
        .set_audio_backend(AudioDevice {
            backend: AudioBackend::PULSE,
            identifier: "default".to_string(),
            channels: AudioChannels::STEREO,
        });
    let first = b.clone().compile().unwrap();
    let second = b.compile().unwrap();
    assert_eq!(first, second);
}

#[test]
fn test_incomplete_without_result_type() {
    let b = FfmpegBuilder::new(Output::STREAM).set_size(10, 10).set_position(0, 0);
    assert_eq!(b.compile(), Err(ConfigError::IncompleteConfiguration));
}

#[test]
fn test_incomplete_without_size() {
    let b = FfmpegBuilder::new(Output::STREAM)
        .set_result_type(ResultType::JPG)
        .set_position(0, 0);
    assert_eq!(b.compile(), Err(ConfigError::IncompleteConfiguration));
}

#[test]
fn test_incomplete_without_position() {
    let b = FfmpegBuilder::new(Output::STREAM)
        .set_result_type(ResultType::JPG)
        .set_size(10, 10);
    assert_eq!(b.compile(), Err(ConfigError::IncompleteConfiguration));
}

#[test]
fn test_incomplete_when_empty() {
    let b = FfmpegBuilder::new(Output::FILE("x.png".to_string()));
    assert_eq!(b.compile(), Err(ConfigError::IncompleteConfiguration));
}

#[test]
fn test_missing_audio_device() {
    let b = FfmpegBuilder::new(Output::FILE("a.mp4".to_string()))
        .set_result_type(ResultType::MP4)
        .set_size(100, 100)
        .set_position(0, 0)
        .set_record_audio(true);
    assert_eq!(b.compile(), Err(ConfigError::MissingAudioDevice));
}

#[test]
fn test_missing_audio_device_on_still() {
    let b = FfmpegBuilder::new(Output::STREAM)
        .set_result_type(ResultType::JPG)
        .set_size(100, 100)
        .set_position(0, 0)
        .set_record_audio(true);
    assert_eq!(b.compile(), Err(ConfigError::MissingAudioDevice));
}

#[test]
fn test_incompleteness_reported_before_missing_audio() {
    let b = FfmpegBuilder::new(Output::STREAM).set_record_audio(true);
    assert_eq!(b.compile(), Err(ConfigError::IncompleteConfiguration));
}

#[test]
fn test_still_ignores_accel_and_audio() {
    for t in [ResultType::JPG, ResultType::PNG] {
        let b = FfmpegBuilder::new(Output::STREAM)
            .set_result_type(t)
            .set_size(32, 32)
            .set_position(1, 2)
            .set_hardware_acceleration(HwAccelType::VAAPI)
            .set_record_audio(true)
            .set_audio_backend(AudioDevice {
                backend: AudioBackend::JACK,
                identifier: "mic".to_string(),
                channels: AudioChannels::MONO,
            });
        let args = b.compile().unwrap();
        for flag in [
            "-hwaccel",
            "-vaapi_device",
            "-vf",
            "-bit_rate",
            "-c:v",
            "-vcodec",
            "-ac",
        ] {
            assert!(!args.contains(&flag.to_string()));
        }
        assert!(!args.contains(&"mic".to_string()));
    }
}

#[test]
fn test_audio_block_wiring() {
    let b = FfmpegBuilder::new(Output::FILE("rec.mp4".to_string()))
        .set_result_type(ResultType::MP4)
        .set_size(1280, 720)
        .set_position(0, 0)
        .set_record_audio(true)
        .set_audio_backend(AudioDevice {
            backend: AudioBackend::ALSA,
            identifier: "hw:0".to_string(),
            channels: AudioChannels::STEREO,
        });
    let args = b.compile().unwrap();
    assert_eq!(
        args,
        strings(&[
            "-video_size",
            "1280x720",
            "-framerate",
            "60",
            "-loglevel",
            "error",
            "-f",
            "x11grab",
            "-i",
            ":0.0+0,0",
            "-f",
            "alsa",
            "-ac",
            "2",
            "-i",
            "hw:0",
            "-y",
            "-bf",
            "0",
            "-f",
            "mp4",
            "rec.mp4",
        ])
    );
}

#[test]
fn test_mono_audio_channel_count() {
    let b = FfmpegBuilder::new(Output::STREAM)
        .set_result_type(ResultType::MP4)
        .set_size(16, 16)
        .set_position(0, 0)
        .set_record_audio(true)
        .set_audio_backend(AudioDevice {
            backend: AudioBackend::PULSE,
            identifier: "default".to_string(),
            channels: AudioChannels::MONO,
        });
    let args = b.compile().unwrap();
    assert!(args.windows(2).any(|w| w[0] == "-ac" && w[1] == "1"));
    assert!(args.windows(2).any(|w| w[0] == "-f" && w[1] == "pulse"));
}

#[test]
fn test_vaapi_and_nvenc_differ_only_in_accel_block() {
    let base = |accel: HwAccelType| {
        FfmpegBuilder::new(Output::FILE("v.mp4".to_string()))
            .set_result_type(ResultType::MP4)
            .set_size(1920, 1080)
            .set_position(10, 20)
            .set_hardware_acceleration(accel)
    };
    let vaapi = base(HwAccelType::VAAPI).compile().unwrap();
    let nvenc = base(HwAccelType::NVENC).compile().unwrap();

    let prefix = strings(&[
        "-video_size",
        "1920x1080",
        "-framerate",
        "60",
        "-loglevel",
        "error",
        "-f",
        "x11grab",
        "-i",
        ":0.0+10,20",
    ]);
    let vaapi_block = strings(&[
        "-hwaccel",
        "vaapi",
        "-vaapi_device",
        "/dev/dri/renderD128",
        "-vf",
        "format=nv12,hwupload",
        "-bit_rate",
        "320k",
        "-c:v",
        "h264_vaapi",
    ]);
    let nvenc_block = strings(&["-vcodec", "h264_nvenc"]);
    let suffix = strings(&["-y", "-bf", "0", "-f", "mp4", "v.mp4"]);

    let mut vaapi_expected = prefix.clone();
    vaapi_expected.extend(vaapi_block);
    vaapi_expected.extend(suffix.clone());
    let mut nvenc_expected = prefix;
    nvenc_expected.extend(nvenc_block);
    nvenc_expected.extend(suffix);

    assert_eq!(vaapi, vaapi_expected);
    assert_eq!(nvenc, nvenc_expected);
    assert!(!vaapi.contains(&"-vcodec".to_string()));
    assert!(!vaapi.contains(&"h264_nvenc".to_string()));
    assert!(!nvenc.contains(&"-hwaccel".to_string()));
    assert!(!nvenc.contains(&"h264_vaapi".to_string()));
}

#[test]
fn test_no_accel_emits_no_accel_block() {
    let args = FfmpegBuilder::new(Output::STREAM)
        .set_result_type(ResultType::MP4)
        .set_size(8, 8)
        .set_position(0, 0)
        .compile()
        .unwrap();
    for flag in ["-hwaccel", "-vcodec", "-c:v", "-vf", "-bit_rate", "-vaapi_device"] {
        assert!(!args.contains(&flag.to_string()));
    }
}

#[test]
fn test_last_write_wins() {
    let args = FfmpegBuilder::new(Output::STREAM)
        .set_result_type(ResultType::MP4)
        .set_result_type(ResultType::PNG)
        .set_size(1, 1)
        .set_size(99, 88)
        .set_position(3, 3)
        .set_position(0, 4)
        .compile()
        .unwrap();
    assert!(args.contains(&"99x88".to_string()));
    assert!(args.contains(&":0.0+0,4".to_string()));
    assert!(args.contains(&"apng".to_string()));
}

#[test]
fn test_extreme_coordinates() {
    let args = FfmpegBuilder::new(Output::STREAM)
        .set_result_type(ResultType::JPG)
        .set_size(u32::MAX, 1)
        .set_position(0, 4294967295)
        .compile()
        .unwrap();
    assert!(args.contains(&"4294967295x1".to_string()));
    assert!(args.contains(&":0.0+0,4294967295".to_string()));
}
