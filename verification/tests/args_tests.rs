use recording::args::segment_list_path;
use recording::{construct_recording_args, Platform, RecordingError, RecordingOptions, StreamKind};

fn sample_options() -> RecordingOptions {
    RecordingOptions {
        user_id: "user-1".to_string(),
        video_id: "video-9".to_string(),
        screen_index: "1".to_string(),
        video_index: "0".to_string(),
        aws_region: "us-east-1".to_string(),
        aws_bucket: "captures".to_string(),
        framerate: "30".to_string(),
        resolution: "1280x720".to_string(),
    }
}

fn strings(items: &[&str]) -> Vec<String> {
    items.iter().map(|s| s.to_string()).collect()
}

#[test]
fn linux_screen_arguments() {
    let args = construct_recording_args(&sample_options(), "/tmp/chunks/screen", StreamKind::Screen, ":0.0", "linux");
    let expected = strings(&[
        "-f", "x11grab", "-i", ":0.0+0,0", "-draw_mouse", "1", "-pix_fmt", "nv12", "-c:v",
        "libx264", "-crf", "28", "-preset", "ultrafast", "-g", "30", "-r", "60", "-f", "segment",
        "-segment_time", "3", "-segment_format", "mpegts", "-segment_list",
        "/tmp/chunks/screen/segment_list.txt", "-segment_list_type", "flat",
        "-reset_timestamps", "1", "/tmp/chunks/screen/recording_chunk_%03d.mkv",
    ]);
    assert_eq!(args, Ok(expected));
}

#[test]
fn linux_video_arguments() {
    let args = construct_recording_args(&sample_options(), "c/video", StreamKind::Video, ":1", "linux");
    let expected = strings(&[
        "-f", "x11grab", "-i", ":1+0,0", "-pix_fmt", "nv12", "-c:v", "libx264", "-crf", "28",
        "-preset", "ultrafast", "-g", "30", "-r", "30", "-f", "segment", "-segment_time", "3",
        "-segment_format", "mpegts", "-segment_list", "c/video/segment_list.txt",
        "-segment_list_type", "flat", "-reset_timestamps", "1", "c/video/recording_chunk_%03d.mkv",
    ]);
    assert_eq!(args, Ok(expected));
}

#[test]
fn macos_screen_arguments() {
    let args = construct_recording_args(&sample_options(), "c/screen", StreamKind::Screen, "1", "macos");
    let expected = strings(&[
        "-f", "avfoundation", "-framerate", "60", "-i", "1:none", "-c:v", "libx264", "-preset",
        "ultrafast", "-pix_fmt", "nv12", "-g", "30", "-r", "60", "-f", "segment", "-segment_time",
        "3", "-segment_format", "matroska", "-segment_list", "c/screen/segment_list.txt",
        "-segment_list_type", "flat", "-reset_timestamps", "1", "c/screen/recording_chunk_%03d.mkv",
    ]);
    assert_eq!(args, Ok(expected));
}

#[test]
fn macos_video_arguments() {
    let args = construct_recording_args(&sample_options(), "c/video", StreamKind::Video, "0", "macos");
    let expected = strings(&[
        "-f", "avfoundation", "-video_size", "1280x720", "-framerate", "30", "-i", "0:none",
        "-c:v", "libx264", "-preset", "ultrafast", "-pix_fmt", "nv12", "-g", "30", "-r", "30",
        "-f", "segment", "-segment_time", "3", "-segment_format", "matroska", "-segment_list",
        "c/video/segment_list.txt", "-segment_list_type", "flat", "-reset_timestamps", "1",
        "c/video/recording_chunk_%03d.mkv",
    ]);
    assert_eq!(args, Ok(expected));
}

#[test]
fn windows_screen_arguments() {
    let args = construct_recording_args(&sample_options(), "c", StreamKind::Screen, "1", "windows");
    let expected = strings(&[
        "-f", "gdigrab", "-i", "desktop", "-pixel_format", "nv12", "-c:v", "libx264", "-crf",
        "28", "-preset", "ultrafast", "-g", "30", "-r", "60", "-f", "segment", "-segment_time",
        "3", "-segment_format", "mpegts", "-segment_list", "c/segment_list.txt",
        "-segment_list_type", "flat", "-reset_timestamps", "1", "c/recording_chunk_%03d.mkv",
    ]);
    assert_eq!(args, Ok(expected));
}

#[test]
fn windows_video_arguments() {
    let args = construct_recording_args(&sample_options(), "c", StreamKind::Video, "HD Webcam", "windows");
    let expected = strings(&[
        "-f", "dshow", "-i", "video=HD Webcam", "-pixel_format", "nv12", "-c:v", "libx264",
        "-crf", "28", "-preset", "ultrafast", "-g", "30", "-r", "30", "-f", "segment",
        "-segment_time", "3", "-segment_format", "mpegts", "-segment_list", "c/segment_list.txt",
        "-segment_list_type", "flat", "-reset_timestamps", "1", "c/recording_chunk_%03d.mkv",
    ]);
    assert_eq!(args, Ok(expected));
}

#[test]
fn unknown_platform_is_refused() {
    let args = construct_recording_args(&sample_options(), "c", StreamKind::Screen, "1", "freebsd");
    assert_eq!(args, Err(RecordingError::UnsupportedPlatform));
    let args = construct_recording_args(&sample_options(), "c", StreamKind::Video, "1", "");
    assert_eq!(args, Err(RecordingError::UnsupportedPlatform));
    let args = construct_recording_args(&sample_options(), "c", StreamKind::Video, "1", "Linux");
    assert_eq!(args, Err(RecordingError::UnsupportedPlatform));
}

#[test]
fn platform_names() {
    assert_eq!(Platform::from_name("macos"), Some(Platform::MacOs));
    assert_eq!(Platform::from_name("linux"), Some(Platform::Linux));
    assert_eq!(Platform::from_name("windows"), Some(Platform::Windows));
    assert_eq!(Platform::from_name("android"), None);
}

#[test]
fn error_messages() {
    assert_eq!(RecordingError::UnsupportedPlatform.message(), "Unsupported OS");
    assert_eq!(RecordingError::NoRecordingOptions.message(), "No recording options provided");
    assert_eq!(RecordingError::SessionActive.message(), "Recording already in progress");
    assert_eq!(RecordingError::StopInProgress.message(), "Recording is already stopping");
}

#[test]
fn stream_tags_and_directories() {
    assert_eq!(StreamKind::Screen.tag(), "screen");
    assert_eq!(StreamKind::Video.tag(), "video");
    assert_eq!(StreamKind::Screen.chunk_dir(), "chunks/screen");
    assert_eq!(StreamKind::Video.chunk_dir(), "chunks/video");
    let options = sample_options();
    assert_eq!(StreamKind::Screen.source_index(&options), "1");
    assert_eq!(StreamKind::Video.source_index(&options), "0");
    assert_eq!(segment_list_path("chunks/screen"), "chunks/screen/segment_list.txt");
}

#[test]
fn options_clone_keeps_every_field() {
    let options = sample_options();
    assert_eq!(options.clone(), options);
}
