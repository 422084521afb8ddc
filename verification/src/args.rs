use vstd::prelude::*;
use vstd::string::StringExecFns;
use crate::error::RecordingError;
use crate::options::{platform_of, Platform, RecordingOptions, StreamKind};
use crate::text::texts;

verus! {

/// The frame rate a stream is captured at: the screen always at 60, the
/// camera at the rate the options ask for.
pub open spec fn capture_rate(kind: StreamKind, framerate: Seq<char>) -> Seq<char> {
    match kind {
        StreamKind::Screen => "60"@,
        StreamKind::Video => framerate,
    }
}

/// The pattern by which the encoder names its chunk files.
pub open spec fn chunk_pattern(chunks_dir: Seq<char>) -> Seq<char> {
    chunks_dir + "/recording_chunk_%03d.mkv"@
}

/// The path of the manifest that the encoder appends finished chunks to.
pub open spec fn manifest_path(chunks_dir: Seq<char>) -> Seq<char> {
    chunks_dir + "/segment_list.txt"@
}

/// The arguments that select the capture source.
pub open spec fn source_args(
    platform: Platform,
    kind: StreamKind,
    input_index: Seq<char>,
    resolution: Seq<char>,
    rate: Seq<char>,
) -> Seq<Seq<char>> {
    match (platform, kind) {
        (Platform::MacOs, StreamKind::Screen) => seq![
            "-f"@,
            "avfoundation"@,
            "-framerate"@,
            rate,
            "-i"@,
            input_index + ":none"@,
        ],
        (Platform::MacOs, StreamKind::Video) => seq![
            "-f"@,
            "avfoundation"@,
            "-video_size"@,
            resolution,
            "-framerate"@,
            rate,
            "-i"@,
            input_index + ":none"@,
        ],
        (Platform::Linux, StreamKind::Screen) => seq![
            "-f"@,
            "x11grab"@,
            "-i"@,
            input_index + "+0,0"@,
            "-draw_mouse"@,
            "1"@,
        ],
        (Platform::Linux, StreamKind::Video) => seq![
            "-f"@,
            "x11grab"@,
            "-i"@,
            input_index + "+0,0"@,
        ],
        (Platform::Windows, StreamKind::Screen) => seq!["-f"@, "gdigrab"@, "-i"@, "desktop"@],
        (Platform::Windows, StreamKind::Video) => seq![
            "-f"@,
            "dshow"@,
            "-i"@,
            "video="@ + input_index,
        ],
    }
}

/// The arguments that configure the video encoder.
pub open spec fn encoder_args(platform: Platform, rate: Seq<char>) -> Seq<Seq<char>> {
    match platform {
        Platform::MacOs => seq![
            "-c:v"@,
            "libx264"@,
            "-preset"@,
            "ultrafast"@,
            "-pix_fmt"@,
            "nv12"@,
            "-g"@,
            "30"@,
            "-r"@,
            rate,
        ],
        Platform::Linux => seq![
            "-pix_fmt"@,
            "nv12"@,
            "-c:v"@,
            "libx264"@,
            "-crf"@,
            "28"@,
            "-preset"@,
            "ultrafast"@,
            "-g"@,
            "30"@,
            "-r"@,
            rate,
        ],
        Platform::Windows => seq![
            "-pixel_format"@,
            "nv12"@,
            "-c:v"@,
            "libx264"@,
            "-crf"@,
            "28"@,
            "-preset"@,
            "ultrafast"@,
            "-g"@,
            "30"@,
            "-r"@,
            rate,
        ],
    }
}

/// The container that the chunks of a platform are written in.
pub open spec fn segment_format(platform: Platform) -> Seq<char> {
    match platform {
        Platform::MacOs => "matroska"@,
        Platform::Linux => "mpegts"@,
        Platform::Windows => "mpegts"@,
    }
}

/// The arguments that cut the stream into three-second chunks, list each
/// finished chunk in the manifest, and name the chunk files.
pub open spec fn segment_args(platform: Platform, chunks_dir: Seq<char>) -> Seq<Seq<char>> {
    seq![
        "-f"@,
        "segment"@,
        "-segment_time"@,
        "3"@,
        "-segment_format"@,
        segment_format(platform),
        "-segment_list"@,
        manifest_path(chunks_dir),
        "-segment_list_type"@,
        "flat"@,
        "-reset_timestamps"@,
        "1"@,
        chunk_pattern(chunks_dir),
    ]
}

/// The whole argument list of one encoder: source, encoder, segmenter.
pub open spec fn recording_args(
    platform: Platform,
    kind: StreamKind,
    framerate: Seq<char>,
    resolution: Seq<char>,
    chunks_dir: Seq<char>,
    input_index: Seq<char>,
) -> Seq<Seq<char>> {
    let rate = capture_rate(kind, framerate);
    source_args(platform, kind, input_index, resolution, rate) + encoder_args(platform, rate)
        + segment_args(platform, chunks_dir)
}

fn push_arg(list: &mut Vec<String>, text: &str)
    ensures
        texts(final(list)@) == texts(old(list)@).push(text@),
{
    list.push(String::from_str(text));
    assert(texts(list@) =~= texts(old(list)@).push(text@));
}

fn push_joined(list: &mut Vec<String>, head: &str, tail: &str)
    ensures
        texts(final(list)@) == texts(old(list)@).push(head@ + tail@),
{
    list.push(String::from_str(head).concat(tail));
    assert(texts(list@) =~= texts(old(list)@).push(head@ + tail@));
}

fn push_source_args(
    list: &mut Vec<String>,
    platform: Platform,
    kind: StreamKind,
    input_index: &str,
    resolution: &str,
    rate: &str,
)
    ensures
        texts(final(list)@) == texts(old(list)@) + source_args(
            platform,
            kind,
            input_index@,
            resolution@,
            rate@,
        ),
{
    push_arg(list, "-f");
    match platform {
        Platform::MacOs => {
            push_arg(list, "avfoundation");
            match kind {
                StreamKind::Screen => {},
                StreamKind::Video => {
                    push_arg(list, "-video_size");
                    push_arg(list, resolution);
                },
            }
            push_arg(list, "-framerate");
            push_arg(list, rate);
            push_arg(list, "-i");
            push_joined(list, input_index, ":none");
        },
        Platform::Linux => {
            push_arg(list, "x11grab");
            push_arg(list, "-i");
            push_joined(list, input_index, "+0,0");
            match kind {
                StreamKind::Screen => {
                    push_arg(list, "-draw_mouse");
                    push_arg(list, "1");
                },
                StreamKind::Video => {},
            }
        },
        Platform::Windows => {
            match kind {
                StreamKind::Screen => {
                    push_arg(list, "gdigrab");
                    push_arg(list, "-i");
                    push_arg(list, "desktop");
                },
                StreamKind::Video => {
                    push_arg(list, "dshow");
                    push_arg(list, "-i");
                    push_joined(list, "video=", input_index);
                },
            }
        },
    }
    assert(texts(list@) =~= texts(old(list)@) + source_args(
        platform,
        kind,
        input_index@,
        resolution@,
        rate@,
    ));
}

fn push_encoder_args(list: &mut Vec<String>, platform: Platform, rate: &str)
    ensures
        texts(final(list)@) == texts(old(list)@) + encoder_args(platform, rate@),
{
    match platform {
        Platform::MacOs => {
            push_arg(list, "-c:v");
            push_arg(list, "libx264");
            push_arg(list, "-preset");
            push_arg(list, "ultrafast");
            push_arg(list, "-pix_fmt");
            push_arg(list, "nv12");
        },
        Platform::Linux => {
            push_arg(list, "-pix_fmt");
            push_arg(list, "nv12");
            push_arg(list, "-c:v");
            push_arg(list, "libx264");
            push_arg(list, "-crf");
            push_arg(list, "28");
            push_arg(list, "-preset");
            push_arg(list, "ultrafast");
        },
        Platform::Windows => {
            push_arg(list, "-pixel_format");
            push_arg(list, "nv12");
            push_arg(list, "-c:v");
            push_arg(list, "libx264");
            push_arg(list, "-crf");
            push_arg(list, "28");
            push_arg(list, "-preset");
            push_arg(list, "ultrafast");
        },
    }
    push_arg(list, "-g");
    push_arg(list, "30");
    push_arg(list, "-r");
    push_arg(list, rate);
    assert(texts(list@) =~= texts(old(list)@) + encoder_args(platform, rate@));
}

fn push_segment_args(list: &mut Vec<String>, platform: Platform, chunks_dir: &str)
    ensures
        texts(final(list)@) == texts(old(list)@) + segment_args(platform, chunks_dir@),
{
    push_arg(list, "-f");
    push_arg(list, "segment");
    push_arg(list, "-segment_time");
    push_arg(list, "3");
    push_arg(list, "-segment_format");
    match platform {
        Platform::MacOs => push_arg(list, "matroska"),
        Platform::Linux => push_arg(list, "mpegts"),
        Platform::Windows => push_arg(list, "mpegts"),
    }
    push_arg(list, "-segment_list");
    push_joined(list, chunks_dir, "/segment_list.txt");
    push_arg(list, "-segment_list_type");
    push_arg(list, "flat");
    push_arg(list, "-reset_timestamps");
    push_arg(list, "1");
    push_joined(list, chunks_dir, "/recording_chunk_%03d.mkv");
    assert(texts(list@) =~= texts(old(list)@) + segment_args(platform, chunks_dir@));
}

/// The path of the manifest inside a chunk directory.
pub fn segment_list_path(chunks_dir: &str) -> (path: String)
    ensures
        path@ == manifest_path(chunks_dir@),
{
    String::from_str(chunks_dir).concat("/segment_list.txt")
}

/// Builds the encoder's argument list for one stream on the platform that
/// `os` names, and refuses a platform without a capture backend.
pub fn construct_recording_args(
    options: &RecordingOptions,
    chunks_dir: &str,
    kind: StreamKind,
    input_index: &str,
    os: &str,
) -> (result: Result<Vec<String>, RecordingError>)
    ensures
        match platform_of(os@) {
            Some(platform) => result is Ok && texts(result->Ok_0@) == recording_args(
                platform,
                kind,
                options.framerate@,
                options.resolution@,
                chunks_dir@,
                input_index@,
            ),
            None => result == Err::<Vec<String>, RecordingError>(
                RecordingError::UnsupportedPlatform,
            ),
        },
{
    match Platform::from_name(os) {
        Some(platform) => {
            let rate: &str = match kind {
                StreamKind::Screen => "60",
                StreamKind::Video => options.framerate.as_str(),
            };
            let mut list: Vec<String> = Vec::new();
            assert(texts(list@) =~= Seq::<Seq<char>>::empty());
            push_source_args(
                &mut list,
                platform,
                kind,
                input_index,
                options.resolution.as_str(),
                rate,
            );
            push_encoder_args(&mut list, platform, rate);
            push_segment_args(&mut list, platform, chunks_dir);
            assert(texts(list@) =~= recording_args(
                platform,
                kind,
                options.framerate@,
                options.resolution@,
                chunks_dir@,
                input_index@,
            ));
            Ok(list)
        },
        None => Err(RecordingError::UnsupportedPlatform),
    }
}

} // verus!
