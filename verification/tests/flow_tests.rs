use recording::drain::{
    DrainAction, DrainPlan, RetryDecision, StabilityState, StabilityVerdict, UploadAttempts,
    UploadOutcome,
};
use recording::manifest::parse_segment_list;
use recording::session::SessionPhase;
use recording::{stop_all_recordings, RecordingState};
use recording::watcher::{ChunkWatcher, ManifestEntry};
use recording::RecordingOptions;

fn sample_options() -> RecordingOptions {
    RecordingOptions {
        user_id: "u".to_string(),
        video_id: "v".to_string(),
        screen_index: "1".to_string(),
        video_index: "0".to_string(),
        aws_region: "r".to_string(),
        aws_bucket: "b".to_string(),
        framerate: "30".to_string(),
        resolution: "640x480".to_string(),
    }
}

fn poll_manifest(watcher: &mut ChunkWatcher, manifest: &str, on_disk: &[&str]) -> Vec<String> {
    let entries: Vec<ManifestEntry> = parse_segment_list(manifest)
        .into_iter()
        .map(|name| {
            let present = on_disk.contains(&name.as_str());
            ManifestEntry { name, on_disk: present }
        })
        .collect();
    watcher.poll(&entries)
}

#[test]
fn three_chunks_two_live_and_the_rest_by_drain() {
    let mut session = RecordingState::new();
    assert_eq!(session.begin_recording(sample_options()), Ok(()));
    let mut watcher = ChunkWatcher::new();
    let mut live: Vec<String> = Vec::new();

    assert!(watcher.begin_tick(session.shutdown_requested()));
    live.extend(poll_manifest(&mut watcher, "", &["recording_chunk_000.mkv"]));
    assert!(watcher.begin_tick(session.shutdown_requested()));
    live.extend(poll_manifest(
        &mut watcher,
        "recording_chunk_000.mkv\n",
        &["recording_chunk_000.mkv", "recording_chunk_001.mkv"],
    ));
    assert!(watcher.begin_tick(session.shutdown_requested()));
    live.extend(poll_manifest(
        &mut watcher,
        "recording_chunk_000.mkv\nrecording_chunk_001.mkv\n",
        &["recording_chunk_000.mkv", "recording_chunk_001.mkv", "recording_chunk_002.mkv"],
    ));
    assert_eq!(live, vec!["recording_chunk_000.mkv".to_string(), "recording_chunk_001.mkv".to_string()]);

    assert_eq!(stop_all_recordings(&mut session), Ok(sample_options()));
    assert!(!watcher.begin_tick(session.shutdown_requested()));

    let listing: Vec<String> = vec![
        "recording_chunk_000.mkv".to_string(),
        "recording_chunk_001.mkv".to_string(),
        "recording_chunk_002.mkv".to_string(),
        "recording_chunk_003.mkv".to_string(),
        "segment_list.txt".to_string(),
    ];
    let mut plan = DrainPlan::for_directory(&listing);
    let mut uploaded: Vec<String> = Vec::new();
    loop {
        match plan.next_action() {
            DrainAction::Start(file) => {
                let mut stability = StabilityState::new();
                assert_eq!(stability.observe(Some(1024)), StabilityVerdict::PollAgain);
                assert_eq!(stability.observe(Some(1024)), StabilityVerdict::PollAgain);
                assert_eq!(stability.observe(Some(1024)), StabilityVerdict::Stable);
                let mut attempts = UploadAttempts::new();
                assert_eq!(attempts.record(UploadOutcome::Success), RetryDecision::Done);
                uploaded.push(file);
            },
            DrainAction::Wait => {
                assert!(plan.upload_ended());
            },
            DrainAction::Finished => break,
        }
    }
    assert_eq!(uploaded.len(), 4);
    let mut distinct: Vec<String> = Vec::new();
    for name in live.iter().chain(uploaded.iter()) {
        if !distinct.contains(name) {
            distinct.push(name.clone());
        }
    }
    assert_eq!(distinct.len(), 4);
    for name in distinct.iter() {
        assert!(listing.contains(name));
    }
    for name in live.iter() {
        assert!(uploaded.contains(name));
    }
    assert!(uploaded.contains(&"recording_chunk_002.mkv".to_string()));
    assert!(uploaded.contains(&"recording_chunk_003.mkv".to_string()));
    assert!(session.finish_stop());
    assert_eq!(session.current_phase(), SessionPhase::Idle);
}
