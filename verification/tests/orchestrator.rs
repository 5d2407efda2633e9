use youtube_downloader::locator::{Platform, ToolName};
use youtube_downloader::metadata::VideoInfo;
use youtube_downloader::orchestrator::{
    plan_artifact, Action, ArtifactPlan, DownloadError, DownloadRequest, DownloadResponse, DownloadResult, Event, FileEntry,
    Orchestrator, PlaylistDownloadResult, Stage, Step,
};
use youtube_downloader::progress::{Phase, FULL};
use youtube_downloader::naming::UrlKind;

fn request(url: &str) -> DownloadRequest {
    DownloadRequest {
        url: url.to_string(),
        output_directory: "/music".to_string(),
        target_bitrate_kbps: 192,
    }
}

fn strings(items: &[&str]) -> Vec<String> {
    items.iter().map(|s| s.to_string()).collect()
}

fn output(stdout: &str) -> Event {
    Event::Output { success: true, stdout: stdout.as_bytes().to_vec(), stderr: String::new() }
}

fn exited(success: bool) -> Event {
    Event::Exited {
        success,
        exit_code: Some(if success { 0 } else { 1 }),
        stderr: if success { String::new() } else { "ERROR: unavailable".to_string() },
    }
}

fn absent() -> Event {
    Event::Stat { exists: false, size: None }
}

fn present(size: u64) -> Event {
    Event::Stat { exists: true, size: Some(size) }
}

fn listing(files: &[(&str, u64)]) -> Event {
    Event::Listing {
        files: files
            .iter()
            .map(|(path, size)| FileEntry { path: path.to_string(), size: *size })
            .collect(),
    }
}

fn ready(orchestrator: Orchestrator) -> (Orchestrator, Step) {
    let (o, step) = orchestrator.step(Event::Start);
    assert_eq!(step.action, Action::Provision { tool: ToolName::Fetcher });
    let (o, step) = o.step(Event::ToolReady { path: "/cache/bin/yt-dlp".to_string() });
    assert_eq!(step.action, Action::Provision { tool: ToolName::Converter });
    o.step(Event::ToolReady { path: "/cache/bin/ffmpeg".to_string() })
}

fn transfer_args(url: &str) -> Vec<String> {
    strings(&[
        "-x",
        "--audio-format",
        "mp3",
        "--audio-quality",
        "192K",
        "-o",
        "/music/%(title)s.%(ext)s",
        "--no-playlist",
        "--newline",
        "--ffmpeg-location",
        "/cache/bin",
        url,
    ])
}

const SINGLE: &str = "https://www.youtube.com/watch?v=abc123";
const PLAYLIST: &str = "https://www.youtube.com/playlist?list=XYZ";

#[test]
fn invalid_url_is_refused_before_any_work() {
    assert_eq!(
        Orchestrator::new(request("https://example.com/video")).err(),
        Some(DownloadError::InvalidUrl)
    );
    assert_eq!(Orchestrator::new(request("")).err(), Some(DownloadError::InvalidUrl));
}

#[test]
fn single_video_gives_one_mp3_result() {
    let o = Orchestrator::new(request(SINGLE)).unwrap();
    assert_eq!(o.kind(), UrlKind::Single);
    assert_eq!(o.stage(), Stage::Created);
    let (o, step) = ready(o);
    assert_eq!(
        step.action,
        Action::RunOnce {
            program: "/cache/bin/yt-dlp".to_string(),
            args: strings(&["--dump-json", "--no-playlist", SINGLE]),
        }
    );
    assert_eq!(o.stage(), Stage::MetadataQuery);
    let (o, step) =
        o.step(output(r#"{"id": "abc123", "title": "My: Song?", "duration": 212.5}"#));
    assert_eq!(step.action, Action::Stat { path: "/music/My_ Song_.mp3".to_string() });
    assert_eq!(step.progress.len(), 1);
    assert_eq!(step.progress[0].current_title, Some("My_ Song_".to_string()));
    let (o, step) = o.step(absent());
    assert_eq!(
        step.action,
        Action::Transfer { program: "/cache/bin/yt-dlp".to_string(), args: transfer_args(SINGLE) }
    );
    assert_eq!(o.transfers_started(), 1);
    let (o, step) = o.step(Event::Line {
        text: "[download]  45.2% of 3.1MiB at 500KiB/s ETA 00:03".to_string(),
    });
    assert_eq!(step.action, Action::Read);
    assert_eq!(step.progress.len(), 1);
    assert_eq!(step.progress[0].item_fraction, 4520);
    assert_eq!(step.progress[0].overall_fraction, 4520);
    assert_eq!(step.progress[0].phase, Phase::Downloading);
    let (o, step) = o.step(Event::Line { text: "noise".to_string() });
    assert_eq!(step.action, Action::Read);
    assert!(step.progress.is_empty());
    let (o, step) = o.step(exited(true));
    assert_eq!(step.action, Action::Stat { path: "/music/My_ Song_.mp3".to_string() });
    assert_eq!(step.progress.len(), 1);
    assert_eq!(step.progress[0].phase, Phase::Complete);
    assert_eq!(o.stage(), Stage::Confirming);
    let (o, step) = o.step(present(3_250_586));
    assert_eq!(o.stage(), Stage::Done);
    let expected = DownloadResult {
        output_path: "/music/My_ Song_.mp3".to_string(),
        title: Some("My_ Song_".to_string()),
        duration: Some("212.5".to_string()),
        file_size: Some(3_250_586),
    };
    match &step.action {
        Action::Finish { response: DownloadResponse::Single(result) } => {
            assert!(result.output_path.ends_with(".mp3"));
            assert_eq!(result, &expected);
            assert_eq!(result.duration.as_ref().unwrap().parse::<f64>().unwrap(), 212.5);
        }
        other => panic!("{:?}", other),
    }
    assert_eq!(step.progress.len(), 1);
    assert_eq!(step.progress[0].overall_fraction, FULL);
    assert_eq!(step.progress[0].phase, Phase::Complete);
}

#[test]
fn single_video_that_exists_is_not_transferred() {
    let (o, _) = ready(Orchestrator::new(request(SINGLE)).unwrap());
    let (o, _) = o.step(output(r#"{"id": "abc123", "title": "There"}"#));
    let (o, step) = o.step(present(10));
    assert_eq!(o.stage(), Stage::Done);
    assert_eq!(o.transfers_started(), 0);
    assert_eq!(o.items_skipped(), 1);
    assert_eq!(
        step.action,
        Action::Finish {
            response: DownloadResponse::Single(DownloadResult {
                output_path: "/music/There.mp3".to_string(),
                title: Some("There".to_string()),
                duration: None,
                file_size: Some(10),
            })
        }
    );
    assert_eq!(step.progress.len(), 1);
    assert_eq!(step.progress[0].phase, Phase::Skipped);
}

#[test]
fn missing_metadata_falls_back_to_an_identifier() {
    let (o, _) = ready(Orchestrator::new(request(SINGLE)).unwrap());
    let (_, step) = o.step(output(""));
    assert_eq!(step.action, Action::Stat { path: "/music/abc123.mp3".to_string() });
    assert!(step.progress.is_empty());

    let (o, _) = ready(Orchestrator::new(request(SINGLE)).unwrap());
    let (_, step) = o.step(output("{not json"));
    assert_eq!(step.action, Action::Stat { path: "/music/abc123.mp3".to_string() });

    let (o, _) = ready(Orchestrator::new(request(SINGLE)).unwrap());
    let (_, step) = o.step(output(r#"{"id": "fromjson", "title": 7}"#));
    assert_eq!(step.action, Action::Stat { path: "/music/fromjson.mp3".to_string() });

    let (o, _) = ready(Orchestrator::new(request("https://youtu.be/short")).unwrap());
    let (_, step) = o.step(output("[]"));
    assert_eq!(step.action, Action::Stat { path: "/music/video.mp3".to_string() });
}

#[test]
fn single_video_failures() {
    let o = Orchestrator::new(request(SINGLE)).unwrap();
    let (o, _) = o.step(Event::Start);
    let (o, step) = o.step(Event::ToolFailed { message: "no resource".to_string() });
    assert_eq!(
        step.action,
        Action::Fail {
            error: DownloadError::Provisioning {
                tool: ToolName::Fetcher,
                message: "no resource".to_string()
            }
        }
    );
    assert_eq!(o.stage(), Stage::Failed);

    let o = Orchestrator::new(request(SINGLE)).unwrap();
    let (o, _) = o.step(Event::Start);
    let (o, _) = o.step(Event::ToolReady { path: "yt-dlp".to_string() });
    let (_, step) = o.step(Event::ToolFailed { message: "placeholder".to_string() });
    assert_eq!(
        step.action,
        Action::Fail {
            error: DownloadError::Provisioning {
                tool: ToolName::Converter,
                message: "placeholder".to_string()
            }
        }
    );

    let (o, _) = ready(Orchestrator::new(request(SINGLE)).unwrap());
    let (_, step) = o.step(Event::SpawnFailed { message: "not executable".to_string() });
    assert_eq!(
        step.action,
        Action::Fail {
            error: DownloadError::ProcessSpawn {
                program: "/cache/bin/yt-dlp".to_string(),
                message: "not executable".to_string()
            }
        }
    );

    let (o, _) = ready(Orchestrator::new(request(SINGLE)).unwrap());
    let (o, step) = o.step(Event::Output {
        success: false,
        stdout: br#"{"title": "not to be trusted"}"#.to_vec(),
        stderr: "ERROR: private video".to_string(),
    });
    assert_eq!(step.action, Action::Stat { path: "/music/abc123.mp3".to_string() });
    assert_eq!(o.stage(), Stage::SkipCheck);

    let (o, _) = ready(Orchestrator::new(request(SINGLE)).unwrap());
    let (o, _) = o.step(output(r#"{"title": "T"}"#));
    let (o, _) = o.step(absent());
    let (o, step) = o.step(exited(false));
    assert_eq!(
        step.action,
        Action::Fail {
            error: DownloadError::DownloadFailed {
                exit_code: Some(1),
                stderr: "ERROR: unavailable".to_string()
            }
        }
    );
    assert_eq!(o.stage(), Stage::Failed);

    let (o, _) = ready(Orchestrator::new(request(SINGLE)).unwrap());
    let (o, _) = o.step(output(r#"{"title": "T"}"#));
    let (o, _) = o.step(absent());
    let (_, step) = o.step(Event::SpawnFailed { message: "gone".to_string() });
    assert_eq!(
        step.action,
        Action::Fail {
            error: DownloadError::ProcessSpawn {
                program: "/cache/bin/yt-dlp".to_string(),
                message: "gone".to_string()
            }
        }
    );

    let (o, _) = ready(Orchestrator::new(request(SINGLE)).unwrap());
    let (o, _) = o.step(output(r#"{"title": "T"}"#));
    let (o, _) = o.step(absent());
    let (o, _) = o.step(exited(true));
    let (_, step) = o.step(absent());
    assert_eq!(
        step.action,
        Action::Fail { error: DownloadError::ArtifactMissing { path: "/music/T.mp3".to_string() } }
    );
}

#[test]
fn unexpected_events_fail_the_request() {
    let o = Orchestrator::new(request(SINGLE)).unwrap();
    let (o, step) = o.step(exited(true));
    assert_eq!(step.action, Action::Fail { error: DownloadError::UnexpectedEvent });
    assert_eq!(o.stage(), Stage::Failed);
    let (_, step) = o.step(Event::Start);
    assert_eq!(step.action, Action::Fail { error: DownloadError::UnexpectedEvent });
}

#[test]
fn converter_location_is_its_directory() {
    for (path, location) in [
        ("/ffmpeg", "/"),
        ("/opt/tools/ffmpeg", "/opt/tools"),
        ("C:\\Users\\me\\bin\\ffmpeg.exe", "C:\\Users\\me\\bin"),
        ("bin/ffmpeg", "bin"),
    ] {
        let o = Orchestrator::new(request(SINGLE)).unwrap();
        let (o, _) = o.step(Event::Start);
        let (o, _) = o.step(Event::ToolReady { path: "yt-dlp".to_string() });
        let (o, _) = o.step(Event::ToolReady { path: path.to_string() });
        let (o, _) = o.step(output("{}"));
        let (_, step) = o.step(absent());
        match step.action {
            Action::Transfer { args, .. } => {
                assert_eq!(args[9], "--ffmpeg-location");
                assert_eq!(args[10], location);
            }
            other => panic!("{:?}", other),
        }
    }
}

#[test]
fn converter_on_the_search_path_is_not_located() {
    let o = Orchestrator::new(request(SINGLE)).unwrap();
    let (o, _) = o.step(Event::Start);
    let (o, _) = o.step(Event::ToolReady { path: "yt-dlp".to_string() });
    let (o, step) = o.step(Event::ToolReady { path: "ffmpeg".to_string() });
    assert_eq!(
        step.action,
        Action::RunOnce {
            program: "yt-dlp".to_string(),
            args: strings(&["--dump-json", "--no-playlist", SINGLE]),
        }
    );
    let (o, _) = o.step(output("{}"));
    let (_, step) = o.step(absent());
    assert_eq!(
        step.action,
        Action::Transfer {
            program: "yt-dlp".to_string(),
            args: strings(&[
                "-x",
                "--audio-format",
                "mp3",
                "--audio-quality",
                "192K",
                "-o",
                "/music/%(title)s.%(ext)s",
                "--no-playlist",
                "--newline",
                SINGLE,
            ]),
        }
    );
}

const THREE: &str = "{\"id\": \"a1\", \"title\": \"One\"}\n{\"id\": \"b2\"}\r\n\nnot json\n{\"url\": \"https://youtu.be/c3\"}\n";

fn enumerated() -> (Orchestrator, Step) {
    let o = Orchestrator::new(request(PLAYLIST)).unwrap();
    assert_eq!(o.kind(), UrlKind::Playlist);
    let (o, step) = ready(o);
    assert_eq!(
        step.action,
        Action::RunOnce {
            program: "/cache/bin/yt-dlp".to_string(),
            args: strings(&["--dump-json", "--flat-playlist", PLAYLIST]),
        }
    );
    let (o, step) = o.step(output(THREE));
    assert_eq!(step.action, Action::List { directory: "/music".to_string() });
    assert_eq!(o.total_items(), 3);
    o.step(listing(&[("/music/old.mp3", 5), ("/music/notes.txt", 1)]))
}

#[test]
fn playlist_item_failure_is_isolated() {
    let (o, step) = enumerated();
    assert_eq!(
        step.action,
        Action::RunOnce {
            program: "/cache/bin/yt-dlp".to_string(),
            args: strings(&["--dump-json", "--no-playlist", "https://www.youtube.com/watch?v=a1"]),
        }
    );
    assert_eq!(step.progress.len(), 1);
    assert_eq!(step.progress[0].overall_fraction, 0);
    assert_eq!(step.progress[0].current_item_index, Some(1));
    assert_eq!(step.progress[0].total_items, Some(3));
    assert_eq!(step.progress[0].phase, Phase::Preparing);

    // item 1 succeeds
    let (o, step) = o.step(output(r#"{"id": "a1", "title": "One"}"#));
    assert_eq!(step.action, Action::Stat { path: "/music/One.mp3".to_string() });
    let (o, step) = o.step(absent());
    assert_eq!(
        step.action,
        Action::Transfer {
            program: "/cache/bin/yt-dlp".to_string(),
            args: transfer_args("https://www.youtube.com/watch?v=a1"),
        }
    );
    let (o, step) = o.step(Event::Line { text: "[download]  50.0% of 3MiB".to_string() });
    assert_eq!(step.progress.len(), 1);
    assert_eq!(step.progress[0].overall_fraction, 1666);
    let (o, step) = o.step(exited(true));
    assert_eq!(step.action, Action::List { directory: "/music".to_string() });
    assert_eq!(step.progress.len(), 1);
    assert_eq!(step.progress[0].overall_fraction, 3333);
    assert_eq!(step.progress[0].item_fraction, FULL);
    let (o, step) = o.step(listing(&[
        ("/music/old.mp3", 5),
        ("/music/One.mp3", 111),
        ("/music/notes.txt", 1),
    ]));

    // item 2 fails
    assert_eq!(
        step.action,
        Action::RunOnce {
            program: "/cache/bin/yt-dlp".to_string(),
            args: strings(&["--dump-json", "--no-playlist", "https://www.youtube.com/watch?v=b2"]),
        }
    );
    assert_eq!(step.progress.len(), 1);
    assert_eq!(step.progress[0].overall_fraction, 3333);
    assert_eq!(step.progress[0].current_item_index, Some(2));
    let (o, step) = o.step(Event::SpawnFailed { message: "busy".to_string() });
    assert_eq!(step.action, Action::Stat { path: "/music/b2.mp3".to_string() });
    let (o, _) = o.step(absent());
    let (o, step) = o.step(exited(false));
    assert!(matches!(step.action, Action::RunOnce { .. }));
    assert_eq!(o.stage(), Stage::ItemMetadata);

    // item 3 succeeds
    assert_eq!(step.progress.len(), 1);
    assert_eq!(step.progress[0].overall_fraction, 6666);
    assert_eq!(step.progress[0].current_item_index, Some(3));
    let (o, step) = o.step(output("garbage"));
    assert_eq!(step.action, Action::Stat { path: "/music/video_3.mp3".to_string() });
    let (o, _) = o.step(absent());
    let (o, _) = o.step(exited(true));
    let (o, step) = o.step(listing(&[
        ("/music/Three.mp3", 333),
        ("/music/old.mp3", 5),
        ("/music/One.mp3", 111),
    ]));

    assert_eq!(o.stage(), Stage::Done);
    assert_eq!(o.transfers_started(), 3);
    assert_eq!(o.items_skipped(), 0);
    match step.action {
        Action::Finish { response: DownloadResponse::Playlist(result) } => {
            assert_eq!(result.total_videos, 3);
            assert_eq!(result.downloaded_videos.len(), 2);
            assert_eq!(
                result,
                PlaylistDownloadResult {
                    output_folder: "/music".to_string(),
                    total_videos: 3,
                    downloaded_videos: vec![
                        DownloadResult {
                            output_path: "/music/One.mp3".to_string(),
                            title: Some("One".to_string()),
                            duration: None,
                            file_size: Some(111),
                        },
                        DownloadResult {
                            output_path: "/music/Three.mp3".to_string(),
                            title: Some("Three".to_string()),
                            duration: None,
                            file_size: Some(333),
                        },
                    ],
                }
            );
        }
        other => panic!("{:?}", other),
    }
    assert_eq!(step.progress.len(), 1);
    assert_eq!(step.progress[0].overall_fraction, FULL);
    assert_eq!(step.progress[0].current_item_index, Some(3));
    assert_eq!(step.progress[0].phase, Phase::Complete);
}

fn run_playlist(present_items: &[bool]) -> (Orchestrator, Step, usize) {
    let count = present_items.len();
    let mut stdout = String::new();
    for i in 0..count {
        stdout.push_str(&format!("{{\"id\": \"id{}\"}}\n", i));
    }
    let (o, _) = ready(Orchestrator::new(request(PLAYLIST)).unwrap());
    let (o, _) = o.step(output(&stdout));
    let (mut o, mut step) = o.step(listing(&[]));
    let mut transfers = 0;
    let mut files: Vec<(String, u64)> = Vec::new();
    for (i, there) in present_items.iter().enumerate() {
        assert!(matches!(step.action, Action::RunOnce { .. }));
        let (next, s) = o.step(output(&format!("{{\"title\": \"Song {}\"}}", i)));
        assert_eq!(s.action, Action::Stat { path: format!("/music/Song {}.mp3", i) });
        let (next, s) = next.step(if *there { present(7) } else { absent() });
        if *there {
            o = next;
            step = s;
            continue;
        }
        assert!(matches!(s.action, Action::Transfer { .. }));
        transfers += 1;
        let (next, _) = next.step(exited(true));
        files.push((format!("/music/Song {}.mp3", i), 9));
        let (next, s) = next.step(Event::Listing {
            files: files
                .iter()
                .map(|(path, size)| FileEntry { path: path.clone(), size: *size })
                .collect(),
        });
        o = next;
        step = s;
    }
    (o, step, transfers)
}

#[test]
fn rerun_transfers_only_what_is_missing() {
    let (o, step, transfers) = run_playlist(&[true, false, true, true, false]);
    assert_eq!(o.stage(), Stage::Done);
    assert_eq!(transfers, 2);
    assert_eq!(o.transfers_started(), 5 - 3);
    assert_eq!(o.items_skipped(), 3);
    match step.action {
        Action::Finish { response: DownloadResponse::Playlist(result) } => {
            assert_eq!(result.total_videos, 5);
            assert_eq!(result.downloaded_videos.len(), 5);
            assert_eq!(result.downloaded_videos[0].file_size, Some(7));
            assert_eq!(result.downloaded_videos[1].file_size, Some(9));
            assert_eq!(result.downloaded_videos[1].title, Some("Song 1".to_string()));
        }
        other => panic!("{:?}", other),
    }
}

#[test]
fn rerun_over_a_complete_directory_transfers_nothing() {
    let (o, _, transfers) = run_playlist(&[true, true, true]);
    assert_eq!(o.stage(), Stage::Done);
    assert_eq!(transfers, 0);
    assert_eq!(o.transfers_started(), 0);
    assert_eq!(o.items_skipped(), 3);
}

#[test]
fn first_run_transfers_everything() {
    let (o, _, transfers) = run_playlist(&[false, false]);
    assert_eq!(transfers, 2);
    assert_eq!(o.transfers_started(), 2);
    assert_eq!(o.items_skipped(), 0);
}

#[test]
fn skipped_item_is_reported_from_the_file_in_place() {
    let (o, step) = enumerated();
    assert!(matches!(step.action, Action::RunOnce { .. }));
    let (o, _) = o.step(output(r#"{"title": "One", "duration": 10}"#));
    let (o, step) = o.step(present(42));
    assert_eq!(o.items_skipped(), 1);
    assert_eq!(o.transfers_started(), 0);
    assert_eq!(step.progress.len(), 2);
    assert_eq!(step.progress[0].phase, Phase::Skipped);
    assert_eq!(step.progress[0].item_fraction, FULL);
    assert_eq!(step.progress[0].overall_fraction, 3333);
    assert_eq!(step.progress[0].current_title, Some("One".to_string()));
    assert_eq!(step.progress[1].phase, Phase::Preparing);
    assert_eq!(step.progress[1].current_item_index, Some(2));
    assert!(matches!(step.action, Action::RunOnce { .. }));
}

#[test]
fn empty_playlist_is_an_error() {
    let (o, _) = ready(Orchestrator::new(request(PLAYLIST)).unwrap());
    let (o, step) = o.step(output("\nnot json\n"));
    assert_eq!(
        step.action,
        Action::Fail { error: DownloadError::EmptyPlaylist { stderr: String::new() } }
    );
    assert_eq!(o.stage(), Stage::Failed);
    let (o, _) = ready(Orchestrator::new(request(PLAYLIST)).unwrap());
    let (_, step) = o.step(output(""));
    assert_eq!(
        step.action,
        Action::Fail { error: DownloadError::EmptyPlaylist { stderr: String::new() } }
    );
}

#[test]
fn playlist_listing_failure_is_fatal() {
    let (o, _) = ready(Orchestrator::new(request(PLAYLIST)).unwrap());
    let (_, step) = o.step(Event::Output {
        success: false,
        stdout: Vec::new(),
        stderr: "ERROR: no such playlist".to_string(),
    });
    assert_eq!(
        step.action,
        Action::Fail {
            error: DownloadError::EmptyPlaylist { stderr: "ERROR: no such playlist".to_string() }
        }
    );
    let (o, _) = ready(Orchestrator::new(request(PLAYLIST)).unwrap());
    let (o, step) = o.step(Event::Output {
        success: false,
        stdout: b"{\"id\": \"a\"}\n".to_vec(),
        stderr: "WARNING: some items are hidden".to_string(),
    });
    assert_eq!(step.action, Action::List { directory: "/music".to_string() });
    assert_eq!(o.total_items(), 1);
    let (o, _) = ready(Orchestrator::new(request(PLAYLIST)).unwrap());
    let (_, step) = o.step(Event::SpawnFailed { message: "missing".to_string() });
    assert_eq!(
        step.action,
        Action::Fail {
            error: DownloadError::ProcessSpawn {
                program: "/cache/bin/yt-dlp".to_string(),
                message: "missing".to_string()
            }
        }
    );
}

#[test]
fn playlist_without_fetchable_items_is_done_at_once() {
    let (o, _) = ready(Orchestrator::new(request(PLAYLIST)).unwrap());
    let (o, _) = o.step(output("{\"title\": \"no id\"}\n{}\n"));
    assert_eq!(o.total_items(), 2);
    let (o, step) = o.step(listing(&[]));
    assert_eq!(o.stage(), Stage::Done);
    assert_eq!(
        step.action,
        Action::Finish {
            response: DownloadResponse::Playlist(PlaylistDownloadResult {
                output_folder: "/music".to_string(),
                total_videos: 2,
                downloaded_videos: Vec::new(),
            })
        }
    );
}

#[test]
fn collected_artifact_is_new_and_an_mp3() {
    let (o, _) = enumerated();
    let (o, _) = o.step(output("{}"));
    let (o, _) = o.step(absent());
    let (o, _) = o.step(exited(true));
    let (o, _) = o.step(listing(&[
        ("/music/old.mp3", 5),
        ("/music/cover.jpg", 2),
        ("/music/.mp3", 2),
        ("/music/New Song.mp3", 99),
        ("/music/Another.mp3", 98),
    ]));
    let (o, _) = o.step(output("{}"));
    let (o, _) = o.step(absent());
    let (o, _) = o.step(exited(true));
    let (o, _) = o.step(listing(&[
        ("/music/old.mp3", 5),
        ("/music/New Song.mp3", 99),
        ("/music/Another.mp3", 98),
    ]));
    let (o, _) = o.step(output("{}"));
    let (o, _) = o.step(absent());
    let (o, _) = o.step(exited(true));
    let (o, step) = o.step(listing(&[("/music/old.mp3", 5), ("/music/New Song.mp3", 99)]));
    assert_eq!(o.stage(), Stage::Done);
    match step.action {
        Action::Finish { response: DownloadResponse::Playlist(result) } => {
            assert_eq!(
                result.downloaded_videos,
                vec![
                    DownloadResult {
                        output_path: "/music/New Song.mp3".to_string(),
                        title: Some("New Song".to_string()),
                        duration: None,
                        file_size: Some(99),
                    },
                    DownloadResult {
                        output_path: "/music/Another.mp3".to_string(),
                        title: Some("Another".to_string()),
                        duration: None,
                        file_size: Some(98),
                    },
                ]
            );
        }
        other => panic!("{:?}", other),
    }
}

#[test]
fn cancelling_ends_the_request_and_keeps_what_is_done() {
    let (o, _) = enumerated();
    let (o, _) = o.step(output(r#"{"title": "One"}"#));
    let (o, _) = o.step(present(5));
    let (o, _) = o.step(output(r#"{"title": "Two"}"#));
    let (o, step) = o.step(absent());
    assert!(matches!(step.action, Action::Transfer { .. }));
    let (o, step) = o.step(Event::Cancel);
    assert_eq!(step.action, Action::Fail { error: DownloadError::Cancelled });
    assert!(step.progress.is_empty());
    assert_eq!(o.stage(), Stage::Failed);
    assert_eq!(o.items_skipped(), 1);
    let (o, step) =
        o.step(Event::Line { text: "[download]  45.2% of 3.1MiB".to_string() });
    assert_eq!(step.action, Action::Fail { error: DownloadError::UnexpectedEvent });
    assert!(step.progress.is_empty());
    let (_, step) = o.step(Event::Cancel);
    assert_eq!(step.action, Action::Fail { error: DownloadError::UnexpectedEvent });

    let o = Orchestrator::new(request(SINGLE)).unwrap();
    let (_, step) = o.step(Event::Cancel);
    assert_eq!(step.action, Action::Fail { error: DownloadError::Cancelled });
}

#[test]
fn error_messages_carry_the_details() {
    assert_eq!(
        DownloadError::InvalidUrl.message(Platform::Linux),
        "Invalid YouTube URL. Please provide a valid YouTube video URL."
    );
    assert_eq!(
        DownloadError::Provisioning { tool: ToolName::Fetcher, message: "no file".to_string() }
            .message(Platform::Macos),
        "Failed to setup yt-dlp: no file\n\nPlease install yt-dlp manually:\nmacOS Installation:\n\nyt-dlp:\n- brew install yt-dlp\n- Or: pip install yt-dlp\n\nFFmpeg:\n- brew install ffmpeg\n\nOr visit: https://github.com/yt-dlp/yt-dlp"
    );
    let message = DownloadError::Provisioning {
        tool: ToolName::Converter,
        message: "placeholder".to_string(),
    }
    .message(Platform::Linux);
    assert!(message.starts_with(
        "Failed to setup FFmpeg: placeholder\n\nPlease install FFmpeg manually:\nLinux Installation:"
    ));
    assert!(message.ends_with("\n\nOr visit: https://ffmpeg.org/download.html"));
    assert_eq!(
        DownloadError::ProcessSpawn {
            program: "/cache/bin/yt-dlp".to_string(),
            message: "No such file".to_string()
        }
        .message(Platform::Linux),
        "Failed to run /cache/bin/yt-dlp: No such file"
    );
    assert_eq!(
        DownloadError::EmptyPlaylist { stderr: String::new() }.message(Platform::Windows),
        "Playlist appears to be empty or could not be accessed."
    );
    assert_eq!(
        DownloadError::EmptyPlaylist { stderr: "ERROR: 404".to_string() }
            .message(Platform::Windows),
        "Playlist appears to be empty or could not be accessed.\n\nERROR: 404"
    );
    assert_eq!(
        DownloadError::DownloadFailed { exit_code: Some(1), stderr: "ERROR: 403".to_string() }
            .message(Platform::Linux),
        "Download failed (exit code 1): ERROR: 403"
    );
    assert_eq!(
        DownloadError::DownloadFailed { exit_code: Some(-2147483648), stderr: String::new() }
            .message(Platform::Linux),
        "Download failed (exit code -2147483648): "
    );
    assert_eq!(
        DownloadError::DownloadFailed { exit_code: None, stderr: "killed".to_string() }
            .message(Platform::Linux),
        "Download failed: killed"
    );
    assert_eq!(
        DownloadError::ArtifactMissing { path: "/music/a.mp3".to_string() }
            .message(Platform::Linux),
        "Download finished but no file was found at /music/a.mp3"
    );
    assert_eq!(
        DownloadError::Cancelled.message(Platform::Linux),
        "The download was cancelled."
    );
    assert_eq!(
        DownloadError::UnexpectedEvent.message(Platform::Linux),
        "The download was driven out of order."
    );
}

#[test]
fn artifact_plans() {
    let info = VideoInfo {
        id: Some("abc".to_string()),
        title: Some(" A/B: the \"best\"... ".to_string()),
        url: None,
        duration: Some("61".to_string()),
    };
    assert_eq!(
        plan_artifact("/music", Some(info.clone()), UrlKind::Single, SINGLE, 1),
        ArtifactPlan {
            title: Some("A_B_ the _best_".to_string()),
            duration: Some("61".to_string()),
            path: "/music/A_B_ the _best_.mp3".to_string(),
        }
    );
    assert_eq!(
        plan_artifact("/music/", Some(info), UrlKind::Playlist, SINGLE, 4),
        ArtifactPlan {
            title: Some("A_B_ the _best_".to_string()),
            duration: None,
            path: "/music/A_B_ the _best_.mp3".to_string(),
        }
    );
    let untitled =
        VideoInfo { id: Some("fromjson".to_string()), title: None, url: None, duration: None };
    assert_eq!(
        plan_artifact("", Some(untitled.clone()), UrlKind::Single, SINGLE, 1).path,
        "fromjson.mp3"
    );
    assert_eq!(
        plan_artifact("out", Some(untitled), UrlKind::Playlist, "https://x/watch?v=u1&list=L", 2)
            .path,
        "out/u1.mp3"
    );
    assert_eq!(
        plan_artifact("out", None, UrlKind::Playlist, "https://youtu.be/zzz", 12).path,
        "out/video_12.mp3"
    );
    assert_eq!(
        plan_artifact("out", None, UrlKind::Single, "https://youtu.be/zzz", 12).path,
        "out/video.mp3"
    );
    assert_eq!(
        plan_artifact("out", None, UrlKind::Single, "https://x/watch?v=a1v=b2&c", 1).path,
        "out/a1.mp3"
    );
    assert_eq!(
        plan_artifact("out", None, UrlKind::Single, "https://x/watch?v=", 1).path,
        "out/.mp3"
    );
}
