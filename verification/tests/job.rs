use songdl::error::{ErrorKind, JobError};
use songdl::job::{
    caption_of_stage, kind_of_failure, next_status, Job, Level, Operation, Outcome, Stage, Status,
};
use songdl::origin::Origin;
use songdl::song::Song;
use songdl::waveform::Frame;

fn caption(job: &Job) -> Option<(String, Level)> {
    job.progress().map(|p| (p.caption, p.level))
}

fn info(text: &str) -> Option<(String, Level)> {
    Some((String::from(text), Level::Info))
}

fn failure(job: Job) -> JobError {
    job.into_result().unwrap().unwrap_err()
}

fn loud_frames() -> Vec<Frame> {
    (0..460).map(|i| Frame { left: i, right: i }).collect()
}

#[test]
fn opening_captions() {
    assert_eq!(Operation::Query.opening_caption(), "initializing...");
    assert_eq!(Operation::Save.opening_caption(), "initializing...");
    assert_eq!(Operation::AdjustVolume.opening_caption(), "setting volume...");
}

#[test]
fn a_local_query_runs_its_stages_in_order() {
    let mut job = Job::query(String::from("/music/a.flac"), Origin::Local);
    assert_eq!(job.stage(), Some(Stage::ReadFile));
    assert_eq!(caption(&job), info("reading..."));
    assert!(!job.is_over());

    job.advance(Outcome::Bytes(vec![1, 2, 3]));
    assert_eq!(job.stage(), Some(Stage::Convert));
    assert_eq!(caption(&job), info("converting audio..."));
    assert_eq!(job.raw_audio, vec![1, 2, 3]);

    job.advance(Outcome::Bytes(vec![9, 9]));
    assert_eq!(job.stage(), Some(Stage::ExtractThumbnail));
    assert_eq!(caption(&job), info("extracting thumbnail..."));

    job.advance(Outcome::Bytes(vec![7]));
    assert_eq!(job.stage(), Some(Stage::LoadCover));
    assert_eq!(caption(&job), info("loading cover..."));
    assert!(!job.needs_reencoded_cover());
    assert!(job.needs_work());

    job.advance(Outcome::Done);
    assert_eq!(job.stage(), Some(Stage::ParseMetadata));
    assert_eq!(caption(&job), info("parsing metadata..."));

    job.advance(Outcome::Bytes("title=Song\nartist=Band\n".as_bytes().to_vec()));
    assert_eq!(job.stage(), Some(Stage::DecodeAudio));
    assert_eq!(caption(&job), info("reading song..."));

    job.advance(Outcome::Frames(loud_frames()));
    assert_eq!(job.stage(), Some(Stage::MeasureVolume));
    assert_eq!(caption(&job), None);

    job.advance(Outcome::Bytes("mean_volume: -12.5 dB\n".as_bytes().to_vec()));
    assert_eq!(job.stage(), None);
    assert!(job.is_over());
    assert_eq!(caption(&job), None);

    let song = job.into_result().unwrap().unwrap();
    assert_eq!(song.title, "Song");
    assert_eq!(song.artist, "Band");
    assert_eq!(song.audio_bytes, vec![9, 9]);
    assert_eq!(song.cover_bytes, vec![7]);
    assert_eq!(song.source_url, "/music/a.flac");
    assert_eq!(song.volume, "-12.5");
    assert_eq!(song.waveform.peaks.len(), 230);
    assert_eq!(song.waveform.full_scale, 2 * 459);
}

#[test]
fn a_remote_query_runs_its_stages_in_order() {
    let mut job = Job::query(String::from("https://youtube.com/watch?v=1"), Origin::YouTube);
    assert_eq!(job.stage(), Some(Stage::Download));
    assert_eq!(caption(&job), info("downloading audio..."));

    let description =
        br#"{"title": "Clip", "uploader": "Channel", "thumbnail": "https://i.example/1.webp"}"#;
    job.advance(Outcome::Downloaded { audio: vec![5, 5, 5], info: description.to_vec() });
    assert_eq!(job.stage(), Some(Stage::Convert));
    assert_eq!(caption(&job), info("converting audio..."));

    job.advance(Outcome::Bytes(vec![6]));
    assert_eq!(job.stage(), Some(Stage::DownloadThumbnail));
    assert_eq!(caption(&job), info("downloading thumbnail..."));
    assert_eq!(job.thumbnail_url(), "https://i.example/1.webp");

    job.advance(Outcome::Bytes(vec![8, 8]));
    assert_eq!(job.stage(), Some(Stage::ParseMetadata));
    assert_eq!(caption(&job), info("parsing metadata..."));
    assert!(!job.needs_work());

    job.advance(Outcome::Done);
    assert_eq!(job.stage(), Some(Stage::LoadCover));
    assert_eq!(caption(&job), info("loading cover..."));
    assert!(job.needs_reencoded_cover());

    job.advance(Outcome::Bytes(vec![0xff, 0xd8]));
    assert_eq!(job.stage(), Some(Stage::DecodeAudio));
    assert_eq!(caption(&job), info("reading song..."));

    job.advance(Outcome::Frames(vec![Frame { left: 0, right: 0 }; 300]));
    assert_eq!(job.stage(), Some(Stage::MeasureVolume));

    job.advance(Outcome::Bytes("mean_volume: -91.0 dB\n".as_bytes().to_vec()));
    let song = job.into_result().unwrap().unwrap();
    assert_eq!(song.title, "Clip");
    assert_eq!(song.artist, "Channel");
    assert_eq!(song.audio_bytes, vec![6]);
    assert_eq!(song.cover_bytes, vec![0xff, 0xd8]);
    assert_eq!(song.source_url, "https://youtube.com/watch?v=1");
    assert_eq!(song.volume, "-91.0");
    assert_eq!(song.waveform.peaks, vec![0; 230]);
}

#[test]
fn an_unknown_origin_is_downloaded() {
    let job = Job::query(String::from("whatever"), Origin::Unknown);
    assert_eq!(job.stage(), Some(Stage::Download));
    let job = Job::query(String::from("https://soundcloud.com/a/b"), Origin::Soundcloud);
    assert_eq!(job.stage(), Some(Stage::Download));
}

#[test]
fn a_null_thumbnail_is_no_link() {
    let mut job = Job::query(String::from("u"), Origin::YouTube);
    let description = br#"{"title": "Clip", "artist": null, "thumbnail": null}"#;
    job.advance(Outcome::Downloaded { audio: vec![1], info: description.to_vec() });
    job.advance(Outcome::Bytes(vec![2]));
    assert_eq!(job.thumbnail_url(), "");
    job.advance(Outcome::Bytes(Vec::new()));
    job.song.artist = String::from("X");
    job.advance(Outcome::Done);
    assert_eq!(job.song.title, "Clip");
    assert_eq!(job.song.artist, "X");
}

#[test]
fn a_download_without_thumbnail_keeps_no_cover() {
    let mut job = Job::query(String::from("u"), Origin::Soundcloud);
    job.advance(Outcome::Downloaded { audio: vec![1], info: b"{}".to_vec() });
    job.advance(Outcome::Bytes(vec![2]));
    assert_eq!(job.thumbnail_url(), "");
    job.advance(Outcome::Bytes(Vec::new()));
    job.advance(Outcome::Done);
    assert_eq!(job.stage(), Some(Stage::LoadCover));
    assert!(!job.needs_reencoded_cover());
    assert!(!job.needs_work());
    job.advance(Outcome::Done);
    assert_eq!(job.stage(), Some(Stage::DecodeAudio));
    assert!(job.needs_work());
    assert!(job.song.cover_bytes.is_empty());
}

#[test]
fn a_file_that_cannot_be_read_fails_the_query() {
    let mut job = Job::query(String::from("/no/such/file"), Origin::Local);
    job.advance(Outcome::Failed(String::from("No such file or directory (os error 2)")));
    assert!(job.is_over());
    assert_eq!(
        caption(&job),
        Some((String::from("failed: No such file or directory (os error 2)"), Level::Error))
    );
    let error = failure(job);
    assert_eq!(error.kind, ErrorKind::EmptyOutput);
    assert_eq!(error.message, "No such file or directory (os error 2)");
}

#[test]
fn an_empty_file_fails_the_query() {
    let mut job = Job::query(String::from("/music/empty"), Origin::Local);
    job.advance(Outcome::Bytes(Vec::new()));
    assert_eq!(caption(&job), Some((String::from("failed: read error"), Level::Error)));
    let error = failure(job);
    assert_eq!(error.kind, ErrorKind::EmptyOutput);
    assert_eq!(error.message, "read error");
}

#[test]
fn an_empty_download_fails_the_query() {
    let mut job = Job::query(String::from("u"), Origin::YouTube);
    job.advance(Outcome::Downloaded { audio: Vec::new(), info: b"{}".to_vec() });
    let error = failure(job);
    assert_eq!(error.kind, ErrorKind::EmptyOutput);
    assert_eq!(error.message, "download error");
}

#[test]
fn a_description_that_is_no_json_fails_the_query() {
    let mut job = Job::query(String::from("u"), Origin::YouTube);
    job.advance(Outcome::Downloaded { audio: vec![1], info: b"ERROR: unsupported".to_vec() });
    assert_eq!(
        caption(&job),
        Some((String::from("failed: expected value at line 1 column 1"), Level::Error))
    );
    let error = failure(job);
    assert_eq!(error.kind, ErrorKind::MetadataParse);
    assert_eq!(error.message, "expected value at line 1 column 1");
    // A description that cannot be read counts before an empty download.
    let mut job = Job::query(String::from("u"), Origin::YouTube);
    job.advance(Outcome::Downloaded { audio: Vec::new(), info: Vec::new() });
    assert_eq!(failure(job).kind, ErrorKind::MetadataParse);
}

#[test]
fn an_empty_conversion_fails_the_query() {
    let mut job = Job::query(String::from("/a"), Origin::Local);
    job.advance(Outcome::Bytes(vec![1]));
    job.advance(Outcome::Bytes(Vec::new()));
    let error = failure(job);
    assert_eq!(error.kind, ErrorKind::EmptyOutput);
    assert_eq!(error.message, "audio conversion error");
}

#[test]
fn a_tool_that_does_not_start_fails_the_query() {
    let mut job = Job::query(String::from("/a"), Origin::Local);
    job.advance(Outcome::Bytes(vec![1]));
    job.advance(Outcome::Failed(String::from("program not found")));
    let error = failure(job);
    assert_eq!(error.kind, ErrorKind::ToolInvocation);
    assert_eq!(error.message, "program not found");
}

#[test]
fn audio_that_cannot_be_decoded_fails_the_query() {
    let mut job = Job::query(String::from("/a"), Origin::Local);
    job.advance(Outcome::Bytes(vec![1]));
    job.advance(Outcome::Bytes(vec![2]));
    job.advance(Outcome::Bytes(Vec::new()));
    job.advance(Outcome::Done);
    job.advance(Outcome::Bytes(Vec::new()));
    assert_eq!(job.stage(), Some(Stage::DecodeAudio));
    job.advance(Outcome::Failed(String::from("unsupported codec")));
    assert_eq!(failure(job).kind, ErrorKind::AudioDecode);
}

#[test]
fn a_report_without_volume_fails_the_query() {
    let mut job = Job::query(String::from("/a"), Origin::Local);
    job.advance(Outcome::Bytes(vec![1]));
    job.advance(Outcome::Bytes(vec![2]));
    job.advance(Outcome::Bytes(Vec::new()));
    job.advance(Outcome::Done);
    job.advance(Outcome::Bytes(Vec::new()));
    job.advance(Outcome::Frames(Vec::new()));
    job.advance(Outcome::Bytes("no report".as_bytes().to_vec()));
    assert_eq!(caption(&job), Some((String::from("failed: couldn't get volume"), Level::Error)));
    let error = failure(job);
    assert_eq!(error.kind, ErrorKind::VolumeDetection);
    assert_eq!(error.message, "couldn't get volume");
}

#[test]
fn output_that_is_no_text_fails_the_job() {
    let mut job = Job::query(String::from("/a"), Origin::Local);
    job.advance(Outcome::Bytes(vec![1]));
    job.advance(Outcome::Bytes(vec![2]));
    job.advance(Outcome::Bytes(Vec::new()));
    job.advance(Outcome::Done);
    job.advance(Outcome::Bytes(vec![b't', b'=', 0xff]));
    let error = failure(job);
    assert_eq!(error.kind, ErrorKind::MetadataParse);
    assert_eq!(error.message, "invalid utf-8 sequence of 1 bytes from index 2");

    let mut song = Song::default();
    song.audio_bytes = vec![1];
    let mut job = Job::adjust_volume(song, String::from("1"));
    job.advance(Outcome::Bytes(vec![2]));
    job.advance(Outcome::Bytes(vec![0xc3]));
    let error = failure(job);
    assert_eq!(error.kind, ErrorKind::VolumeDetection);
    assert_eq!(error.message, "incomplete utf-8 byte sequence from index 0");
}

#[test]
fn an_outcome_of_the_wrong_shape_fails_the_job() {
    let mut job = Job::query(String::from("/a"), Origin::Local);
    job.advance(Outcome::Done);
    let error = failure(job);
    assert_eq!(error.kind, ErrorKind::EmptyOutput);
    assert_eq!(error.message, "unexpected outcome");

    let mut job = Job::save(Song::default());
    job.advance(Outcome::Frames(Vec::new()));
    assert_eq!(failure(job).kind, ErrorKind::TagWrite);
}

#[test]
fn a_job_that_is_over_takes_no_outcome() {
    let mut job = Job::query(String::from("/a"), Origin::Local);
    job.advance(Outcome::Failed(String::from("first")));
    job.advance(Outcome::Bytes(vec![1]));
    job.advance(Outcome::Failed(String::from("second")));
    assert_eq!(failure(job).message, "first");

    let mut job = Job::save(Song::default());
    job.advance(Outcome::Bytes(vec![1]));
    job.advance(Outcome::Done);
    job.advance(Outcome::Done);
    assert!(job.is_over());
    job.advance(Outcome::Failed(String::from("late")));
    assert_eq!(job.into_result().unwrap().unwrap().audio_bytes, vec![1]);
}

#[test]
fn a_job_that_runs_has_no_result() {
    let job = Job::query(String::from("/a"), Origin::Local);
    assert!(job.needs_work());
    assert!(job.into_result().is_none());
}

#[test]
fn a_job_that_is_over_has_no_work() {
    let mut job = Job::query(String::from("/a"), Origin::Local);
    job.advance(Outcome::Failed(String::from("x")));
    assert!(!job.needs_work());
}

#[test]
fn a_save_runs_its_stages_in_order() {
    let mut song = Song::default();
    song.title = String::from(" Test Song ");
    song.artist = String::from("A/B");
    song.audio_bytes = vec![1, 2];
    song.cover_bytes = vec![3];
    let mut job = Job::save(song);
    assert_eq!(job.stage(), Some(Stage::WriteTags));
    assert_eq!(caption(&job), info("updating song metadata..."));
    assert_eq!(
        job.tags(),
        vec![
            (String::from("title"), String::from("Test Song")),
            (String::from("artist"), String::from("A/B")),
            (String::from("album"), String::from("")),
        ]
    );

    job.advance(Outcome::Bytes(vec![10, 11]));
    assert_eq!(job.stage(), Some(Stage::EmbedCover));
    assert_eq!(caption(&job), None);
    assert_eq!(job.tagged_audio, vec![10, 11]);
    assert_eq!(job.song.audio_bytes, vec![1, 2]);

    job.advance(Outcome::Bytes(vec![20, 21, 22]));
    assert_eq!(job.stage(), Some(Stage::WriteFile));
    assert_eq!(caption(&job), info("writing song to disk..."));
    assert_eq!(job.song.audio_bytes, vec![20, 21, 22]);
    assert_eq!(job.song.file_name(), "test_song_ab.mp3");

    job.advance(Outcome::Done);
    assert!(job.is_over());
    assert_eq!(caption(&job), Some((String::from("saved"), Level::Success)));
    let song = job.into_result().unwrap().unwrap();
    assert_eq!(song.title, "Test Song");
    assert_eq!(song.audio_bytes, vec![20, 21, 22]);
}

#[test]
fn a_failure_to_write_tags_keeps_the_audio() {
    let mut song = Song::default();
    song.audio_bytes = vec![1, 2];
    let mut job = Job::save(song);
    job.advance(Outcome::Failed(String::from("ffmpeg: not found")));
    assert_eq!(job.song.audio_bytes, vec![1, 2]);
    assert_eq!(failure(job).kind, ErrorKind::TagWrite);

    let mut song = Song::default();
    song.audio_bytes = vec![1, 2];
    let mut job = Job::save(song);
    job.advance(Outcome::Bytes(vec![5]));
    job.advance(Outcome::Failed(String::from("cover refused")));
    assert_eq!(job.song.audio_bytes, vec![1, 2]);
    assert_eq!(failure(job).kind, ErrorKind::TagWrite);
}

#[test]
fn tagging_that_gives_no_bytes_fails_the_save() {
    let mut song = Song::default();
    song.audio_bytes = vec![1, 2];
    song.cover_bytes = vec![3];
    let mut job = Job::save(song);
    job.advance(Outcome::Bytes(Vec::new()));
    assert_eq!(caption(&job), Some((String::from("failed: tag writing error"), Level::Error)));
    assert_eq!(job.song.audio_bytes, vec![1, 2]);
    let error = failure(job);
    assert_eq!(error.kind, ErrorKind::TagWrite);
    assert_eq!(error.message, "tag writing error");
}

#[test]
fn embedding_that_gives_no_bytes_fails_the_save() {
    let mut song = Song::default();
    song.audio_bytes = vec![1, 2];
    song.cover_bytes = vec![3];
    let mut job = Job::save(song);
    job.advance(Outcome::Bytes(vec![9]));
    assert!(job.needs_work());
    job.advance(Outcome::Bytes(Vec::new()));
    assert_eq!(job.song.audio_bytes, vec![1, 2]);
    let error = failure(job);
    assert_eq!(error.kind, ErrorKind::TagWrite);
    assert_eq!(error.message, "cover embedding error");
}

#[test]
fn a_song_without_cover_keeps_its_tagged_audio() {
    let mut song = Song::default();
    song.audio_bytes = vec![1, 2];
    let mut job = Job::save(song);
    job.advance(Outcome::Bytes(vec![9, 9]));
    assert_eq!(job.stage(), Some(Stage::EmbedCover));
    assert!(!job.needs_work());
    job.advance(Outcome::Done);
    assert_eq!(job.stage(), Some(Stage::WriteFile));
    assert_eq!(job.song.audio_bytes, vec![9, 9]);
    job.advance(Outcome::Done);
    assert_eq!(job.into_result().unwrap().unwrap().audio_bytes, vec![9, 9]);
}

#[test]
fn embedding_without_cover_takes_no_bytes() {
    let mut song = Song::default();
    song.audio_bytes = vec![1, 2];
    let mut job = Job::save(song);
    job.advance(Outcome::Bytes(vec![9]));
    job.advance(Outcome::Bytes(Vec::new()));
    assert_eq!(job.song.audio_bytes, vec![1, 2]);
    let error = failure(job);
    assert_eq!(error.kind, ErrorKind::TagWrite);
    assert_eq!(error.message, "unexpected outcome");
}

#[test]
fn embedding_without_tagged_audio_fails() {
    let mut song = Song::default();
    song.audio_bytes = vec![1, 2];
    let mut job = Job::save(song);
    job.status = Status::At(Stage::EmbedCover);
    job.advance(Outcome::Done);
    assert_eq!(job.song.audio_bytes, vec![1, 2]);
    assert_eq!(failure(job).kind, ErrorKind::TagWrite);
}

#[test]
fn a_change_of_volume_that_gives_no_bytes_fails() {
    let mut song = Song::default();
    song.audio_bytes = vec![1];
    let mut job = Job::adjust_volume(song, String::from("3"));
    job.advance(Outcome::Bytes(Vec::new()));
    assert_eq!(job.song.audio_bytes, vec![1]);
    let error = failure(job);
    assert_eq!(error.kind, ErrorKind::EmptyOutput);
    assert_eq!(error.message, "audio conversion error");
}

#[test]
fn a_tool_that_is_missing_is_a_failed_invocation_at_every_stage() {
    let mut job = Job::query(String::from("/a"), Origin::Local);
    job.advance(Outcome::Bytes(vec![1]));
    job.advance(Outcome::Bytes(vec![2]));
    job.advance(Outcome::Bytes(Vec::new()));
    job.advance(Outcome::Done);
    assert_eq!(job.stage(), Some(Stage::ParseMetadata));
    job.advance(Outcome::NotStarted(String::from("program not found")));
    assert_eq!(caption(&job), Some((String::from("failed: program not found"), Level::Error)));
    let error = failure(job);
    assert_eq!(error.kind, ErrorKind::ToolInvocation);
    assert_eq!(error.message, "program not found");

    let mut song = Song::default();
    song.audio_bytes = vec![1];
    let mut job = Job::adjust_volume(song, String::from("1"));
    job.advance(Outcome::Bytes(vec![2]));
    assert_eq!(job.stage(), Some(Stage::MeasureVolume));
    job.advance(Outcome::NotStarted(String::from("No such file or directory (os error 2)")));
    assert_eq!(failure(job).kind, ErrorKind::ToolInvocation);

    let mut job = Job::query(String::from("u"), Origin::YouTube);
    job.advance(Outcome::NotStarted(String::from("x")));
    assert_eq!(failure(job).kind, ErrorKind::ToolInvocation);
}

#[test]
fn a_tool_that_is_missing_while_tags_are_written_is_a_failure_to_write_tags() {
    let mut song = Song::default();
    song.audio_bytes = vec![1, 2];
    song.cover_bytes = vec![3];
    let mut job = Job::save(song.clone());
    job.advance(Outcome::NotStarted(String::from("program not found")));
    assert_eq!(job.song.audio_bytes, vec![1, 2]);
    let error = failure(job);
    assert_eq!(error.kind, ErrorKind::TagWrite);
    assert_eq!(error.message, "program not found");

    let mut job = Job::save(song);
    job.advance(Outcome::Bytes(vec![7]));
    job.advance(Outcome::NotStarted(String::from("program not found")));
    assert_eq!(job.song.audio_bytes, vec![1, 2]);
    assert_eq!(failure(job).kind, ErrorKind::TagWrite);
}

#[test]
fn a_directory_that_cannot_be_written_fails_the_save() {
    let mut job = Job::save(Song::default());
    job.advance(Outcome::Bytes(vec![5]));
    job.advance(Outcome::Done);
    assert_eq!(job.stage(), Some(Stage::WriteFile));
    job.advance(Outcome::Failed(String::from("Permission denied (os error 13)")));
    assert_eq!(
        caption(&job),
        Some((String::from("failed: Permission denied (os error 13)"), Level::Error))
    );
    assert_eq!(failure(job).kind, ErrorKind::Persist);
}

#[test]
fn a_change_of_volume_measures_and_summarizes_anew() {
    let mut song = Song::default();
    song.audio_bytes = vec![1];
    song.volume = String::from("-20.0");
    let mut job = Job::adjust_volume(song, String::from("3"));
    assert_eq!(job.stage(), Some(Stage::ApplyOffset));
    assert_eq!(caption(&job), None);
    assert_eq!(job.offset, "3");

    job.advance(Outcome::Bytes(vec![2, 2]));
    assert_eq!(job.stage(), Some(Stage::MeasureVolume));
    job.advance(Outcome::Bytes("mean_volume: -17.0 dB\n".as_bytes().to_vec()));
    assert_eq!(job.stage(), Some(Stage::DecodeAudio));
    job.advance(Outcome::Frames(loud_frames()));
    assert!(job.is_over());
    assert_eq!(caption(&job), None);

    let song = job.into_result().unwrap().unwrap();
    assert_eq!(song.audio_bytes, vec![2, 2]);
    assert_eq!(song.volume, "-17.0");
    assert_eq!(song.waveform.full_scale, 2 * 459);
}

#[test]
fn stage_tables() {
    assert!(matches!(
        next_status(Operation::Query, Origin::Local, Stage::Convert),
        Status::At(Stage::ExtractThumbnail)
    ));
    assert!(matches!(
        next_status(Operation::Query, Origin::YouTube, Stage::Convert),
        Status::At(Stage::DownloadThumbnail)
    ));
    assert!(matches!(
        next_status(Operation::Query, Origin::Local, Stage::MeasureVolume),
        Status::Finished
    ));
    assert!(matches!(
        next_status(Operation::AdjustVolume, Origin::Unknown, Stage::DecodeAudio),
        Status::Finished
    ));
    assert!(matches!(
        next_status(Operation::Save, Origin::Unknown, Stage::WriteFile),
        Status::Finished
    ));
    assert_eq!(kind_of_failure(Stage::WriteFile), ErrorKind::Persist);
    assert_eq!(kind_of_failure(Stage::Download), ErrorKind::ToolInvocation);
    assert_eq!(kind_of_failure(Stage::LoadCover), ErrorKind::MetadataParse);
    assert_eq!(caption_of_stage(Operation::Query, Stage::MeasureVolume), None);
    assert_eq!(caption_of_stage(Operation::Save, Stage::EmbedCover), None);
    assert_eq!(caption_of_stage(Operation::AdjustVolume, Stage::ApplyOffset), None);
    assert_eq!(caption_of_stage(Operation::Query, Stage::LoadCover), Some("loading cover..."));
}
