//! The stages of a job and the order in which they run.
//!
//! A job does no outside work itself. It names the stage that is due, the caller
//! does that stage's work and hands back what came of it, and the job decides
//! what follows: the next stage, the end, or the failure of the whole job.

use vstd::prelude::*;
use crate::error::{ErrorKind, JobError};
use crate::json::{json_members, new_document, Document};
use crate::origin::Origin;
use crate::report::{
    description_reading, field_text, metadata_of_output, metadata_reading, read_description,
    volume_reading,
};
use crate::song::{
    is_empty_song, json_read, metadata_tuples, with_metadata, without_noise, Song, SongView,
};
use crate::text::{join_texts, trimmed};
use crate::waveform::{summarizes, Frame, WAVEFORM_LENGTH};

verus! {

/// What a job is for.
#[derive(Clone, Copy, PartialEq, Eq, Structural, Debug)]
pub enum Operation {
    /// Fetch a song from its source.
    Query,
    /// Write tags and cover into the song and the song to disk.
    Save,
    /// Make the song louder or quieter.
    AdjustVolume,
}

/// One stage of a job.
#[derive(Clone, Copy, PartialEq, Eq, Structural, Debug)]
pub enum Stage {
    ReadFile,
    Download,
    Convert,
    ExtractThumbnail,
    DownloadThumbnail,
    LoadCover,
    ParseMetadata,
    DecodeAudio,
    MeasureVolume,
    ApplyOffset,
    WriteTags,
    EmbedCover,
    WriteFile,
}

/// How a caption is shown.
#[derive(Clone, Copy, PartialEq, Eq, Structural, Debug)]
pub enum Level {
    Info,
    Success,
    Error,
}

/// One event on the progress channel.
#[derive(Debug)]
pub struct Progress {
    pub caption: String,
    pub level: Level,
}

/// Where a job stands.
#[derive(Debug)]
pub enum Status {
    /// The stage is due.
    At(Stage),
    Finished,
    Failed(JobError),
}

/// Where a job stands, a failure by its kind and message.
pub enum StatusView {
    At(Stage),
    Finished,
    Failed(ErrorKind, Seq<char>),
}

impl View for Status {
    type V = StatusView;

    open spec fn view(&self) -> StatusView {
        match self {
            Status::At(stage) => StatusView::At(*stage),
            Status::Finished => StatusView::Finished,
            Status::Failed(error) => StatusView::Failed(error.kind, error.message@),
        }
    }
}

/// What came of a stage's work.
#[derive(Debug)]
pub enum Outcome {
    /// The bytes that the work gave.
    Bytes(Vec<u8>),
    /// What the downloader wrote: the audio and the description of the link.
    Downloaded { audio: Vec<u8>, info: Vec<u8> },
    /// The decoded audio.
    Frames(Vec<Frame>),
    /// The work is done and gave nothing to keep.
    Done,
    /// The work failed, with this message.
    Failed(String),
    /// The tool of the stage could not be found or started, with this message.
    NotStarted(String),
}

/// What came of a stage's work.
pub enum OutcomeView {
    Bytes(Seq<u8>),
    Downloaded { audio: Seq<u8>, info: Seq<u8> },
    Frames(Seq<Frame>),
    Done,
    Failed(Seq<char>),
    NotStarted(Seq<char>),
}

impl View for Outcome {
    type V = OutcomeView;

    open spec fn view(&self) -> OutcomeView {
        match self {
            Outcome::Bytes(bytes) => OutcomeView::Bytes(bytes@),
            Outcome::Downloaded { audio, info } => OutcomeView::Downloaded {
                audio: audio@,
                info: info@,
            },
            Outcome::Frames(frames) => OutcomeView::Frames(frames@),
            Outcome::Done => OutcomeView::Done,
            Outcome::Failed(message) => OutcomeView::Failed(message@),
            Outcome::NotStarted(message) => OutcomeView::NotStarted(message@),
        }
    }
}

/// A job: its song and what the stages handed on to later stages.
#[derive(Debug)]
pub struct Job {
    pub operation: Operation,
    /// Where the song comes from; of use in a query only.
    pub origin: Origin,
    pub status: Status,
    /// The song that the job works on, apart from the one that is shown.
    pub song: Song,
    /// The audio as it was read or downloaded.
    pub raw_audio: Vec<u8>,
    /// The audio with its new tags, before the cover is embedded.
    pub tagged_audio: Vec<u8>,
    /// The description of the link that the audio was downloaded from.
    pub details: Document,
    /// By how many decibels the loudness changes, as text.
    pub offset: String,
}

/// What a job holds.
pub struct JobView {
    pub operation: Operation,
    pub origin: Origin,
    pub status: StatusView,
    pub song: SongView,
    pub raw_audio: Seq<u8>,
    pub tagged_audio: Seq<u8>,
    pub details: Map<Seq<char>, Seq<char>>,
    pub offset: Seq<char>,
}

impl View for Job {
    type V = JobView;

    open spec fn view(&self) -> JobView {
        JobView {
            operation: self.operation,
            origin: self.origin,
            status: self.status@,
            song: self.song@,
            raw_audio: self.raw_audio@,
            tagged_audio: self.tagged_audio@,
            details: json_members(self.details),
            offset: self.offset@,
        }
    }
}

/// The stages of a job, in the order in which they run.
pub open spec fn plan(operation: Operation, origin: Origin) -> Seq<Stage> {
    match operation {
        Operation::Query => if origin == Origin::Local {
            seq![
                Stage::ReadFile,
                Stage::Convert,
                Stage::ExtractThumbnail,
                Stage::LoadCover,
                Stage::ParseMetadata,
                Stage::DecodeAudio,
                Stage::MeasureVolume,
            ]
        } else {
            seq![
                Stage::Download,
                Stage::Convert,
                Stage::DownloadThumbnail,
                Stage::ParseMetadata,
                Stage::LoadCover,
                Stage::DecodeAudio,
                Stage::MeasureVolume,
            ]
        },
        Operation::Save => seq![Stage::WriteTags, Stage::EmbedCover, Stage::WriteFile],
        Operation::AdjustVolume => seq![
            Stage::ApplyOffset,
            Stage::MeasureVolume,
            Stage::DecodeAudio,
        ],
    }
}

/// The stage that a job starts with.
pub open spec fn first_stage(operation: Operation, origin: Origin) -> Stage {
    match operation {
        Operation::Query => if origin == Origin::Local {
            Stage::ReadFile
        } else {
            Stage::Download
        },
        Operation::Save => Stage::WriteTags,
        Operation::AdjustVolume => Stage::ApplyOffset,
    }
}

/// Where a job stands after a stage went well: at the stage that follows it
/// in the plan, or at the end.
pub open spec fn status_after(operation: Operation, origin: Origin, stage: Stage) -> StatusView {
    match operation {
        Operation::Query => match stage {
            Stage::ReadFile => StatusView::At(Stage::Convert),
            Stage::Download => StatusView::At(Stage::Convert),
            Stage::Convert => if origin == Origin::Local {
                StatusView::At(Stage::ExtractThumbnail)
            } else {
                StatusView::At(Stage::DownloadThumbnail)
            },
            Stage::ExtractThumbnail => StatusView::At(Stage::LoadCover),
            Stage::DownloadThumbnail => StatusView::At(Stage::ParseMetadata),
            Stage::LoadCover => if origin == Origin::Local {
                StatusView::At(Stage::ParseMetadata)
            } else {
                StatusView::At(Stage::DecodeAudio)
            },
            Stage::ParseMetadata => if origin == Origin::Local {
                StatusView::At(Stage::DecodeAudio)
            } else {
                StatusView::At(Stage::LoadCover)
            },
            Stage::DecodeAudio => StatusView::At(Stage::MeasureVolume),
            _ => StatusView::Finished,
        },
        Operation::Save => match stage {
            Stage::WriteTags => StatusView::At(Stage::EmbedCover),
            Stage::EmbedCover => StatusView::At(Stage::WriteFile),
            _ => StatusView::Finished,
        },
        Operation::AdjustVolume => match stage {
            Stage::ApplyOffset => StatusView::At(Stage::MeasureVolume),
            Stage::MeasureVolume => StatusView::At(Stage::DecodeAudio),
            _ => StatusView::Finished,
        },
    }
}

/// The kind of failure that a stage's work ends in when it fails after its tool
/// was started, or without a tool. A file that cannot be read gave no bytes, and
/// a cover that cannot be read is metadata that cannot be read.
pub open spec fn failure_kind(stage: Stage) -> ErrorKind {
    match stage {
        Stage::ReadFile => ErrorKind::EmptyOutput,
        Stage::Download => ErrorKind::ToolInvocation,
        Stage::Convert => ErrorKind::ToolInvocation,
        Stage::ExtractThumbnail => ErrorKind::ToolInvocation,
        Stage::DownloadThumbnail => ErrorKind::ToolInvocation,
        Stage::LoadCover => ErrorKind::MetadataParse,
        Stage::ParseMetadata => ErrorKind::MetadataParse,
        Stage::DecodeAudio => ErrorKind::AudioDecode,
        Stage::MeasureVolume => ErrorKind::VolumeDetection,
        Stage::ApplyOffset => ErrorKind::ToolInvocation,
        Stage::WriteTags => ErrorKind::TagWrite,
        Stage::EmbedCover => ErrorKind::TagWrite,
        Stage::WriteFile => ErrorKind::Persist,
    }
}

/// The kind of failure that a stage ends in when its tool could not be found or
/// started: a failed invocation, but for the two stages that write tags and
/// cover, whose every failure is a failure to write tags.
pub open spec fn start_failure_kind(stage: Stage) -> ErrorKind {
    match stage {
        Stage::WriteTags => ErrorKind::TagWrite,
        Stage::EmbedCover => ErrorKind::TagWrite,
        _ => ErrorKind::ToolInvocation,
    }
}

/// The caption that announces a stage, where it has one. A stage that goes on
/// under the caption of the stage before it has none.
pub open spec fn stage_caption(operation: Operation, stage: Stage) -> Option<Seq<char>> {
    match operation {
        Operation::Query => match stage {
            Stage::ReadFile => Some("reading..."@),
            Stage::Download => Some("downloading audio..."@),
            Stage::Convert => Some("converting audio..."@),
            Stage::ExtractThumbnail => Some("extracting thumbnail..."@),
            Stage::DownloadThumbnail => Some("downloading thumbnail..."@),
            Stage::LoadCover => Some("loading cover..."@),
            Stage::ParseMetadata => Some("parsing metadata..."@),
            Stage::DecodeAudio => Some("reading song..."@),
            _ => None,
        },
        Operation::Save => match stage {
            Stage::WriteTags => Some("updating song metadata..."@),
            Stage::WriteFile => Some("writing song to disk..."@),
            _ => None,
        },
        Operation::AdjustVolume => None,
    }
}

/// The event that tells where a job stands now, if there is anything to tell:
/// the caption of the stage that is due, `saved` after a save, and the failure
/// with its message.
pub open spec fn progress_of(job: JobView) -> Option<(Seq<char>, Level)> {
    match job.status {
        StatusView::At(stage) => match stage_caption(job.operation, stage) {
            Some(caption) => Some((caption, Level::Info)),
            None => None,
        },
        StatusView::Finished => if job.operation == Operation::Save {
            Some(("saved"@, Level::Success))
        } else {
            None
        },
        StatusView::Failed(_, message) => Some(("failed: "@ + message, Level::Error)),
    }
}

/// The caption that is shown when a job of this kind is started, before its
/// first stage.
pub open spec fn opening_caption(operation: Operation) -> Seq<char> {
    match operation {
        Operation::AdjustVolume => "setting volume..."@,
        _ => "initializing..."@,
    }
}

/// The job, failed.
pub open spec fn failed(job: JobView, kind: ErrorKind, message: Seq<char>) -> JobView {
    JobView { status: StatusView::Failed(kind, message), ..job }
}

/// The job after the stage went well and left the job's data as it was.
pub open spec fn moved_on(job: JobView, stage: Stage) -> JobView {
    JobView { status: status_after(job.operation, job.origin, stage), ..job }
}

/// Whether the cover of a job's song has to be written anew as a JPEG: it has
/// where the song was downloaded and has a cover.
pub open spec fn cover_is_reencoded(job: JobView) -> bool {
    job.origin != Origin::Local && job.song.cover_bytes.len() > 0
}

/// Whether the stage that is due has work for the caller. It has none where
/// there is no cover to load or to embed, and none where the metadata came with
/// the download.
pub open spec fn has_work(job: JobView) -> bool {
    match job.status {
        StatusView::At(Stage::LoadCover) => job.song.cover_bytes.len() > 0,
        StatusView::At(Stage::EmbedCover) => job.song.cover_bytes.len() > 0,
        StatusView::At(Stage::ParseMetadata) => job.origin == Origin::Local,
        StatusView::At(_) => true,
        _ => false,
    }
}

/// Whether an outcome is of the shape that the work of the stage gives.
///
/// Most stages give bytes. The download gives audio and description. Writing
/// the file gives nothing. Decoding gives frames. The cover gives bytes where it
/// is written anew and nothing where it is only looked at. The metadata of a file
/// is the output of the tag dump; that of a download was read with the download,
/// so the stage has no work and gives nothing. Embedding gives bytes where the
/// song has a cover; where it has none, the stage has no work and gives nothing.
pub open spec fn fits(job: JobView, stage: Stage, outcome: OutcomeView) -> bool {
    match stage {
        Stage::Download => outcome is Downloaded,
        Stage::LoadCover => if cover_is_reencoded(job) {
            outcome is Bytes
        } else {
            outcome is Done
        },
        Stage::ParseMetadata => if job.origin == Origin::Local {
            outcome is Bytes
        } else {
            outcome is Done
        },
        Stage::EmbedCover => if job.song.cover_bytes.len() > 0 {
            outcome is Bytes
        } else {
            outcome is Done
        },
        Stage::DecodeAudio => outcome is Frames,
        Stage::WriteFile => outcome is Done,
        _ => outcome is Bytes,
    }
}

/// `next` is what the stage makes of an outcome that fits it.
pub open spec fn handles(job: JobView, stage: Stage, outcome: OutcomeView, next: JobView) -> bool {
    let on = moved_on(job, stage);
    match (stage, outcome) {
        (Stage::ReadFile, OutcomeView::Bytes(bytes)) => if bytes.len() == 0 {
            next == failed(job, ErrorKind::EmptyOutput, "read error"@)
        } else {
            next == (JobView { raw_audio: bytes, ..on })
        },
        (Stage::Download, OutcomeView::Downloaded { audio, info }) => match description_reading(
            info,
        ) {
            Err(message) => next == failed(job, ErrorKind::MetadataParse, message),
            Ok(members) => if audio.len() == 0 {
                next == failed(job, ErrorKind::EmptyOutput, "download error"@)
            } else {
                next == (JobView { raw_audio: audio, details: members, ..on })
            },
        },
        (Stage::Convert, OutcomeView::Bytes(bytes)) => if bytes.len() == 0 {
            next == failed(job, ErrorKind::EmptyOutput, "audio conversion error"@)
        } else {
            next == (JobView { song: SongView { audio_bytes: bytes, ..job.song }, ..on })
        },
        (Stage::ExtractThumbnail, OutcomeView::Bytes(bytes)) => next == (JobView {
            song: SongView { cover_bytes: bytes, ..job.song },
            ..on
        }),
        (Stage::DownloadThumbnail, OutcomeView::Bytes(bytes)) => next == (JobView {
            song: SongView { cover_bytes: bytes, ..job.song },
            ..on
        }),
        (Stage::LoadCover, OutcomeView::Bytes(bytes)) => next == (JobView {
            song: SongView { cover_bytes: bytes, ..job.song },
            ..on
        }),
        (Stage::LoadCover, OutcomeView::Done) => next == on,
        (Stage::ParseMetadata, OutcomeView::Bytes(output)) => match metadata_reading(output) {
            Err(message) => next == failed(job, ErrorKind::MetadataParse, message),
            Ok(tags) => next == (JobView { song: with_metadata(job.song, tags), ..on }),
        },
        (Stage::ParseMetadata, OutcomeView::Done) => next == (JobView {
            song: with_metadata(job.song, job.details),
            details: without_noise(job.details),
            ..on
        }),
        (Stage::DecodeAudio, OutcomeView::Frames(frames)) => summarizes(
            frames,
            next.song.peaks,
            next.song.full_scale,
        ) && next == (JobView {
            song: SongView {
                peaks: next.song.peaks,
                full_scale: next.song.full_scale,
                ..job.song
            },
            ..on
        }),
        (Stage::MeasureVolume, OutcomeView::Bytes(output)) => match volume_reading(output) {
            Err(message) => next == failed(job, ErrorKind::VolumeDetection, message),
            Ok(volume) => next == (JobView { song: SongView { volume, ..job.song }, ..on }),
        },
        (Stage::ApplyOffset, OutcomeView::Bytes(bytes)) => if bytes.len() == 0 {
            next == failed(job, ErrorKind::EmptyOutput, "audio conversion error"@)
        } else {
            next == (JobView { song: SongView { audio_bytes: bytes, ..job.song }, ..on })
        },
        (Stage::WriteTags, OutcomeView::Bytes(bytes)) => if bytes.len() == 0 {
            next == failed(job, ErrorKind::TagWrite, "tag writing error"@)
        } else {
            next == (JobView { tagged_audio: bytes, ..on })
        },
        (Stage::EmbedCover, OutcomeView::Bytes(bytes)) => if bytes.len() == 0 {
            next == failed(job, ErrorKind::TagWrite, "cover embedding error"@)
        } else {
            next == (JobView { song: SongView { audio_bytes: bytes, ..job.song }, ..on })
        },
        (Stage::EmbedCover, OutcomeView::Done) => if job.tagged_audio.len() == 0 {
            next == failed(job, ErrorKind::TagWrite, "tag writing error"@)
        } else {
            next == (JobView {
                song: SongView { audio_bytes: job.tagged_audio, ..job.song },
                ..on
            })
        },
        (Stage::WriteFile, OutcomeView::Done) => next == on,
        _ => next == on,
    }
}

/// `next` is the job after the outcome of the work that was due.
///
/// A job that is over stays as it is. A tool that did not start fails the job,
/// as a failed invocation or, while tags and cover are written, as a failure to
/// write tags. Work that failed fails the job, with
/// the work's message and the kind of failure that belongs to the stage. So does
/// an outcome that does not fit the stage. An outcome that fits is handled by the
/// stage.
pub open spec fn advances(job: JobView, outcome: OutcomeView, next: JobView) -> bool {
    match job.status {
        StatusView::At(stage) => match outcome {
            OutcomeView::NotStarted(message) => next == failed(
                job,
                start_failure_kind(stage),
                message,
            ),
            OutcomeView::Failed(message) => next == failed(job, failure_kind(stage), message),
            _ => if fits(job, stage, outcome) {
                handles(job, stage, outcome, next)
            } else {
                next == failed(job, failure_kind(stage), "unexpected outcome"@)
            },
        },
        _ => next == job,
    }
}

/// Where a job stands after a stage went well.
pub fn next_status(operation: Operation, origin: Origin, stage: Stage) -> (r: Status)
    ensures
        r@ == status_after(operation, origin, stage),
{
    let local = origin == Origin::Local;
    match operation {
        Operation::Query => match stage {
            Stage::ReadFile => Status::At(Stage::Convert),
            Stage::Download => Status::At(Stage::Convert),
            Stage::Convert => if local {
                Status::At(Stage::ExtractThumbnail)
            } else {
                Status::At(Stage::DownloadThumbnail)
            },
            Stage::ExtractThumbnail => Status::At(Stage::LoadCover),
            Stage::DownloadThumbnail => Status::At(Stage::ParseMetadata),
            Stage::LoadCover => if local {
                Status::At(Stage::ParseMetadata)
            } else {
                Status::At(Stage::DecodeAudio)
            },
            Stage::ParseMetadata => if local {
                Status::At(Stage::DecodeAudio)
            } else {
                Status::At(Stage::LoadCover)
            },
            Stage::DecodeAudio => Status::At(Stage::MeasureVolume),
            _ => Status::Finished,
        },
        Operation::Save => match stage {
            Stage::WriteTags => Status::At(Stage::EmbedCover),
            Stage::EmbedCover => Status::At(Stage::WriteFile),
            _ => Status::Finished,
        },
        Operation::AdjustVolume => match stage {
            Stage::ApplyOffset => Status::At(Stage::MeasureVolume),
            Stage::MeasureVolume => Status::At(Stage::DecodeAudio),
            _ => Status::Finished,
        },
    }
}

/// The kind of failure that a stage's work ends in when it fails.
pub fn kind_of_failure(stage: Stage) -> (r: ErrorKind)
    ensures
        r == failure_kind(stage),
{
    match stage {
        Stage::ReadFile => ErrorKind::EmptyOutput,
        Stage::Download => ErrorKind::ToolInvocation,
        Stage::Convert => ErrorKind::ToolInvocation,
        Stage::ExtractThumbnail => ErrorKind::ToolInvocation,
        Stage::DownloadThumbnail => ErrorKind::ToolInvocation,
        Stage::LoadCover => ErrorKind::MetadataParse,
        Stage::ParseMetadata => ErrorKind::MetadataParse,
        Stage::DecodeAudio => ErrorKind::AudioDecode,
        Stage::MeasureVolume => ErrorKind::VolumeDetection,
        Stage::ApplyOffset => ErrorKind::ToolInvocation,
        Stage::WriteTags => ErrorKind::TagWrite,
        Stage::EmbedCover => ErrorKind::TagWrite,
        Stage::WriteFile => ErrorKind::Persist,
    }
}

/// The caption that announces a stage, where it has one.
pub fn caption_of_stage(operation: Operation, stage: Stage) -> (r: Option<&'static str>)
    ensures
        r.deep_view() == stage_caption(operation, stage),
{
    match operation {
        Operation::Query => match stage {
            Stage::ReadFile => Some("reading..."),
            Stage::Download => Some("downloading audio..."),
            Stage::Convert => Some("converting audio..."),
            Stage::ExtractThumbnail => Some("extracting thumbnail..."),
            Stage::DownloadThumbnail => Some("downloading thumbnail..."),
            Stage::LoadCover => Some("loading cover..."),
            Stage::ParseMetadata => Some("parsing metadata..."),
            Stage::DecodeAudio => Some("reading song..."),
            _ => None,
        },
        Operation::Save => match stage {
            Stage::WriteTags => Some("updating song metadata..."),
            Stage::WriteFile => Some("writing song to disk..."),
            _ => None,
        },
        Operation::AdjustVolume => None,
    }
}

impl Operation {
    /// The caption that is shown when a job of this kind is started.
    pub fn opening_caption(&self) -> (r: &'static str)
        ensures
            r@ == opening_caption(*self),
    {
        match self {
            Operation::AdjustVolume => "setting volume...",
            _ => "initializing...",
        }
    }
}

impl Job {
    /// A job that fetches the song behind a source reference. Its song holds
    /// the reference and nothing else.
    pub fn query(source_url: String, origin: Origin) -> (job: Job)
        ensures
            job@.operation == Operation::Query,
            job@.origin == origin,
            job@.status == StatusView::At(first_stage(Operation::Query, origin)),
            job@.song.source_url == source_url@,
            is_empty_song(SongView { source_url: Seq::empty(), ..job@.song }),
            job@.raw_audio.len() == 0,
            job@.tagged_audio.len() == 0,
            job@.details == Map::<Seq<char>, Seq<char>>::empty(),
            job@.offset.len() == 0,
    {
        let mut song = Song::default();
        song.source_url = source_url;
        let first = if origin == Origin::Local {
            Stage::ReadFile
        } else {
            Stage::Download
        };
        Job {
            operation: Operation::Query,
            origin,
            status: Status::At(first),
            song,
            raw_audio: Vec::new(),
            tagged_audio: Vec::new(),
            details: new_document(),
            offset: String::new(),
        }
    }

    /// A job that writes the song's tags and cover into its audio and the
    /// audio to disk. Title, artist and album lose the white space at their ends.
    pub fn save(song: Song) -> (job: Job)
        ensures
            job@.operation == Operation::Save,
            job@.status == StatusView::At(Stage::WriteTags),
            job@.song == (SongView {
                title: trimmed(song@.title),
                artist: trimmed(song@.artist),
                album: trimmed(song@.album),
                ..song@
            }),
            job@.raw_audio.len() == 0,
            job@.tagged_audio.len() == 0,
            job@.details == Map::<Seq<char>, Seq<char>>::empty(),
            job@.offset.len() == 0,
    {
        let mut song = song;
        song.trim();
        Job {
            operation: Operation::Save,
            origin: Origin::Unknown,
            status: Status::At(Stage::WriteTags),
            song,
            raw_audio: Vec::new(),
            tagged_audio: Vec::new(),
            details: new_document(),
            offset: String::new(),
        }
    }

    /// A job that changes the song's loudness by `offset` decibels, `offset`
    /// being the number as text.
    pub fn adjust_volume(song: Song, offset: String) -> (job: Job)
        ensures
            job@.operation == Operation::AdjustVolume,
            job@.status == StatusView::At(Stage::ApplyOffset),
            job@.song == song@,
            job@.offset == offset@,
            job@.raw_audio.len() == 0,
            job@.tagged_audio.len() == 0,
            job@.details == Map::<Seq<char>, Seq<char>>::empty(),
    {
        Job {
            operation: Operation::AdjustVolume,
            origin: Origin::Unknown,
            status: Status::At(Stage::ApplyOffset),
            song,
            raw_audio: Vec::new(),
            tagged_audio: Vec::new(),
            details: new_document(),
            offset,
        }
    }

    /// The stage that is due, if the job is not over.
    pub fn stage(&self) -> (r: Option<Stage>)
        ensures
            r == (match self@.status {
                StatusView::At(stage) => Some(stage),
                _ => None,
            }),
    {
        match &self.status {
            Status::At(stage) => Some(*stage),
            _ => None,
        }
    }

    /// Whether the job is over, finished or failed.
    pub fn is_over(&self) -> (r: bool)
        ensures
            r == !(self@.status is At),
    {
        match &self.status {
            Status::At(_) => false,
            _ => true,
        }
    }

    /// The event that tells where the job stands now, if there is anything to tell.
    pub fn progress(&self) -> (r: Option<Progress>)
        ensures
            match progress_of(self@) {
                Some((caption, level)) => r is Some && r->Some_0.caption@ == caption
                    && r->Some_0.level == level,
                None => r is None,
            },
    {
        match &self.status {
            Status::At(stage) => match caption_of_stage(self.operation, *stage) {
                Some(caption) => Some(Progress { caption: caption.to_owned(), level: Level::Info }),
                None => None,
            },
            Status::Finished => if self.operation == Operation::Save {
                Some(Progress { caption: "saved".to_owned(), level: Level::Success })
            } else {
                None
            },
            Status::Failed(error) => Some(
                Progress {
                    caption: join_texts("failed: ", error.message.as_str()),
                    level: Level::Error,
                },
            ),
        }
    }

    /// Whether the cover has to be written anew as a JPEG when it is loaded.
    pub fn needs_reencoded_cover(&self) -> (r: bool)
        ensures
            r == cover_is_reencoded(self@),
    {
        self.origin != Origin::Local && !self.song.cover_bytes.is_empty()
    }

    /// Whether the stage that is due has work for the caller. Where it has
    /// none, the caller hands the job `Outcome::Done`.
    pub fn needs_work(&self) -> (r: bool)
        ensures
            r == has_work(self@),
    {
        match &self.status {
            Status::At(Stage::LoadCover) => !self.song.cover_bytes.is_empty(),
            Status::At(Stage::EmbedCover) => !self.song.cover_bytes.is_empty(),
            Status::At(Stage::ParseMetadata) => self.origin == Origin::Local,
            Status::At(_) => true,
            _ => false,
        }
    }

    /// The link of the picture that goes with the downloaded audio.
    pub fn thumbnail_url(&self) -> (r: String)
        ensures
            r@ == field_text(self@.details, "thumbnail"@),
    {
        json_read(&self.details, "thumbnail")
    }

    /// The tags that are written into the audio.
    pub fn tags(&self) -> (r: Vec<(String, String)>)
        ensures
            r.deep_view() == metadata_tuples(self@.song),
    {
        let mut tuples: Vec<(String, String)> = Vec::new();
        tuples.push(("title".to_owned(), self.song.title.clone()));
        tuples.push(("artist".to_owned(), self.song.artist.clone()));
        tuples.push(("album".to_owned(), self.song.album.clone()));
        assert(tuples.deep_view() =~= metadata_tuples(self@.song));
        tuples
    }

    /// Ends the job with a failure.
    fn fail(&mut self, kind: ErrorKind, message: &str)
        ensures
            final(self)@ == failed(old(self)@, kind, message@),
    {
        self.status = Status::Failed(JobError::new(kind, message));
    }

    /// Goes on after the stage.
    fn proceed(&mut self, stage: Stage)
        ensures
            final(self)@ == moved_on(old(self)@, stage),
    {
        self.status = next_status(self.operation, self.origin, stage);
    }

    /// Takes the outcome of the work that was due and decides what follows.
    pub fn advance(&mut self, outcome: Outcome)
        ensures
            advances(old(self)@, outcome@, final(self)@),
    {
        let stage = match &self.status {
            Status::At(stage) => *stage,
            _ => {
                return ;
            },
        };
        let kind = kind_of_failure(stage);
        match outcome {
            Outcome::NotStarted(message) => {
                let kind = match stage {
                    Stage::WriteTags | Stage::EmbedCover => ErrorKind::TagWrite,
                    _ => ErrorKind::ToolInvocation,
                };
                self.status = Status::Failed(JobError { kind, message });
            },
            Outcome::Failed(message) => {
                self.status = Status::Failed(JobError { kind, message });
            },
            Outcome::Bytes(bytes) => match stage {
                Stage::ReadFile => {
                    if bytes.is_empty() {
                        self.fail(ErrorKind::EmptyOutput, "read error");
                    } else {
                        self.raw_audio = bytes;
                        self.proceed(stage);
                    }
                },
                Stage::Convert => {
                    if bytes.is_empty() {
                        self.fail(ErrorKind::EmptyOutput, "audio conversion error");
                    } else {
                        self.song.audio_bytes = bytes;
                        self.proceed(stage);
                    }
                },
                Stage::ExtractThumbnail | Stage::DownloadThumbnail => {
                    self.song.cover_bytes = bytes;
                    self.proceed(stage);
                },
                Stage::LoadCover => {
                    if self.needs_reencoded_cover() {
                        self.song.cover_bytes = bytes;
                        self.proceed(stage);
                    } else {
                        self.fail(kind, "unexpected outcome");
                    }
                },
                Stage::ApplyOffset => {
                    if bytes.is_empty() {
                        self.fail(ErrorKind::EmptyOutput, "audio conversion error");
                    } else {
                        self.song.audio_bytes = bytes;
                        self.proceed(stage);
                    }
                },
                Stage::WriteTags => {
                    if bytes.is_empty() {
                        self.fail(ErrorKind::TagWrite, "tag writing error");
                    } else {
                        self.tagged_audio = bytes;
                        self.proceed(stage);
                    }
                },
                Stage::EmbedCover => {
                    if self.song.cover_bytes.is_empty() {
                        self.fail(kind, "unexpected outcome");
                    } else if bytes.is_empty() {
                        self.fail(ErrorKind::TagWrite, "cover embedding error");
                    } else {
                        self.song.audio_bytes = bytes;
                        self.proceed(stage);
                    }
                },
                Stage::ParseMetadata => {
                    if self.origin == Origin::Local {
                        match metadata_of_output(bytes.as_slice()) {
                            Ok(tags) => {
                                self.song.update_metadata_from_json(tags);
                                self.proceed(stage);
                            },
                            Err(error) => {
                                self.status = Status::Failed(error);
                            },
                        }
                    } else {
                        self.fail(kind, "unexpected outcome");
                    }
                },
                Stage::MeasureVolume => match self.song.update_current_volume(bytes.as_slice()) {
                    Ok(()) => {
                        self.proceed(stage);
                    },
                    Err(error) => {
                        self.status = Status::Failed(error);
                    },
                },
                _ => {
                    self.fail(kind, "unexpected outcome");
                },
            },
            Outcome::Downloaded { audio, info } => match stage {
                Stage::Download => match read_description(info.as_slice()) {
                    Ok(details) => {
                        if audio.is_empty() {
                            self.fail(ErrorKind::EmptyOutput, "download error");
                        } else {
                            self.raw_audio = audio;
                            self.details = details;
                            self.proceed(stage);
                        }
                    },
                    Err(error) => {
                        self.status = Status::Failed(error);
                    },
                },
                _ => {
                    self.fail(kind, "unexpected outcome");
                },
            },
            Outcome::Frames(frames) => match stage {
                Stage::DecodeAudio => {
                    self.song.update_audio_frames(&frames);
                    self.proceed(stage);
                },
                _ => {
                    self.fail(kind, "unexpected outcome");
                },
            },
            Outcome::Done => match stage {
                Stage::LoadCover => {
                    if self.needs_reencoded_cover() {
                        self.fail(kind, "unexpected outcome");
                    } else {
                        self.proceed(stage);
                    }
                },
                Stage::ParseMetadata => {
                    if self.origin == Origin::Local {
                        self.fail(kind, "unexpected outcome");
                    } else {
                        self.song.update_metadata_from(&mut self.details);
                        self.proceed(stage);
                    }
                },
                Stage::EmbedCover => {
                    if !self.song.cover_bytes.is_empty() {
                        self.fail(kind, "unexpected outcome");
                    } else if self.tagged_audio.is_empty() {
                        self.fail(ErrorKind::TagWrite, "tag writing error");
                    } else {
                        let tagged = self.tagged_audio.clone();
                        assert(tagged@ =~= self.tagged_audio@);
                        self.song.audio_bytes = tagged;
                        self.proceed(stage);
                    }
                },
                Stage::WriteFile => {
                    self.proceed(stage);
                },
                _ => {
                    self.fail(kind, "unexpected outcome");
                },
            },
        }
    }

    /// What the job came to: the song of a job that finished, the failure of
    /// one that failed, and nothing while a stage is due.
    pub fn into_result(self) -> (r: Option<Result<Song, JobError>>)
        ensures
            match self@.status {
                StatusView::At(_) => r is None,
                StatusView::Finished => r is Some && r->Some_0 is Ok && r->Some_0->Ok_0@
                    == self@.song,
                StatusView::Failed(kind, message) => r is Some && r->Some_0 is Err
                    && r->Some_0->Err_0.kind == kind && r->Some_0->Err_0.message@ == message,
            },
    {
        match self.status {
            Status::At(_) => None,
            Status::Finished => Some(Ok(self.song)),
            Status::Failed(error) => Some(Err(error)),
        }
    }
}

/// A job goes through the stages of its plan in their order: it starts with the
/// first, each stage that went well is followed by the next, and the last by the end.
pub proof fn lemma_plan_is_followed(operation: Operation, origin: Origin)
    ensures
        plan(operation, origin).len() > 0,
        plan(operation, origin)[0] == first_stage(operation, origin),
        forall|i: int|
            0 <= i < plan(operation, origin).len() - 1 ==> status_after(
                operation,
                origin,
                #[trigger] plan(operation, origin)[i],
            ) == StatusView::At(plan(operation, origin)[i + 1]),
        status_after(operation, origin, plan(operation, origin).last()) == StatusView::Finished,
{
}

/// A job that is over takes no outcome: it stays as it is.
pub proof fn lemma_over_stays_over(job: JobView, outcome: OutcomeView, next: JobView)
    requires
        advances(job, outcome, next),
        !(job.status is At),
    ensures
        next == job,
{
}

/// Work that failed ends the job at once, with the work's message, and the job
/// keeps what it held.
pub proof fn lemma_failed_work_fails_the_job(
    job: JobView,
    stage: Stage,
    message: Seq<char>,
    next: JobView,
)
    requires
        job.status == StatusView::At(stage),
        advances(job, OutcomeView::Failed(message), next),
    ensures
        next.status == StatusView::Failed(failure_kind(stage), message),
        next == failed(job, failure_kind(stage), message),
        progress_of(next) == Some(("failed: "@ + message, Level::Error)),
{
}

/// An outcome either takes the job to what follows the stage in the plan, or
/// fails it; a job that fails keeps what it held, so the audio of its song is the
/// audio that the song had before the stage.
pub proof fn lemma_step_or_failure(job: JobView, stage: Stage, outcome: OutcomeView, next: JobView)
    requires
        job.status == StatusView::At(stage),
        advances(job, outcome, next),
    ensures
        next.operation == job.operation,
        next.origin == job.origin,
        next.status == status_after(job.operation, job.origin, stage) || next.status is Failed,
        next.status is Failed ==> next == failed(
            job,
            next.status->Failed_0,
            next.status->Failed_1,
        ),
        next.song.source_url == job.song.source_url,
        next.song.album == job.song.album,
        next.song.album_artist == job.song.album_artist,
        next.song.composer == job.song.composer,
{
}

/// A stage without work takes `Done` and goes on. The one stage that can fail
/// then is the embedding of no cover into tagged audio of no bytes.
pub proof fn lemma_no_work_goes_on(job: JobView, stage: Stage, next: JobView)
    requires
        job.status == StatusView::At(stage),
        !has_work(job),
        advances(job, OutcomeView::Done, next),
    ensures
        stage == Stage::EmbedCover && job.tagged_audio.len() == 0 ==> next == failed(
            job,
            ErrorKind::TagWrite,
            "tag writing error"@,
        ),
        !(stage == Stage::EmbedCover && job.tagged_audio.len() == 0) ==> next.status
            == status_after(job.operation, job.origin, stage),
{
}

/// Whether a stage belongs to the query of a song of this origin.
pub open spec fn is_query_stage(origin: Origin, stage: Stage) -> bool {
    if origin == Origin::Local {
        stage == Stage::ReadFile || stage == Stage::Convert || stage == Stage::ExtractThumbnail
            || stage == Stage::LoadCover || stage == Stage::ParseMetadata || stage
            == Stage::DecodeAudio || stage == Stage::MeasureVolume
    } else {
        stage == Stage::Download || stage == Stage::Convert || stage == Stage::DownloadThumbnail
            || stage == Stage::ParseMetadata || stage == Stage::LoadCover || stage
            == Stage::DecodeAudio || stage == Stage::MeasureVolume
    }
}

/// What holds of a query on its way: it is at a stage of its plan; once the
/// audio was converted the song has audio; once the audio was decoded the song
/// has a summary of full length with every bar between nothing and full height.
pub open spec fn query_on_its_way(job: JobView) -> bool {
    let has_audio = job.song.audio_bytes.len() > 0;
    let has_summary = job.song.peaks.len() == WAVEFORM_LENGTH && forall|i: int|
        0 <= i < job.song.peaks.len() ==> #[trigger] job.song.peaks[i] <= job.song.full_scale;
    &&& job.operation == Operation::Query
    &&& match job.status {
        StatusView::At(stage) => {
            &&& is_query_stage(job.origin, stage)
            &&& stage != Stage::ReadFile && stage != Stage::Download && stage != Stage::Convert
                ==> has_audio
            &&& stage == Stage::MeasureVolume ==> has_summary
        },
        StatusView::Finished => has_audio && has_summary,
        StatusView::Failed(_, _) => true,
    }
}

/// A query is on its way when it starts.
pub proof fn lemma_query_starts_on_its_way(job: JobView)
    requires
        job.operation == Operation::Query,
        job.status == StatusView::At(first_stage(Operation::Query, job.origin)),
    ensures
        query_on_its_way(job),
{
}

/// A query that is on its way stays so with every outcome. So a query that
/// finished has a song with audio and a summary of full length.
pub proof fn lemma_query_stays_on_its_way(job: JobView, outcome: OutcomeView, next: JobView)
    requires
        query_on_its_way(job),
        advances(job, outcome, next),
    ensures
        query_on_its_way(next),
{
}

/// A tool that did not start fails the job as a failed invocation, at every
/// stage but the two that write tags and cover.
pub proof fn lemma_tool_that_did_not_start(
    job: JobView,
    stage: Stage,
    message: Seq<char>,
    next: JobView,
)
    requires
        job.status == StatusView::At(stage),
        stage != Stage::WriteTags && stage != Stage::EmbedCover,
        advances(job, OutcomeView::NotStarted(message), next),
    ensures
        next == failed(job, ErrorKind::ToolInvocation, message),
{
}

/// A save that fails while tags or cover are written fails as a failure to write
/// tags, whatever went wrong, and the audio of its song is what it was before
/// the save.
pub proof fn lemma_failed_tagging_keeps_audio(
    job: JobView,
    stage: Stage,
    outcome: OutcomeView,
    next: JobView,
)
    requires
        job.operation == Operation::Save,
        job.status == StatusView::At(stage),
        stage == Stage::WriteTags || stage == Stage::EmbedCover,
        advances(job, outcome, next),
        next.status is Failed,
    ensures
        next.status->Failed_0 == ErrorKind::TagWrite,
        next.song == job.song,
{
}

/// Writing tags and cover never leaves a song with audio of no bytes in place
/// of its audio: a stage that gives no bytes fails the save, and after any
/// outcome the song's audio is what it was or has bytes.
pub proof fn lemma_tagging_never_empties_audio(
    job: JobView,
    stage: Stage,
    outcome: OutcomeView,
    next: JobView,
)
    requires
        job.operation == Operation::Save,
        job.status == StatusView::At(stage),
        stage == Stage::WriteTags || stage == Stage::EmbedCover,
        advances(job, outcome, next),
    ensures
        next.song.audio_bytes == job.song.audio_bytes || next.song.audio_bytes.len() > 0,
        outcome matches OutcomeView::Bytes(bytes) && bytes.len() == 0 ==> next.status is Failed
            && next.song == job.song,
        next.status == StatusView::At(Stage::EmbedCover) ==> next.tagged_audio.len() > 0,
{
}

} // verus!
