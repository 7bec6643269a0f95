//! What the foreground keeps between frames: the song that is shown, the job
//! that is in flight, and the choices of the user.

use vstd::prelude::*;
use crate::error::{ErrorKind, JobError};
use crate::job::{first_stage, Job, Operation, Stage, StatusView};
use crate::origin::{origin_of, Origin};
use crate::song::{is_empty_song, Song, SongView};
use crate::text::{remove_pattern, to_chars, trimmed, without};

verus! {

/// The state of the downloader page.
#[derive(Debug)]
pub struct DownloaderState {
    /// The song that is shown and edited.
    pub song: Song,
    pub song_origin: Origin,
    /// The ticket of the job in flight, if there is one.
    pub loading_song: Option<u64>,
    /// The ticket that was handed out last.
    pub last_ticket: u64,
    /// By how many decibels the loudness is to change, as the user typed it.
    pub volume_offset: String,
    pub separate_album: bool,
    pub separate_album_artist: bool,
    pub seperate_composer: bool,
}

/// What the state of the downloader page holds.
pub struct DownloaderStateView {
    pub song: SongView,
    pub song_origin: Origin,
    pub loading_song: Option<u64>,
    pub last_ticket: u64,
    pub volume_offset: Seq<char>,
    pub separate_album: bool,
    pub separate_album_artist: bool,
    pub seperate_composer: bool,
}

impl View for DownloaderState {
    type V = DownloaderStateView;

    open spec fn view(&self) -> DownloaderStateView {
        DownloaderStateView {
            song: self.song@,
            song_origin: self.song_origin,
            loading_song: self.loading_song,
            last_ticket: self.last_ticket,
            volume_offset: self.volume_offset@,
            separate_album: self.separate_album,
            separate_album_artist: self.separate_album_artist,
            seperate_composer: self.seperate_composer,
        }
    }
}

/// The ticket of the job in flight is the one that was handed out last. It holds
/// of the state that `default` gives and stays with every method.
pub open spec fn tickets_in_order(state: DownloaderStateView) -> bool {
    state.loading_song matches Some(ticket) ==> ticket == state.last_ticket
}

/// The ticket that follows a ticket.
pub open spec fn ticket_after(ticket: u64) -> u64 {
    if ticket == u64::MAX {
        0
    } else {
        (ticket + 1) as u64
    }
}

/// The state after a job was started: the job is the one in flight, in place of
/// any that was.
pub open spec fn with_job_started(state: DownloaderStateView) -> DownloaderStateView {
    DownloaderStateView {
        loading_song: Some(ticket_after(state.last_ticket)),
        last_ticket: ticket_after(state.last_ticket),
        ..state
    }
}

/// The song with the tags that are not kept apart set to the tag they follow:
/// the album follows the title, album artist and composer follow the artist.
pub open spec fn mirrored(state: DownloaderStateView) -> SongView {
    SongView {
        album: if state.separate_album {
            state.song.album
        } else {
            state.song.title
        },
        album_artist: if state.separate_album_artist {
            state.song.album_artist
        } else {
            state.song.artist
        },
        composer: if state.seperate_composer {
            state.song.composer
        } else {
            state.song.artist
        },
        ..state.song
    }
}

/// The state after the job with this ticket was asked for its result.
///
/// Nothing changes while the job has no result, and nothing for a ticket that
/// is not the one in flight: the result of a job that another took the place of
/// is dropped. Else no job is in flight any more, and the song that is shown is
/// the job's song if the job finished, and the song that was shown if it failed.
pub open spec fn with_result(
    state: DownloaderStateView,
    ticket: u64,
    result: Option<Result<SongView, (ErrorKind, Seq<char>)>>,
) -> DownloaderStateView {
    if state.loading_song != Some(ticket) {
        state
    } else {
        match result {
            None => state,
            Some(Ok(song)) => DownloaderStateView { song, loading_song: None, ..state },
            Some(Err(_)) => DownloaderStateView { loading_song: None, ..state },
        }
    }
}

/// A result as the contracts speak of it.
pub open spec fn result_view(result: Option<Result<Song, JobError>>) -> Option<
    Result<SongView, (ErrorKind, Seq<char>)>,
> {
    match result {
        None => None,
        Some(Ok(song)) => Some(Ok(song@)),
        Some(Err(error)) => Some(Err((error.kind, error.message@))),
    }
}

impl Default for DownloaderState {
    fn default() -> (r: DownloaderState)
        ensures
            is_empty_song(r@.song),
            r@.song_origin == Origin::Unknown,
            r@.loading_song is None,
            r@.last_ticket == 0,
            tickets_in_order(r@),
            r@.volume_offset.len() == 0,
            !r@.separate_album && !r@.separate_album_artist && !r@.seperate_composer,
    {
        DownloaderState {
            song: Song::default(),
            song_origin: Origin::Unknown,
            loading_song: None,
            last_ticket: 0,
            volume_offset: String::new(),
            separate_album: false,
            separate_album_artist: false,
            seperate_composer: false,
        }
    }
}

impl DownloaderState {
    /// Whether a song is there: one with audio.
    pub fn is_song_loaded(&self) -> (r: bool)
        ensures
            r == (self@.song.audio_bytes.len() > 0),
    {
        !self.song.audio_bytes.is_empty()
    }

    /// Whether a job is in flight.
    pub fn is_song_loading(&self) -> (r: bool)
        ensures
            r == (self@.loading_song is Some),
    {
        self.loading_song.is_some()
    }

    /// Called when the user has edited the source reference: takes the `"` out of
    /// it and, unless a job is in flight, classifies it anew. `exists` says whether
    /// the reference without its `"` is the path of a file that exists.
    pub fn on_source_edited(&mut self, exists: bool)
        ensures
            final(self)@ == (DownloaderStateView {
                song: SongView {
                    source_url: without(old(self)@.song.source_url, seq!['"']),
                    ..old(self)@.song
                },
                song_origin: if old(self)@.loading_song is Some {
                    old(self)@.song_origin
                } else {
                    origin_of(without(old(self)@.song.source_url, seq!['"']), exists)
                },
                ..old(self)@
            }),
    {
        let text = to_chars(self.song.source_url.as_str());
        let mut quote: Vec<char> = Vec::new();
        quote.push('"');
        assert(quote@ == seq!['"']);
        self.song.source_url = remove_pattern(&text, &quote);
        if !self.is_song_loading() {
            self.song_origin = Origin::from_link(&self.song.source_url, exists);
        }
    }

    /// Sets the tags that are not kept apart to the tag they follow.
    pub fn mirror_tags(&mut self)
        ensures
            final(self)@ == (DownloaderStateView { song: mirrored(old(self)@), ..old(self)@ }),
    {
        if !self.separate_album {
            self.song.album = self.song.title.clone();
        }
        if !self.separate_album_artist {
            self.song.album_artist = self.song.artist.clone();
        }
        if !self.seperate_composer {
            self.song.composer = self.song.artist.clone();
        }
    }

    /// Hands out the ticket of a new job and makes that job the one in flight.
    fn start_job(&mut self) -> (ticket: u64)
        ensures
            final(self)@ == with_job_started(old(self)@),
            final(self)@.loading_song == Some(ticket),
    {
        let ticket: u64 = if self.last_ticket == u64::MAX {
            0
        } else {
            self.last_ticket + 1
        };
        self.last_ticket = ticket;
        self.loading_song = Some(ticket);
        ticket
    }

    /// Starts the query of the source reference that the shown song holds. The
    /// job works on a song of its own; the song that is shown stays.
    pub fn query(&mut self) -> (started: (u64, Job))
        ensures
            final(self)@ == with_job_started(old(self)@),
            final(self)@.loading_song == Some(started.0),
            started.1@.operation == Operation::Query,
            started.1@.origin == old(self)@.song_origin,
            started.1@.status == StatusView::At(
                first_stage(Operation::Query, old(self)@.song_origin),
            ),
            started.1@.song.source_url == old(self)@.song.source_url,
            is_empty_song(SongView { source_url: Seq::empty(), ..started.1@.song }),
    {
        let ticket = self.start_job();
        let job = Job::query(self.song.source_url.clone(), self.song_origin);
        (ticket, job)
    }

    /// Starts the saving of the shown song. The job works on a copy.
    pub fn save(&mut self) -> (started: (u64, Job))
        ensures
            final(self)@ == with_job_started(old(self)@),
            final(self)@.loading_song == Some(started.0),
            started.1@.operation == Operation::Save,
            started.1@.status == StatusView::At(Stage::WriteTags),
            started.1@.song == (SongView {
                title: trimmed(old(self)@.song.title),
                artist: trimmed(old(self)@.song.artist),
                album: trimmed(old(self)@.song.album),
                ..old(self)@.song
            }),
    {
        let ticket = self.start_job();
        let job = Job::save(self.song.duplicate());
        (ticket, job)
    }

    /// Starts the change of the shown song's loudness by `offset` decibels,
    /// `offset` being the number as text. The job works on a copy.
    pub fn apply_volume_offset(&mut self, offset: String) -> (started: (u64, Job))
        ensures
            final(self)@ == with_job_started(old(self)@),
            final(self)@.loading_song == Some(started.0),
            started.1@.operation == Operation::AdjustVolume,
            started.1@.status == StatusView::At(Stage::ApplyOffset),
            started.1@.song == old(self)@.song,
            started.1@.offset == offset@,
    {
        let ticket = self.start_job();
        let job = Job::adjust_volume(self.song.duplicate(), offset);
        (ticket, job)
    }

    /// Takes what the job with this ticket came to, `None` while it is running.
    pub fn update_state(&mut self, ticket: u64, result: Option<Result<Song, JobError>>)
        ensures
            final(self)@ == with_result(old(self)@, ticket, result_view(result)),
    {
        let current = match self.loading_song {
            Some(in_flight) => in_flight == ticket,
            None => false,
        };
        if current {
            match result {
                None => {},
                Some(Ok(song)) => {
                    self.song = song;
                    self.loading_song = None;
                },
                Some(Err(_)) => {
                    self.loading_song = None;
                },
            }
        }
    }
}

/// A job that failed leaves the song that is shown as it was, whatever the job
/// did to its own song; and the result of a job is taken once, after which no
/// job is in flight.
pub proof fn lemma_failure_keeps_shown_song(
    state: DownloaderStateView,
    ticket: u64,
    kind: ErrorKind,
    message: Seq<char>,
)
    ensures
        with_result(state, ticket, Some(Err((kind, message)))).song == state.song,
        state.loading_song == Some(ticket) ==> with_result(
            state,
            ticket,
            Some(Err((kind, message))),
        ).loading_song is None,
{
}

/// When a job is started while another is in flight, the result of the other is
/// dropped when it comes: the state stays as it is.
pub proof fn lemma_replaced_job_is_dropped(
    state: DownloaderStateView,
    result: Option<Result<SongView, (ErrorKind, Seq<char>)>>,
)
    requires
        tickets_in_order(state),
        state.loading_song is Some,
    ensures
        with_result(with_job_started(state), state.loading_song->Some_0, result)
            == with_job_started(state),
{
    assert(ticket_after(state.last_ticket) != state.last_ticket);
}

/// The order of the tickets stays: with a job started, and with a result taken.
pub proof fn lemma_tickets_stay_in_order(
    state: DownloaderStateView,
    ticket: u64,
    result: Option<Result<SongView, (ErrorKind, Seq<char>)>>,
)
    requires
        tickets_in_order(state),
    ensures
        tickets_in_order(with_job_started(state)),
        tickets_in_order(with_result(state, ticket, result)),
{
}

} // verus!
