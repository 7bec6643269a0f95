//! The song that a job works on: its tags, its bytes and its amplitude summary.

use vstd::prelude::*;
use crate::command::FFMPEG_AUDIO_FORMAT_EXT;
use crate::error::{ErrorKind, JobError};
use crate::report::{field_text, mean_volume_of_output, volume_reading};
use crate::text::{
    ascii_lower, join_texts, lemma_without_each_char, remove_characters, remove_pattern,
    replace_char, same_text, singles, to_ascii_lowercase, to_chars, trim, trimmed, views_of,
    without,
};
use crate::json::{json_members, member_text, remove_member, Document};
use crate::waveform::{summarizes, Frame, Waveform, WAVEFORM_LENGTH};

verus! {

/// The work item of every stage.
#[derive(Clone, Debug)]
pub struct Song {
    pub title: String,
    pub artist: String,
    pub album: String,
    pub album_artist: String,
    pub composer: String,
    /// The encoded audio.
    pub audio_bytes: Vec<u8>,
    /// The encoded cover picture; empty where the song has none.
    pub cover_bytes: Vec<u8>,
    /// The reference that the song was fetched from.
    pub source_url: String,
    /// The mean loudness in decibels, as the number's text in the last loudness
    /// report; empty before the first measurement.
    pub volume: String,
    pub waveform: Waveform,
}

/// What a song holds.
pub struct SongView {
    pub title: Seq<char>,
    pub artist: Seq<char>,
    pub album: Seq<char>,
    pub album_artist: Seq<char>,
    pub composer: Seq<char>,
    pub audio_bytes: Seq<u8>,
    pub cover_bytes: Seq<u8>,
    pub source_url: Seq<char>,
    pub volume: Seq<char>,
    pub peaks: Seq<u64>,
    pub full_scale: u64,
}

impl View for Song {
    type V = SongView;

    open spec fn view(&self) -> SongView {
        SongView {
            title: self.title@,
            artist: self.artist@,
            album: self.album@,
            album_artist: self.album_artist@,
            composer: self.composer@,
            audio_bytes: self.audio_bytes@,
            cover_bytes: self.cover_bytes@,
            source_url: self.source_url@,
            volume: self.volume@,
            peaks: self.waveform.peaks@,
            full_scale: self.waveform.full_scale,
        }
    }
}

/// The song that holds nothing, with the flat summary.
pub open spec fn is_empty_song(song: SongView) -> bool {
    &&& song.title.len() == 0
    &&& song.artist.len() == 0
    &&& song.album.len() == 0
    &&& song.album_artist.len() == 0
    &&& song.composer.len() == 0
    &&& song.audio_bytes.len() == 0
    &&& song.cover_bytes.len() == 0
    &&& song.source_url.len() == 0
    &&& song.volume.len() == 0
    &&& song.peaks.len() == WAVEFORM_LENGTH
    &&& forall|i: int| 0 <= i < song.peaks.len() ==> #[trigger] song.peaks[i] == 0
    &&& song.full_scale == 0
}

impl Default for Song {
    fn default() -> (r: Song)
        ensures
            is_empty_song(r@),
    {
        Song {
            title: String::new(),
            artist: String::new(),
            album: String::new(),
            album_artist: String::new(),
            composer: String::new(),
            audio_bytes: Vec::new(),
            cover_bytes: Vec::new(),
            source_url: String::new(),
            volume: String::new(),
            waveform: Waveform::default(),
        }
    }
}

/// The keys of a description that are long and of no use here.
pub open spec fn is_noisy(key: Seq<char>) -> bool {
    ||| key == "requested_formats"@
    ||| key == "thumbnails"@
    ||| key == "url"@
    ||| key == "urls"@
    ||| key == "fragments"@
    ||| key == "formats"@
    ||| key == "automatic_captions"@
}

/// A document without its noisy keys.
pub open spec fn without_noise(document: Map<Seq<char>, Seq<char>>) -> Map<Seq<char>, Seq<char>> {
    document.remove_keys(Set::new(|key: Seq<char>| is_noisy(key)))
}

/// A field after a value was read for it: the value, or what the field held
/// where the value is empty.
pub open spec fn merged(held: Seq<char>, read: Seq<char>) -> Seq<char> {
    if read.len() == 0 {
        held
    } else {
        read
    }
}

/// The song with title and artist taken from a document: the title from
/// `title`; the artist from `uploader`, else from `artist`; each only where the
/// document gives a text for the field.
pub open spec fn with_metadata(song: SongView, document: Map<Seq<char>, Seq<char>>) -> SongView {
    SongView {
        title: merged(song.title, field_text(document, "title"@)),
        artist: merged(
            merged(song.artist, field_text(document, "artist"@)),
            field_text(document, "uploader"@),
        ),
        ..song
    }
}

/// The characters that a file name must not have.
pub open spec fn is_hazard(c: char) -> bool {
    c == '/' || c == '*' || c == ':' || c == '?' || c == '"' || c == '<' || c == '>' || c == '|'
}

/// A character of a title as it stands in a file name: `_` for a space, lower
/// case for an ASCII capital letter.
pub open spec fn file_char(c: char) -> char {
    if ascii_lower(c) == ' ' {
        '_'
    } else {
        ascii_lower(c)
    }
}

/// The name of the file that a song is saved in: title, `_`, artist and the
/// extension, each character as `file_char` has it, without the hazards.
pub open spec fn file_name_of(title: Seq<char>, artist: Seq<char>) -> Seq<char> {
    (title + "_"@ + artist + FFMPEG_AUDIO_FORMAT_EXT@).map_values(|c: char| file_char(c)).filter(
        |c: char| !is_hazard(c),
    )
}

/// The tags that are written into the audio, in the order in which they are written.
pub open spec fn metadata_tuples(song: SongView) -> Seq<(Seq<char>, Seq<char>)> {
    seq![("title"@, song.title), ("artist"@, song.artist), ("album"@, song.album)]
}

/// The text of a field of a document: the JSON text of its value without any
/// `"`, and nothing for a field that the document does not have or that is `null`.
pub fn json_read(json: &Document, field: &str) -> (r: String)
    ensures
        r@ == field_text(json_members(*json), field@),
{
    match member_text(json, field) {
        Some(value) => {
            if same_text(value.as_str(), "null") {
                String::new()
            } else {
                let text = to_chars(value.as_str());
                let mut quote: Vec<char> = Vec::new();
                quote.push('"');
                assert(quote@ == seq!['"']);
                remove_pattern(&text, &quote)
            }
        },
        None => String::new(),
    }
}

/// Takes the noisy keys out of a document.
pub fn strip_noise(json: &mut Document)
    ensures
        json_members(*final(json)) == without_noise(json_members(*old(json))),
{
    remove_member(json, "requested_formats");
    remove_member(json, "thumbnails");
    remove_member(json, "url");
    remove_member(json, "urls");
    remove_member(json, "fragments");
    remove_member(json, "formats");
    remove_member(json, "automatic_captions");
    assert(json_members(*json) =~= without_noise(json_members(*old(json))));
}

/// The fields that are read from a document are none of the noisy keys.
pub proof fn lemma_fields_are_kept(document: Map<Seq<char>, Seq<char>>)
    ensures
        field_text(without_noise(document), "title"@) == field_text(document, "title"@),
        field_text(without_noise(document), "artist"@) == field_text(document, "artist"@),
        field_text(without_noise(document), "uploader"@) == field_text(document, "uploader"@),
        field_text(without_noise(document), "thumbnail"@) == field_text(document, "thumbnail"@),
{
    reveal_strlit("title");
    reveal_strlit("artist");
    reveal_strlit("uploader");
    reveal_strlit("thumbnail");
    reveal_strlit("requested_formats");
    reveal_strlit("thumbnails");
    reveal_strlit("url");
    reveal_strlit("urls");
    reveal_strlit("fragments");
    reveal_strlit("formats");
    reveal_strlit("automatic_captions");
    assert("title"@.len() == 5 && "artist"@.len() == 6 && "uploader"@.len() == 8);
    assert("thumbnail"@.len() == 9 && "thumbnail"@[0] == 't');
    assert("requested_formats"@.len() == 17 && "thumbnails"@.len() == 10);
    assert("url"@.len() == 3 && "urls"@.len() == 4 && "formats"@.len() == 7);
    assert("fragments"@.len() == 9 && "fragments"@[0] == 'f');
    assert("automatic_captions"@.len() == 18);
    assert(!is_noisy("title"@));
    assert(!is_noisy("artist"@));
    assert(!is_noisy("uploader"@));
    assert(!is_noisy("thumbnail"@));
}

impl Song {
    /// A song that holds the same.
    pub fn duplicate(&self) -> (r: Song)
        ensures
            r@ == self@,
    {
        let audio_bytes = self.audio_bytes.clone();
        let cover_bytes = self.cover_bytes.clone();
        assert(audio_bytes@ =~= self.audio_bytes@);
        assert(cover_bytes@ =~= self.cover_bytes@);
        Song {
            title: self.title.clone(),
            artist: self.artist.clone(),
            album: self.album.clone(),
            album_artist: self.album_artist.clone(),
            composer: self.composer.clone(),
            audio_bytes,
            cover_bytes,
            source_url: self.source_url.clone(),
            volume: self.volume.clone(),
            waveform: self.waveform.duplicate(),
        }
    }

    /// Takes the white space off both ends of title, artist and album.
    pub fn trim(&mut self)
        ensures
            final(self)@ == (SongView {
                title: trimmed(old(self)@.title),
                artist: trimmed(old(self)@.artist),
                album: trimmed(old(self)@.album),
                ..old(self)@
            }),
    {
        self.title = trim(self.title.as_str());
        self.artist = trim(self.artist.as_str());
        self.album = trim(self.album.as_str());
    }

    /// Trims the song's tags and gives those that are written into the audio.
    pub fn generate_metadata_tuples(&mut self) -> (tuples: Vec<(String, String)>)
        ensures
            final(self)@ == (SongView {
                title: trimmed(old(self)@.title),
                artist: trimmed(old(self)@.artist),
                album: trimmed(old(self)@.album),
                ..old(self)@
            }),
            tuples.deep_view() == metadata_tuples(final(self)@),
    {
        self.trim();
        let mut tuples: Vec<(String, String)> = Vec::new();
        tuples.push(("title".to_owned(), self.title.clone()));
        tuples.push(("artist".to_owned(), self.artist.clone()));
        tuples.push(("album".to_owned(), self.album.clone()));
        assert(tuples.deep_view() =~= metadata_tuples(self@));
        tuples
    }

    /// Takes title and artist from a document: the title from `title`; the artist
    /// from `uploader`, else from `artist`. A field that the document lacks, or
    /// holds as `null` or as the empty string, keeps what it held. The noisy keys
    /// are dropped from the document before anything is read.
    pub fn update_metadata_from(&mut self, json: &mut Document)
        ensures
            final(self)@ == with_metadata(old(self)@, json_members(*old(json))),
            json_members(*final(json)) == without_noise(json_members(*old(json))),
    {
        proof {
            lemma_fields_are_kept(json_members(*json));
        }
        strip_noise(json);
        let title = json_read(json, "title");
        if !title.as_str().is_empty() {
            self.title = title;
        }
        let artist = json_read(json, "artist");
        if !artist.as_str().is_empty() {
            self.artist = artist;
        }
        let uploader = json_read(json, "uploader");
        if !uploader.as_str().is_empty() {
            self.artist = uploader;
        }
    }

    /// Takes title and artist from a document, as `update_metadata_from` does.
    pub fn update_metadata_from_json(&mut self, json: Document)
        ensures
            final(self)@ == with_metadata(old(self)@, json_members(json)),
    {
        let mut json = json;
        self.update_metadata_from(&mut json);
    }

    /// The name of the file that the song is saved in.
    pub fn file_name(&self) -> (name: String)
        ensures
            name@ == file_name_of(self.title@, self.artist@),
    {
        let mut joined = join_texts(self.title.as_str(), "_");
        joined.append(self.artist.as_str());
        joined.append(FFMPEG_AUDIO_FORMAT_EXT);
        let lowered = to_ascii_lowercase(joined.as_str());
        let mut name = replace_char(lowered.as_str(), ' ', '_');
        let ghost folded = name@;
        assert(folded =~= joined@.map_values(|c: char| file_char(c)));
        let hazards: [&str; 8] = ["/", "*", ":", "?", "\"", "<", ">", "|"];
        remove_characters(&mut name, hazards.as_slice());
        proof {
            reveal_strlit("/");
            reveal_strlit("*");
            reveal_strlit(":");
            reveal_strlit("?");
            reveal_strlit("\"");
            reveal_strlit("<");
            reveal_strlit(">");
            reveal_strlit("|");
            let chars = seq!['/', '*', ':', '?', '"', '<', '>', '|'];
            let keep = |c: char| !is_hazard(c);
            assert("/"@ =~= seq!['/'] && "*"@ =~= seq!['*'] && ":"@ =~= seq![':']);
            assert("?"@ =~= seq!['?'] && "\""@ =~= seq!['"'] && "<"@ =~= seq!['<']);
            assert(">"@ =~= seq!['>'] && "|"@ =~= seq!['|']);
            assert(hazards@.len() == 8);
            assert(hazards@[0] == "/" && hazards@[1] == "*" && hazards@[2] == ":");
            assert(hazards@[3] == "?" && hazards@[4] == "\"" && hazards@[5] == "<");
            assert(hazards@[6] == ">" && hazards@[7] == "|");
            assert(views_of(hazards@) =~= singles(chars));
            assert forall|x: char| #[trigger] keep(x) == !chars.contains(x) by {
                if is_hazard(x) {
                    let i: int = if x == '/' {
                        0
                    } else if x == '*' {
                        1
                    } else if x == ':' {
                        2
                    } else if x == '?' {
                        3
                    } else if x == '"' {
                        4
                    } else if x == '<' {
                        5
                    } else if x == '>' {
                        6
                    } else {
                        7
                    };
                    assert(chars[i] == x);
                }
            }
            lemma_without_each_char(folded, chars, keep);
        }
        name
    }

    /// Takes the mean volume from what the loudness measurement of the song's
    /// audio wrote to its standard error. Output that names none fails and leaves
    /// the song as it was.
    pub fn update_current_volume(&mut self, output: &[u8]) -> (r: Result<(), JobError>)
        ensures
            match volume_reading(output@) {
                Ok(volume) => r is Ok && final(self)@ == (SongView { volume, ..old(self)@ }),
                Err(message) => r is Err && r->Err_0.kind == ErrorKind::VolumeDetection
                    && r->Err_0.message@ == message && final(self)@ == old(self)@,
            },
    {
        match mean_volume_of_output(output) {
            Ok(volume) => {
                self.volume = volume;
                Ok(())
            },
            Err(error) => Err(error),
        }
    }

    /// Summarizes the decoded frames of the song's audio anew.
    pub fn update_audio_frames(&mut self, frames: &Vec<Frame>)
        ensures
            summarizes(frames@, final(self)@.peaks, final(self)@.full_scale),
            final(self)@ == (SongView {
                peaks: final(self)@.peaks,
                full_scale: final(self)@.full_scale,
                ..old(self)@
            }),
    {
        self.waveform = Waveform::analyze(frames);
    }
}

/// A value that was read empty leaves the field as it was, and a document
/// without title, artist and uploader leaves both tags as they were.
pub proof fn lemma_empty_values_keep_tags(
    title: Seq<char>,
    artist: Seq<char>,
    document: Map<Seq<char>, Seq<char>>,
)
    ensures
        merged(title, Seq::empty()) == title,
        field_text(document, "title"@).len() == 0 ==> merged(
            title,
            field_text(document, "title"@),
        ) == title,
        field_text(document, "artist"@).len() == 0 && field_text(document, "uploader"@).len() == 0
            ==> merged(
            merged(artist, field_text(document, "artist"@)),
            field_text(document, "uploader"@),
        ) == artist,
        field_text(document, "uploader"@).len() > 0 ==> merged(
            merged(artist, field_text(document, "artist"@)),
            field_text(document, "uploader"@),
        ) == field_text(document, "uploader"@),
{
}

/// A field that the document holds as `null` has no text, so it leaves the tag
/// that is read from it as it was.
pub proof fn lemma_null_keeps_tag(
    held: Seq<char>,
    document: Map<Seq<char>, Seq<char>>,
    field: Seq<char>,
)
    requires
        document.contains_key(field),
        document[field] == "null"@,
    ensures
        field_text(document, field).len() == 0,
        merged(held, field_text(document, field)) == held,
{
}

/// The name of a song's file has no hazard, no space and no ASCII capital letter.
pub proof fn lemma_file_name_is_safe(title: Seq<char>, artist: Seq<char>)
    ensures
        forall|i: int|
            0 <= i < file_name_of(title, artist).len() ==> {
                let c = #[trigger] file_name_of(title, artist)[i];
                !is_hazard(c) && c != ' ' && !('A' <= c && c <= 'Z')
            },
{
    let folded = (title + "_"@ + artist + FFMPEG_AUDIO_FORMAT_EXT@).map_values(
        |c: char| file_char(c),
    );
    let keep = |c: char| !is_hazard(c);
    let name = folded.filter(keep);
    broadcast use vstd::seq_lib::group_filter_ensures;
    assert forall|i: int| 0 <= i < name.len() implies {
        let c = #[trigger] name[i];
        !is_hazard(c) && c != ' ' && !('A' <= c && c <= 'Z')
    } by {
        let c = name[i];
        assert(keep(c));
        assert(name.contains(c));
        folded.lemma_filter_contains_rev(keep, c);
        let j = choose|j: int| 0 <= j < folded.len() && folded[j] == c;
        assert(c == file_char((title + "_"@ + artist + FFMPEG_AUDIO_FORMAT_EXT@)[j]));
    }
}

} // verus!
