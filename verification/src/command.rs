//! The media tools: under which path each is started and with which arguments.

use vstd::prelude::*;
use crate::text::join_texts;
use crate::textmap::TextMap;

verus! {

pub const DEFAULT_YT_DL_COMMAND: &'static str = "yt-dlp";

pub const DEFAULT_FFMPEG_COMMAND: &'static str = "ffmpeg";

pub const DEFAULT_CURL_COMMAND: &'static str = "curl";

pub const FFMPEG_AUDIO_FORMAT: &'static str = "mp3";

pub const FFMPEG_AUDIO_FORMAT_EXT: &'static str = ".mp3";

/// The paths that were set for tools, by the tools' names.
#[derive(Clone, Debug)]
pub struct CommandMap {
    pub paths: TextMap,
}

impl View for CommandMap {
    type V = Map<Seq<char>, Seq<char>>;

    open spec fn view(&self) -> Map<Seq<char>, Seq<char>> {
        self.paths@
    }
}

/// The path under which a tool is started: the one set for its name, else the name.
pub open spec fn resolved(paths: Map<Seq<char>, Seq<char>>, name: Seq<char>) -> Seq<char> {
    if paths.contains_key(name) {
        paths[name]
    } else {
        name
    }
}

/// The paths after one is set for a name, or after the name's path is taken away.
pub open spec fn with_command(
    paths: Map<Seq<char>, Seq<char>>,
    name: Seq<char>,
    value: Option<Seq<char>>,
) -> Map<Seq<char>, Seq<char>> {
    match value {
        Some(path) => paths.insert(name, path),
        None => paths.remove(name),
    }
}

impl CommandMap {
    /// No path is set: every tool is started under its name.
    pub fn new() -> (r: CommandMap)
        ensures
            r@ == Map::<Seq<char>, Seq<char>>::empty(),
    {
        CommandMap { paths: TextMap::new() }
    }
}

/// The path under which the tool of this name is started.
pub fn get_command(commands: &CommandMap, name: &str) -> (r: String)
    ensures
        r@ == resolved(commands@, name@),
{
    match commands.paths.get(name) {
        Some(path) => path,
        None => name.to_owned(),
    }
}

/// Sets the path of a tool, or with `None` takes it away.
pub fn set_command(commands: &mut CommandMap, name: &str, value: Option<String>)
    ensures
        final(commands)@ == with_command(old(commands)@, name@, value.deep_view()),
{
    match value {
        Some(path) => commands.paths.insert(name.to_owned(), path),
        None => commands.paths.remove(name),
    }
}

/// A path that was set is the one a tool is started under; with none set it is
/// the tool's name; and setting one tool's path leaves every other tool's.
pub proof fn lemma_set_then_get(
    paths: Map<Seq<char>, Seq<char>>,
    name: Seq<char>,
    value: Option<Seq<char>>,
    other: Seq<char>,
)
    ensures
        value matches Some(path) ==> resolved(with_command(paths, name, value), name) == path,
        value is None ==> resolved(with_command(paths, name, value), name) == name,
        other != name ==> resolved(with_command(paths, name, value), other) == resolved(
            paths,
            other,
        ),
{
}

/// One start of a tool: the program and its arguments.
#[derive(Clone, Debug)]
pub struct Invocation {
    pub program: String,
    pub args: Vec<String>,
}

/// Adds one argument at the end.
fn push_arg(args: &mut Vec<String>, arg: &str)
    ensures
        final(args).deep_view() == old(args).deep_view().push(arg@),
{
    let ghost before = args.deep_view();
    args.push(arg.to_owned());
    assert(args.deep_view() =~= before.push(arg@));
}

/// No argument yet.
fn no_args() -> (args: Vec<String>)
    ensures
        args.deep_view() == Seq::<Seq<char>>::empty(),
{
    let args: Vec<String> = Vec::new();
    assert(args.deep_view() =~= Seq::<Seq<char>>::empty());
    args
}

/// The arguments that have the downloader write the best audio of a link to its
/// standard output and the link's description, as JSON, to its standard error.
pub open spec fn download_audio_args(url: Seq<char>) -> Seq<Seq<char>> {
    seq![
        "-j"@,
        "-f"@,
        "bestaudio"@,
        "--no-playlist"@,
        "--no-simulate"@,
        "--ignore-config"@,
        "--no-warnings"@,
        "-o"@,
        "-"@,
        url,
    ]
}

/// The start of the downloader for a link.
pub fn download_audio(commands: &CommandMap, query_url: &str) -> (call: Invocation)
    ensures
        call.program@ == resolved(commands@, DEFAULT_YT_DL_COMMAND@),
        call.args.deep_view() == download_audio_args(query_url@),
{
    let mut args = no_args();
    push_arg(&mut args, "-j");
    push_arg(&mut args, "-f");
    push_arg(&mut args, "bestaudio");
    push_arg(&mut args, "--no-playlist");
    push_arg(&mut args, "--no-simulate");
    push_arg(&mut args, "--ignore-config");
    push_arg(&mut args, "--no-warnings");
    push_arg(&mut args, "-o");
    push_arg(&mut args, "-");
    push_arg(&mut args, query_url);
    assert(args.deep_view() =~= download_audio_args(query_url@));
    Invocation { program: get_command(commands, DEFAULT_YT_DL_COMMAND), args }
}

/// The arguments that have ffmpeg write the audio of a file, without any picture,
/// in the canonical format to its standard output.
pub open spec fn convert_audio_args(path: Seq<char>) -> Seq<Seq<char>> {
    seq!["-i"@, path, "-vn"@, "-f"@, FFMPEG_AUDIO_FORMAT@, "-"@]
}

/// The start of ffmpeg that converts the audio file at `audio_path`.
pub fn convert_audio(commands: &CommandMap, audio_path: &str) -> (call: Invocation)
    ensures
        call.program@ == resolved(commands@, DEFAULT_FFMPEG_COMMAND@),
        call.args.deep_view() == convert_audio_args(audio_path@),
{
    let mut args = no_args();
    push_arg(&mut args, "-i");
    push_arg(&mut args, audio_path);
    push_arg(&mut args, "-vn");
    push_arg(&mut args, "-f");
    push_arg(&mut args, FFMPEG_AUDIO_FORMAT);
    push_arg(&mut args, "-");
    assert(args.deep_view() =~= convert_audio_args(audio_path@));
    Invocation { program: get_command(commands, DEFAULT_FFMPEG_COMMAND), args }
}

/// The arguments that have ffmpeg copy the picture embedded in a file, as it is,
/// to its standard output.
pub open spec fn extract_thumbnail_args(path: Seq<char>) -> Seq<Seq<char>> {
    seq!["-i"@, path, "-an"@, "-vcodec"@, "copy"@, "-f"@, "mjpeg"@, "-"@]
}

/// The start of ffmpeg that takes the cover out of the audio file at `audio_path`.
pub fn extract_thumbnail(commands: &CommandMap, audio_path: &str) -> (call: Invocation)
    ensures
        call.program@ == resolved(commands@, DEFAULT_FFMPEG_COMMAND@),
        call.args.deep_view() == extract_thumbnail_args(audio_path@),
{
    let mut args = no_args();
    push_arg(&mut args, "-i");
    push_arg(&mut args, audio_path);
    push_arg(&mut args, "-an");
    push_arg(&mut args, "-vcodec");
    push_arg(&mut args, "copy");
    push_arg(&mut args, "-f");
    push_arg(&mut args, "mjpeg");
    push_arg(&mut args, "-");
    assert(args.deep_view() =~= extract_thumbnail_args(audio_path@));
    Invocation { program: get_command(commands, DEFAULT_FFMPEG_COMMAND), args }
}

/// The arguments that have ffmpeg write a file's tags, one `key=value` a line, to
/// its standard output and nothing else anywhere.
pub open spec fn extract_metadata_args(path: Seq<char>) -> Seq<Seq<char>> {
    seq!["-i"@, path, "-loglevel"@, "panic"@, "-hide_banner"@, "-f"@, "ffmetadata"@, "-"@]
}

/// The start of ffmpeg that dumps the tags of the audio file at `audio_path`.
pub fn extract_metadata(commands: &CommandMap, audio_path: &str) -> (call: Invocation)
    ensures
        call.program@ == resolved(commands@, DEFAULT_FFMPEG_COMMAND@),
        call.args.deep_view() == extract_metadata_args(audio_path@),
{
    let mut args = no_args();
    push_arg(&mut args, "-i");
    push_arg(&mut args, audio_path);
    push_arg(&mut args, "-loglevel");
    push_arg(&mut args, "panic");
    push_arg(&mut args, "-hide_banner");
    push_arg(&mut args, "-f");
    push_arg(&mut args, "ffmetadata");
    push_arg(&mut args, "-");
    assert(args.deep_view() =~= extract_metadata_args(audio_path@));
    Invocation { program: get_command(commands, DEFAULT_FFMPEG_COMMAND), args }
}

/// The arguments that have ffmpeg measure the loudness of a file's audio and
/// report it on its standard error, writing no output.
pub open spec fn average_volume_args(path: Seq<char>) -> Seq<Seq<char>> {
    seq![
        "-i"@,
        path,
        "-hide_banner"@,
        "-af"@,
        "volumedetect"@,
        "-vn"@,
        "-sn"@,
        "-dn"@,
        "-f"@,
        "null"@,
        "-"@,
    ]
}

/// The start of ffmpeg that measures the loudness of the audio file at `audio_path`.
pub fn get_average_volume(commands: &CommandMap, audio_path: &str) -> (call: Invocation)
    ensures
        call.program@ == resolved(commands@, DEFAULT_FFMPEG_COMMAND@),
        call.args.deep_view() == average_volume_args(audio_path@),
{
    let mut args = no_args();
    push_arg(&mut args, "-i");
    push_arg(&mut args, audio_path);
    push_arg(&mut args, "-hide_banner");
    push_arg(&mut args, "-af");
    push_arg(&mut args, "volumedetect");
    push_arg(&mut args, "-vn");
    push_arg(&mut args, "-sn");
    push_arg(&mut args, "-dn");
    push_arg(&mut args, "-f");
    push_arg(&mut args, "null");
    push_arg(&mut args, "-");
    assert(args.deep_view() =~= average_volume_args(audio_path@));
    Invocation { program: get_command(commands, DEFAULT_FFMPEG_COMMAND), args }
}

/// The arguments that have ffmpeg write a file's audio, louder by `offset`
/// decibels, in the canonical format to its standard output. `offset` is the
/// number as text.
pub open spec fn volume_offset_args(path: Seq<char>, offset: Seq<char>) -> Seq<Seq<char>> {
    seq!["-i"@, path, "-af"@, "volume="@ + offset + "dB"@, "-f"@, FFMPEG_AUDIO_FORMAT@, "-"@]
}

/// The start of ffmpeg that changes the loudness of the audio file at
/// `audio_path` by `offset` decibels, `offset` being the number as text.
pub fn apply_volume_offset(commands: &CommandMap, audio_path: &str, offset: &str) -> (call:
    Invocation)
    ensures
        call.program@ == resolved(commands@, DEFAULT_FFMPEG_COMMAND@),
        call.args.deep_view() == volume_offset_args(audio_path@, offset@),
{
    let mut filter = join_texts("volume=", offset);
    filter.append("dB");
    let mut args = no_args();
    push_arg(&mut args, "-i");
    push_arg(&mut args, audio_path);
    push_arg(&mut args, "-af");
    push_arg(&mut args, filter.as_str());
    push_arg(&mut args, "-f");
    push_arg(&mut args, FFMPEG_AUDIO_FORMAT);
    push_arg(&mut args, "-");
    assert(args.deep_view() =~= volume_offset_args(audio_path@, offset@));
    Invocation { program: get_command(commands, DEFAULT_FFMPEG_COMMAND), args }
}

/// The arguments that have curl write what a link holds to its standard output.
pub open spec fn download_thumbnail_args(url: Seq<char>) -> Seq<Seq<char>> {
    seq![url, "-o"@, "-"@]
}

/// The start of curl that fetches the picture behind a link.
pub fn download_thumbnail(commands: &CommandMap, query_url: &str) -> (call: Invocation)
    ensures
        call.program@ == resolved(commands@, DEFAULT_CURL_COMMAND@),
        call.args.deep_view() == download_thumbnail_args(query_url@),
{
    let mut args = no_args();
    push_arg(&mut args, query_url);
    push_arg(&mut args, "-o");
    push_arg(&mut args, "-");
    assert(args.deep_view() =~= download_thumbnail_args(query_url@));
    Invocation { program: get_command(commands, DEFAULT_CURL_COMMAND), args }
}

/// The arguments that have ffmpeg join the audio of one file and the picture of
/// another, both copied as they are, with ID3v2.3 tags, into a third file, which
/// it overwrites.
pub open spec fn cover_args(audio: Seq<char>, cover: Seq<char>, output: Seq<char>) -> Seq<
    Seq<char>,
> {
    seq![
        "-i"@,
        audio,
        "-i"@,
        cover,
        "-map"@,
        "0:0"@,
        "-map"@,
        "1:0"@,
        "-c"@,
        "copy"@,
        "-id3v2_version"@,
        "3"@,
        "-y"@,
        "-f"@,
        FFMPEG_AUDIO_FORMAT@,
        output,
    ]
}

/// The start of ffmpeg that embeds the picture at `cover_path` in the audio at
/// `audio_path` and writes the result to `output_path`.
pub fn write_cover_to_audio(
    commands: &CommandMap,
    audio_path: &str,
    cover_path: &str,
    output_path: &str,
) -> (call: Invocation)
    ensures
        call.program@ == resolved(commands@, DEFAULT_FFMPEG_COMMAND@),
        call.args.deep_view() == cover_args(audio_path@, cover_path@, output_path@),
{
    let mut args = no_args();
    push_arg(&mut args, "-i");
    push_arg(&mut args, audio_path);
    push_arg(&mut args, "-i");
    push_arg(&mut args, cover_path);
    push_arg(&mut args, "-map");
    push_arg(&mut args, "0:0");
    push_arg(&mut args, "-map");
    push_arg(&mut args, "1:0");
    push_arg(&mut args, "-c");
    push_arg(&mut args, "copy");
    push_arg(&mut args, "-id3v2_version");
    push_arg(&mut args, "3");
    push_arg(&mut args, "-y");
    push_arg(&mut args, "-f");
    push_arg(&mut args, FFMPEG_AUDIO_FORMAT);
    push_arg(&mut args, output_path);
    assert(args.deep_view() =~= cover_args(audio_path@, cover_path@, output_path@));
    Invocation { program: get_command(commands, DEFAULT_FFMPEG_COMMAND), args }
}

/// The arguments that set the given tags: for each, `-metadata` and `key=value`.
pub open spec fn metadata_args(metadata: Seq<(Seq<char>, Seq<char>)>) -> Seq<Seq<char>>
    decreases metadata.len(),
{
    if metadata.len() == 0 {
        Seq::empty()
    } else {
        metadata_args(metadata.drop_last()) + seq![
            "-metadata"@,
            metadata.last().0 + "="@ + metadata.last().1,
        ]
    }
}

/// The arguments that have ffmpeg copy the audio of a file, drop every tag that
/// the file has, set the given tags, and write the canonical format to its
/// standard output.
pub open spec fn tag_args(filepath: Seq<char>, metadata: Seq<(Seq<char>, Seq<char>)>) -> Seq<
    Seq<char>,
> {
    seq!["-i"@, filepath, "-map"@, "0:a"@, "-map_metadata"@, "-1"@, "-c"@, "copy"@]
        + metadata_args(metadata) + seq!["-f"@, FFMPEG_AUDIO_FORMAT@, "-"@]
}

/// The arguments of the ffmpeg run that replaces the tags of the file at `filepath`.
pub fn generate_args_from_metadata(filepath: String, metadata: Vec<(String, String)>) -> (args:
    Vec<String>)
    ensures
        args.deep_view() == tag_args(filepath@, metadata.deep_view()),
{
    let ghost head = seq![
        "-i"@,
        filepath@,
        "-map"@,
        "0:a"@,
        "-map_metadata"@,
        "-1"@,
        "-c"@,
        "copy"@,
    ];
    let ghost tags = metadata.deep_view();
    let mut args = no_args();
    push_arg(&mut args, "-i");
    push_arg(&mut args, filepath.as_str());
    push_arg(&mut args, "-map");
    push_arg(&mut args, "0:a");
    push_arg(&mut args, "-map_metadata");
    push_arg(&mut args, "-1");
    push_arg(&mut args, "-c");
    push_arg(&mut args, "copy");
    assert(args.deep_view() =~= head + metadata_args(tags.take(0)));
    let mut i: usize = 0;
    while i < metadata.len()
        invariant
            i <= metadata.len(),
            tags == metadata.deep_view(),
            args.deep_view() == head + metadata_args(tags.take(i as int)),
        decreases metadata.len() - i,
    {
        let mut setting = join_texts(metadata[i].0.as_str(), "=");
        setting.append(metadata[i].1.as_str());
        proof {
            assert(tags.take(i + 1).drop_last() == tags.take(i as int));
            assert(tags.take(i + 1).last() == (metadata@[i as int].0@, metadata@[i as int].1@));
        }
        let ghost before = args.deep_view();
        push_arg(&mut args, "-metadata");
        push_arg(&mut args, setting.as_str());
        assert(args.deep_view() =~= before + seq!["-metadata"@, setting@]);
        assert(head + metadata_args(tags.take(i as int)) + seq!["-metadata"@, setting@] =~= head
            + (metadata_args(tags.take(i as int)) + seq!["-metadata"@, setting@]));
        i += 1;
    }
    assert(tags.take(metadata.len() as int) == tags);
    let ghost before = args.deep_view();
    push_arg(&mut args, "-f");
    push_arg(&mut args, FFMPEG_AUDIO_FORMAT);
    push_arg(&mut args, "-");
    assert(args.deep_view() =~= before + seq!["-f"@, FFMPEG_AUDIO_FORMAT@, "-"@]);
    args
}

/// The start of ffmpeg that replaces the tags of the audio file at `audio_path`.
pub fn write_metadata_to_audio(
    commands: &CommandMap,
    audio_path: &str,
    metadata: Vec<(String, String)>,
) -> (call: Invocation)
    ensures
        call.program@ == resolved(commands@, DEFAULT_FFMPEG_COMMAND@),
        call.args.deep_view() == tag_args(audio_path@, metadata.deep_view()),
{
    let args = generate_args_from_metadata(audio_path.to_owned(), metadata);
    Invocation { program: get_command(commands, DEFAULT_FFMPEG_COMMAND), args }
}

} // verus!
