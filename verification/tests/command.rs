use songdl::command::{
    apply_volume_offset, convert_audio, download_audio, download_thumbnail, extract_metadata,
    extract_thumbnail, generate_args_from_metadata, get_average_volume, get_command, set_command,
    write_cover_to_audio, write_metadata_to_audio, CommandMap, DEFAULT_CURL_COMMAND,
    DEFAULT_FFMPEG_COMMAND, DEFAULT_YT_DL_COMMAND, FFMPEG_AUDIO_FORMAT, FFMPEG_AUDIO_FORMAT_EXT,
};
use songdl::textmap::TextMap;

fn strings(items: &[&str]) -> Vec<String> {
    items.iter().map(|s| s.to_string()).collect()
}

#[test]
fn constants() {
    assert_eq!(DEFAULT_YT_DL_COMMAND, "yt-dlp");
    assert_eq!(DEFAULT_FFMPEG_COMMAND, "ffmpeg");
    assert_eq!(DEFAULT_CURL_COMMAND, "curl");
    assert_eq!(FFMPEG_AUDIO_FORMAT, "mp3");
    assert_eq!(FFMPEG_AUDIO_FORMAT_EXT, ".mp3");
}

#[test]
fn a_tool_without_a_path_runs_under_its_name() {
    let commands = CommandMap::new();
    assert_eq!(get_command(&commands, "ffmpeg"), "ffmpeg");
    assert_eq!(get_command(&commands, "anything"), "anything");
}

#[test]
fn a_path_that_was_set_is_used() {
    let mut commands = CommandMap::new();
    set_command(&mut commands, "ffmpeg", Some(String::from("/opt/ffmpeg/bin/ffmpeg")));
    assert_eq!(get_command(&commands, "ffmpeg"), "/opt/ffmpeg/bin/ffmpeg");
    assert_eq!(get_command(&commands, "yt-dlp"), "yt-dlp");
    set_command(&mut commands, "ffmpeg", Some(String::from("ffmpeg7")));
    assert_eq!(get_command(&commands, "ffmpeg"), "ffmpeg7");
}

#[test]
fn a_path_that_was_taken_away_is_gone() {
    let mut commands = CommandMap::new();
    set_command(&mut commands, "yt-dlp", Some(String::from("/usr/local/bin/yt-dlp")));
    set_command(&mut commands, "yt-dlp", None);
    assert_eq!(get_command(&commands, "yt-dlp"), "yt-dlp");
    set_command(&mut commands, "curl", None);
    assert_eq!(get_command(&commands, "curl"), "curl");
}

#[test]
fn text_map_keeps_the_last_value() {
    let mut map = TextMap::new();
    assert_eq!(map.get("a"), None);
    map.insert(String::from("a"), String::from("1"));
    map.insert(String::from("b"), String::from("2"));
    map.insert(String::from("a"), String::from("3"));
    assert_eq!(map.get("a"), Some(String::from("3")));
    assert_eq!(map.get("b"), Some(String::from("2")));
    map.remove("a");
    assert_eq!(map.get("a"), None);
    assert_eq!(map.get("b"), Some(String::from("2")));
    let pairs = vec![
        (String::from("k"), String::from("old")),
        (String::from("k"), String::from("new")),
    ];
    assert_eq!(TextMap { entries: pairs }.get("k"), Some(String::from("new")));
}

#[test]
fn download_audio_invocation() {
    let mut commands = CommandMap::new();
    set_command(&mut commands, "yt-dlp", Some(String::from("/bin/ytd")));
    let call = download_audio(&commands, "https://youtube.com/watch?v=1");
    assert_eq!(call.program, "/bin/ytd");
    assert_eq!(
        call.args,
        strings(&[
            "-j",
            "-f",
            "bestaudio",
            "--no-playlist",
            "--no-simulate",
            "--ignore-config",
            "--no-warnings",
            "-o",
            "-",
            "https://youtube.com/watch?v=1",
        ])
    );
}

#[test]
fn convert_audio_invocation() {
    let call = convert_audio(&CommandMap::new(), "/tmp/a");
    assert_eq!(call.program, "ffmpeg");
    assert_eq!(call.args, strings(&["-i", "/tmp/a", "-vn", "-f", "mp3", "-"]));
}

#[test]
fn extract_thumbnail_invocation() {
    let call = extract_thumbnail(&CommandMap::new(), "/tmp/a");
    assert_eq!(call.program, "ffmpeg");
    assert_eq!(
        call.args,
        strings(&["-i", "/tmp/a", "-an", "-vcodec", "copy", "-f", "mjpeg", "-"])
    );
}

#[test]
fn extract_metadata_invocation() {
    let call = extract_metadata(&CommandMap::new(), "/tmp/a");
    assert_eq!(call.program, "ffmpeg");
    assert_eq!(
        call.args,
        strings(&["-i", "/tmp/a", "-loglevel", "panic", "-hide_banner", "-f", "ffmetadata", "-"])
    );
}

#[test]
fn get_average_volume_invocation() {
    let call = get_average_volume(&CommandMap::new(), "/tmp/a");
    assert_eq!(call.program, "ffmpeg");
    assert_eq!(
        call.args,
        strings(&[
            "-i",
            "/tmp/a",
            "-hide_banner",
            "-af",
            "volumedetect",
            "-vn",
            "-sn",
            "-dn",
            "-f",
            "null",
            "-",
        ])
    );
}

#[test]
fn apply_volume_offset_invocation() {
    let call = apply_volume_offset(&CommandMap::new(), "/tmp/a", "-2.5");
    assert_eq!(call.program, "ffmpeg");
    assert_eq!(call.args, strings(&["-i", "/tmp/a", "-af", "volume=-2.5dB", "-f", "mp3", "-"]));
}

#[test]
fn download_thumbnail_invocation() {
    let call = download_thumbnail(&CommandMap::new(), "https://i.example/p.jpg");
    assert_eq!(call.program, "curl");
    assert_eq!(call.args, strings(&["https://i.example/p.jpg", "-o", "-"]));
}

#[test]
fn write_cover_to_audio_invocation() {
    let call = write_cover_to_audio(&CommandMap::new(), "/tmp/a", "/tmp/c", "/tmp/o");
    assert_eq!(call.program, "ffmpeg");
    assert_eq!(
        call.args,
        strings(&[
            "-i",
            "/tmp/a",
            "-i",
            "/tmp/c",
            "-map",
            "0:0",
            "-map",
            "1:0",
            "-c",
            "copy",
            "-id3v2_version",
            "3",
            "-y",
            "-f",
            "mp3",
            "/tmp/o",
        ])
    );
}

#[test]
fn tag_arguments_strip_old_tags_and_set_the_new() {
    let metadata = vec![
        (String::from("title"), String::from("Test Song")),
        (String::from("artist"), String::from("A/B")),
        (String::from("album"), String::from("")),
    ];
    let args = generate_args_from_metadata(String::from("/tmp/a"), metadata);
    assert_eq!(
        args,
        strings(&[
            "-i",
            "/tmp/a",
            "-map",
            "0:a",
            "-map_metadata",
            "-1",
            "-c",
            "copy",
            "-metadata",
            "title=Test Song",
            "-metadata",
            "artist=A/B",
            "-metadata",
            "album=",
            "-f",
            "mp3",
            "-",
        ])
    );
}

#[test]
fn tag_arguments_without_tags() {
    let args = generate_args_from_metadata(String::from("x"), Vec::new());
    assert_eq!(
        args,
        strings(&["-i", "x", "-map", "0:a", "-map_metadata", "-1", "-c", "copy", "-f", "mp3", "-"])
    );
}

#[test]
fn write_metadata_to_audio_invocation() {
    let mut commands = CommandMap::new();
    set_command(&mut commands, "ffmpeg", Some(String::from("ff")));
    let metadata = vec![(String::from("title"), String::from("T"))];
    let call = write_metadata_to_audio(&commands, "/tmp/a", metadata);
    assert_eq!(call.program, "ff");
    assert_eq!(
        call.args,
        strings(&[
            "-i",
            "/tmp/a",
            "-map",
            "0:a",
            "-map_metadata",
            "-1",
            "-c",
            "copy",
            "-metadata",
            "title=T",
            "-f",
            "mp3",
            "-",
        ])
    );
}
