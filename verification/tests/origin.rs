use songdl::origin::Origin;

#[test]
fn a_platform_is_known_by_its_host() {
    let link = String::from("https://www.youtube.com/watch?v=abc");
    assert_eq!(Origin::from_link(&link, false), Origin::YouTube);
    let link = String::from("https://soundcloud.com/artist/track");
    assert_eq!(Origin::from_link(&link, false), Origin::Soundcloud);
}

#[test]
fn the_first_platform_wins() {
    let link = String::from("https://soundcloud.com/?next=youtube.com");
    assert_eq!(Origin::from_link(&link, false), Origin::YouTube);
    let link = String::from("youtube.soundcloud.");
    assert_eq!(Origin::from_link(&link, true), Origin::YouTube);
}

#[test]
fn a_platform_wins_over_a_file() {
    let link = String::from("/music/soundcloud.rip/track.mp3");
    assert_eq!(Origin::from_link(&link, true), Origin::Soundcloud);
}

#[test]
fn an_existing_file_without_a_host_is_local() {
    let link = String::from("/home/user/music/track.flac");
    assert_eq!(Origin::from_link(&link, true), Origin::Local);
}

#[test]
fn anything_else_is_unknown() {
    let link = String::from("/home/user/music/track.flac");
    assert_eq!(Origin::from_link(&link, false), Origin::Unknown);
    assert_eq!(Origin::from_link(&String::new(), false), Origin::Unknown);
    let link = String::from("https://youtube/soundcloud");
    assert_eq!(Origin::from_link(&link, false), Origin::Unknown);
}

#[test]
fn classification_gives_the_same_answer_again() {
    let link = String::from("https://youtu.be/x");
    assert_eq!(Origin::from_link(&link, true), Origin::from_link(&link, true));
    assert_eq!(Origin::from_link(&link, true), Origin::Local);
}

#[test]
fn link_components() {
    assert_eq!(Origin::YouTube.link_component(), "youtube.");
    assert_eq!(Origin::Soundcloud.link_component(), "soundcloud.");
    assert_eq!(Origin::Local.link_component(), "");
    assert_eq!(Origin::Unknown.link_component(), "");
}

#[test]
fn the_default_origin_is_unknown() {
    assert_eq!(Origin::default(), Origin::Unknown);
}
