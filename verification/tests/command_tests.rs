use mumblebot::commands::{parse_command, parse_percent, tag_stripper, Command};
use mumblebot::player::PlayerAction;

#[test]
fn simple_verbs_map_to_actions() {
    assert_eq!(parse_command(".stop"), Command::Act(PlayerAction::Stop));
    assert_eq!(parse_command(".show"), Command::Act(PlayerAction::ShowQueue));
    assert_eq!(parse_command(".next"), Command::Act(PlayerAction::Next));
    assert_eq!(parse_command(".pause"), Command::Act(PlayerAction::Pause));
    assert_eq!(parse_command(".resume"), Command::Act(PlayerAction::Resume));
}

#[test]
fn unrecognized_input_is_ignored() {
    assert_eq!(parse_command(""), Command::Ignore);
    assert_eq!(parse_command("hello"), Command::Ignore);
    assert_eq!(parse_command(".unknown"), Command::Ignore);
    assert_eq!(parse_command(".stopp"), Command::Ignore);
    assert_eq!(parse_command("stop"), Command::Ignore);
}

#[test]
fn volume_takes_integers_zero_to_one_hundred() {
    assert_eq!(parse_command(".v 0"), Command::Act(PlayerAction::SetVolume(0)));
    assert_eq!(parse_command(".v 50"), Command::Act(PlayerAction::SetVolume(50)));
    assert_eq!(parse_command(".v 100"), Command::Act(PlayerAction::SetVolume(100)));
    assert_eq!(parse_command(".v 007"), Command::Act(PlayerAction::SetVolume(7)));
}

#[test]
fn volume_out_of_range_or_unparsable_is_ignored() {
    assert_eq!(parse_command(".v 101"), Command::Ignore);
    assert_eq!(parse_command(".v 999999999999999999999"), Command::Ignore);
    assert_eq!(parse_command(".v abc"), Command::Ignore);
    assert_eq!(parse_command(".v 5x"), Command::Ignore);
    assert_eq!(parse_command(".v -1"), Command::Ignore);
    assert_eq!(parse_command(".v"), Command::Ignore);
    assert_eq!(parse_command(".v "), Command::Ignore);
}

#[test]
fn percent_parser_is_exact() {
    assert_eq!(parse_percent("100"), Some(100));
    assert_eq!(parse_percent("0"), Some(0));
    assert_eq!(parse_percent("0100"), Some(100));
    assert_eq!(parse_percent("101"), None);
    assert_eq!(parse_percent(""), None);
    assert_eq!(parse_percent("1 0"), None);
}

#[test]
fn sp_with_free_text_searches() {
    assert_eq!(
        parse_command(".sp never gonna give"),
        Command::SearchTrack("never gonna give".to_string())
    );
}

#[test]
fn sp_with_a_track_url_resolves_by_id() {
    assert_eq!(
        parse_command(".sp https://open.spotify.com/track/abc123"),
        Command::ResolveTrack("spotify:track:abc123".to_string())
    );
    // Query parameters are cut off.
    assert_eq!(
        parse_command(".sp https://open.spotify.com/track/abc123?si=xyz&x=1"),
        Command::ResolveTrack("spotify:track:abc123".to_string())
    );
}

#[test]
fn sp_strips_markup_tags_first() {
    assert_eq!(
        parse_command(".sp <a href=\"x\">https://open.spotify.com/track/xyz</a>"),
        Command::ResolveTrack("spotify:track:xyz".to_string())
    );
}

#[test]
fn sp_without_an_argument_is_ignored() {
    assert_eq!(parse_command(".sp"), Command::Ignore);
    assert_eq!(parse_command(".sp "), Command::Ignore);
    assert_eq!(parse_command(".sp <tag>"), Command::Ignore);
}

#[test]
fn spplaylist_resolves_playlist_urls_only() {
    assert_eq!(
        parse_command(".spplaylist https://open.spotify.com/playlist/pl42?si=0"),
        Command::ResolvePlaylist("spotify:playlist:pl42".to_string())
    );
    assert_eq!(
        parse_command(".spplaylist https://open.spotify.com/playlist/pl42"),
        Command::ResolvePlaylist("spotify:playlist:pl42".to_string())
    );
    assert_eq!(parse_command(".spplaylist some words"), Command::Ignore);
    assert_eq!(
        parse_command(".spplaylist https://open.spotify.com/track/abc"),
        Command::Ignore
    );
}

#[test]
fn tag_stripper_removes_bracketed_runs() {
    assert_eq!(tag_stripper("a<b>c"), "ac");
    assert_eq!(tag_stripper("<x>y"), "y");
    assert_eq!(tag_stripper("a<b"), "a");
    assert_eq!(tag_stripper(">a"), ">a");
    assert_eq!(tag_stripper("plain"), "plain");
    assert_eq!(tag_stripper("<a><b>"), "");
    assert_eq!(tag_stripper("x<a>y<b>z"), "xyz");
}
