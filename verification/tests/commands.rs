use mpv::commands::{
    add_property, check_string_arg, command_line, cycle_property, loadfile_command,
    multiply_property, playlist_clear, playlist_load_list, playlist_move, playlist_next_force,
    playlist_next_weak, playlist_previous_force, playlist_previous_weak, playlist_remove_current,
    playlist_remove_index, playlist_shuffle, quoted_arg, screenshot_subtitles, screenshot_video,
    screenshot_window, seek_absolute, seek_backward, seek_forward, seek_frame,
    seek_frame_backward, seek_percent, seek_percent_absolute, seek_revert, seek_revert_mark,
    str_contains_nul, subtitle_add_auto, subtitle_add_cached, subtitle_add_select,
    subtitle_reload, subtitle_remove, subtitle_seek_backward, subtitle_seek_forward,
    subtitle_step,
};
use mpv::data::FileState;
use mpv::errors::Error;
use mpv::numstr::{i64_to_string, u64_to_string, usize_to_string};
use mpv::{mpv_make_version, MPV_CLIENT_API_VERSION};

#[test]
fn version_packing() {
    assert_eq!(mpv_make_version(1, 21), (1u32 << 16) | 21);
    assert_eq!(MPV_CLIENT_API_VERSION, 65557);
    assert_eq!(mpv_make_version(0, 0), 0);
    assert_eq!(mpv_make_version(2, 0), 131072);
}

#[test]
fn unsigned_decimal_rendering() {
    assert_eq!(u64_to_string(0), "0");
    assert_eq!(u64_to_string(7), "7");
    assert_eq!(u64_to_string(105), "105");
    assert_eq!(u64_to_string(u64::MAX), "18446744073709551615");
    assert_eq!(usize_to_string(42), "42");
}

#[test]
fn signed_decimal_rendering() {
    assert_eq!(i64_to_string(0), "0");
    assert_eq!(i64_to_string(-1), "-1");
    assert_eq!(i64_to_string(i64::MAX), "9223372036854775807");
    assert_eq!(i64_to_string(i64::MIN), "-9223372036854775808");
}

#[test]
fn command_line_joins_name_and_args() {
    let args = vec![String::from("5"), String::from("relative")];
    assert_eq!(command_line("seek", &args).unwrap(), "seek 5 relative");
    let none: Vec<String> = Vec::new();
    assert_eq!(command_line("stop", &none).unwrap(), "stop");
}

#[test]
fn command_line_rejects_embedded_nul() {
    let none: Vec<String> = Vec::new();
    assert!(matches!(
        command_line("se\0ek", &none),
        Err(Error::InvalidStringArgument)
    ));
    let args = vec![String::from("a\0b")];
    assert!(matches!(
        command_line("seek", &args),
        Err(Error::InvalidStringArgument)
    ));
}

#[test]
fn nul_scan() {
    assert!(!str_contains_nul("volume"));
    assert!(str_contains_nul("vol\0ume"));
    assert!(check_string_arg("ok").is_ok());
    assert!(matches!(
        check_string_arg("b\0d"),
        Err(Error::InvalidStringArgument)
    ));
}

#[test]
fn quoting_paths() {
    assert_eq!(quoted_arg("a b.mkv"), "\"a b.mkv\"");
}

#[test]
fn seek_commands() {
    assert_eq!(seek_forward(5).unwrap(), "seek 5 relative");
    assert_eq!(seek_backward(3).unwrap(), "seek -3 relative");
    assert_eq!(seek_backward(0).unwrap(), "seek -0 relative");
    assert_eq!(seek_absolute(90).unwrap(), "seek 90 absolute");
    assert_eq!(seek_percent(-25).unwrap(), "seek -25 relative-percent");
    assert_eq!(seek_percent_absolute(75).unwrap(), "seek 75 absolute-percent");
    assert_eq!(seek_revert().unwrap(), "revert-seek");
    assert_eq!(seek_revert_mark().unwrap(), "revert-seek mark");
    assert_eq!(seek_frame().unwrap(), "frame-step");
    assert_eq!(seek_frame_backward().unwrap(), "frame-back-step");
}

#[test]
fn property_commands() {
    assert_eq!(add_property("volume", -5).unwrap(), "add volume -5");
    assert_eq!(cycle_property("osd", true).unwrap(), "cycle osd up");
    assert_eq!(cycle_property("osd", false).unwrap(), "cycle osd down");
    assert_eq!(multiply_property("speed", 2).unwrap(), "multiply speed 2");
    assert!(matches!(
        add_property("vol\0ume", 1),
        Err(Error::InvalidStringArgument)
    ));
}

#[test]
fn screenshot_commands() {
    assert_eq!(screenshot_subtitles(None).unwrap(), "screenshot subtitles");
    assert_eq!(
        screenshot_subtitles(Some("shot.png")).unwrap(),
        "screenshot \"shot.png\" subtitles"
    );
    assert_eq!(
        screenshot_video(Some("v.png")).unwrap(),
        "screenshot \"v.png\" video"
    );
    assert_eq!(screenshot_window(None).unwrap(), "screenshot window");
    assert!(matches!(
        screenshot_window(Some("w\0.png")),
        Err(Error::InvalidStringArgument)
    ));
}

#[test]
fn playlist_commands() {
    assert_eq!(playlist_next_weak().unwrap(), "playlist-next weak");
    assert_eq!(playlist_next_force().unwrap(), "playlist-next force");
    assert_eq!(playlist_previous_weak().unwrap(), "playlist-previous weak");
    assert_eq!(playlist_previous_force().unwrap(), "playlist-previous force");
    assert_eq!(playlist_clear().unwrap(), "playlist-clear");
    assert_eq!(playlist_remove_current().unwrap(), "playlist-remove current");
    assert_eq!(playlist_remove_index(4).unwrap(), "playlist-remove 4");
    assert_eq!(playlist_move(3, 5).unwrap(), "playlist-move 3 5");
    assert_eq!(playlist_shuffle().unwrap(), "playlist-shuffle");
}

#[test]
fn loadfile_lines() {
    assert_eq!(
        loadfile_command("f0.mkv", FileState::AppendPlay, None).unwrap(),
        "loadfile \"f0.mkv\" append-play "
    );
    assert_eq!(
        loadfile_command("a.mkv", FileState::Replace, Some("opt=1")).unwrap(),
        "loadfile \"a.mkv\" replace opt=1"
    );
    assert_eq!(
        loadfile_command("b.mkv", FileState::Append, None).unwrap(),
        "loadfile \"b.mkv\" append "
    );
    assert!(matches!(
        loadfile_command("f\0.mkv", FileState::Append, None),
        Err(Error::InvalidStringArgument)
    ));
}

#[test]
fn loadlist_lines() {
    assert_eq!(
        playlist_load_list("l.txt", true).unwrap(),
        "loadlist \"l.txt\" replace"
    );
    assert_eq!(
        playlist_load_list("l.txt", false).unwrap(),
        "loadlist \"l.txt\" append"
    );
}

#[test]
fn subtitle_add_lines() {
    assert_eq!(
        subtitle_add_select("s.srt", None, None).unwrap(),
        "sub-add \"s.srt\" select"
    );
    assert_eq!(
        subtitle_add_select("s.srt", Some("t"), None).unwrap(),
        "sub-add \"s.srt\" select t"
    );
    assert_eq!(
        subtitle_add_select("s.srt", Some("t"), Some("en")).unwrap(),
        "sub-add \"s.srt\" select t en"
    );
    assert_eq!(
        subtitle_add_auto("s.srt", Some("t"), Some("en")).unwrap(),
        "sub-add \"s.srt\" auto t en"
    );
    assert_eq!(
        subtitle_add_cached("c.srt").unwrap(),
        "sub-add \"c.srt\" cached"
    );
}

#[test]
fn subtitle_language_needs_title() {
    assert!(matches!(
        subtitle_add_select("s.srt", None, Some("en")),
        Err(Error::InvalidArgument)
    ));
    assert!(matches!(
        subtitle_add_auto("s.srt", None, Some("en")),
        Err(Error::InvalidArgument)
    ));
}

#[test]
fn subtitle_commands() {
    assert_eq!(subtitle_remove(None).unwrap(), "sub-remove");
    assert_eq!(subtitle_remove(Some(2)).unwrap(), "sub-remove 2");
    assert_eq!(subtitle_reload(None).unwrap(), "sub-reload");
    assert_eq!(subtitle_reload(Some(1)).unwrap(), "sub-reload 1");
    assert_eq!(subtitle_step(-3).unwrap(), "sub-step -3");
    assert_eq!(subtitle_seek_forward().unwrap(), "sub-seek 1");
    assert_eq!(subtitle_seek_backward().unwrap(), "sub-seek -1");
}
