use amai_music_player::paths::{path_extension, path_file_name, path_file_stem};

#[test]
fn extension_of_plain_file() {
    assert_eq!(path_extension("music/song.mp3"), Some("mp3".to_string()));
}

#[test]
fn extension_of_nested_path() {
    assert_eq!(path_extension("/home/user/Music/b.ogg"), Some("ogg".to_string()));
}

#[test]
fn extension_missing_without_dot() {
    assert_eq!(path_extension("music/song"), None);
}

#[test]
fn extension_missing_for_hidden_file() {
    assert_eq!(path_extension("/home/user/.bashrc"), None);
}

#[test]
fn extension_empty_after_trailing_dot() {
    assert_eq!(path_extension("a/song."), Some(String::new()));
}

#[test]
fn extension_ignores_dot_in_directory() {
    assert_eq!(path_extension("my.dir/song"), None);
}

#[test]
fn extension_takes_last_dot() {
    assert_eq!(path_extension("a/b.tar.gz"), Some("gz".to_string()));
}

#[test]
fn file_name_is_last_component() {
    assert_eq!(path_file_name("a/b/c.ogg"), "c.ogg".to_string());
}

#[test]
fn file_name_of_bare_name() {
    assert_eq!(path_file_name("song.ogg"), "song.ogg".to_string());
}

#[test]
fn stem_strips_extension() {
    assert_eq!(path_file_stem("music/song.mp3"), Some("song".to_string()));
}

#[test]
fn stem_keeps_inner_dots() {
    assert_eq!(path_file_stem("a/b.tar.gz"), Some("b.tar".to_string()));
}

#[test]
fn stem_of_hidden_file_is_whole_name() {
    assert_eq!(path_file_stem("/home/user/.bashrc"), Some(".bashrc".to_string()));
}

#[test]
fn stem_of_dotless_name_is_whole_name() {
    assert_eq!(path_file_stem("music/song"), Some("song".to_string()));
}

#[test]
fn stem_of_empty_path_is_missing() {
    assert_eq!(path_file_stem(""), None);
}
