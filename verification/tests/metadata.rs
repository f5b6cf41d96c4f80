use amai_music_player::metadata::{
    art_from_tag, empty_image, get_metadata, metadata_from_tag, title_from_tag, MetadataError,
    TagData, Track,
};

#[test]
fn fallback_image_is_the_png_stub() {
    let img = empty_image();
    assert_eq!(img.len(), 68);
    // PNG signature
    assert_eq!(&img[0..8], &[0x89, 0x50, 0x4e, 0x47, 0x0d, 0x0a, 0x1a, 0x0a]);
    // IEND trailer
    assert_eq!(&img[64..68], &[0xae, 0x42, 0x60, 0x82]);
}

#[test]
fn art_of_missing_tag_is_the_fallback() {
    assert_eq!(art_from_tag(&None), empty_image());
}

#[test]
fn art_of_pictureless_tag_is_the_fallback() {
    let tag = TagData { title: Some("t".to_string()), pictures: Vec::new() };
    assert_eq!(art_from_tag(&Some(tag)), empty_image());
}

#[test]
fn art_is_the_first_picture() {
    let tag = TagData { title: None, pictures: vec![vec![1, 2, 3], vec![4]] };
    assert_eq!(art_from_tag(&Some(tag)), vec![1, 2, 3]);
}

#[test]
fn title_of_missing_tag_is_empty() {
    assert_eq!(title_from_tag(&None), String::new());
}

#[test]
fn title_of_untitled_tag_is_empty() {
    let tag = TagData { title: None, pictures: Vec::new() };
    assert_eq!(title_from_tag(&Some(tag)), String::new());
}

#[test]
fn title_is_the_tag_title() {
    let tag = TagData { title: Some("A Song".to_string()), pictures: Vec::new() };
    assert_eq!(title_from_tag(&Some(tag)), "A Song".to_string());
}

#[test]
fn metadata_record_of_missing_tag_is_empty() {
    let m = metadata_from_tag(None);
    assert!(m.tag.is_none());
    assert_eq!(m.art, None);
    assert_eq!(m.title, None);
}

#[test]
fn metadata_record_carries_first_picture_and_title() {
    let tag = TagData { title: Some("A Song".to_string()), pictures: vec![vec![7, 7]] };
    let m = metadata_from_tag(Some(tag));
    assert_eq!(m.art, Some(vec![7, 7]));
    assert_eq!(m.title, Some("A Song".to_string()));
    assert!(m.tag.is_some());
}

#[test]
fn metadata_record_of_pictureless_tag_has_no_art() {
    let tag = TagData { title: None, pictures: Vec::new() };
    let m = metadata_from_tag(Some(tag));
    assert_eq!(m.art, None);
    assert_eq!(m.title, None);
}

#[test]
fn empty_path_track_falls_back() {
    let track = Track { path: String::new() };
    assert_eq!(track.art(), empty_image());
    assert_eq!(track.title(), String::new());
}

#[test]
fn unreadable_file_track_falls_back() {
    let track = Track { path: "no-such-directory/no-such-file.mp3".to_string() };
    assert_eq!(track.art(), empty_image());
    assert_eq!(track.title(), String::new());
}

#[test]
fn metadata_of_unreadable_file_is_an_error() {
    let r = get_metadata("no-such-directory/no-such-file.mp3".to_string());
    match r {
        Err(e) => assert_eq!(e, MetadataError::Unreadable),
        Ok(_) => panic!("reading a missing file must fail"),
    }
}
