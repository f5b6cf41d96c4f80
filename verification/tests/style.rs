use amai_music_player::style::MusicListButton;

#[test]
fn selected_buttons_draw_pressed() {
    assert!(MusicListButton::Selected.uses_pressed_appearance());
    assert!(!MusicListButton::Primary.uses_pressed_appearance());
}
