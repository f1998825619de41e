use rtop::input::{Input, Intent, Key, KeyInput, KeyKind};

fn typed(c: char, kind: KeyKind) -> Input {
    Input::Key(KeyInput { key: Key::Char(c), kind })
}

#[test]
fn pressed_q_means_quit() {
    assert_eq!(Key::Char('q').intent(), Intent::Quit);
    assert_eq!(typed('q', KeyKind::Press).intent(), Intent::Quit);
}

#[test]
fn pressed_character_is_shown() {
    assert_eq!(Key::Char('x').intent(), Intent::Show('x'));
    assert_eq!(typed('x', KeyKind::Press).intent(), Intent::Show('x'));
    assert_eq!(typed('Q', KeyKind::Press).intent(), Intent::Show('Q'));
    assert_eq!(typed(' ', KeyKind::Press).intent(), Intent::Show(' '));
}

#[test]
fn other_keys_are_ignored() {
    assert_eq!(Key::Other.intent(), Intent::Ignore);
    assert_eq!(
        Input::Key(KeyInput { key: Key::Other, kind: KeyKind::Press }).intent(),
        Intent::Ignore
    );
}

#[test]
fn repeats_and_releases_are_ignored() {
    assert_eq!(typed('q', KeyKind::Release).intent(), Intent::Ignore);
    assert_eq!(typed('q', KeyKind::Repeat).intent(), Intent::Ignore);
    assert_eq!(typed('x', KeyKind::Release).intent(), Intent::Ignore);
}

#[test]
fn other_events_and_none_are_ignored() {
    assert_eq!(Input::Other.intent(), Intent::Ignore);
    assert_eq!(Input::Nothing.intent(), Intent::Ignore);
}
