use presento::model::update;
use presento::model::Message;
use presento::model::Presentation;
use presento::model::Slide;

fn presentation_of(names: &[&str]) -> Presentation {
    let slides: Vec<Slide> = names
        .iter()
        .map(|n| Slide::from_lines(&vec![n.to_string()]))
        .collect();
    Presentation::from_slides(slides)
}

#[test]
fn slide_joins_lines_with_newlines() {
    let slide = Slide::from_lines(&vec!["a".to_string(), "b".to_string()]);
    assert_eq!(slide.states.len(), 1);
    assert_eq!(slide.state_idx, 0);
    assert_eq!(slide.content().as_str(), "a\nb");
}

#[test]
fn slide_from_no_lines_is_empty() {
    let slide = Slide::from_lines(&Vec::new());
    assert_eq!(slide.content().as_str(), "");
}

#[test]
fn slide_reset_restores_first_state() {
    let mut slide = Slide::from_lines(&vec!["a".to_string()]);
    slide.reset();
    assert_eq!(slide.state_idx, 0);
    assert_eq!(slide.content().as_str(), "a");
}

#[test]
fn presentation_starts_at_first_slide() {
    let p = presentation_of(&["one", "two", "three"]);
    assert_eq!(p.slide_index, 0);
    assert!(!p.should_quit);
    assert_eq!(p.content(), "one");
}

#[test]
fn advance_saturates_at_last_slide() {
    let mut p = presentation_of(&["one", "two", "three"]);
    for _ in 0..5 {
        assert_eq!(update(&mut p, Message::Next), None);
    }
    assert_eq!(p.slide_index, 2);
    assert_eq!(p.content(), "three");
}

#[test]
fn retreat_from_first_slide_is_a_no_op() {
    let mut p = presentation_of(&["one", "two", "three"]);
    assert_eq!(update(&mut p, Message::Previous), None);
    assert_eq!(p.slide_index, 0);
}

#[test]
fn retreat_guard_stops_at_second_slide() {
    let mut p = presentation_of(&["one", "two", "three"]);
    update(&mut p, Message::Next);
    assert_eq!(p.slide_index, 1);
    // retreating from the second slide is blocked by the guard
    update(&mut p, Message::Previous);
    assert_eq!(p.slide_index, 1);
    update(&mut p, Message::Next);
    update(&mut p, Message::Previous);
    assert_eq!(p.slide_index, 1);
}

#[test]
fn reset_returns_to_first_slide_and_first_states() {
    let mut p = presentation_of(&["one", "two", "three"]);
    update(&mut p, Message::Next);
    update(&mut p, Message::Next);
    assert_eq!(p.slide_index, 2);
    update(&mut p, Message::Reset);
    assert_eq!(p.slide_index, 0);
    for slide in &p.slides {
        assert_eq!(slide.state_idx, 0);
    }
    update(&mut p, Message::Reset);
    assert_eq!(p.slide_index, 0);
}

#[test]
fn quit_raises_the_flag_and_nothing_clears_it() {
    let mut p = presentation_of(&["one", "two"]);
    assert!(!p.should_quit);
    update(&mut p, Message::Quit);
    assert!(p.should_quit);
    update(&mut p, Message::Next);
    update(&mut p, Message::Previous);
    update(&mut p, Message::Reset);
    assert!(p.should_quit);
}

#[test]
fn presentation_content_follows_navigation() {
    let mut p = presentation_of(&["one", "two"]);
    update(&mut p, Message::Next);
    assert_eq!(p.content(), "two");
}
