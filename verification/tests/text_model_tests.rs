use reactor::dispatch::{run_script, Event};
use reactor::model::{Input, Model};
use reactor::text_model::TextModel;

#[test]
fn cursor_starts_at_nul() {
    assert_eq!(TextModel::default().view(), "\0".to_string());
}

#[test]
fn other_jumps_to_first_character() {
    let events: Vec<Event<TextModel>> = vec![Event::Input(Input::Other("abc".to_string()))];
    let r = run_script(TextModel::default(), events);
    assert_eq!(r.views, vec!["a".to_string()]);
}

#[test]
fn empty_other_keeps_cursor() {
    let events: Vec<Event<TextModel>> = vec![
        Event::Input(Input::Other("z".to_string())),
        Event::Input(Input::Other(String::new())),
    ];
    let r = run_script(TextModel::default(), events);
    assert_eq!(r.views, vec!["z".to_string(), "z".to_string()]);
}

#[test]
fn increment_and_decrement_step_through_scalars() {
    let events: Vec<Event<TextModel>> = vec![
        Event::Input(Input::Other("a".to_string())),
        Event::Input(Input::Increment),
        Event::Input(Input::Increment),
        Event::Input(Input::Decrement),
    ];
    let r = run_script(TextModel::default(), events);
    assert_eq!(
        r.views,
        vec![
            "a".to_string(),
            "b".to_string(),
            "c".to_string(),
            "b".to_string()
        ]
    );
}

#[test]
fn decrement_at_nul_stays_put() {
    let events: Vec<Event<TextModel>> = vec![Event::Input(Input::Decrement)];
    let r = run_script(TextModel::default(), events);
    assert_eq!(r.views, vec!["\0".to_string()]);
}

#[test]
fn increment_below_surrogates_stays_put() {
    let events: Vec<Event<TextModel>> = vec![
        Event::Input(Input::Other("\u{D7FF}".to_string())),
        Event::Input(Input::Increment),
    ];
    let r = run_script(TextModel::default(), events);
    assert_eq!(r.views, vec!["\u{D7FF}".to_string(), "\u{D7FF}".to_string()]);
}

#[test]
fn decrement_above_surrogates_stays_put() {
    let events: Vec<Event<TextModel>> = vec![
        Event::Input(Input::Other("\u{E000}".to_string())),
        Event::Input(Input::Decrement),
    ];
    let r = run_script(TextModel::default(), events);
    assert_eq!(r.views, vec!["\u{E000}".to_string(), "\u{E000}".to_string()]);
}

#[test]
fn increment_at_last_scalar_stays_put() {
    let events: Vec<Event<TextModel>> = vec![
        Event::Input(Input::Other("\u{10FFFF}".to_string())),
        Event::Input(Input::Increment),
    ];
    let r = run_script(TextModel::default(), events);
    assert_eq!(
        r.views,
        vec!["\u{10FFFF}".to_string(), "\u{10FFFF}".to_string()]
    );
}

#[test]
fn quit_kills_the_cursor_without_render() {
    let events: Vec<Event<TextModel>> = vec![
        Event::Input(Input::Other("q".to_string())),
        Event::Input(Input::Quit),
    ];
    let r = run_script(TextModel::default(), events);
    assert!(r.dead);
    assert_eq!(r.views, vec!["q".to_string()]);
}

#[test]
fn cursor_view_is_idempotent() {
    let events: Vec<Event<TextModel>> = vec![Event::Input(Input::Other("k".to_string()))];
    let r = run_script(TextModel::default(), events);
    assert_eq!(r.model.view(), r.model.view());
}
