use ahreumcode::config::{ConfigLoadSource, RuntimeConfig};
use ahreumcode::layout::{fit_to_width, persona_time_label, statusline_text, visible_lines, wrap_text};
use ahreumcode::persona::{PersonaMessage, PersonaSpeaker};
use ahreumcode::state::TuiState;
use ratatui::text::Line;

fn lines(count: usize) -> Vec<Line<'static>> {
    (0..count).map(|index| Line::from(format!("line {index}"))).collect()
}

#[test]
fn persona_view_defaults_to_latest_lines() {
    let visible = visible_lines(lines(10), 4, 0);

    assert_eq!(visible.len(), 4);
    assert_eq!(visible[0], Line::from("line 6"));
    assert_eq!(visible[3], Line::from("line 9"));
}

#[test]
fn persona_view_scrolls_up_from_latest_position() {
    let visible = visible_lines(lines(10), 4, 2);

    assert_eq!(visible.len(), 4);
    assert_eq!(visible[0], Line::from("line 4"));
    assert_eq!(visible[3], Line::from("line 7"));
}

#[test]
fn persona_view_scroll_stops_at_the_first_line_and_short_lists_show_whole() {
    let visible = visible_lines(lines(10), 4, 50);
    assert_eq!(visible[0], Line::from("line 0"));
    assert_eq!(visible_lines(lines(3), 4, 1).len(), 3);
    assert_eq!(visible_lines(lines(3), 0, 0).len(), 3);
}

#[test]
fn wrap_text_counts_wide_characters_as_two_columns() {
    assert_eq!(wrap_text("abcdef", 4), vec!["abcd".to_owned(), "ef".to_owned()]);
    assert_eq!(wrap_text("가나다", 4), vec!["가나".to_owned(), "다".to_owned()]);
    assert_eq!(wrap_text("가", 1), vec!["가".to_owned()]);
    assert_eq!(wrap_text("", 4), vec![String::new()]);
    assert_eq!(wrap_text("abc", 0), vec![String::new()]);
}

#[test]
fn fit_to_width_cuts_with_an_ellipsis() {
    assert_eq!(fit_to_width("short", 10), "short");
    assert_eq!(fit_to_width("a long status line", 10), "a long ...");
    assert_eq!(fit_to_width("가나다라", 7), "가나...");
    assert_eq!(fit_to_width("abcdef", 3), "...");
    assert_eq!(fit_to_width("abcdef", 2), "..");
}

#[test]
fn persona_time_label_shows_repeats() {
    let mut message = PersonaMessage::from_speaker(PersonaSpeaker::Lead, "body");
    message.time_label = "12:34".to_owned();
    assert_eq!(persona_time_label(&message), " 12:34");
    message.repeat_count = 3;
    assert_eq!(persona_time_label(&message), " 12:34 x3");
}

#[test]
fn statusline_joins_the_runtime_status() {
    let state = TuiState::main("/ws".to_owned(), &RuntimeConfig::defaults(), ConfigLoadSource::Defaults, None);
    let text = statusline_text(&state.runtime_status);
    assert!(text.starts_with("Crew · lmstudio/google/gemma-4-e4b · /ws · ctx 8192 · "));
    assert!(text.ends_with(" · web off · ready") || text.ends_with(" · web on · ready"));
}
