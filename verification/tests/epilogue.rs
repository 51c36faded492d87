use ahreumcode::config::{ConfigLoadSource, RuntimeConfig};
use ahreumcode::epilogue::{epilogue_lines, EpilogueLine, PrintStyle, CONTENT_WIDTH};
use ahreumcode::layout::version_line;
use ahreumcode::state::TuiState;

fn row_text(line: &EpilogueLine) -> Option<(String, usize)> {
    match line {
        EpilogueLine::Row { segments, padding } => {
            Some((segments.iter().map(|s| s.text.as_str()).collect::<String>(), *padding))
        }
        _ => None,
    }
}

#[test]
fn epilogue_frames_the_session_summary() {
    let state = TuiState::epilogue("/ws".to_owned(), &RuntimeConfig::defaults(), ConfigLoadSource::Defaults, None);
    let summary = state.epilogue_summary.as_ref().expect("summary");
    let lines = epilogue_lines(summary);

    assert_eq!(lines.len(), 13);
    assert!(matches!(lines[0], EpilogueLine::Blank));
    let EpilogueLine::Border { text } = &lines[1] else { panic!("top border") };
    assert_eq!(text.chars().count(), CONTENT_WIDTH + 2);
    assert!(text.starts_with('╭') && text.ends_with('╮'));
    assert_eq!(row_text(&lines[2]), Some((">_ AhreumCode".to_owned(), 66 - 2 - 13)));
    assert_eq!(row_text(&lines[3]), Some(("아름코드 v1.0.0".to_owned(), 66 - 2 - 15)));
    assert_eq!(row_text(&lines[4]), Some((String::new(), 64)));
    assert_eq!(row_text(&lines[5]), Some(("workspace: /ws".to_owned(), 66 - 2 - 14)));
    assert_eq!(row_text(&lines[7]).map(|r| r.0), Some("session: saved".to_owned()));
    assert_eq!(row_text(&lines[8]).map(|r| r.0), Some("tools: 0 executed   0 failed".to_owned()));
    let EpilogueLine::Plain { segments } = &lines[12] else { panic!("tip") };
    assert_eq!(segments[1].style, PrintStyle::Bold);
    assert_eq!(segments.iter().map(|s| s.text.as_str()).collect::<String>(), "Tip: run ahreumcode to start again, or /status to review the runtime.");
}

#[test]
fn version_line_is_right_aligned_under_the_wordmark() {
    let line = version_line();
    assert!(line.ends_with("아름코드 v1.0.0"));
    assert_eq!(line.len() - "아름코드 v1.0.0".len(), 54);
}
