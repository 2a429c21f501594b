use std::cell::Cell;

use selected_text::accessibility::{AccessibilityEvent, AccessibilityRequest, AccessibilityTextReader};
use selected_text::error::{Missing, ReadError};
use selected_text::input::{copy_keystrokes, release_after_failure, CopyKey, KeyAction, KeyStroke, SETTLE_DELAY_MS};
use selected_text::retriever::{found_text, get_text};

/// Runs the accessibility reader against fixed answers.
fn read_ax(trusted: bool, focused: bool, selected: Option<&str>) -> Result<String, ReadError> {
    let (mut reader, mut req) = AccessibilityTextReader::new();
    loop {
        let event = match req {
            AccessibilityRequest::CheckTrust => AccessibilityEvent::Trusted(trusted),
            AccessibilityRequest::FocusedElement => AccessibilityEvent::Focused(focused),
            AccessibilityRequest::SelectedText => {
                AccessibilityEvent::Selected(selected.map(|s| s.to_string()))
            }
            AccessibilityRequest::Finished(outcome) => return outcome,
        };
        assert!(reader.accepts(&event));
        let (next, next_req) = reader.step(event);
        reader = next;
        req = next_req;
    }
}

#[test]
fn accessibility_text_wins_and_clipboard_is_not_run() {
    let clipboard_runs = Cell::new(0u32);
    let r = get_text(
        || Ok("selected".to_string()),
        || {
            clipboard_runs.set(clipboard_runs.get() + 1);
            Ok("from clipboard".to_string())
        },
    );
    assert_eq!(r, "selected");
    assert_eq!(clipboard_runs.get(), 0);
}

#[test]
fn permission_denied_falls_back_to_clipboard() {
    let clipboard_runs = Cell::new(0u32);
    let r = get_text(
        || read_ax(false, true, Some("x")),
        || {
            clipboard_runs.set(clipboard_runs.get() + 1);
            Ok("from clipboard".to_string())
        },
    );
    assert_eq!(r, "from clipboard");
    assert_eq!(clipboard_runs.get(), 1);
}

#[test]
fn empty_accessibility_text_falls_back_to_clipboard() {
    let r = get_text(|| Ok(String::new()), || Ok("copied".to_string()));
    assert_eq!(r, "copied");
}

#[test]
fn nothing_found_gives_empty_text() {
    let r = get_text(
        || Err(ReadError::NotFound(Missing::FocusedElement)),
        || Err(ReadError::SimulationFailed),
    );
    assert_eq!(r, "");
    let r = get_text(|| Ok(String::new()), || Ok(String::new()));
    assert_eq!(r, "");
}

#[test]
fn accessibility_text_is_verbatim() {
    assert_eq!(read_ax(true, true, Some("  hi there \n")), Ok("  hi there \n".to_string()));
    let r = get_text(|| read_ax(true, true, Some("  hi  ")), || Ok("other".to_string()));
    assert_eq!(r, "  hi  ");
}

#[test]
fn untrusted_process_is_denied() {
    assert_eq!(read_ax(false, true, Some("x")), Err(ReadError::PermissionDenied));
}

#[test]
fn missing_focused_element_is_reported() {
    assert_eq!(
        read_ax(true, false, Some("x")),
        Err(ReadError::NotFound(Missing::FocusedElement))
    );
}

#[test]
fn missing_selection_is_reported() {
    assert_eq!(read_ax(true, true, None), Err(ReadError::NotFound(Missing::SelectedText)));
}

#[test]
fn found_text_needs_non_empty_success() {
    assert_eq!(found_text(Ok("a".to_string())), Some("a".to_string()));
    assert_eq!(found_text(Ok(String::new())), None);
    assert_eq!(found_text(Err(ReadError::ClipboardAccessFailed)), None);
}

#[test]
fn copy_command_key_order() {
    let strokes = copy_keystrokes();
    assert_eq!(
        strokes,
        vec![
            KeyStroke { key: CopyKey::C, action: KeyAction::Release },
            KeyStroke { key: CopyKey::Meta, action: KeyAction::Press },
            KeyStroke { key: CopyKey::C, action: KeyAction::Click },
            KeyStroke { key: CopyKey::Meta, action: KeyAction::Release },
        ]
    );
    assert_eq!(SETTLE_DELAY_MS, 100);
}

#[test]
fn held_modifier_is_released_after_failure() {
    let release_meta = vec![KeyStroke { key: CopyKey::Meta, action: KeyAction::Release }];
    assert_eq!(release_after_failure(0), vec![]);
    assert_eq!(release_after_failure(1), vec![]);
    assert_eq!(release_after_failure(2), release_meta);
    assert_eq!(release_after_failure(3), release_meta);
}
