use asyncgit::goto_line::{
    decimal, parse_line, EventState, GotoLinePopup, InternalEvent, KeyCode, KeyPress, PopupEvent,
};

fn typed(c: char) -> PopupEvent {
    PopupEvent::Key(KeyPress { code: KeyCode::Char(c), exit_popup: false, enter: false })
}

fn enter() -> PopupEvent {
    PopupEvent::Key(KeyPress { code: KeyCode::Other, exit_popup: false, enter: true })
}

fn escape() -> PopupEvent {
    PopupEvent::Key(KeyPress { code: KeyCode::Other, exit_popup: true, enter: false })
}

fn backspace() -> PopupEvent {
    PopupEvent::Key(KeyPress { code: KeyCode::Backspace, exit_popup: false, enter: false })
}

fn type_all(popup: &mut GotoLinePopup, text: &str) {
    for c in text.chars() {
        assert_eq!(popup.event(&typed(c)), (EventState::Consumed, None));
    }
}

#[test]
fn a_new_popup_is_hidden_and_takes_no_event() {
    let mut popup = GotoLinePopup::new();
    assert!(!popup.is_visible());
    assert_eq!(popup.input(), "");
    assert_eq!(popup.line_number(), 0);
    assert!(!popup.is_invalid());
    assert_eq!(popup.event(&typed('1')), (EventState::NotConsumed, None));
    assert_eq!(popup.event(&enter()), (EventState::NotConsumed, None));
    assert_eq!(popup.input(), "");
}

#[test]
fn open_shows_the_popup() {
    let mut popup = GotoLinePopup::new();
    popup.open(10);
    assert!(popup.is_visible());
    assert_eq!(popup.event(&PopupEvent::Other), (EventState::Consumed, None));
    assert!(popup.is_visible());
}

#[test]
fn a_line_number_goes_to_that_line() {
    let mut popup = GotoLinePopup::new();
    popup.open(99);
    type_all(&mut popup, "42");
    assert_eq!(popup.input(), "42");
    assert_eq!(popup.line_number(), 42);
    assert!(!popup.is_invalid());
    assert_eq!(popup.event(&enter()), (EventState::Consumed, Some(InternalEvent::GotoLine(42))));
    assert!(!popup.is_visible());
    assert_eq!(popup.input(), "");
}

#[test]
fn a_negative_number_counts_from_the_end() {
    let mut popup = GotoLinePopup::new();
    popup.open(99);
    type_all(&mut popup, "-");
    assert!(popup.is_invalid());
    type_all(&mut popup, "1");
    assert!(!popup.is_invalid());
    assert_eq!(popup.line_number(), 99);
    type_all(&mut popup, "00");
    assert_eq!(popup.input(), "-100");
    assert_eq!(popup.line_number(), 0);
    assert_eq!(popup.event(&enter()), (EventState::Consumed, Some(InternalEvent::GotoLine(0))));
}

#[test]
fn a_number_out_of_range_is_an_error() {
    let mut popup = GotoLinePopup::new();
    popup.open(99);
    type_all(&mut popup, "100");
    assert!(popup.is_invalid());
    assert_eq!(popup.line_number(), 10);
    assert_eq!(
        popup.event(&enter()),
        (
            EventState::Consumed,
            Some(InternalEvent::ShowErrorMsg(String::from(
                "Invalid input: only numbers between -100 and 99 (included) are allowed (-1 denotes the last line, -2 denotes the second to last line, and so on)"
            )))
        )
    );
    assert!(!popup.is_invalid());
    assert!(!popup.is_visible());
}

#[test]
fn other_characters_are_dropped_and_backspace_takes_one_back() {
    let mut popup = GotoLinePopup::new();
    popup.open(500);
    type_all(&mut popup, "1a2 +3");
    assert_eq!(popup.input(), "123");
    assert_eq!(popup.event(&backspace()), (EventState::Consumed, None));
    assert_eq!(popup.input(), "12");
    assert_eq!(popup.line_number(), 12);
    type_all(&mut popup, "-");
    assert_eq!(popup.input(), "12-");
    assert!(popup.is_invalid());
    assert_eq!(popup.event(&backspace()), (EventState::Consumed, None));
    assert!(!popup.is_invalid());
    popup.event(&backspace());
    popup.event(&backspace());
    popup.event(&backspace());
    assert_eq!(popup.input(), "");
    assert_eq!(popup.event(&enter()), (EventState::Consumed, None));
    assert!(!popup.is_visible());
}

#[test]
fn leaving_drops_the_input() {
    let mut popup = GotoLinePopup::new();
    popup.open(500);
    type_all(&mut popup, "77");
    assert_eq!(popup.event(&escape()), (EventState::Consumed, None));
    assert!(!popup.is_visible());
    assert_eq!(popup.input(), "");
    assert_eq!(popup.line_number(), 77);
    // the key that leaves wins over what else the key stands for
    popup.open(500);
    let both = PopupEvent::Key(KeyPress { code: KeyCode::Char('5'), exit_popup: true, enter: true });
    assert_eq!(popup.event(&both), (EventState::Consumed, None));
    assert!(!popup.is_visible());
    assert_eq!(popup.input(), "");
    // a character wins over confirming
    popup.open(500);
    let char_and_enter =
        PopupEvent::Key(KeyPress { code: KeyCode::Char('5'), exit_popup: false, enter: true });
    assert_eq!(popup.event(&char_and_enter), (EventState::Consumed, None));
    assert!(popup.is_visible());
    assert_eq!(popup.input(), "5");
}

#[test]
fn lines_that_a_text_names() {
    assert_eq!(parse_line("", 10), None);
    assert_eq!(parse_line("-", 10), None);
    assert_eq!(parse_line("0", 10), Some(0));
    assert_eq!(parse_line("-0", 10), Some(0));
    assert_eq!(parse_line("007", 10), Some(7));
    assert_eq!(parse_line("10", 10), Some(10));
    assert_eq!(parse_line("11", 10), None);
    assert_eq!(parse_line("-1", 10), Some(10));
    assert_eq!(parse_line("-11", 10), Some(0));
    assert_eq!(parse_line("-12", 10), None);
    assert_eq!(parse_line("+7", 10), Some(7));
    assert_eq!(parse_line("+", 10), None);
    assert_eq!(parse_line("+-7", 10), None);
    assert_eq!(parse_line("--1", 10), None);
    assert_eq!(parse_line("1-", 10), None);
    assert_eq!(parse_line("1x", 10), None);
    assert_eq!(parse_line("0", 0), Some(0));
    assert_eq!(parse_line("-1", 0), Some(0));
    assert_eq!(parse_line("1", 0), None);
    assert_eq!(parse_line("99999999999999999999999999", usize::MAX), None);
    assert_eq!(parse_line("-99999999999999999999999999", usize::MAX), None);
    assert_eq!(parse_line(&isize::MAX.to_string(), usize::MAX), Some(isize::MAX as usize));
    assert_eq!(parse_line(&(isize::MAX as usize + 1).to_string(), usize::MAX), None);
    assert_eq!(parse_line(&isize::MIN.to_string(), usize::MAX), Some(usize::MAX - isize::MAX as usize));
}

#[test]
fn decimal_digits() {
    assert_eq!(decimal(0), "0");
    assert_eq!(decimal(7), "7");
    assert_eq!(decimal(10), "10");
    assert_eq!(decimal(1234567890), "1234567890");
    assert_eq!(decimal(u128::MAX), u128::MAX.to_string());
}

#[test]
fn a_text_names_a_line_where_it_parses_as_a_number_in_range() {
    let texts = [
        "", "-", "+", "0", "-0", "+0", "5", "-5", "+5", "05", "-05", "10", "-10", "11", "-11", "-12",
        "1 ", " 1", "1-", "--1", "-+1", "1.0", "0x1", "12345678901234567890123",
    ];
    for max_line in [0usize, 1, 10, 11, usize::MAX] {
        for text in texts {
            let expected = match text.parse::<isize>() {
                Ok(n) if n >= 0 && n.unsigned_abs() <= max_line => Some(n.unsigned_abs()),
                Ok(n) if n < 0 && n.unsigned_abs() - 1 <= max_line => {
                    Some(max_line - (n.unsigned_abs() - 1))
                }
                _ => None,
            };
            assert_eq!(parse_line(text, max_line), expected, "{text:?} of {max_line}");
        }
    }
}
