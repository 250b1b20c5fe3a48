//! The popup that asks for a line to go to.
//!
//! The popup collects digits and `-` signs. What it holds is valid where it
//! reads as a whole number that names a line: `0` to `max_line` count from
//! the first line, `-1` to `-(max_line + 1)` count back from the last.

use vstd::prelude::*;
use vstd::string::{StrSliceExecFns, StringExecFns};

verus! {

/// The value of a decimal digit, if `c` is one.
pub open spec fn digit_value(c: char) -> Option<int> {
    if c == '0' {
        Some(0)
    } else if c == '1' {
        Some(1)
    } else if c == '2' {
        Some(2)
    } else if c == '3' {
        Some(3)
    } else if c == '4' {
        Some(4)
    } else if c == '5' {
        Some(5)
    } else if c == '6' {
        Some(6)
    } else if c == '7' {
        Some(7)
    } else if c == '8' {
        Some(8)
    } else if c == '9' {
        Some(9)
    } else {
        None
    }
}

/// The number that a run of decimal digits stands for; none where the run
/// holds anything but digits. The empty run stands for 0.
pub open spec fn digits_value(s: Seq<char>) -> Option<int>
    decreases s.len(),
{
    if s.len() == 0 {
        Some(0)
    } else {
        match (digits_value(s.drop_last()), digit_value(s.last())) {
            (Some(high), Some(low)) => Some(high * 10 + low),
            _ => None,
        }
    }
}

/// What a text reads as: whether a `-` stands in front, and the number that
/// the digits stand for. A `+` may stand in front in place of the `-`. None
/// where no digit follows or anything but digits does.
pub open spec fn read_number(s: Seq<char>) -> Option<(bool, int)> {
    let negative = s.len() > 0 && s[0] == '-';
    let digits = if s.len() > 0 && (s[0] == '-' || s[0] == '+') {
        s.skip(1)
    } else {
        s
    };
    if digits.len() == 0 {
        None
    } else {
        match digits_value(digits) {
            Some(magnitude) => Some((negative, magnitude)),
            None => None,
        }
    }
}

/// The line that `input` names in a text whose last line is `max_line`, if
/// it names one: a number that a machine integer with sign can hold, from
/// `0` to `max_line` for that line, from `-1` to `-(max_line + 1)` for the
/// line that far from the end.
pub open spec fn named_line(input: Seq<char>, max_line: usize) -> Option<usize> {
    match read_number(input) {
        Some((negative, magnitude)) => {
            if negative && magnitude > 0 {
                if magnitude <= isize::MAX + 1 && magnitude <= max_line + 1 {
                    Some((max_line + 1 - magnitude) as usize)
                } else {
                    None
                }
            } else {
                if magnitude <= isize::MAX && magnitude <= max_line {
                    Some(magnitude as usize)
                } else {
                    None
                }
            }
        },
        None => None,
    }
}

fn digit_of(c: char) -> (d: Option<usize>)
    ensures
        match d {
            Some(d) => digit_value(c) == Some(d as int),
            None => digit_value(c) is None,
        },
{
    match c {
        '0' => Some(0),
        '1' => Some(1),
        '2' => Some(2),
        '3' => Some(3),
        '4' => Some(4),
        '5' => Some(5),
        '6' => Some(6),
        '7' => Some(7),
        '8' => Some(8),
        '9' => Some(9),
        _ => None,
    }
}

proof fn lemma_digits_value_bounds(s: Seq<char>)
    ensures
        digits_value(s) is Some ==> digits_value(s)->0 >= 0,
    decreases s.len(),
{
    if s.len() > 0 {
        lemma_digits_value_bounds(s.drop_last());
    }
}

proof fn lemma_digits_value_grows(s: Seq<char>, n: int)
    requires
        0 <= n <= s.len(),
        digits_value(s) is Some,
    ensures
        digits_value(s.take(n)) is Some,
        digits_value(s.take(n))->0 <= digits_value(s)->0,
    decreases s.len() - n,
{
    if n == s.len() {
        assert(s.take(n) =~= s);
    } else {
        lemma_digits_value_grows(s, n + 1);
        assert(s.take(n + 1).drop_last() =~= s.take(n));
        lemma_digits_value_bounds(s.take(n));
    }
}

proof fn lemma_digits_value_none(s: Seq<char>, n: int)
    requires
        0 <= n <= s.len(),
        digits_value(s.take(n)) is None,
    ensures
        digits_value(s) is None,
    decreases s.len() - n,
{
    if n == s.len() {
        assert(s.take(n) =~= s);
    } else {
        assert(s.take(n + 1).drop_last() =~= s.take(n));
        lemma_digits_value_none(s, n + 1);
    }
}

/// The line that `input` names in a text whose last line is `max_line`, if it
/// names one.
pub fn parse_line(input: &str, max_line: usize) -> (line: Option<usize>)
    ensures
        line == named_line(input@, max_line),
{
    let len = input.unicode_len();
    let negative = len > 0 && input.get_char(0) == '-';
    let start: usize = if negative || (len > 0 && input.get_char(0) == '+') {
        1
    } else {
        0
    };
    if start == len {
        return None;
    }
    let ghost digits = input@.skip(start as int);
    // No number that names a line is larger than this.
    let cap: usize = if max_line < usize::MAX {
        max_line + 1
    } else {
        max_line
    };
    let mut magnitude: usize = 0;
    let mut i: usize = start;
    assert(read_number(input@) == match digits_value(digits) {
        Some(value) => Some((negative, value)),
        None => None,
    }) by {
        if start == 0 {
            assert(digits =~= input@);
        }
    }
    while i < len
        invariant
            start <= i <= len,
            len == input@.len(),
            digits == input@.skip(start as int),
            digits_value(digits.take(i - start)) == Some(magnitude as int),
            magnitude <= cap,
            max_line <= cap,
            max_line < usize::MAX ==> cap == max_line + 1,
            read_number(input@) == match digits_value(digits) {
                Some(value) => Some((negative, value)),
                None => None,
            },
        decreases len - i,
    {
        let c = input.get_char(i);
        proof {
            assert(digits.take(i - start + 1).drop_last() =~= digits.take(i - start));
        }
        match digit_of(c) {
            None => {
                proof {
                    lemma_digits_value_none(digits, i - start + 1);
                }
                return None;
            },
            Some(d) => {
                if d > cap || magnitude > (cap - d) / 10 {
                    proof {
                        // The number is already larger than any that names a line.
                        if d <= cap {
                            assert(magnitude * 10 + d > cap) by (nonlinear_arith)
                                requires
                                    magnitude > (cap - d) / 10,
                                    0 <= d <= 9,
                                    d <= cap,
                            ;
                        }
                        if digits_value(digits) is Some {
                            lemma_digits_value_grows(digits, i - start + 1);
                        }
                    }
                    return None;
                }
                assert(magnitude * 10 + d <= cap) by (nonlinear_arith)
                    requires
                        magnitude <= (cap - d) / 10,
                        0 <= d <= 9,
                        d <= cap,
                ;
                magnitude = magnitude * 10 + d;
            },
        }
        i += 1;
    }
    assert(digits.take(i - start) =~= digits);
    let most: usize = isize::MAX as usize;
    if negative && magnitude > 0 {
        if magnitude - 1 <= most && magnitude - 1 <= max_line {
            Some(max_line - (magnitude - 1))
        } else {
            None
        }
    } else {
        if magnitude <= most && magnitude <= max_line {
            Some(magnitude)
        } else {
            None
        }
    }
}

/// The decimal digits of `n`, the highest first.
pub open spec fn decimal_text(n: nat) -> Seq<char>
    decreases n,
{
    let last = seq!['0', '1', '2', '3', '4', '5', '6', '7', '8', '9'][(n % 10) as int];
    if n < 10 {
        seq![last]
    } else {
        decimal_text(n / 10).push(last)
    }
}

fn digit_text(d: u128) -> (text: &'static str)
    requires
        d < 10,
    ensures
        text@ == seq![seq!['0', '1', '2', '3', '4', '5', '6', '7', '8', '9'][d as int]],
{
    proof {
        reveal_strlit("0");
        reveal_strlit("1");
        reveal_strlit("2");
        reveal_strlit("3");
        reveal_strlit("4");
        reveal_strlit("5");
        reveal_strlit("6");
        reveal_strlit("7");
        reveal_strlit("8");
        reveal_strlit("9");
    }
    let text = if d == 0 {
        "0"
    } else if d == 1 {
        "1"
    } else if d == 2 {
        "2"
    } else if d == 3 {
        "3"
    } else if d == 4 {
        "4"
    } else if d == 5 {
        "5"
    } else if d == 6 {
        "6"
    } else if d == 7 {
        "7"
    } else if d == 8 {
        "8"
    } else {
        "9"
    };
    text
}

/// The decimal digits of `n`.
pub fn decimal(n: u128) -> (text: String)
    ensures
        text@ == decimal_text(n as nat),
    decreases n,
{
    if n < 10 {
        digit_text(n).to_owned()
    } else {
        let mut text = decimal(n / 10);
        text.append(digit_text(n % 10));
        text
    }
}

/// What a key stands for besides the commands that it is bound to.
#[derive(Copy, Clone, Debug, PartialEq, Eq)]
pub enum KeyCode {
    /// A key that types a character.
    Char(char),
    /// The key that takes the last character back.
    Backspace,
    /// Any other key.
    Other,
}

/// One key that was pressed.
#[derive(Copy, Clone, Debug, PartialEq, Eq)]
pub struct KeyPress {
    /// What the key stands for.
    pub code: KeyCode,
    /// The key is the one bound to leaving a popup.
    pub exit_popup: bool,
    /// The key is the one bound to confirming.
    pub enter: bool,
}

/// Something that happened at the terminal.
#[derive(Copy, Clone, Debug, PartialEq, Eq)]
pub enum PopupEvent {
    /// A key was pressed.
    Key(KeyPress),
    /// Anything else: the mouse, a resize, a paste.
    Other,
}

/// Whether a component took an event for itself.
#[derive(Copy, Clone, Debug, PartialEq, Eq, Structural)]
pub enum EventState {
    Consumed,
    NotConsumed,
}

/// What the popup asks the application to do.
#[derive(Clone, Debug, PartialEq, Eq)]
pub enum InternalEvent {
    /// Show this message as an error.
    ShowErrorMsg(String),
    /// Go to this line.
    GotoLine(usize),
}

/// An [`InternalEvent`] as contracts see it.
pub ghost enum InternalEventView {
    ShowErrorMsg(Seq<char>),
    GotoLine(usize),
}

impl View for InternalEvent {
    type V = InternalEventView;

    open spec fn view(&self) -> InternalEventView {
        match self {
            InternalEvent::ShowErrorMsg(text) => InternalEventView::ShowErrorMsg(text@),
            InternalEvent::GotoLine(line) => InternalEventView::GotoLine(*line),
        }
    }
}

/// The popup that asks for a line to go to.
pub struct GotoLinePopup {
    visible: bool,
    input: String,
    line_number: usize,
    invalid_input: bool,
    max_line: usize,
}

/// A [`GotoLinePopup`] as contracts see it.
pub ghost struct PopupView {
    /// The popup is shown and takes events.
    pub visible: bool,
    /// What was typed so far.
    pub input: Seq<char>,
    /// The line that the input named when it last named one.
    pub line_number: usize,
    /// The input names no line.
    pub invalid_input: bool,
    /// The last line of the text that the popup was opened for.
    pub max_line: usize,
}

/// The message for an input that names no line.
pub open spec fn invalid_input_text(max_line: usize) -> Seq<char> {
    "Invalid input: only numbers between -"@ + decimal_text((max_line + 1) as nat) + " and "@
        + decimal_text(max_line as nat)
        + " (included) are allowed (-1 denotes the last line, -2 denotes the second to last line, and so on)"@
}

impl PopupView {
    /// The popup after the key `key`, before the input is looked at again.
    /// The key that leaves closes the popup and drops the input. A digit or
    /// `-` is put behind the input, any other character is dropped.
    /// Backspace takes the last character of the input away. The key that
    /// confirms closes the popup, drops the input and calls it valid again.
    pub open spec fn after_key(self, key: KeyPress) -> PopupView {
        if key.exit_popup {
            PopupView { visible: false, input: Seq::empty(), ..self }
        } else if key.code is Char {
            let c = key.code->Char_0;
            if digit_value(c) is Some || c == '-' {
                PopupView { input: self.input.push(c), ..self }
            } else {
                self
            }
        } else if key.code is Backspace {
            if self.input.len() > 0 {
                PopupView { input: self.input.drop_last(), ..self }
            } else {
                self
            }
        } else if key.enter {
            PopupView { visible: false, input: Seq::empty(), invalid_input: false, ..self }
        } else {
            self
        }
    }

    /// What the popup asks for at the key `key`: at the key that confirms,
    /// and at no other, an error message where the input names no line, and
    /// else the move to the line it named, unless nothing was typed.
    pub open spec fn asked_at(self, key: KeyPress) -> Option<InternalEventView> {
        if !key.exit_popup && key.code is Other && key.enter {
            if self.invalid_input {
                Some(InternalEventView::ShowErrorMsg(invalid_input_text(self.max_line)))
            } else if self.input.len() > 0 {
                Some(InternalEventView::GotoLine(self.line_number))
            } else {
                None
            }
        } else {
            None
        }
    }

    /// The popup after its input was looked at: where the input names a
    /// line, that line is kept and the input is valid; where it names none
    /// and is not empty, it is invalid; an empty input changes nothing.
    pub open spec fn checked(self) -> PopupView {
        match named_line(self.input, self.max_line) {
            Some(line) => PopupView { line_number: line, invalid_input: false, ..self },
            None => if self.input.len() > 0 {
                PopupView { invalid_input: true, ..self }
            } else {
                self
            },
        }
    }

    /// The popup after `event`. A popup that is not shown stays as it is.
    pub open spec fn after_event(self, event: PopupEvent) -> PopupView {
        if !self.visible {
            self
        } else {
            match event {
                PopupEvent::Key(key) => self.after_key(key).checked(),
                PopupEvent::Other => self.checked(),
            }
        }
    }

    /// What the popup asks for at `event`.
    pub open spec fn asked(self, event: PopupEvent) -> Option<InternalEventView> {
        if !self.visible {
            None
        } else {
            match event {
                PopupEvent::Key(key) => self.asked_at(key),
                PopupEvent::Other => None,
            }
        }
    }
}

impl PopupView {
    /// The input holds nothing but digits and `-` signs.
    pub open spec fn holds_typed_input(self) -> bool {
        forall|i: int|
            0 <= i < self.input.len() ==> digit_value(#[trigger] self.input[i]) is Some
                || self.input[i] == '-'
    }

    /// No event puts anything but digits and `-` signs into the input.
    pub proof fn lemma_input_stays_typed(self, event: PopupEvent)
        requires
            self.holds_typed_input(),
        ensures
            self.after_event(event).holds_typed_input(),
    {
        if self.visible {
            match event {
                PopupEvent::Key(key) => {
                    // Looking at the input leaves it as the key left it.
                    assert(self.after_key(key).holds_typed_input());
                },
                PopupEvent::Other => {},
            }
        }
    }
}

impl View for GotoLinePopup {
    type V = PopupView;

    closed spec fn view(&self) -> PopupView {
        PopupView {
            visible: self.visible,
            input: self.input@,
            line_number: self.line_number,
            invalid_input: self.invalid_input,
            max_line: self.max_line,
        }
    }
}

fn typed_text(c: char) -> (text: Option<&'static str>)
    ensures
        match text {
            Some(text) => text@ == seq![c] && (digit_value(c) is Some || c == '-'),
            None => !(digit_value(c) is Some || c == '-'),
        },
{
    proof {
        reveal_strlit("-");
    }
    if c == '-' {
        return Some("-");
    }
    match digit_of(c) {
        Some(d) => {
            let text = digit_text(d as u128);
            Some(text)
        },
        None => None,
    }
}

impl GotoLinePopup {
    /// A popup that is not shown and holds nothing.
    pub fn new() -> (popup: Self)
        ensures
            popup@ == (PopupView {
                visible: false,
                input: Seq::empty(),
                line_number: 0,
                invalid_input: false,
                max_line: 0,
            }),
    {
        Self {
            visible: false,
            input: String::new(),
            invalid_input: false,
            max_line: 0,
            line_number: 0,
        }
    }

    /// Shows the popup for a text whose last line is `max_line`.
    pub fn open(&mut self, max_line: usize)
        ensures
            final(self)@ == (PopupView { visible: true, max_line, ..old(self)@ }),
    {
        self.visible = true;
        self.max_line = max_line;
    }

    /// Whether the popup is shown.
    pub fn is_visible(&self) -> (visible: bool)
        ensures
            visible == self@.visible,
    {
        self.visible
    }

    /// Whether the input names no line.
    pub fn is_invalid(&self) -> (invalid: bool)
        ensures
            invalid == self@.invalid_input,
    {
        self.invalid_input
    }

    /// What was typed so far.
    pub fn input(&self) -> (input: &str)
        ensures
            input@ == self@.input,
    {
        self.input.as_str()
    }

    /// The line that the input named when it last named one.
    pub fn line_number(&self) -> (line: usize)
        ensures
            line == self@.line_number,
    {
        self.line_number
    }

    fn error_text(&self) -> (text: String)
        ensures
            text@ == invalid_input_text(self@.max_line),
    {
        let mut text = String::from_str("Invalid input: only numbers between -");
        text.append(decimal(self.max_line as u128 + 1).as_str());
        text.append(" and ");
        text.append(decimal(self.max_line as u128).as_str());
        text.append(
            " (included) are allowed (-1 denotes the last line, -2 denotes the second to last line, and so on)",
        );
        text
    }

    fn key(&mut self, key: &KeyPress) -> (asked: Option<InternalEvent>)
        ensures
            final(self)@ == old(self)@.after_key(*key),
            match asked {
                Some(asked) => old(self)@.asked_at(*key) == Some(asked@),
                None => old(self)@.asked_at(*key) is None,
            },
    {
        if key.exit_popup {
            self.visible = false;
            self.input = String::new();
            return None;
        }
        match key.code {
            KeyCode::Char(c) => {
                match typed_text(c) {
                    Some(text) => {
                        self.input.append(text);
                        assert(self.input@ =~= old(self).input@.push(c));
                    },
                    None => {},
                }
                None
            },
            KeyCode::Backspace => {
                let len = self.input.as_str().unicode_len();
                if len > 0 {
                    let rest = self.input.as_str().substring_char(0, len - 1).to_owned();
                    self.input = rest;
                }
                None
            },
            KeyCode::Other => {
                if !key.enter {
                    return None;
                }
                self.visible = false;
                let asked = if self.invalid_input {
                    Some(InternalEvent::ShowErrorMsg(self.error_text()))
                } else if self.input.as_str().unicode_len() > 0 {
                    Some(InternalEvent::GotoLine(self.line_number))
                } else {
                    None
                };
                self.input = String::new();
                self.invalid_input = false;
                asked
            },
        }
    }

    fn check(&mut self)
        ensures
            final(self)@ == old(self)@.checked(),
    {
        match parse_line(self.input.as_str(), self.max_line) {
            Some(line) => {
                self.invalid_input = false;
                self.line_number = line;
            },
            None => {
                if self.input.as_str().unicode_len() > 0 {
                    self.invalid_input = true;
                }
            },
        }
    }

    /// Hands `event` to the popup. A popup that is shown takes every event
    /// for itself; one that is not takes none and stays as it is.
    pub fn event(&mut self, event: &PopupEvent) -> (r: (EventState, Option<InternalEvent>))
        ensures
            final(self)@ == old(self)@.after_event(*event),
            r.0 == if old(self)@.visible {
                EventState::Consumed
            } else {
                EventState::NotConsumed
            },
            match r.1 {
                Some(asked) => old(self)@.asked(*event) == Some(asked@),
                None => old(self)@.asked(*event) is None,
            },
    {
        if !self.visible {
            return (EventState::NotConsumed, None);
        }
        let asked = match event {
            PopupEvent::Key(key) => self.key(key),
            PopupEvent::Other => None,
        };
        self.check();
        (EventState::Consumed, asked)
    }
}

} // verus!
