use effie::boot::Action;
use effie::console::{console_next, print_num, print_utf8, ConsoleStep};
use effie::status::{Status, DEVICE_ERROR, SUCCESS, WARN_UNKNOWN_GLYPH};

fn crlf() -> Action {
    Action::OutputString(vec![13, 10, 0])
}

#[test]
fn prints_number_digit_by_digit() {
    assert_eq!(
        print_num(1234),
        vec![
            Action::OutputString(vec![0x31, 0]),
            Action::OutputString(vec![0x32, 0]),
            Action::OutputString(vec![0x33, 0]),
            Action::OutputString(vec![0x34, 0]),
            crlf(),
        ]
    );
}

#[test]
fn prints_negative_and_zero() {
    assert_eq!(
        print_num(-5),
        vec![Action::OutputString(vec![0x2d, 0]), Action::OutputString(vec![0x35, 0]), crlf()]
    );
    assert_eq!(print_num(0), vec![Action::OutputString(vec![0x30, 0]), crlf()]);
}

#[test]
fn prints_extreme_numbers() {
    let text = i128::MIN.to_string();
    let actions = print_num(i128::MIN);
    assert_eq!(actions.len(), text.len() + 1);
    for (a, c) in actions.iter().zip(text.bytes()) {
        assert_eq!(*a, Action::OutputString(vec![c as u16, 0]));
    }
}

#[test]
fn prints_text_unit_by_unit() {
    assert_eq!(
        print_utf8("é😀"),
        vec![
            Action::OutputString(vec![0xe9, 0]),
            Action::OutputString(vec![0xD83D, 0]),
            Action::OutputString(vec![0xDE00, 0]),
            crlf(),
        ]
    );
}

#[test]
fn prints_empty_text_as_line_break() {
    assert_eq!(print_utf8(""), vec![crlf()]);
}

/// Prints `actions` against a console that answers request `i` with `answer(i)`,
/// returning the indices performed and the result.
fn print(actions: &[Action], answer: impl Fn(usize) -> Status) -> (Vec<usize>, effie::Result) {
    let mut performed = Vec::new();
    let mut done = 0;
    let mut last = Status(SUCCESS);
    loop {
        match console_next(actions.len(), done, last) {
            ConsoleStep::Perform(i) => {
                performed.push(i);
                last = answer(i);
                done += 1;
            }
            ConsoleStep::Done(r) => return (performed, r),
        }
    }
}

#[test]
fn console_prints_everything_on_success() {
    let actions = print_num(42);
    assert_eq!(print(&actions, |_| Status(SUCCESS)), (vec![0, 1, 2], Ok(())));
}

#[test]
fn console_stops_at_first_failure() {
    let actions = print_utf8("abcd");
    let answer = |i: usize| if i == 1 { Status(DEVICE_ERROR) } else { Status(SUCCESS) };
    assert_eq!(print(&actions, answer), (vec![0, 1], Err(Status(DEVICE_ERROR))));
}

#[test]
fn console_warning_stops_too() {
    let actions = print_utf8("x");
    let answer = |i: usize| if i == 1 { Status(WARN_UNKNOWN_GLYPH) } else { Status(SUCCESS) };
    assert_eq!(print(&actions, answer), (vec![0, 1], Err(Status(WARN_UNKNOWN_GLYPH))));
}

#[test]
fn console_next_steps() {
    assert_eq!(console_next(3, 0, Status(SUCCESS)), ConsoleStep::Perform(0));
    assert_eq!(console_next(3, 3, Status(SUCCESS)), ConsoleStep::Done(Ok(())));
    assert_eq!(console_next(3, 2, Status(DEVICE_ERROR)), ConsoleStep::Done(Err(Status(DEVICE_ERROR))));
    assert_eq!(console_next(0, 0, Status(SUCCESS)), ConsoleStep::Done(Ok(())));
}
