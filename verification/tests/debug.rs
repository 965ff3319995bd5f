use music_player::debug::{Debugger, MAX_MESSAGES};
use music_player::decimal::decimal;

fn kept(debugger: &Debugger) -> Vec<String> {
    debugger.messages().iter().cloned().collect()
}

#[test]
fn new_log_is_empty() {
    let debugger = Debugger::new();
    assert!(debugger.messages().is_empty());
    assert_eq!(debugger.text(), "");
}

#[test]
fn print_appends_in_order() {
    let mut debugger = Debugger::new();
    debugger.print("first");
    debugger.print("second");
    debugger.print("");
    assert_eq!(kept(&debugger), vec!["first", "second", ""]);
}

#[test]
fn log_holds_ten_messages() {
    assert_eq!(MAX_MESSAGES, 10);
    let mut debugger = Debugger::new();
    for i in 0..10 {
        debugger.print(&decimal(i));
    }
    assert_eq!(
        kept(&debugger),
        vec!["0", "1", "2", "3", "4", "5", "6", "7", "8", "9"]
    );
}

#[test]
fn eleventh_message_pushes_out_the_oldest() {
    let mut debugger = Debugger::new();
    for i in 0..11 {
        debugger.print(&decimal(i));
    }
    assert_eq!(
        kept(&debugger),
        vec!["1", "2", "3", "4", "5", "6", "7", "8", "9", "10"]
    );
    for i in 11..25 {
        debugger.print(&decimal(i));
        assert_eq!(debugger.messages().len(), 10);
    }
    assert_eq!(
        kept(&debugger),
        vec!["15", "16", "17", "18", "19", "20", "21", "22", "23", "24"]
    );
}

#[test]
fn text_puts_each_message_on_a_line() {
    let mut debugger = Debugger::new();
    debugger.print("one");
    assert_eq!(debugger.text(), "one\n");
    debugger.print("two words");
    debugger.print("");
    debugger.print("ünï");
    assert_eq!(debugger.text(), "one\ntwo words\n\nünï\n");
}

#[test]
fn decimal_writes_numbers_as_usual() {
    assert_eq!(decimal(0), "0");
    assert_eq!(decimal(7), "7");
    assert_eq!(decimal(9), "9");
    assert_eq!(decimal(10), "10");
    assert_eq!(decimal(99), "99");
    assert_eq!(decimal(100), "100");
    assert_eq!(decimal(1234567890), "1234567890");
    assert_eq!(decimal(usize::MAX), format!("{}", usize::MAX));
}
