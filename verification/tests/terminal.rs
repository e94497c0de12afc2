use kora::{Command, Size, Terminal, TerminalError};

fn terminal(width: u16, height: u16) -> Terminal {
    match Terminal::new(Some(Size { width, height })) {
        Ok(terminal) => terminal,
        Err(e) => panic!("no terminal: {:?}", e),
    }
}

#[test]
fn new_terminal_caches_the_reported_size_and_enters() {
    let mut t = terminal(80, 24);
    assert_eq!(*t.size(), Size { width: 80, height: 24 });
    assert_eq!(t.size().width, 80);
    assert_eq!(t.size().height, 24);
    assert_eq!(t.take_output(), vec![Command::Enter]);
}

#[test]
fn new_terminal_fails_without_dimensions() {
    match Terminal::new(None) {
        Ok(_) => panic!("a terminal without a size"),
        Err(e) => assert_eq!(e, TerminalError::TerminalUnavailable),
    }
}

#[test]
fn operations_are_recorded_in_order() {
    let mut t = terminal(10, 5);
    t.take_output();
    t.hide_cursor();
    t.move_to(3, 70);
    t.clear();
    t.clear_current_line();
    t.print_line(String::from("hello"));
    t.show_cursor();
    t.flush();
    t.exit();
    t.enter();
    assert_eq!(
        t.take_output(),
        vec![
            Command::HideCursor,
            Command::MoveTo(3, 70),
            Command::Clear,
            Command::ClearCurrentLine,
            Command::PrintLine(String::from("hello")),
            Command::ShowCursor,
            Command::Flush,
            Command::Exit,
            Command::Enter,
        ]
    );
}

#[test]
fn take_output_starts_a_new_record() {
    let mut t = terminal(10, 5);
    assert_eq!(t.take_output().len(), 1);
    assert!(t.take_output().is_empty());
    t.flush();
    assert_eq!(t.take_output(), vec![Command::Flush]);
    assert_eq!(*t.size(), Size { width: 10, height: 5 });
}

#[test]
fn move_to_passes_coordinates_beyond_the_size() {
    let mut t = terminal(2, 2);
    t.take_output();
    t.move_to(u16::MAX, u16::MAX);
    assert_eq!(t.take_output(), vec![Command::MoveTo(65535, 65535)]);
}

#[test]
fn resize_overwrites_the_size_and_records_nothing() {
    let mut t = terminal(80, 24);
    t.take_output();
    t.resize(132, 43);
    assert_eq!(*t.size(), Size { width: 132, height: 43 });
    assert!(t.take_output().is_empty());
}
