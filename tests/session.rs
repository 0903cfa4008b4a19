use fenrir::session::{read_session_line, SessionInput};

#[test]
fn session_lines() {
    assert!(matches!(read_session_line("   \n"), SessionInput::Blank));
    assert!(matches!(read_session_line(" EXIT\n"), SessionInput::Exit));
    match read_session_line("  List The Files\n") {
        SessionInput::Query(q) => assert_eq!(q, "list the files"),
        other => panic!("unexpected {:?}", other),
    }
    match read_session_line("exit now") {
        SessionInput::Query(q) => assert_eq!(q, "exit now"),
        other => panic!("unexpected {:?}", other),
    }
}
