use jarvis::console::{ConsoleInformer, ConsoleListener};
use jarvis::platform::{check_std_handle, enable_utf8_console, startup_warnings};
use jarvis::types::ReplyKind;

#[test]
fn reply_lines_carry_name_and_prefix() {
    let informer = ConsoleInformer::new("JARVIS");
    assert_eq!(informer.format_reply(ReplyKind::Info, "привет \n\n"), "JARVIS[info]> привет");
    assert_eq!(informer.format_reply(ReplyKind::Suggestion, "x"), "JARVIS[suggest]> x");
    assert_eq!(informer.format_reply(ReplyKind::Execution, "  y"), "JARVIS[exec]>   y");
    assert_eq!(informer.format_reply(ReplyKind::Error, ""), "JARVIS[error]> ");
    assert_eq!(ConsoleInformer::prefix_for(ReplyKind::Error), "error");
    let _listener = ConsoleListener::new();
}

#[test]
fn console_setup_and_warnings() {
    assert_eq!(enable_utf8_console(), Ok(()));
    assert!(startup_warnings(false).is_empty());
    let warnings = startup_warnings(true);
    assert_eq!(warnings.len(), 5);
    assert_eq!(warnings[0], "WARNING: THIS CONSOLE MAY NOT DISPLAY CYRILLIC CORRECTLY.");
    assert_eq!(warnings[4], "RECOMMENDED HOST: WINDOWS TERMINAL.");
}

#[test]
fn invalid_std_handles_are_refused() {
    assert_eq!(check_std_handle(7, 0), Err("GetStdHandle(7) вернул невалидный handle".to_string()));
    assert_eq!(check_std_handle(7, -1), Err("GetStdHandle(7) вернул невалидный handle".to_string()));
    assert_eq!(check_std_handle(7, 42), Ok(42));
}
