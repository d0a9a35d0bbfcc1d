use jarvis::assistant::{combine_run_results, Assistant, Command, Event};
use jarvis::types::{Action, Decision, ReplyKind, UserRequest};

fn expect_inform(c: Command) -> (ReplyKind, String) {
    match c {
        Command::Inform { kind, message } => (kind, message),
        _ => panic!("expected an inform command"),
    }
}

fn started() -> Assistant {
    let mut a = Assistant::new();
    let (kind, message) = expect_inform(a.run());
    assert_eq!(kind, ReplyKind::Info);
    assert!(message.starts_with("JARVIS запущен."));
    assert!(matches!(a.step(Event::Informed(Ok(()))), Command::CheckShutdown));
    a
}

fn finish_with(a: &mut Assistant, cleanup: Result<(), String>) -> Result<(), String> {
    match a.step(Event::ExecutorShutDown(cleanup)) {
        Command::Finish { result } => {
            assert!(a.is_finished());
            result
        }
        _ => panic!("expected finish"),
    }
}

#[test]
fn startup_failure_ends_without_cleanup() {
    let mut a = Assistant::new();
    let _ = a.run();
    match a.step(Event::Informed(Err("no console".to_string()))) {
        Command::Finish { result } => assert_eq!(result, Err("no console".to_string())),
        _ => panic!("expected finish"),
    }
    assert!(a.is_finished());
}

#[test]
fn closed_input_is_announced_then_cleaned_up() {
    let mut a = started();
    assert!(matches!(a.step(Event::ShutdownChecked(false)), Command::Listen));
    assert!(matches!(a.step(Event::Listened(Ok(None))), Command::CheckShutdown));
    assert!(matches!(a.step(Event::ShutdownChecked(false)), Command::CheckShutdown));
    let (kind, message) = expect_inform(a.step(Event::ShutdownChecked(false)));
    assert_eq!(kind, ReplyKind::Info);
    assert_eq!(message, "Входной поток закрыт. Завершаю работу.");
    assert!(matches!(a.step(Event::Informed(Ok(()))), Command::ShutdownExecutor));
    assert_eq!(finish_with(&mut a, Ok(())), Ok(()));
}

#[test]
fn a_request_is_thought_about_informed_executed_and_reported() {
    let mut a = started();
    assert!(matches!(a.step(Event::ShutdownChecked(false)), Command::Listen));
    let request = UserRequest::new("повтори да".to_string());
    assert!(matches!(a.step(Event::Listened(Ok(Some(request)))), Command::CheckShutdown));
    match a.step(Event::ShutdownChecked(false)) {
        Command::Think { request } => assert_eq!(request.normalized_text, "повтори да"),
        _ => panic!("expected think"),
    }
    let decision = Decision::execute("сейчас".to_string(), Action::RepeatText("да".to_string()));
    let (kind, message) = expect_inform(a.step(Event::Thought(decision)));
    assert_eq!((kind, message.as_str()), (ReplyKind::Info, "сейчас"));
    match a.step(Event::Informed(Ok(()))) {
        Command::Execute { action: Action::RepeatText(text) } => assert_eq!(text, "да"),
        _ => panic!("expected execute"),
    }
    assert!(matches!(a.step(Event::Executed(Ok("Повторяю: да".to_string()))), Command::CheckShutdown));
    let (kind, message) = expect_inform(a.step(Event::ShutdownChecked(false)));
    assert_eq!((kind, message.as_str()), (ReplyKind::Execution, "Повторяю: да"));
    // Back to the top of the cycle.
    assert!(matches!(a.step(Event::Informed(Ok(()))), Command::CheckShutdown));
    assert!(matches!(a.step(Event::ShutdownChecked(false)), Command::Listen));
}

#[test]
fn execution_error_is_reported_with_prefix() {
    let mut a = started();
    let _ = a.step(Event::ShutdownChecked(false));
    let _ = a.step(Event::Listened(Ok(Some(UserRequest::new("x".to_string())))));
    let _ = a.step(Event::ShutdownChecked(false));
    let decision = Decision::execute(String::new(), Action::PlayLastRecording);
    // An empty message is not shown: the action runs right away.
    assert!(matches!(a.step(Event::Thought(decision)), Command::Execute { .. }));
    let _ = a.step(Event::Executed(Err("нет файла".to_string())));
    let (kind, message) = expect_inform(a.step(Event::ShutdownChecked(false)));
    assert_eq!(kind, ReplyKind::Error);
    assert_eq!(message, "Во время исполнения произошла ошибка: нет файла");
}

#[test]
fn exit_decision_ends_the_cycle() {
    let mut a = started();
    let _ = a.step(Event::ShutdownChecked(false));
    let _ = a.step(Event::Listened(Ok(Some(UserRequest::new("выход".to_string())))));
    let _ = a.step(Event::ShutdownChecked(false));
    let (_, message) = expect_inform(a.step(Event::Thought(Decision::exit("пока".to_string()))));
    assert_eq!(message, "пока");
    assert!(matches!(a.step(Event::Informed(Ok(()))), Command::ShutdownExecutor));
    assert_eq!(finish_with(&mut a, Ok(())), Ok(()));
}

#[test]
fn shutdown_request_is_announced_and_ends_the_cycle() {
    let mut a = started();
    let (kind, message) = expect_inform(a.step(Event::ShutdownChecked(true)));
    assert_eq!(kind, ReplyKind::Info);
    assert_eq!(message, "Получен Ctrl+C. Завершаю работу.");
    assert!(matches!(a.step(Event::Informed(Ok(()))), Command::ShutdownExecutor));
    assert_eq!(finish_with(&mut a, Ok(())), Ok(()));
}

#[test]
fn listen_error_still_cleans_up() {
    let mut a = started();
    let _ = a.step(Event::ShutdownChecked(false));
    assert!(matches!(a.step(Event::Listened(Err("stdin".to_string()))), Command::ShutdownExecutor));
    assert_eq!(
        finish_with(&mut a, Err("диск".to_string())),
        Err("stdin\nДополнительно cleanup временных записей завершился ошибкой: диск".to_string())
    );
}

#[test]
fn unexpected_event_is_refused() {
    let a = started();
    assert!(!a.expects(&Event::Listened(Ok(None))));
    assert!(a.expects(&Event::ShutdownChecked(false)));
}

#[test]
fn run_results_combine() {
    assert_eq!(combine_run_results(Ok(()), Ok(())), Ok(()));
    assert_eq!(combine_run_results(Err("a".to_string()), Ok(())), Err("a".to_string()));
    assert_eq!(
        combine_run_results(Ok(()), Err("b".to_string())),
        Err("JARVIS завершил работу, но cleanup временных записей завершился ошибкой: b".to_string())
    );
    assert_eq!(
        combine_run_results(Err("a".to_string()), Err("b".to_string())),
        Err("a\nДополнительно cleanup временных записей завершился ошибкой: b".to_string())
    );
}
