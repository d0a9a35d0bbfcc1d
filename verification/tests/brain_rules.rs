use jarvis::brain::RuleBasedBrain;
use jarvis::interfaces::Brain;
use jarvis::types::{Action, Decision, ReplyKind, UserRequest};

fn think(text: &str) -> Decision {
    let mut brain = RuleBasedBrain::new("JARVIS");
    brain.think(&UserRequest::new(text.to_string()))
}

fn expect_action(d: &Decision) -> &Action {
    d.action.as_ref().expect("an action")
}

#[test]
fn empty_request_is_answered_with_a_hint() {
    let d = think("   \n");
    assert!(matches!(d.kind, ReplyKind::Info));
    assert_eq!(d.message, "Я ничего не получил. Напиши команду или `помощь`.");
    assert!(d.action.is_none());
    assert!(!d.should_exit);
}

#[test]
fn help_lists_the_commands_with_the_name() {
    let expected = "JARVIS пока работает в учебном текстовом режиме.\nДоступные команды:\n- помощь\n- который час\n- покажи файлы\n- слушай <секунды>\n- запиши <секунды>\n- прослушай запись\n- проиграй запись\n- повтори <текст>\n- предложи команду\n- выход";
    for text in ["помощь", "HELP", "а что умеешь ты?"] {
        let d = think(text);
        assert!(matches!(d.kind, ReplyKind::Info));
        assert_eq!(d.message, expected);
        assert!(d.action.is_none());
    }
}

#[test]
fn exit_words_end_the_loop() {
    for text in ["выход", "Exit", "  QUIT  "] {
        let d = think(text);
        assert!(d.should_exit, "{text}");
        assert_eq!(d.message, "Завершаю работу. До связи.");
        assert!(d.action.is_none());
    }
    assert!(!think("выходи").should_exit);
}

#[test]
fn time_questions_show_local_time() {
    for text in ["Который час?", "время", "скажи, сколько времени"] {
        let d = think(text);
        assert_eq!(d.message, "Смотрю локальное время.");
        assert!(matches!(expect_action(&d), Action::ShowLocalTime));
    }
}

#[test]
fn listing_requests_list_the_directory() {
    for text in ["покажи файлы", "дай список файлов", "что в папке?"] {
        let d = think(text);
        assert_eq!(d.message, "Считываю содержимое текущей директории.");
        assert!(matches!(expect_action(&d), Action::ListCurrentDirectory));
    }
}

#[test]
fn listen_with_seconds_records_a_clip() {
    let d = think("Слушай 5");
    assert!(matches!(d.kind, ReplyKind::Info));
    assert_eq!(
        d.message,
        "Начинаю запись с микрофона на 5 сек. Говори сразу после этой строки."
    );
    assert!(matches!(expect_action(&d), Action::RecordMicrophoneClip { duration_secs: 5 }));
    let d = think("запиши +30");
    assert!(matches!(expect_action(&d), Action::RecordMicrophoneClip { duration_secs: 30 }));
    let d = think("record   12");
    assert!(matches!(expect_action(&d), Action::RecordMicrophoneClip { duration_secs: 12 }));
}

#[test]
fn listen_errors_explain_the_format() {
    let cases = [
        ("слушай", "Для записи укажи длительность, например: `слушай 5` или `запиши 5`."),
        ("слушай 5 сек", "Пока поддерживается только формат `слушай <секунды>`, например `слушай 5`."),
        ("слушай пять", "Не удалось понять длительность записи. Пример правильной команды: `слушай 5`."),
        ("слушай -5", "Не удалось понять длительность записи. Пример правильной команды: `слушай 5`."),
        ("слушай 99999999999", "Не удалось понять длительность записи. Пример правильной команды: `слушай 5`."),
        ("слушай 0", "Длительность записи должна быть больше нуля."),
        ("слушай 31", "Для первого шага ограничим запись 30 секундами. Попробуй, например, `слушай 5`."),
        ("слушай 4294967295", "Для первого шага ограничим запись 30 секундами. Попробуй, например, `слушай 5`."),
    ];
    for (text, message) in cases {
        let d = think(text);
        assert!(matches!(d.kind, ReplyKind::Info), "{text}");
        assert_eq!(d.message, message, "{text}");
        assert!(d.action.is_none(), "{text}");
    }
}

#[test]
fn playback_phrases_play_the_last_recording() {
    for text in [
        "прослушай запись",
        "проиграй запись",
        "воспроизведи запись",
        "проиграй последнюю запись",
        "воспроизведи последнюю запись",
        "Play Recording",
    ] {
        let d = think(text);
        assert_eq!(d.message, "Пробую воспроизвести последнюю сохраненную запись.");
        assert!(matches!(expect_action(&d), Action::PlayLastRecording), "{text}");
    }
}

#[test]
fn repeat_keeps_the_trimmed_phrase() {
    let d = think("Повтори   Привет, мир  ");
    assert_eq!(d.message, "Исполняю локальное действие `RepeatText`.");
    match expect_action(&d) {
        Action::RepeatText(text) => assert_eq!(text, "привет, мир"),
        other => panic!("unexpected {other:?}"),
    }
    let d = think("скажи да");
    match expect_action(&d) {
        Action::RepeatText(text) => assert_eq!(text, "да"),
        other => panic!("unexpected {other:?}"),
    }
}

#[test]
fn suggestions_follow_the_keywords() {
    let cases = [
        ("предложи что-нибудь про файлы", "Предлагаю безопасную команду: `покажи файлы`."),
        ("предложи про время", "Предлагаю команду: `который час`."),
        ("предложи повторить", "Попробуй команду: `повтори привет, я изучаю Rust`."),
        ("предложи микрофон", "Попробуй голосовую команду: `слушай 5`."),
        ("предложи проиграть", "После записи можно ввести `прослушай запись`."),
        ("suggest", "Можно начать с одной из команд: `который час`, `покажи файлы`, `повтори привет`, `выход`."),
    ];
    for (text, message) in cases {
        let d = think(text);
        assert!(matches!(d.kind, ReplyKind::Suggestion), "{text}");
        assert_eq!(d.message, message, "{text}");
    }
}

#[test]
fn unknown_request_quotes_the_original_text() {
    let d = think("  Сделай Кофе ");
    assert!(matches!(d.kind, ReplyKind::Suggestion));
    assert_eq!(
        d.message,
        "Я пока не понял запрос `Сделай Кофе`. Начни с `помощь` или попроси: `предложи команду`."
    );
    assert!(d.action.is_none());
}

#[test]
fn rules_apply_in_order() {
    // A help phrase wins over a time phrase in the same request.
    let d = think("что умеешь и который час");
    assert!(d.action.is_none());
    // A listing phrase wins over a repeat prefix.
    let d = think("повтори покажи файлы");
    assert!(matches!(expect_action(&d), Action::ListCurrentDirectory));
    // A repeat with a blank tail is not a repeat.
    let d = think("повтори    ");
    assert!(matches!(d.kind, ReplyKind::Suggestion));
}

#[test]
fn decision_constructors_set_kind_and_flags() {
    let d = Decision::inform("a".to_string());
    assert!(matches!(d.kind, ReplyKind::Info) && d.action.is_none() && !d.should_exit);
    let d = Decision::suggest("b".to_string());
    assert!(matches!(d.kind, ReplyKind::Suggestion) && d.action.is_none() && !d.should_exit);
    let d = Decision::execute("c".to_string(), Action::ShowLocalTime);
    assert!(matches!(d.kind, ReplyKind::Info) && d.action.is_some() && !d.should_exit);
    let d = Decision::exit("d".to_string());
    assert!(matches!(d.kind, ReplyKind::Info) && d.action.is_none() && d.should_exit);
    assert_eq!(d.message, "d");
}

#[test]
fn byte_order_mark_and_spaces_before_a_command_are_ignored() {
    let d = think("\u{feff} Помощь");
    assert!(d.message.starts_with("JARVIS пока работает"));
    let d = think("\u{feff}  выход");
    assert!(d.should_exit);
}

#[test]
fn duration_parser_accepts_two_words_in_range() {
    let brain = RuleBasedBrain::new("JARVIS");
    assert_eq!(brain.parse_recording_duration("слушай 5"), Ok(Some(5)));
    assert_eq!(brain.parse_recording_duration("  record   30 "), Ok(Some(30)));
    assert_eq!(brain.parse_recording_duration("запиши 1"), Ok(Some(1)));
}

#[test]
fn duration_parser_ignores_other_requests() {
    let brain = RuleBasedBrain::new("JARVIS");
    assert_eq!(brain.parse_recording_duration(""), Ok(None));
    assert_eq!(brain.parse_recording_duration("   "), Ok(None));
    assert_eq!(brain.parse_recording_duration("покажи файлы"), Ok(None));
    assert_eq!(brain.parse_recording_duration("слушайте 5"), Ok(None));
}

#[test]
fn duration_parser_refuses_malformed_recording_requests() {
    let brain = RuleBasedBrain::new("JARVIS");
    assert_eq!(
        brain.parse_recording_duration("слушай"),
        Err("Для записи укажи длительность, например: `слушай 5` или `запиши 5`.".to_string())
    );
    assert_eq!(
        brain.parse_recording_duration("слушай 5 секунд"),
        Err("Пока поддерживается только формат `слушай <секунды>`, например `слушай 5`.".to_string())
    );
    assert_eq!(
        brain.parse_recording_duration("слушай пять"),
        Err("Не удалось понять длительность записи. Пример правильной команды: `слушай 5`.".to_string())
    );
    assert_eq!(
        brain.parse_recording_duration("слушай 0"),
        Err("Длительность записи должна быть больше нуля.".to_string())
    );
    assert_eq!(
        brain.parse_recording_duration("record 31"),
        Err("Для первого шага ограничим запись 30 секундами. Попробуй, например, `слушай 5`.".to_string())
    );
}
