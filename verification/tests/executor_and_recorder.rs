use jarvis::audio::MicrophoneRecorder;
use jarvis::executor::{ClipReport, DirectoryEntry, ExecutorTask, LocalExecutor};
use jarvis::types::Action;

fn entry(name: &str, is_dir: bool) -> DirectoryEntry {
    DirectoryEntry { name: name.to_string(), is_dir }
}

fn clip(path: &str) -> ClipReport {
    ClipReport {
        device_name: "Mic".to_string(),
        output_path: path.to_string(),
        sample_rate: 48000,
        channels: 2,
        captured_samples: 96000,
        approx_duration: "1.00".to_string(),
    }
}

#[test]
fn repeat_and_time_reports() {
    let e = LocalExecutor::new();
    match e.plan(&Action::RepeatText("привет".to_string())) {
        ExecutorTask::Done(Ok(report)) => assert_eq!(report, "Повторяю: привет"),
        _ => panic!("expected a finished repeat"),
    }
    assert!(matches!(e.plan(&Action::ShowLocalTime), ExecutorTask::ReadLocalTime));
    assert_eq!(e.show_local_time("12:30:00"), "Сейчас 12:30:00.");
    assert!(matches!(e.plan(&Action::ListCurrentDirectory), ExecutorTask::ReadCurrentDirectory));
    assert!(matches!(
        e.plan(&Action::RecordMicrophoneClip { duration_secs: 7 }),
        ExecutorTask::RecordClip { duration_secs: 7 }
    ));
}

#[test]
fn empty_directory_listing() {
    let e = LocalExecutor::new();
    assert_eq!(e.list_current_directory("/tmp/x", &Vec::new()), "Папка /tmp/x пуста.");
}

#[test]
fn directory_listing_is_marked_and_sorted() {
    let e = LocalExecutor::new();
    let entries = vec![entry("b.txt", false), entry("src", true), entry("a.txt", false), entry("Я", false)];
    assert_eq!(
        e.list_current_directory("/w", &entries),
        "Папка /w содержит 4 объектов:\n[DIR]  src\n[FILE] a.txt\n[FILE] b.txt\n[FILE] Я"
    );
}

#[test]
fn long_directory_listing_is_cut_at_twelve() {
    let e = LocalExecutor::new();
    let mut entries = Vec::new();
    for i in (0..15).rev() {
        entries.push(entry(&format!("f{i:02}"), false));
    }
    let mut expected: Vec<String> = Vec::new();
    for i in 0..15 {
        expected.push(format!("[FILE] f{i:02}"));
    }
    expected.sort();
    let want = format!(
        "Папка d содержит 15 объектов:\n{}\n... и еще 3 объектов не показаны, чтобы не захламлять вывод.",
        expected[..12].join("\n")
    );
    assert_eq!(e.list_current_directory("d", &entries), want);
}

#[test]
fn listing_order_is_the_string_order() {
    let e = LocalExecutor::new();
    let names = ["z", "ä", "a", "ab", "A", "файл", "Б", "_x", "a b"];
    let entries: Vec<DirectoryEntry> = names.iter().map(|n| entry(n, false)).collect();
    let mut lines: Vec<String> = names.iter().map(|n| format!("[FILE] {n}")).collect();
    lines.sort();
    let want = format!("Папка . содержит 9 объектов:\n{}", lines.join("\n"));
    assert_eq!(e.list_current_directory(".", &entries), want);
}

#[test]
fn playback_needs_a_recording() {
    let e = LocalExecutor::new();
    match e.plan(&Action::PlayLastRecording) {
        ExecutorTask::Done(Err(message)) => assert_eq!(
            message,
            "Пока нет последней записи для воспроизведения. Сначала выполни `слушай 5`."
        ),
        _ => panic!("expected the no-recording error"),
    }
    assert!(e.play_last_recording(Ok(())).is_err());
}

#[test]
fn recording_is_remembered_and_played_back() {
    let mut e = LocalExecutor::new();
    let report = e.record_microphone_clip(Ok(clip("recordings/jarvis-recording-1.wav"))).unwrap();
    assert_eq!(
        report,
        "Запись завершена.\nУстройство: Mic\nФайл: recordings/jarvis-recording-1.wav\nФормат: 48000 Hz, 2 канал(а), 16-bit PCM\nСэмплов записано: 96000\nПримерная длительность: 1.00 сек.\nЧтобы прослушать последнюю запись, введи `прослушай запись`."
    );
    match e.plan(&Action::PlayLastRecording) {
        ExecutorTask::PlayFile { path } => assert_eq!(path, "recordings/jarvis-recording-1.wav"),
        _ => panic!("expected playback"),
    }
    assert_eq!(
        e.play_last_recording(Ok(())),
        Ok("Воспроизведение завершено.\nФайл: recordings/jarvis-recording-1.wav".to_string())
    );
    assert_eq!(e.play_last_recording(Err("сломано".to_string())), Err("сломано".to_string()));
}

#[test]
fn failed_recording_keeps_the_previous_one() {
    let mut e = LocalExecutor::new();
    let _ = e.record_microphone_clip(Ok(clip("first.wav")));
    assert_eq!(e.record_microphone_clip(Err("нет микрофона".to_string())), Err("нет микрофона".to_string()));
    assert!(matches!(e.plan(&Action::PlayLastRecording), ExecutorTask::PlayFile { path } if path == "first.wav"));
}

#[test]
fn cleanup_forgets_the_recording_only_on_success() {
    let mut e = LocalExecutor::new();
    let _ = e.record_microphone_clip(Ok(clip("first.wav")));
    assert_eq!(e.cleanup_temporary_recordings(Err("busy".to_string())), Err("busy".to_string()));
    assert!(matches!(e.plan(&Action::PlayLastRecording), ExecutorTask::PlayFile { .. }));
    assert_eq!(e.cleanup_temporary_recordings(Ok(3)), Ok(()));
    assert!(matches!(e.plan(&Action::PlayLastRecording), ExecutorTask::Done(Err(_))));
}

#[test]
fn recorder_defaults() {
    let r = MicrophoneRecorder::new();
    assert_eq!(r.output_directory(), "recordings");
    assert_eq!(r.max_duration_secs(), 30);
    assert_eq!(r.poll_interval_millis(), 25);
    assert_eq!(r.completion_grace_secs(), 2);
    let e = LocalExecutor::new();
    assert_eq!(e.microphone_recorder().output_directory(), "recordings");
}

#[test]
fn recorder_duration_limits() {
    let r = MicrophoneRecorder::new();
    assert_eq!(r.check_duration(0), Err("Длительность записи должна быть больше нуля.".to_string()));
    assert_eq!(r.check_duration(31), Err("Для учебного шага ограничим запись 30 секундами.".to_string()));
    assert_eq!(r.check_duration(1), Ok(()));
    assert_eq!(r.check_duration(30), Ok(()));
}

#[test]
fn target_sample_count_multiplies() {
    assert_eq!(MicrophoneRecorder::target_sample_count(48000, 5, 2), 480000);
    assert_eq!(MicrophoneRecorder::target_sample_count(44100, 30, 1), 1323000);
}

#[test]
fn samples_are_buffered_up_to_the_target() {
    let mut buffer: Vec<i16> = Vec::new();
    assert!(!MicrophoneRecorder::append_samples(&mut buffer, &[1, 2, 3], 5));
    assert_eq!(buffer, vec![1, 2, 3]);
    assert!(MicrophoneRecorder::append_samples(&mut buffer, &[4, 5, 6, 7], 5));
    assert_eq!(buffer, vec![1, 2, 3, 4, 5]);
    assert!(MicrophoneRecorder::append_samples(&mut buffer, &[8], 5));
    assert_eq!(buffer, vec![1, 2, 3, 4, 5]);
}

#[test]
fn capture_outcomes_in_order() {
    let err = |s: &str| Err::<(), String>(s.to_string());
    assert_eq!(
        MicrophoneRecorder::capture_outcome(true, Some("x".to_string()), false, 0),
        err("Запись была прервана сигналом Ctrl+C.")
    );
    assert_eq!(
        MicrophoneRecorder::capture_outcome(false, Some("x".to_string()), false, 0),
        err("Во время записи произошла ошибка аудио-потока: x")
    );
    assert_eq!(
        MicrophoneRecorder::capture_outcome(false, None, false, 10),
        err("Запись не завершилась вовремя. Возможно, микрофон не начал отдавать данные.")
    );
    assert_eq!(
        MicrophoneRecorder::capture_outcome(false, None, true, 0),
        err("Микрофон не вернул ни одного сэмпла. Проверь устройство ввода и права доступа.")
    );
    assert_eq!(MicrophoneRecorder::capture_outcome(false, None, true, 10), Ok(()));
}

#[test]
fn recording_file_name_has_the_timestamp() {
    assert_eq!(
        MicrophoneRecorder::recording_file_name(1712345678901),
        "jarvis-recording-1712345678901.wav"
    );
    assert_eq!(MicrophoneRecorder::recording_file_name(0), "jarvis-recording-0.wav");
}

#[test]
fn first_stream_error_is_kept() {
    let mut slot: Option<String> = None;
    MicrophoneRecorder::store_stream_error(&mut slot, "first".to_string());
    MicrophoneRecorder::store_stream_error(&mut slot, "second".to_string());
    assert_eq!(slot, Some("first".to_string()));
}

#[test]
fn local_time_prefers_the_shell_answer() {
    let e = LocalExecutor::new();
    assert_eq!(e.local_time_string(Some(" 12:34:56\r\n".to_string()), Some(5)), "12:34:56");
    assert_eq!(
        e.local_time_string(Some("  \n".to_string()), Some(1700000000)),
        "не удалось красиво получить локальное время, UNIX=1700000000"
    );
    assert_eq!(
        e.local_time_string(None, Some(0)),
        "не удалось красиво получить локальное время, UNIX=0"
    );
    assert_eq!(e.local_time_string(None, None), "не удалось получить текущее время");
}

#[test]
fn playback_script_doubles_single_quotes() {
    assert_eq!(
        LocalExecutor::playback_script("C:\\Users\\O'Neil\\a.wav"),
        "$path = 'C:\\Users\\O''Neil\\a.wav'; $player = New-Object System.Media.SoundPlayer $path; $player.Load(); $player.PlaySync()"
    );
}

#[test]
fn playback_failure_picks_the_details() {
    let head = "Не удалось воспроизвести WAV-файл через системный плеер: ";
    assert_eq!(LocalExecutor::playback_failure(" boom \n", "out"), format!("{head}boom"));
    assert_eq!(LocalExecutor::playback_failure("  ", " out "), format!("{head}out"));
    assert_eq!(
        LocalExecutor::playback_failure("", "\n"),
        format!("{head}PowerShell завершился с ошибкой без текста.")
    );
}

#[test]
fn finished_capture_ignores_chunks() {
    let mut buffer: Vec<i16> = Vec::new();
    assert!(!MicrophoneRecorder::accept_chunk(&mut buffer, false, &[1, 2], 4));
    assert!(MicrophoneRecorder::accept_chunk(&mut buffer, false, &[3, 4, 5], 4));
    assert_eq!(buffer, vec![1, 2, 3, 4]);
    assert!(MicrophoneRecorder::accept_chunk(&mut buffer, true, &[6], 10));
    assert_eq!(buffer, vec![1, 2, 3, 4]);
    let mut other: Vec<i16> = vec![9];
    assert!(MicrophoneRecorder::accept_chunk(&mut other, true, &[1, 2], 10));
    assert_eq!(other, vec![9]);
}

#[test]
fn new_executor_recorder_timing() {
    let e = LocalExecutor::new();
    assert_eq!(e.microphone_recorder().poll_interval_millis(), 25);
    assert_eq!(e.microphone_recorder().completion_grace_secs(), 2);
}

#[test]
fn playback_missing_file_and_interruption_messages() {
    assert_eq!(
        LocalExecutor::missing_recording_file("recordings/a.wav"),
        "Файл последней записи не найден: recordings/a.wav"
    );
    assert_eq!(
        LocalExecutor::playback_interrupted(),
        "Воспроизведение было прервано сигналом Ctrl+C."
    );
    assert_eq!(jarvis::executor::PLAYER_POLL_INTERVAL_MILLIS, 25);
}
