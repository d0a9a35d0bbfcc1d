//! The local executor's decisions: which outside work an action needs, how
//! each result is reported, and what it remembers of the last recording.
//! Reading the clock and the directory, recording and playing sound are the
//! driver's outside work; their results come back to the methods here.

use vstd::prelude::*;
use vstd::string::*;
use vstd::relations::sorted_by;
use crate::audio::MicrophoneRecorder;
use crate::order::{lemma_text_order_is_total, sort_texts, text_order, texts};
use crate::audio::message_option_view;
use crate::text::{append_chars, append_str, chars_of, decimal, push_decimal, string_of, trim, trim_chars};
use crate::types::Action;

verus! {

/// How many directory entries a listing shows before it cuts off.
pub const DEFAULT_MAX_VISIBLE_ENTRIES: usize = 12;

pub const LOCAL_TIME_HEAD: &'static str = "Сейчас ";

pub const LOCAL_TIME_TAIL: &'static str = ".";

pub const REPEAT_HEAD: &'static str = "Повторяю: ";

pub const NO_RECORDING_ERROR: &'static str =
    "Пока нет последней записи для воспроизведения. Сначала выполни `слушай 5`.";

pub const PLAYBACK_DONE_HEAD: &'static str = "Воспроизведение завершено.\nФайл: ";

pub const DIRECTORY_MARK: &'static str = "[DIR]  ";

pub const FILE_MARK: &'static str = "[FILE] ";

pub const FOLDER_HEAD: &'static str = "Папка ";

pub const FOLDER_EMPTY_TAIL: &'static str = " пуста.";

pub const FOLDER_COUNT_HEAD: &'static str = " содержит ";

pub const FOLDER_COUNT_TAIL: &'static str = " объектов:\n";

pub const HIDDEN_HEAD: &'static str = "\n... и еще ";

pub const HIDDEN_TAIL: &'static str = " объектов не показаны, чтобы не захламлять вывод.";

pub const CLIP_HEAD: &'static str = "Запись завершена.\nУстройство: ";

pub const CLIP_FILE: &'static str = "\nФайл: ";

pub const CLIP_FORMAT: &'static str = "\nФормат: ";

pub const CLIP_RATE_TAIL: &'static str = " Hz, ";

pub const CLIP_CHANNELS_TAIL: &'static str = " канал(а), 16-bit PCM\nСэмплов записано: ";

pub const CLIP_DURATION: &'static str = "\nПримерная длительность: ";

pub const CLIP_TAIL: &'static str =
    " сек.\nЧтобы прослушать последнюю запись, введи `прослушай запись`.";

pub const TIME_FALLBACK_HEAD: &'static str = "не удалось красиво получить локальное время, UNIX=";

pub const TIME_UNAVAILABLE: &'static str = "не удалось получить текущее время";

pub const PLAYER_SCRIPT_HEAD: &'static str = "$path = '";

pub const PLAYER_SCRIPT_TAIL: &'static str =
    "'; $player = New-Object System.Media.SoundPlayer $path; $player.Load(); $player.PlaySync()";

pub const PLAYER_FAILED_HEAD: &'static str =
    "Не удалось воспроизвести WAV-файл через системный плеер: ";

pub const PLAYER_NO_DETAILS: &'static str = "PowerShell завершился с ошибкой без текста.";

pub const PLAYER_MISSING_FILE_HEAD: &'static str = "Файл последней записи не найден: ";

pub const PLAYBACK_INTERRUPTED: &'static str = "Воспроизведение было прервано сигналом Ctrl+C.";

/// How often the driver looks at a running player, in milliseconds.
pub const PLAYER_POLL_INTERVAL_MILLIS: u64 = 25;

/// One entry of a directory, as read from the file system.
pub struct DirectoryEntry {
    /// The entry's file name.
    pub name: String,
    /// Whether the entry is a directory.
    pub is_dir: bool,
}

/// What a finished recording reports.
pub struct ClipReport {
    /// The name of the input device.
    pub device_name: String,
    /// Where the WAV file was written, as displayed.
    pub output_path: String,
    /// Frames per second.
    pub sample_rate: u32,
    /// Number of channels.
    pub channels: u16,
    /// Number of samples written (all channels).
    pub captured_samples: usize,
    /// The clip's length in seconds, written with two decimals.
    pub approx_duration: String,
}

/// The outside work an action needs, or its result when it needs none.
pub enum ExecutorTask {
    /// Nothing to do outside; this is the action's result.
    Done(Result<String, String>),
    /// Read the local time.
    ReadLocalTime,
    /// Read the current directory.
    ReadCurrentDirectory,
    /// Record a clip of the given length.
    RecordClip { duration_secs: u32 },
    /// Play the WAV file at `path`.
    PlayFile { path: String },
}

// ---------------------------------------------------------------------------
// Reports
// ---------------------------------------------------------------------------

/// The local time shown: the shell's answer when it gave a non-blank one,
/// else the Unix time in seconds, else a note that the time is unknown.
pub open spec fn local_time_text(shell_output: Option<Seq<char>>, unix_secs: Option<u64>) -> Seq<
    char,
> {
    if shell_output is Some && trim(shell_output->Some_0).len() > 0 {
        trim(shell_output->Some_0)
    } else if let Some(secs) = unix_secs {
        TIME_FALLBACK_HEAD@ + decimal(secs as nat)
    } else {
        TIME_UNAVAILABLE@
    }
}

/// `s` with every single quote doubled, as a single-quoted shell string needs.
pub open spec fn escape_single_quotes(s: Seq<char>) -> Seq<char>
    decreases s.len(),
{
    if s.len() == 0 {
        seq![]
    } else {
        escape_single_quotes(s.drop_last()) + if s.last() == '\'' {
            seq!['\'', '\'']
        } else {
            seq![s.last()]
        }
    }
}

/// The shell script that plays the WAV file at `full_path` and waits for it.
pub open spec fn playback_script_text(full_path: Seq<char>) -> Seq<char> {
    PLAYER_SCRIPT_HEAD@ + escape_single_quotes(full_path) + PLAYER_SCRIPT_TAIL@
}

/// Why playing failed: the player's error output, else its normal output,
/// else a note that it said nothing (each without surrounding white space).
pub open spec fn playback_failure_text(stderr: Seq<char>, stdout: Seq<char>) -> Seq<char> {
    PLAYER_FAILED_HEAD@ + if trim(stderr).len() > 0 {
        trim(stderr)
    } else if trim(stdout).len() > 0 {
        trim(stdout)
    } else {
        PLAYER_NO_DETAILS@
    }
}

/// The error for a last recording whose file, displayed as `path`, is gone.
pub open spec fn missing_recording_text(path: Seq<char>) -> Seq<char> {
    PLAYER_MISSING_FILE_HEAD@ + path
}

/// The report for the local time `time`.
pub open spec fn local_time_report(time: Seq<char>) -> Seq<char> {
    LOCAL_TIME_HEAD@ + time + LOCAL_TIME_TAIL@
}

/// The report for repeating `text`.
pub open spec fn repeat_report(text: Seq<char>) -> Seq<char> {
    REPEAT_HEAD@ + text
}

/// The report after the file at `path` was played.
pub open spec fn playback_report(path: Seq<char>) -> Seq<char> {
    PLAYBACK_DONE_HEAD@ + path
}

/// An entry's line in a listing: its kind mark, then its name.
pub open spec fn entry_line(entry: DirectoryEntry) -> Seq<char> {
    (if entry.is_dir {
        DIRECTORY_MARK@
    } else {
        FILE_MARK@
    }) + entry.name@
}

/// The lines of `entries`, in the order of texts.
pub open spec fn listing_lines(entries: Seq<DirectoryEntry>) -> Seq<Seq<char>> {
    entries.map_values(|e: DirectoryEntry| entry_line(e)).sort_by(text_order())
}

/// `lines` joined by line breaks.
pub open spec fn join_lines(lines: Seq<Seq<char>>) -> Seq<char>
    decreases lines.len(),
{
    if lines.len() == 0 {
        seq![]
    } else if lines.len() == 1 {
        lines[0]
    } else {
        join_lines(lines.drop_last()) + seq!['\n'] + lines.last()
    }
}

/// The listing of the directory displayed as `directory` with the sorted
/// lines `lines`, showing at most `max_visible` of them.
pub open spec fn listing_report(directory: Seq<char>, lines: Seq<Seq<char>>, max_visible: nat) -> Seq<
    char,
> {
    if lines.len() == 0 {
        FOLDER_HEAD@ + directory + FOLDER_EMPTY_TAIL@
    } else {
        let shown = if lines.len() > max_visible {
            lines.take(max_visible as int)
        } else {
            lines
        };
        let head = FOLDER_HEAD@ + directory + FOLDER_COUNT_HEAD@ + decimal(lines.len())
            + FOLDER_COUNT_TAIL@ + join_lines(shown);
        if lines.len() > max_visible {
            head + HIDDEN_HEAD@ + decimal((lines.len() - max_visible) as nat) + HIDDEN_TAIL@
        } else {
            head
        }
    }
}

/// The report of a finished recording.
pub open spec fn clip_report_text(clip: ClipReport) -> Seq<char> {
    CLIP_HEAD@ + clip.device_name@ + CLIP_FILE@ + clip.output_path@ + CLIP_FORMAT@ + decimal(
        clip.sample_rate as nat,
    ) + CLIP_RATE_TAIL@ + decimal(clip.channels as nat) + CLIP_CHANNELS_TAIL@ + decimal(
        clip.captured_samples as nat,
    ) + CLIP_DURATION@ + clip.approx_duration@ + CLIP_TAIL@
}

/// The work planned for `action` when the last recording is `last`.
pub open spec fn plans(last: Option<Seq<char>>, action: Action, task: ExecutorTask) -> bool {
    match action {
        Action::ShowLocalTime => task is ReadLocalTime,
        Action::ListCurrentDirectory => task is ReadCurrentDirectory,
        Action::RecordMicrophoneClip { duration_secs } => task == (ExecutorTask::RecordClip {
            duration_secs,
        }),
        Action::PlayLastRecording => match last {
            None => task matches ExecutorTask::Done(Err(e)) && e@ == NO_RECORDING_ERROR@,
            Some(p) => task matches ExecutorTask::PlayFile { path } && path@ == p,
        },
        Action::RepeatText(text) => task matches ExecutorTask::Done(Ok(report)) && report@
            == repeat_report(text@),
    }
}

/// A recording's result moves the last recording from `pre` to `post` and
/// gives `r`.
pub open spec fn records(
    pre: Option<Seq<char>>,
    recorded: Result<ClipReport, String>,
    post: Option<Seq<char>>,
    r: Result<String, String>,
) -> bool {
    match recorded {
        Ok(clip) => post == Some(clip.output_path@) && (r matches Ok(report) && report@
            == clip_report_text(clip)),
        Err(error) => post == pre && r == Err::<String, String>(error),
    }
}

/// Playing the last recording `last`, when playing the file went `played`, gives `r`.
pub open spec fn plays(last: Option<Seq<char>>, played: Result<(), String>, r: Result<
    String,
    String,
>) -> bool {
    match last {
        None => r matches Err(e) && e@ == NO_RECORDING_ERROR@,
        Some(path) => match played {
            Ok(()) => r matches Ok(report) && report@ == playback_report(path),
            Err(error) => r == Err::<String, String>(error),
        },
    }
}

/// A cleanup's result moves the last recording from `pre` to `post` and gives `r`.
pub open spec fn cleans(
    pre: Option<Seq<char>>,
    cleaned: Result<usize, String>,
    post: Option<Seq<char>>,
    r: Result<(), String>,
) -> bool {
    match cleaned {
        Ok(_) => post is None && r is Ok,
        Err(error) => post == pre && r == Err::<(), String>(error),
    }
}

fn concat_three(head: &str, middle: &str, tail: &str) -> (r: String)
    ensures
        r@ == head@ + middle@ + tail@,
{
    let mut r = String::from_str(head);
    r.append(middle);
    r.append(tail);
    r
}

fn join_lines_chars(lines: &Vec<Vec<char>>, count: usize, out: &mut Vec<char>)
    requires
        count <= lines.len(),
    ensures
        final(out)@ == old(out)@ + join_lines(texts(lines@).take(count as int)),
{
    let ghost start = out@;
    let ghost all = texts(lines@);
    for i in 0..count
        invariant
            count <= lines.len(),
            all == texts(lines@),
            out@ == start + join_lines(all.take(i as int)),
    {
        proof {
            let next = all.take(i + 1);
            assert(next.drop_last() =~= all.take(i as int));
            assert(next.last() == lines@[i as int]@);
        }
        if i > 0 {
            out.push('\n');
        }
        append_chars(out, &lines[i]);
        proof {
            if i == 0 {
                assert(all.take(1) =~= seq![lines@[0]@]);
            }
        }
    }
}

// ---------------------------------------------------------------------------
// The executor
// ---------------------------------------------------------------------------

/// Runs the assistant's safe local actions.
pub struct LocalExecutor {
    max_visible_entries: usize,
    microphone_recorder: MicrophoneRecorder,
    last_recording_path: Option<String>,
}

impl LocalExecutor {
    /// How many entries a listing shows.
    pub closed spec fn spec_max_visible_entries(&self) -> usize {
        self.max_visible_entries
    }

    /// Where the last successful recording was written, if any.
    pub closed spec fn spec_last_recording(&self) -> Option<Seq<char>> {
        match self.last_recording_path {
            Some(p) => Some(p@),
            None => None,
        }
    }

    /// The recorder used for clips.
    pub closed spec fn spec_recorder(&self) -> MicrophoneRecorder {
        self.microphone_recorder
    }

    /// An executor that shows 12 entries per listing, with a fresh recorder
    /// and no recording yet.
    pub fn new() -> (r: Self)
        ensures
            r.spec_max_visible_entries() == DEFAULT_MAX_VISIBLE_ENTRIES,
            r.spec_last_recording() is None,
            r.spec_recorder().spec_output_directory() == crate::audio::RECORDINGS_DIRECTORY@,
            r.spec_recorder().spec_max_duration_secs() == crate::audio::DEFAULT_MAX_DURATION_SECS,
            r.spec_recorder().spec_poll_interval_millis()
                == crate::audio::DEFAULT_POLL_INTERVAL_MILLIS,
            r.spec_recorder().spec_completion_grace_secs()
                == crate::audio::DEFAULT_COMPLETION_GRACE_SECS,
    {
        LocalExecutor {
            max_visible_entries: DEFAULT_MAX_VISIBLE_ENTRIES,
            microphone_recorder: MicrophoneRecorder::new(),
            last_recording_path: None,
        }
    }

    /// The recorder used for clips.
    pub fn microphone_recorder(&self) -> (r: &MicrophoneRecorder)
        ensures
            *r == self.spec_recorder(),
    {
        &self.microphone_recorder
    }

    /// The outside work `action` needs, or its result when it needs none.
    pub fn plan(&self, action: &Action) -> (r: ExecutorTask)
        ensures
            plans(self.spec_last_recording(), *action, r),
    {
        match action {
            Action::ShowLocalTime => ExecutorTask::ReadLocalTime,
            Action::ListCurrentDirectory => ExecutorTask::ReadCurrentDirectory,
            Action::RecordMicrophoneClip { duration_secs } => ExecutorTask::RecordClip {
                duration_secs: *duration_secs,
            },
            Action::PlayLastRecording => match &self.last_recording_path {
                None => ExecutorTask::Done(Err(String::from_str(NO_RECORDING_ERROR))),
                Some(path) => ExecutorTask::PlayFile { path: path.clone() },
            },
            Action::RepeatText(text) => {
                let mut report = String::from_str(REPEAT_HEAD);
                report.append(text.as_str());
                ExecutorTask::Done(Ok(report))
            },
        }
    }

    /// The local time to show, from the shell's answer (`None` when the
    /// shell could not be run or failed) and the Unix time in seconds
    /// (`None` when the clock is before the epoch).
    pub fn local_time_string(&self, shell_output: Option<String>, unix_secs: Option<u64>) -> (r:
        String)
        ensures
            r@ == local_time_text(message_option_view(shell_output), unix_secs),
    {
        if let Some(output) = &shell_output {
            let text = trim_chars(&chars_of(output.as_str()));
            if text.len() > 0 {
                return string_of(&text);
            }
        }
        match unix_secs {
            Some(secs) => {
                let mut out = chars_of(TIME_FALLBACK_HEAD);
                push_decimal(&mut out, secs as u128);
                string_of(&out)
            },
            None => String::from_str(TIME_UNAVAILABLE),
        }
    }

    /// The shell script that plays the WAV file at `full_path`.
    pub fn playback_script(full_path: &str) -> (r: String)
        ensures
            r@ == playback_script_text(full_path@),
    {
        let path = chars_of(full_path);
        let mut out = chars_of(PLAYER_SCRIPT_HEAD);
        let ghost head = out@;
        for i in 0..path.len()
            invariant
                out@ == head + escape_single_quotes(path@.take(i as int)),
        {
            let c = path[i];
            if c == '\'' {
                out.push('\'');
                out.push('\'');
            } else {
                out.push(c);
            }
            proof {
                assert(path@.take(i + 1).drop_last() =~= path@.take(i as int));
                assert(path@.take(i + 1).last() == c);
                assert(out@ =~= head + escape_single_quotes(path@.take(i + 1)));
            }
        }
        assert(path@.take(path.len() as int) =~= path@);
        append_str(&mut out, PLAYER_SCRIPT_TAIL);
        string_of(&out)
    }

    /// The error for a player that failed with outputs `stderr` and `stdout`.
    pub fn playback_failure(stderr: &str, stdout: &str) -> (r: String)
        ensures
            r@ == playback_failure_text(stderr@, stdout@),
    {
        let err = trim_chars(&chars_of(stderr));
        let out = trim_chars(&chars_of(stdout));
        let mut message = chars_of(PLAYER_FAILED_HEAD);
        if err.len() > 0 {
            append_chars(&mut message, &err);
        } else if out.len() > 0 {
            append_chars(&mut message, &out);
        } else {
            append_str(&mut message, PLAYER_NO_DETAILS);
        }
        string_of(&message)
    }

    /// The error for a last recording whose file, displayed as `path`, is
    /// no longer there.
    pub fn missing_recording_file(path: &str) -> (r: String)
        ensures
            r@ == missing_recording_text(path@),
    {
        let mut r = String::from_str(PLAYER_MISSING_FILE_HEAD);
        r.append(path);
        r
    }

    /// The error for a playback that a shutdown request stopped.
    pub fn playback_interrupted() -> (r: String)
        ensures
            r@ == PLAYBACK_INTERRUPTED@,
    {
        String::from_str(PLAYBACK_INTERRUPTED)
    }

    /// The report for the local time `time`.
    pub fn show_local_time(&self, time: &str) -> (r: String)
        ensures
            r@ == local_time_report(time@),
    {
        concat_three(LOCAL_TIME_HEAD, time, LOCAL_TIME_TAIL)
    }

    /// The listing of the directory displayed as `directory` with `entries`:
    /// each entry marked as directory or file, sorted, the first ones shown
    /// and the rest counted.
    pub fn list_current_directory(&self, directory: &str, entries: &Vec<DirectoryEntry>) -> (r:
        String)
        ensures
            r@ == listing_report(
                directory@,
                listing_lines(entries@),
                self.spec_max_visible_entries() as nat,
            ),
    {
        let mut lines: Vec<Vec<char>> = Vec::new();
        let ghost marked = entries@.map_values(|e: DirectoryEntry| entry_line(e));
        for i in 0..entries.len()
            invariant
                marked == entries@.map_values(|e: DirectoryEntry| entry_line(e)),
                texts(lines@) == marked.take(i as int),
        {
            let mut line: Vec<char> = Vec::new();
            if entries[i].is_dir {
                append_str(&mut line, DIRECTORY_MARK);
            } else {
                append_str(&mut line, FILE_MARK);
            }
            let name = chars_of(entries[i].name.as_str());
            append_chars(&mut line, &name);
            assert(line@ =~= entry_line(entries@[i as int]));
            assert(marked[i as int] == entry_line(entries@[i as int]));
            let ghost before = texts(lines@);
            lines.push(line);
            assert(texts(lines@) =~= before.push(entry_line(entries@[i as int])));
            assert(texts(lines@) =~= marked.take(i + 1));
        }
        assert(marked.take(entries.len() as int) =~= marked);
        let sorted = sort_texts(lines);
        let ghost sorted_lines = texts(sorted@);
        assert(sorted_lines == listing_lines(entries@));
        let total = sorted.len();
        let mut out: Vec<char> = Vec::new();
        append_str(&mut out, FOLDER_HEAD);
        append_str(&mut out, directory);
        if total == 0 {
            append_str(&mut out, FOLDER_EMPTY_TAIL);
            return string_of(&out);
        }
        append_str(&mut out, FOLDER_COUNT_HEAD);
        push_decimal(&mut out, total as u128);
        append_str(&mut out, FOLDER_COUNT_TAIL);
        let shown = if total > self.max_visible_entries {
            self.max_visible_entries
        } else {
            total
        };
        join_lines_chars(&sorted, shown, &mut out);
        assert(total <= self.max_visible_entries ==> sorted_lines.take(shown as int)
            =~= sorted_lines);
        if total > self.max_visible_entries {
            append_str(&mut out, HIDDEN_HEAD);
            push_decimal(&mut out, (total - self.max_visible_entries) as u128);
            append_str(&mut out, HIDDEN_TAIL);
        }
        string_of(&out)
    }

    /// Remembers a finished recording and reports on it; a failed recording
    /// changes nothing and its error is passed on.
    pub fn record_microphone_clip(&mut self, recorded: Result<ClipReport, String>) -> (r: Result<
        String,
        String,
    >)
        ensures
            records(old(self).spec_last_recording(), recorded, final(self).spec_last_recording(), r),
            final(self).spec_max_visible_entries() == old(self).spec_max_visible_entries(),
            final(self).spec_recorder() == old(self).spec_recorder(),
    {
        match recorded {
            Err(error) => Err(error),
            Ok(clip) => {
                let mut out: Vec<char> = Vec::new();
                append_str(&mut out, CLIP_HEAD);
                append_str(&mut out, clip.device_name.as_str());
                append_str(&mut out, CLIP_FILE);
                append_str(&mut out, clip.output_path.as_str());
                append_str(&mut out, CLIP_FORMAT);
                push_decimal(&mut out, clip.sample_rate as u128);
                append_str(&mut out, CLIP_RATE_TAIL);
                push_decimal(&mut out, clip.channels as u128);
                append_str(&mut out, CLIP_CHANNELS_TAIL);
                push_decimal(&mut out, clip.captured_samples as u128);
                append_str(&mut out, CLIP_DURATION);
                append_str(&mut out, clip.approx_duration.as_str());
                append_str(&mut out, CLIP_TAIL);
                let report = string_of(&out);
                self.last_recording_path = Some(clip.output_path);
                Ok(report)
            },
        }
    }

    /// The result of playing the last recording, given how playing the file went.
    pub fn play_last_recording(&self, played: Result<(), String>) -> (r: Result<String, String>)
        ensures
            plays(self.spec_last_recording(), played, r),
    {
        match &self.last_recording_path {
            None => Err(String::from_str(NO_RECORDING_ERROR)),
            Some(path) => match played {
                Ok(()) => {
                    let mut report = String::from_str(PLAYBACK_DONE_HEAD);
                    report.append(path.as_str());
                    Ok(report)
                },
                Err(error) => Err(error),
            },
        }
    }

    /// Forgets the recordings once their directory was removed; a failed
    /// cleanup changes nothing and its error is passed on.
    pub fn cleanup_temporary_recordings(&mut self, cleaned: Result<usize, String>) -> (r: Result<
        (),
        String,
    >)
        ensures
            cleans(old(self).spec_last_recording(), cleaned, final(self).spec_last_recording(), r),
            final(self).spec_max_visible_entries() == old(self).spec_max_visible_entries(),
            final(self).spec_recorder() == old(self).spec_recorder(),
    {
        match cleaned {
            Ok(_) => {
                self.last_recording_path = None;
                Ok(())
            },
            Err(error) => Err(error),
        }
    }
}


// ---------------------------------------------------------------------------
// Laws
// ---------------------------------------------------------------------------

/// What was recorded last is what is played back next.
pub proof fn lemma_playback_after_recording(
    pre: Option<Seq<char>>,
    clip: ClipReport,
    post: Option<Seq<char>>,
    report: Result<String, String>,
    task: ExecutorTask,
)
    requires
        records(pre, Ok(clip), post, report),
        plans(post, Action::PlayLastRecording, task),
    ensures
        task matches ExecutorTask::PlayFile { path } && path@ == clip.output_path@,
{
}

/// A failed recording leaves the last recording as it was.
pub proof fn lemma_failed_recording_changes_nothing(
    pre: Option<Seq<char>>,
    error: String,
    post: Option<Seq<char>>,
    report: Result<String, String>,
)
    requires
        records(pre, Err(error), post, report),
    ensures
        post == pre,
        report == Err::<String, String>(error),
{
}

/// After a successful cleanup there is nothing to play back.
pub proof fn lemma_nothing_to_play_after_cleanup(
    pre: Option<Seq<char>>,
    removed: usize,
    post: Option<Seq<char>>,
    r: Result<(), String>,
    task: ExecutorTask,
)
    requires
        cleans(pre, Ok(removed), post, r),
        plans(post, Action::PlayLastRecording, task),
    ensures
        task matches ExecutorTask::Done(Err(e)) && e@ == NO_RECORDING_ERROR@,
{
}

/// An empty directory is reported as empty. When every line fits, a listing
/// is its header followed by all the lines
/// and nothing else, and a larger limit gives the same listing; only a
/// directory with more lines than the limit gets the note on hidden entries,
/// which counts exactly the lines left out.
pub proof fn lemma_listing_limit(directory: Seq<char>, lines: Seq<Seq<char>>, max_visible: nat)
    ensures
        lines.len() == 0 ==> listing_report(directory, lines, max_visible) == FOLDER_HEAD@
            + directory + FOLDER_EMPTY_TAIL@,
        0 < lines.len() <= max_visible ==> listing_report(directory, lines, max_visible) == FOLDER_HEAD@
            + directory + FOLDER_COUNT_HEAD@ + decimal(lines.len()) + FOLDER_COUNT_TAIL@
            + join_lines(lines),
        0 < lines.len() <= max_visible ==> forall|other: nat|
            #![trigger listing_report(directory, lines, other)]
            lines.len() <= other ==> listing_report(directory, lines, other) == listing_report(
                directory,
                lines,
                max_visible,
            ),
        lines.len() > max_visible ==> listing_report(directory, lines, max_visible) == FOLDER_HEAD@
            + directory + FOLDER_COUNT_HEAD@ + decimal(lines.len()) + FOLDER_COUNT_TAIL@
            + join_lines(lines.take(max_visible as int)) + HIDDEN_HEAD@ + decimal(
            (lines.len() - max_visible) as nat,
        ) + HIDDEN_TAIL@,
{
}

/// The lines of a listing are the entries' lines, each once, in the order of
/// texts.
pub proof fn lemma_listing_is_sorted_permutation(entries: Seq<DirectoryEntry>)
    ensures
        sorted_by(listing_lines(entries), text_order()),
        listing_lines(entries).to_multiset() == entries.map_values(
            |e: DirectoryEntry| entry_line(e),
        ).to_multiset(),
        listing_lines(entries).len() == entries.len(),
{
    lemma_text_order_is_total();
    let marked = entries.map_values(|e: DirectoryEntry| entry_line(e));
    marked.lemma_sort_by_ensures(text_order());
    vstd::seq_lib::to_multiset_len(marked);
    vstd::seq_lib::to_multiset_len(listing_lines(entries));
}

/// A listing does not depend on the order in which the directory was read.
pub proof fn lemma_listing_ignores_read_order(a: Seq<DirectoryEntry>, b: Seq<DirectoryEntry>)
    requires
        a.map_values(|e: DirectoryEntry| entry_line(e)).to_multiset() == b.map_values(
            |e: DirectoryEntry| entry_line(e),
        ).to_multiset(),
    ensures
        listing_lines(a) == listing_lines(b),
{
    lemma_text_order_is_total();
    lemma_listing_is_sorted_permutation(a);
    lemma_listing_is_sorted_permutation(b);
    vstd::seq_lib::lemma_sorted_unique(listing_lines(a), listing_lines(b), text_order());
}

} // verus!
