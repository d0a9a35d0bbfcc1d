//! The decisions of the microphone recorder: which durations it accepts, how
//! many samples a clip needs, how captured samples are buffered, what a
//! finished capture amounts to, and how a recording file is named.
//! Opening the device, running the stream and writing the WAV file are the
//! driver's outside work.

use vstd::prelude::*;
use vstd::string::*;
use crate::text::{append_str, decimal, push_decimal, string_of};

verus! {

pub const RECORDINGS_DIRECTORY: &'static str = "recordings";

pub const DEFAULT_MAX_DURATION_SECS: u32 = 30;

pub const DEFAULT_POLL_INTERVAL_MILLIS: u64 = 25;

pub const DEFAULT_COMPLETION_GRACE_SECS: u64 = 2;

pub const ZERO_DURATION_ERROR: &'static str = "Длительность записи должна быть больше нуля.";

pub const DURATION_LIMIT_HEAD: &'static str = "Для учебного шага ограничим запись ";

pub const DURATION_LIMIT_TAIL: &'static str = " секундами.";

pub const INTERRUPTED_ERROR: &'static str = "Запись была прервана сигналом Ctrl+C.";

pub const STREAM_ERROR_PREFIX: &'static str = "Во время записи произошла ошибка аудио-потока: ";

pub const NOT_FINISHED_ERROR: &'static str =
    "Запись не завершилась вовремя. Возможно, микрофон не начал отдавать данные.";

pub const NO_SAMPLES_ERROR: &'static str =
    "Микрофон не вернул ни одного сэмпла. Проверь устройство ввода и права доступа.";

pub const RECORDING_FILE_PREFIX: &'static str = "jarvis-recording-";

pub const RECORDING_FILE_SUFFIX: &'static str = ".wav";

/// Records short clips from the default input device into WAV files.
pub struct MicrophoneRecorder {
    output_directory: String,
    max_duration_secs: u32,
    poll_interval_millis: u64,
    completion_grace_secs: u64,
}

/// The message that refuses a clip longer than `max` seconds.
pub open spec fn duration_limit_message(max: u32) -> Seq<char> {
    DURATION_LIMIT_HEAD@ + decimal(max as nat) + DURATION_LIMIT_TAIL@
}

/// Which clip lengths a recorder with limit `max` accepts, and why not.
pub open spec fn duration_check(duration_secs: u32, max: u32) -> Result<(), Seq<char>> {
    if duration_secs == 0 {
        Err(ZERO_DURATION_ERROR@)
    } else if duration_secs > max {
        Err(duration_limit_message(max))
    } else {
        Ok(())
    }
}

/// What a finished capture amounts to: interrupted, failed in the stream,
/// timed out, empty, or good.
pub open spec fn capture_result(
    shutdown_requested: bool,
    stream_error: Option<Seq<char>>,
    finished: bool,
    captured_samples: nat,
) -> Result<(), Seq<char>> {
    if shutdown_requested {
        Err(INTERRUPTED_ERROR@)
    } else if let Some(error) = stream_error {
        Err(STREAM_ERROR_PREFIX@ + error)
    } else if !finished {
        Err(NOT_FINISHED_ERROR@)
    } else if captured_samples == 0 {
        Err(NO_SAMPLES_ERROR@)
    } else {
        Ok(())
    }
}

/// The model of a `Result<(), String>`.
pub open spec fn unit_result_view(r: Result<(), String>) -> Result<(), Seq<char>> {
    match r {
        Ok(()) => Ok(()),
        Err(e) => Err(e@),
    }
}

/// The model of an optional message.
pub open spec fn message_option_view(m: Option<String>) -> Option<Seq<char>> {
    match m {
        Some(s) => Some(s@),
        None => None,
    }
}

/// The slot after an error `message` was reported: the first error stays.
pub open spec fn keep_first_error(slot: Option<String>, message: String) -> Option<String> {
    if slot is None {
        Some(message)
    } else {
        slot
    }
}

/// The file name of a recording made `unix_millis` milliseconds after the epoch.
pub open spec fn recording_file_name_text(unix_millis: u128) -> Seq<char> {
    RECORDING_FILE_PREFIX@ + decimal(unix_millis as nat) + RECORDING_FILE_SUFFIX@
}

/// How many samples a clip holds: one per channel per frame.
pub open spec fn sample_count(sample_rate: u32, duration_secs: u32, channels: u16) -> int {
    sample_rate * duration_secs * channels
}

/// The buffer after a chunk of `chunk` arrived at a buffer `buffer` that
/// needs `target` samples in all: the chunk is cut to what is still missing.
pub open spec fn buffer_after_chunk(buffer: Seq<i16>, chunk: Seq<i16>, target: int) -> Seq<i16> {
    if buffer.len() >= target {
        buffer
    } else if chunk.len() <= target - buffer.len() {
        buffer + chunk
    } else {
        buffer + chunk.take(target - buffer.len())
    }
}

/// What happens to a running capture: a chunk of converted samples arrives,
/// or the stream reports an error.
pub enum CaptureEvent {
    Samples(Seq<i16>),
    Failure(String),
}

/// The shared state of a running capture: the samples kept, whether the
/// capture is finished, and the first stream error.
pub struct CaptureState {
    pub samples: Seq<i16>,
    pub finished: bool,
    pub error: Option<String>,
}

/// A capture before any callback: no samples, not finished, no error.
pub open spec fn capture_start() -> CaptureState {
    CaptureState { samples: Seq::empty(), finished: false, error: None }
}

/// The samples and the finished flag after a chunk arrives: a finished
/// capture ignores it; otherwise the chunk is buffered up to `target` and the
/// capture is finished once the buffer holds `target` samples.
pub open spec fn chunk_step(samples: Seq<i16>, finished: bool, chunk: Seq<i16>, target: int) -> (
    Seq<i16>,
    bool,
) {
    if finished {
        (samples, true)
    } else {
        let after = buffer_after_chunk(samples, chunk, target);
        (after, after.len() >= target)
    }
}

/// One callback of a capture that needs `target` samples.
pub open spec fn capture_step(state: CaptureState, event: CaptureEvent, target: int) -> CaptureState {
    match event {
        CaptureEvent::Samples(chunk) => {
            let (samples, finished) = chunk_step(state.samples, state.finished, chunk, target);
            CaptureState { samples, finished, error: state.error }
        },
        CaptureEvent::Failure(message) => CaptureState {
            samples: state.samples,
            finished: true,
            error: keep_first_error(state.error, message),
        },
    }
}

/// The capture after the callbacks `events`, in order.
pub open spec fn capture_run(events: Seq<CaptureEvent>, target: int) -> CaptureState
    decreases events.len(),
{
    if events.len() == 0 {
        capture_start()
    } else {
        capture_step(capture_run(events.drop_last(), target), events.last(), target)
    }
}

/// All samples the stream delivered, in order.
pub open spec fn delivered(events: Seq<CaptureEvent>) -> Seq<i16>
    decreases events.len(),
{
    if events.len() == 0 {
        Seq::empty()
    } else {
        match events.last() {
            CaptureEvent::Samples(chunk) => delivered(events.drop_last()) + chunk,
            CaptureEvent::Failure(_) => delivered(events.drop_last()),
        }
    }
}

/// The first error the stream reported, if any.
pub open spec fn first_failure(events: Seq<CaptureEvent>) -> Option<String>
    decreases events.len(),
{
    if events.len() == 0 {
        None
    } else {
        match events.last() {
            CaptureEvent::Failure(message) => keep_first_error(
                first_failure(events.drop_last()),
                message,
            ),
            CaptureEvent::Samples(_) => first_failure(events.drop_last()),
        }
    }
}

impl MicrophoneRecorder {
    /// The directory the recordings go to.
    pub closed spec fn spec_output_directory(&self) -> Seq<char> {
        self.output_directory@
    }

    /// The longest accepted clip, in seconds.
    pub closed spec fn spec_max_duration_secs(&self) -> u32 {
        self.max_duration_secs
    }

    /// How often the driver looks at a running capture, in milliseconds.
    pub closed spec fn spec_poll_interval_millis(&self) -> u64 {
        self.poll_interval_millis
    }

    /// How long past the clip's length the driver waits for the stream, in seconds.
    pub closed spec fn spec_completion_grace_secs(&self) -> u64 {
        self.completion_grace_secs
    }

    /// A recorder that writes into `recordings`, accepts clips up to 30
    /// seconds, polls every 25 ms and waits 2 s past a clip's length.
    pub fn new() -> (r: Self)
        ensures
            r.spec_output_directory() == RECORDINGS_DIRECTORY@,
            r.spec_max_duration_secs() == DEFAULT_MAX_DURATION_SECS,
            r.spec_poll_interval_millis() == DEFAULT_POLL_INTERVAL_MILLIS,
            r.spec_completion_grace_secs() == DEFAULT_COMPLETION_GRACE_SECS,
    {
        MicrophoneRecorder {
            output_directory: String::from_str(RECORDINGS_DIRECTORY),
            max_duration_secs: DEFAULT_MAX_DURATION_SECS,
            poll_interval_millis: DEFAULT_POLL_INTERVAL_MILLIS,
            completion_grace_secs: DEFAULT_COMPLETION_GRACE_SECS,
        }
    }

    /// The directory the recordings go to.
    pub fn output_directory(&self) -> (r: &str)
        ensures
            r@ == self.spec_output_directory(),
    {
        self.output_directory.as_str()
    }

    /// The longest accepted clip, in seconds.
    pub fn max_duration_secs(&self) -> (r: u32)
        ensures
            r == self.spec_max_duration_secs(),
    {
        self.max_duration_secs
    }

    /// How often the driver looks at a running capture, in milliseconds.
    pub fn poll_interval_millis(&self) -> (r: u64)
        ensures
            r == self.spec_poll_interval_millis(),
    {
        self.poll_interval_millis
    }

    /// How long past the clip's length the driver waits for the stream, in seconds.
    pub fn completion_grace_secs(&self) -> (r: u64)
        ensures
            r == self.spec_completion_grace_secs(),
    {
        self.completion_grace_secs
    }

    /// Whether a clip of `duration_secs` seconds may be recorded.
    pub fn check_duration(&self, duration_secs: u32) -> (r: Result<(), String>)
        ensures
            unit_result_view(r) == duration_check(duration_secs, self.spec_max_duration_secs()),
    {
        if duration_secs == 0 {
            return Err(String::from_str(ZERO_DURATION_ERROR));
        }
        if duration_secs > self.max_duration_secs {
            let mut buf: Vec<char> = Vec::new();
            append_str(&mut buf, DURATION_LIMIT_HEAD);
            push_decimal(&mut buf, self.max_duration_secs as u128);
            append_str(&mut buf, DURATION_LIMIT_TAIL);
            return Err(string_of(&buf));
        }
        Ok(())
    }

    /// How many samples a clip of `duration_secs` seconds holds at
    /// `sample_rate` frames per second with `channels` channels.
    pub fn target_sample_count(sample_rate: u32, duration_secs: u32, channels: u16) -> (r: usize)
        requires
            sample_count(sample_rate, duration_secs, channels) <= usize::MAX,
        ensures
            r == sample_count(sample_rate, duration_secs, channels),
    {
        let rate = sample_rate as u128;
        let secs = duration_secs as u128;
        let chans = channels as u128;
        assert(rate * secs <= 0xffff_ffff_u128 * 0xffff_ffff_u128) by (nonlinear_arith)
            requires
                rate <= 0xffff_ffff,
                secs <= 0xffff_ffff,
        ;
        let frames = rate * secs;
        assert(frames * chans <= 0xffff_ffff_ffff_ffff_u128 * 0xffff_u128) by (nonlinear_arith)
            requires
                frames <= 0xffff_ffff_ffff_ffff,
                chans <= 0xffff,
        ;
        let total = frames * chans;
        total as usize
    }

    /// Takes a chunk of converted samples into `buffer`, which needs `target`
    /// samples in all; says whether the clip is complete.
    pub fn append_samples(buffer: &mut Vec<i16>, chunk: &[i16], target: usize) -> (finished: bool)
        ensures
            final(buffer)@ == buffer_after_chunk(old(buffer)@, chunk@, target as int),
            finished == (final(buffer)@.len() >= target),
    {
        if buffer.len() >= target {
            return true;
        }
        let remaining = target - buffer.len();
        let ghost start = buffer@;
        let take = if chunk.len() < remaining {
            chunk.len()
        } else {
            remaining
        };
        for i in 0..take
            invariant
                take <= chunk@.len(),
                buffer@ == start + chunk@.take(i as int),
        {
            buffer.push(chunk[i]);
            assert(chunk@.take(i + 1) =~= chunk@.take(i as int).push(chunk@[i as int]));
        }
        assert(chunk@.take(take as int) =~= chunk@ || take < chunk.len());
        buffer.len() >= target
    }

    /// The data callback of a capture: a chunk arriving at a buffer whose
    /// capture is `finished` is ignored; otherwise it is buffered up to
    /// `target` samples. Says whether the capture is finished now.
    pub fn accept_chunk(buffer: &mut Vec<i16>, finished: bool, chunk: &[i16], target: usize) -> (now_finished: bool)
        ensures
            (final(buffer)@, now_finished) == chunk_step(old(buffer)@, finished, chunk@, target as int),
    {
        if finished {
            return true;
        }
        Self::append_samples(buffer, chunk, target)
    }

    /// What a finished capture amounts to.
    pub fn capture_outcome(
        shutdown_requested: bool,
        stream_error: Option<String>,
        finished: bool,
        captured_samples: usize,
    ) -> (r: Result<(), String>)
        ensures
            unit_result_view(r) == capture_result(
                shutdown_requested,
                message_option_view(stream_error),
                finished,
                captured_samples as nat,
            ),
    {
        if shutdown_requested {
            return Err(String::from_str(INTERRUPTED_ERROR));
        }
        if let Some(error) = stream_error {
            let mut message = String::from_str(STREAM_ERROR_PREFIX);
            message.append(error.as_str());
            return Err(message);
        }
        if !finished {
            return Err(String::from_str(NOT_FINISHED_ERROR));
        }
        if captured_samples == 0 {
            return Err(String::from_str(NO_SAMPLES_ERROR));
        }
        Ok(())
    }

    /// The file name of a recording made `unix_millis` milliseconds after the epoch.
    pub fn recording_file_name(unix_millis: u128) -> (r: String)
        ensures
            r@ == recording_file_name_text(unix_millis),
    {
        let mut buf: Vec<char> = Vec::new();
        append_str(&mut buf, RECORDING_FILE_PREFIX);
        push_decimal(&mut buf, unix_millis);
        append_str(&mut buf, RECORDING_FILE_SUFFIX);
        string_of(&buf)
    }

    /// Keeps the first stream error: `message` goes into `slot` only if it is empty.
    pub fn store_stream_error(slot: &mut Option<String>, message: String)
        ensures
            *final(slot) == keep_first_error(*old(slot), message),
    {
        if slot.is_none() {
            *slot = Some(message);
        }
    }
}

/// A full buffer stays as it is; otherwise the buffer grows by the chunk,
/// cut so that it never goes past the target, and keeps what it held.
pub proof fn lemma_buffer_never_overfills(buffer: Seq<i16>, chunk: Seq<i16>, target: int)
    ensures
        buffer.is_prefix_of(buffer_after_chunk(buffer, chunk, target)),
        buffer.len() < target ==> buffer_after_chunk(buffer, chunk, target).len() <= target,
        buffer.len() >= target ==> buffer_after_chunk(buffer, chunk, target) == buffer,
        buffer.len() < target && chunk.len() >= target - buffer.len() ==> buffer_after_chunk(
            buffer,
            chunk,
            target,
        ).len() == target,
{
    let after = buffer_after_chunk(buffer, chunk, target);
    assert(after.subrange(0, buffer.len() as int) =~= buffer);
}

/// Over any run of callbacks on a capture that needs `target` samples: the
/// buffer never holds more than `target` samples, it is the start of what the
/// stream delivered (all of it while the capture runs), a full buffer means
/// the capture is finished, a capture that finished without an error holds
/// exactly `target` samples, and the error kept is the first one reported.
pub proof fn lemma_capture_run(events: Seq<CaptureEvent>, target: int)
    requires
        target >= 0,
    ensures
        capture_run(events, target).samples.len() <= target,
        capture_run(events, target).samples.is_prefix_of(delivered(events)),
        !capture_run(events, target).finished ==> capture_run(events, target).samples
            == delivered(events),
        capture_run(events, target).error == first_failure(events),
        capture_run(events, target).error is Some ==> capture_run(events, target).finished,
        (target > 0 || events.len() > 0) ==> (capture_run(events, target).samples.len() == target
            ==> capture_run(events, target).finished),
        capture_run(events, target).finished && capture_run(events, target).error is None
            ==> capture_run(events, target).samples.len() == target,
    decreases events.len(),
{
    if events.len() > 0 {
        let prev = events.drop_last();
        lemma_capture_run(prev, target);
        let before = capture_run(prev, target);
        let d = delivered(prev);
        match events.last() {
            CaptureEvent::Samples(chunk) => {
                assert(delivered(events) == d + chunk);
                if !before.finished {
                    lemma_buffer_never_overfills(before.samples, chunk, target);
                    let after = buffer_after_chunk(before.samples, chunk, target);
                    assert(after.subrange(0, after.len() as int) =~= (d + chunk).subrange(
                        0,
                        after.len() as int,
                    ));
                } else {
                    assert(before.samples.subrange(0, before.samples.len() as int) =~= (d
                        + chunk).subrange(0, before.samples.len() as int));
                }
            },
            CaptureEvent::Failure(_) => {},
        }
    }
}

/// Once a capture is finished, later callbacks leave its samples as they are.
pub proof fn lemma_finished_capture_is_frozen(events: Seq<CaptureEvent>, i: int, j: int, target: int)
    requires
        0 <= i <= j <= events.len(),
        capture_run(events.take(i), target).finished,
    ensures
        capture_run(events.take(j), target).finished,
        capture_run(events.take(j), target).samples == capture_run(events.take(i), target).samples,
    decreases j - i,
{
    if j > i {
        lemma_finished_capture_is_frozen(events, i, j - 1, target);
        assert(events.take(j).drop_last() =~= events.take(j - 1));
    }
}

/// A capture succeeds exactly when no shutdown was asked for, the stream
/// reported no error, it finished and it delivered samples. Without a
/// shutdown, a reported stream error is the outcome, whether or not the
/// capture finished and however many samples it holds.
pub proof fn lemma_capture_outcome_laws(
    shutdown_requested: bool,
    stream_error: Option<Seq<char>>,
    finished: bool,
    captured_samples: nat,
)
    ensures
        capture_result(shutdown_requested, stream_error, finished, captured_samples) is Ok
            <==> (!shutdown_requested && stream_error is None && finished && captured_samples
            > 0),
        shutdown_requested ==> capture_result(
            shutdown_requested,
            stream_error,
            finished,
            captured_samples,
        ) == Err::<(), Seq<char>>(INTERRUPTED_ERROR@),
        forall|error: Seq<char>|
            #![trigger capture_result(false, Some(error), finished, captured_samples)]
            capture_result(false, Some(error), finished, captured_samples) == Err::<
                (),
                Seq<char>,
            >(STREAM_ERROR_PREFIX@ + error),
        (!shutdown_requested && stream_error is None && !finished) ==> capture_result(
            shutdown_requested,
            stream_error,
            finished,
            captured_samples,
        ) == Err::<(), Seq<char>>(NOT_FINISHED_ERROR@),
        (!shutdown_requested && stream_error is None && finished && captured_samples == 0)
            ==> capture_result(shutdown_requested, stream_error, finished, captured_samples)
            == Err::<(), Seq<char>>(NO_SAMPLES_ERROR@),
{
}

/// Once an error is stored, later errors leave it in place.
pub proof fn lemma_first_stream_error_kept(slot: Option<String>, first: String, second: String)
    ensures
        keep_first_error(keep_first_error(slot, first), second) == keep_first_error(slot, first),
        slot is None ==> keep_first_error(keep_first_error(slot, first), second) == Some(first),
{
}

} // verus!
