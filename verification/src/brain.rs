//! The rule-based brain: maps a normalized request to a decision with plain
//! text rules (exact phrases, contained phrases, prefixes and a small
//! `listen <seconds>` grammar).

use vstd::prelude::*;
use vstd::string::*;
use crate::interfaces::Brain;
use crate::text::{
    all_ascii_digits, append_str, chars_of, contains_seq, contains_str, decimal, digit_char,
    digit_value, digits_value, equals_str, is_ascii_digit, lemma_trim_edges, parse_u32,
    push_decimal, spec_is_whitespace, spec_parse_u32, split_whitespace, string_of, subrange_of,
    starts_with_str, trim, trim_chars, unsigned_digits, words,
};
use crate::types::{
    exit_view, execute_view, inform_view, suggest_view, Action, ActionView, Decision,
    DecisionView, ReplyKind, UserRequest,
};

verus! {

/// The longest clip, in seconds, that the brain lets the user ask for.
pub const MAX_REQUESTED_RECORDING_SECS: u32 = 30;

pub const EMPTY_REQUEST_REPLY: &'static str = "Я ничего не получил. Напиши команду или `помощь`.";

pub const HELP_TAIL: &'static str = " пока работает в учебном текстовом режиме.\n\
Доступные команды:\n\
- помощь\n\
- который час\n\
- покажи файлы\n\
- слушай <секунды>\n\
- запиши <секунды>\n\
- прослушай запись\n\
- проиграй запись\n\
- повтори <текст>\n\
- предложи команду\n\
- выход";

pub const FAREWELL: &'static str = "Завершаю работу. До связи.";

pub const LOCAL_TIME_NOTICE: &'static str = "Смотрю локальное время.";

pub const LISTING_NOTICE: &'static str = "Считываю содержимое текущей директории.";

pub const RECORDING_NOTICE_HEAD: &'static str = "Начинаю запись с микрофона на ";

pub const RECORDING_NOTICE_TAIL: &'static str = " сек. Говори сразу после этой строки.";

pub const PLAYBACK_NOTICE: &'static str = "Пробую воспроизвести последнюю сохраненную запись.";

pub const REPEAT_NOTICE: &'static str = "Исполняю локальное действие `RepeatText`.";

pub const UNKNOWN_HEAD: &'static str = "Я пока не понял запрос `";

pub const UNKNOWN_TAIL: &'static str = "`. Начни с `помощь` или попроси: `предложи команду`.";

pub const DURATION_MISSING: &'static str =
    "Для записи укажи длительность, например: `слушай 5` или `запиши 5`.";

pub const DURATION_EXTRA_WORDS: &'static str =
    "Пока поддерживается только формат `слушай <секунды>`, например `слушай 5`.";

pub const DURATION_UNREADABLE: &'static str =
    "Не удалось понять длительность записи. Пример правильной команды: `слушай 5`.";

pub const DURATION_ZERO: &'static str = "Длительность записи должна быть больше нуля.";

pub const DURATION_TOO_LONG: &'static str =
    "Для первого шага ограничим запись 30 секундами. Попробуй, например, `слушай 5`.";

pub const SUGGEST_FILES: &'static str = "Предлагаю безопасную команду: `покажи файлы`.";

pub const SUGGEST_TIME: &'static str = "Предлагаю команду: `который час`.";

pub const SUGGEST_REPEAT: &'static str = "Попробуй команду: `повтори привет, я изучаю Rust`.";

pub const SUGGEST_LISTEN: &'static str = "Попробуй голосовую команду: `слушай 5`.";

pub const SUGGEST_PLAYBACK: &'static str = "После записи можно ввести `прослушай запись`.";

pub const SUGGEST_DEFAULT: &'static str =
    "Можно начать с одной из команд: `который час`, `покажи файлы`, `повтори привет`, `выход`.";

// ---------------------------------------------------------------------------
// The rules, as specifications over the normalized text `t`
// ---------------------------------------------------------------------------

/// The help text for an assistant called `name`.
pub open spec fn help_text(name: Seq<char>) -> Seq<char> {
    name + HELP_TAIL@
}

pub open spec fn is_help_request(t: Seq<char>) -> bool {
    t == "помощь"@ || t == "help"@ || contains_seq(t, "что умеешь"@)
}

pub open spec fn is_exit_request(t: Seq<char>) -> bool {
    t == "выход"@ || t == "exit"@ || t == "quit"@
}

pub open spec fn is_time_request(t: Seq<char>) -> bool {
    contains_seq(t, "который час"@) || t == "время"@ || contains_seq(t, "сколько времени"@)
}

pub open spec fn is_listing_request(t: Seq<char>) -> bool {
    contains_seq(t, "покажи файлы"@) || contains_seq(t, "список файлов"@) || contains_seq(
        t,
        "что в папке"@,
    )
}

/// Whether `w` is a word that starts a recording command.
pub open spec fn is_recording_command(w: Seq<char>) -> bool {
    w == "слушай"@ || w == "запиши"@ || w == "record"@
}

/// The `listen <seconds>` grammar: not a recording command (`Ok(None)`), a
/// valid duration (`Ok(Some(..))`), or the message that explains what is wrong.
pub open spec fn recording_duration(t: Seq<char>) -> Result<Option<u32>, Seq<char>> {
    let w = words(t);
    if w.len() == 0 || !is_recording_command(w[0]) {
        Ok(None)
    } else if w.len() == 1 {
        Err(DURATION_MISSING@)
    } else if w.len() > 2 {
        Err(DURATION_EXTRA_WORDS@)
    } else {
        match spec_parse_u32(w[1]) {
            None => Err(DURATION_UNREADABLE@),
            Some(d) => if d == 0 {
                Err(DURATION_ZERO@)
            } else if d > MAX_REQUESTED_RECORDING_SECS {
                Err(DURATION_TOO_LONG@)
            } else {
                Ok(Some(d))
            },
        }
    }
}

/// The notice shown before recording `d` seconds.
pub open spec fn recording_notice(d: u32) -> Seq<char> {
    RECORDING_NOTICE_HEAD@ + decimal(d as nat) + RECORDING_NOTICE_TAIL@
}

pub open spec fn is_playback_request(t: Seq<char>) -> bool {
    ||| t == "прослушай запись"@
    ||| t == "проиграй запись"@
    ||| t == "воспроизведи запись"@
    ||| t == "проиграй последнюю запись"@
    ||| t == "воспроизведи последнюю запись"@
    ||| t == "play recording"@
}

/// The trimmed rest of `t` after the prefix `p`, when `t` starts with `p`
/// and the rest is not blank.
pub open spec fn tail_after(t: Seq<char>, p: Seq<char>) -> Option<Seq<char>> {
    if p.is_prefix_of(t) && trim(t.skip(p.len() as int)).len() > 0 {
        Some(trim(t.skip(p.len() as int)))
    } else {
        None
    }
}

/// The tail after the first of `prefixes` (from index `i` on) that gives one.
pub open spec fn tail_after_first(t: Seq<char>, prefixes: Seq<&str>, i: int) -> Option<Seq<char>>
    decreases prefixes.len() - i,
{
    if i < 0 || i >= prefixes.len() {
        None
    } else {
        match tail_after(t, prefixes[i]@) {
            Some(rest) => Some(rest),
            None => tail_after_first(t, prefixes, i + 1),
        }
    }
}

/// The phrase to repeat for `повтори <text>` or `скажи <text>`.
pub open spec fn repeat_phrase(t: Seq<char>) -> Option<Seq<char>> {
    match tail_after(t, "повтори "@) {
        Some(rest) => Some(rest),
        None => tail_after(t, "скажи "@),
    }
}

pub open spec fn is_suggestion_request(t: Seq<char>) -> bool {
    "предложи"@.is_prefix_of(t) || "suggest"@.is_prefix_of(t)
}

/// The suggestion offered for a `предложи ...` request.
pub open spec fn suggestion_for(t: Seq<char>) -> Seq<char> {
    if contains_seq(t, "файл"@) || contains_seq(t, "папк"@) {
        SUGGEST_FILES@
    } else if contains_seq(t, "врем"@) || contains_seq(t, "час"@) {
        SUGGEST_TIME@
    } else if contains_seq(t, "повтор"@) || contains_seq(t, "скажи"@) {
        SUGGEST_REPEAT@
    } else if contains_seq(t, "слуш"@) || contains_seq(t, "запиш"@) || contains_seq(
        t,
        "микрофон"@,
    ) {
        SUGGEST_LISTEN@
    } else if contains_seq(t, "запись"@) || contains_seq(t, "проигр"@) || contains_seq(
        t,
        "прослуш"@,
    ) {
        SUGGEST_PLAYBACK@
    } else {
        SUGGEST_DEFAULT@
    }
}

/// The reply for a request that matches no rule.
pub open spec fn unknown_reply(original: Seq<char>) -> Seq<char> {
    UNKNOWN_HEAD@ + original + UNKNOWN_TAIL@
}

/// The decision of the brain called `name` for a request with original text
/// `original` and normalized text `t`; the first rule that applies wins.
pub open spec fn decide(name: Seq<char>, original: Seq<char>, t: Seq<char>) -> DecisionView {
    if t.len() == 0 {
        inform_view(EMPTY_REQUEST_REPLY@)
    } else if is_help_request(t) {
        inform_view(help_text(name))
    } else if is_exit_request(t) {
        exit_view(FAREWELL@)
    } else if is_time_request(t) {
        execute_view(LOCAL_TIME_NOTICE@, ActionView::ShowLocalTime)
    } else if is_listing_request(t) {
        execute_view(LISTING_NOTICE@, ActionView::ListCurrentDirectory)
    } else if let Err(message) = recording_duration(t) {
        inform_view(message)
    } else if let Ok(Some(d)) = recording_duration(t) {
        execute_view(recording_notice(d), ActionView::RecordMicrophoneClip { duration_secs: d })
    } else if is_playback_request(t) {
        execute_view(PLAYBACK_NOTICE@, ActionView::PlayLastRecording)
    } else if let Some(phrase) = repeat_phrase(t) {
        execute_view(REPEAT_NOTICE@, ActionView::RepeatText(phrase))
    } else if is_suggestion_request(t) {
        suggest_view(suggestion_for(t))
    } else {
        suggest_view(unknown_reply(original))
    }
}

// ---------------------------------------------------------------------------
// The brain
// ---------------------------------------------------------------------------

/// A brain that answers with fixed rules.
pub struct RuleBasedBrain {
    assistant_name: String,
}

impl RuleBasedBrain {
    /// The name the brain introduces the assistant with.
    pub closed spec fn assistant_name(&self) -> Seq<char> {
        self.assistant_name@
    }

    /// A brain for the assistant called `assistant_name`.
    pub fn new(assistant_name: &str) -> (r: Self)
        ensures
            r.assistant_name() == assistant_name@,
    {
        RuleBasedBrain { assistant_name: String::from_str(assistant_name) }
    }

    fn help_message(&self) -> (r: String)
        ensures
            r@ == help_text(self.assistant_name()),
    {
        let mut r = self.assistant_name.clone();
        r.append(HELP_TAIL);
        r
    }

    fn build_suggestion(&self, text: &Vec<char>) -> (r: String)
        ensures
            r@ == suggestion_for(text@),
    {
        if contains_str(text, "файл") || contains_str(text, "папк") {
            return String::from_str(SUGGEST_FILES);
        }
        if contains_str(text, "врем") || contains_str(text, "час") {
            return String::from_str(SUGGEST_TIME);
        }
        if contains_str(text, "повтор") || contains_str(text, "скажи") {
            return String::from_str(SUGGEST_REPEAT);
        }
        if contains_str(text, "слуш") || contains_str(text, "запиш") || contains_str(
            text,
            "микрофон",
        ) {
            return String::from_str(SUGGEST_LISTEN);
        }
        if contains_str(text, "запись") || contains_str(text, "проигр") || contains_str(
            text,
            "прослуш",
        ) {
            return String::from_str(SUGGEST_PLAYBACK);
        }
        String::from_str(SUGGEST_DEFAULT)
    }

    fn extract_tail(&self, text: &Vec<char>, prefixes: &[&str]) -> (r: Option<Vec<char>>)
        ensures
            match r {
                Some(rest) => tail_after_first(text@, prefixes@, 0) == Some(rest@),
                None => tail_after_first(text@, prefixes@, 0) is None,
            },
    {
        let mut i: usize = 0;
        while i < prefixes.len()
            invariant
                0 <= i <= prefixes@.len(),
                tail_after_first(text@, prefixes@, 0) == tail_after_first(
                    text@,
                    prefixes@,
                    i as int,
                ),
            decreases prefixes.len() - i,
        {
            let prefix = chars_of(prefixes[i]);
            if prefix.len() <= text.len() {
                let head = subrange_of(text, 0, prefix.len());
                if crate::text::chars_equal(&head, &prefix) {
                    let rest = subrange_of(text, prefix.len(), text.len());
                    let trimmed = trim_chars(&rest);
                    assert(rest@ =~= text@.skip(prefix@.len() as int));
                    if trimmed.len() > 0 {
                        return Some(trimmed);
                    }
                }
            }
            i = i + 1;
        }
        None
    }

    /// Reads a `listen <seconds>` request. `Ok(None)` means the text is no
    /// recording request; `Ok(Some(n))` is an accepted length; `Err` holds
    /// the message that explains why a recording request was refused.
    pub fn parse_recording_duration(&self, text: &str) -> (r: Result<Option<u32>, String>)
        ensures
            match (r, recording_duration(text@)) {
                (Ok(got), Ok(want)) => got == want,
                (Err(got), Err(want)) => got@ == want,
                _ => false,
            },
            forall|n: u32|
                (r matches Ok(Some(m)) && m == n) <==> (words(text@).len() == 2
                    && is_recording_command(words(text@)[0]) && spec_parse_u32(words(text@)[1])
                    == Some(n) && 1 <= n <= MAX_REQUESTED_RECORDING_SECS),
            (r matches Ok(None)) <==> (words(text@).len() == 0 || !is_recording_command(
                words(text@)[0],
            )),
            r is Err <==> (words(text@).len() > 0 && is_recording_command(words(text@)[0]) && !(
            words(text@).len() == 2 && (spec_parse_u32(words(text@)[1]) matches Some(n) && 1 <= n
                <= MAX_REQUESTED_RECORDING_SECS))),
    {
        proof {
            lemma_recording_grammar(text@);
        }
        let text = chars_of(text);
        let parts = split_whitespace(&text);
        if parts.len() == 0 {
            return Ok(None);
        }
        let command = &parts[0];
        if !(equals_str(command, "слушай") || equals_str(command, "запиши") || equals_str(
            command,
            "record",
        )) {
            return Ok(None);
        }
        if parts.len() < 2 {
            return Err(String::from_str(DURATION_MISSING));
        }
        if parts.len() > 2 {
            return Err(String::from_str(DURATION_EXTRA_WORDS));
        }
        match parse_u32(&parts[1]) {
            None => Err(String::from_str(DURATION_UNREADABLE)),
            Some(duration_secs) => {
                if duration_secs == 0 {
                    Err(String::from_str(DURATION_ZERO))
                } else if duration_secs > MAX_REQUESTED_RECORDING_SECS {
                    Err(String::from_str(DURATION_TOO_LONG))
                } else {
                    Ok(Some(duration_secs))
                }
            },
        }
    }

    fn is_play_last_recording_command(&self, text: &Vec<char>) -> (r: bool)
        ensures
            r == is_playback_request(text@),
    {
        equals_str(text, "прослушай запись") || equals_str(text, "проиграй запись") || equals_str(
            text,
            "воспроизведи запись",
        ) || equals_str(text, "проиграй последнюю запись") || equals_str(
            text,
            "воспроизведи последнюю запись",
        ) || equals_str(text, "play recording")
    }
}

fn recording_notice_text(duration_secs: u32) -> (r: String)
    ensures
        r@ == recording_notice(duration_secs),
{
    let mut buf: Vec<char> = Vec::new();
    append_str(&mut buf, RECORDING_NOTICE_HEAD);
    push_decimal(&mut buf, duration_secs as u128);
    append_str(&mut buf, RECORDING_NOTICE_TAIL);
    string_of(&buf)
}

fn unknown_reply_text(original: &String) -> (r: String)
    ensures
        r@ == unknown_reply(original@),
{
    let mut r = String::from_str(UNKNOWN_HEAD);
    r.append(original.as_str());
    r.append(UNKNOWN_TAIL);
    r
}

impl Brain for RuleBasedBrain {
    fn think(&mut self, request: &UserRequest) -> (d: Decision)
        ensures
            d@ == decide(
                old(self).assistant_name(),
                request.original_text@,
                request.normalized_text@,
            ),
            *final(self) == *old(self),
    {
        let text = chars_of(request.normalized_text.as_str());
        if request.is_empty() {
            return Decision::inform(String::from_str(EMPTY_REQUEST_REPLY));
        }
        if equals_str(&text, "помощь") || equals_str(&text, "help") || contains_str(
            &text,
            "что умеешь",
        ) {
            return Decision::inform(self.help_message());
        }
        if equals_str(&text, "выход") || equals_str(&text, "exit") || equals_str(&text, "quit") {
            return Decision::exit(String::from_str(FAREWELL));
        }
        if contains_str(&text, "который час") || equals_str(&text, "время") || contains_str(
            &text,
            "сколько времени",
        ) {
            return Decision::execute(String::from_str(LOCAL_TIME_NOTICE), Action::ShowLocalTime);
        }
        if contains_str(&text, "покажи файлы") || contains_str(&text, "список файлов")
            || contains_str(&text, "что в папке") {
            return Decision::execute(
                String::from_str(LISTING_NOTICE),
                Action::ListCurrentDirectory,
            );
        }
        match self.parse_recording_duration(request.normalized_text.as_str()) {
            Ok(Some(duration_secs)) => {
                return Decision::execute(
                    recording_notice_text(duration_secs),
                    Action::RecordMicrophoneClip { duration_secs },
                );
            },
            Ok(None) => {},
            Err(error) => {
                return Decision::inform(error);
            },
        }
        if self.is_play_last_recording_command(&text) {
            return Decision::execute(String::from_str(PLAYBACK_NOTICE), Action::PlayLastRecording);
        }
        let prefixes: [&str; 2] = ["повтори ", "скажи "];
        let tail = self.extract_tail(&text, prefixes.as_slice());
        assert(tail_after_first(text@, prefixes@, 0) == repeat_phrase(text@)) by {
            reveal_with_fuel(tail_after_first, 3);
            assert(prefixes@.len() == 2);
            assert(prefixes@[0] == "повтори ");
            assert(prefixes@[1] == "скажи ");
            assert(tail_after_first(text@, prefixes@, 2) is None);
        }
        if let Some(phrase) = tail {
            return Decision::execute(
                String::from_str(REPEAT_NOTICE),
                Action::RepeatText(string_of(&phrase)),
            );
        }
        if starts_with_str(&text, "предложи") || starts_with_str(&text, "suggest") {
            return Decision::suggest(self.build_suggestion(&text));
        }
        Decision::suggest(unknown_reply_text(&request.original_text))
    }
}


// ---------------------------------------------------------------------------
// Laws of the rules
// ---------------------------------------------------------------------------

/// A recording is only ever asked for with a length from 1 to 30 seconds.
pub proof fn lemma_recording_length_in_range(name: Seq<char>, original: Seq<char>, t: Seq<char>)
    ensures
        decide(name, original, t).action matches Some(ActionView::RecordMicrophoneClip { duration_secs })
            ==> 1 <= duration_secs <= MAX_REQUESTED_RECORDING_SECS,
{
}

/// The brain only informs or suggests; an action always comes with an
/// informational message, only a farewell ends the loop, and every decision
/// has a message to show.
pub proof fn lemma_decision_shape(name: Seq<char>, original: Seq<char>, t: Seq<char>)
    ensures
        decide(name, original, t).kind == ReplyKind::Info || decide(name, original, t).kind
            == ReplyKind::Suggestion,
        decide(name, original, t).action is Some ==> decide(name, original, t).kind
            == ReplyKind::Info,
        decide(name, original, t).should_exit ==> decide(name, original, t).action is None
            && decide(name, original, t).message == FAREWELL@,
        decide(name, original, t).message.len() > 0,
{
    reveal_strlit("Я ничего не получил. Напиши команду или `помощь`.");
    reveal_strlit(" пока работает в учебном текстовом режиме.\n\
Доступные команды:\n\
- помощь\n\
- который час\n\
- покажи файлы\n\
- слушай <секунды>\n\
- запиши <секунды>\n\
- прослушай запись\n\
- проиграй запись\n\
- повтори <текст>\n\
- предложи команду\n\
- выход");
    reveal_strlit("Завершаю работу. До связи.");
    reveal_strlit("Смотрю локальное время.");
    reveal_strlit("Считываю содержимое текущей директории.");
    reveal_strlit("Начинаю запись с микрофона на ");
    reveal_strlit("Пробую воспроизвести последнюю сохраненную запись.");
    reveal_strlit("Исполняю локальное действие `RepeatText`.");
    reveal_strlit("Я пока не понял запрос `");
    reveal_strlit("Для записи укажи длительность, например: `слушай 5` или `запиши 5`.");
    reveal_strlit("Пока поддерживается только формат `слушай <секунды>`, например `слушай 5`.");
    reveal_strlit("Не удалось понять длительность записи. Пример правильной команды: `слушай 5`.");
    reveal_strlit("Длительность записи должна быть больше нуля.");
    reveal_strlit("Для первого шага ограничим запись 30 секундами. Попробуй, например, `слушай 5`.");
    reveal_strlit("Предлагаю безопасную команду: `покажи файлы`.");
    reveal_strlit("Предлагаю команду: `который час`.");
    reveal_strlit("Попробуй команду: `повтори привет, я изучаю Rust`.");
    reveal_strlit("Попробуй голосовую команду: `слушай 5`.");
    reveal_strlit("После записи можно ввести `прослушай запись`.");
    reveal_strlit("Можно начать с одной из команд: `который час`, `покажи файлы`, `повтори привет`, `выход`.");
}

/// The `listen <seconds>` grammar: a duration is accepted exactly for two
/// words, a recording command and a number from 1 to 30; it is not a
/// recording request exactly when there is no word or the first word is no
/// recording command; every other request of that form is refused with a
/// message.
pub proof fn lemma_recording_grammar(t: Seq<char>)
    ensures
        forall|n: u32|
            recording_duration(t) == Ok::<Option<u32>, Seq<char>>(Some(n)) <==> (words(t).len()
                == 2 && is_recording_command(words(t)[0]) && spec_parse_u32(words(t)[1]) == Some(
                n,
            ) && 1 <= n <= MAX_REQUESTED_RECORDING_SECS),
        recording_duration(t) == Ok::<Option<u32>, Seq<char>>(None) <==> (words(t).len() == 0
            || !is_recording_command(words(t)[0])),
        recording_duration(t) is Err <==> (words(t).len() > 0 && is_recording_command(words(t)[0])
            && !(words(t).len() == 2 && (spec_parse_u32(words(t)[1]) matches Some(n) && 1 <= n
            <= MAX_REQUESTED_RECORDING_SECS))),
{
}

/// Whether a numeral is written without leading zeros.
pub open spec fn no_leading_zero(digits: Seq<char>) -> bool {
    digits.len() > 0 && (digits[0] != '0' || digits.len() == 1)
}

proof fn lemma_decimal_no_leading_zero(n: nat)
    ensures
        decimal(n).len() > 0,
        n >= 10 ==> decimal(n).len() > 1 && decimal(n)[0] != '0',
        no_leading_zero(decimal(n)),
    decreases n,
{
    if n >= 10 {
        lemma_decimal_no_leading_zero(n / 10);
        assert(decimal(n) == decimal(n / 10).push(digit_char(n % 10)));
        assert(decimal(n)[0] == decimal(n / 10)[0]);
    }
}

/// The notice of a recording decision is the notice's head, then a number,
/// then its tail, and that number, written without leading zeros, reads back
/// as the length the action records.
pub proof fn lemma_recording_notice_names_length(name: Seq<char>, original: Seq<char>, t: Seq<char>)
    ensures
        forall|d: u32|
            decide(name, original, t).action == Some(
                ActionView::RecordMicrophoneClip { duration_secs: d },
            ) ==> {
                let m = decide(name, original, t).message;
                &&& RECORDING_NOTICE_HEAD@.is_prefix_of(m)
                &&& RECORDING_NOTICE_TAIL@.is_suffix_of(m)
                &&& RECORDING_NOTICE_HEAD@.len() + RECORDING_NOTICE_TAIL@.len() <= m.len()
                &&& spec_parse_u32(
                    m.subrange(
                        RECORDING_NOTICE_HEAD@.len() as int,
                        m.len() - RECORDING_NOTICE_TAIL@.len(),
                    ),
                ) == Some(d)
                &&& no_leading_zero(
                    m.subrange(
                        RECORDING_NOTICE_HEAD@.len() as int,
                        m.len() - RECORDING_NOTICE_TAIL@.len(),
                    ),
                )
            },
{
    assert forall|d: u32|
        decide(name, original, t).action == Some(
            ActionView::RecordMicrophoneClip { duration_secs: d },
        ) implies {
            let m = decide(name, original, t).message;
            &&& RECORDING_NOTICE_HEAD@.is_prefix_of(m)
            &&& RECORDING_NOTICE_TAIL@.is_suffix_of(m)
            &&& RECORDING_NOTICE_HEAD@.len() + RECORDING_NOTICE_TAIL@.len() <= m.len()
            &&& spec_parse_u32(
                m.subrange(
                    RECORDING_NOTICE_HEAD@.len() as int,
                    m.len() - RECORDING_NOTICE_TAIL@.len(),
                ),
            ) == Some(d)
            &&& no_leading_zero(
                m.subrange(
                    RECORDING_NOTICE_HEAD@.len() as int,
                    m.len() - RECORDING_NOTICE_TAIL@.len(),
                ),
            )
        } by {
        let m = decide(name, original, t).message;
        let h = RECORDING_NOTICE_HEAD@;
        let tl = RECORDING_NOTICE_TAIL@;
        let digits = decimal(d as nat);
        assert(m == recording_notice(d));
        lemma_decimal_reads_back(d);
        lemma_decimal_no_leading_zero(d as nat);
        assert(m.subrange(0, h.len() as int) =~= h);
        assert(m.subrange(m.len() - tl.len(), m.len() as int) =~= tl);
        assert(m.subrange(h.len() as int, m.len() - tl.len()) =~= digits);
    }
}

/// A suggestion request that mentions files or folders is answered with the
/// listing command, whatever else it mentions.
pub proof fn lemma_folder_suggestion(name: Seq<char>, original: Seq<char>, t: Seq<char>)
    ensures
        (contains_seq(t, "файл"@) || contains_seq(t, "папк"@)) ==> suggestion_for(t)
            == SUGGEST_FILES@,
        (is_suggestion_request(t) && decide(name, original, t).kind == ReplyKind::Suggestion && (
        contains_seq(t, "файл"@) || contains_seq(t, "папк"@))) ==> decide(
            name,
            original,
            t,
        ).message == SUGGEST_FILES@,
{
}

/// The topics of a suggestion request, in order of precedence: files or
/// folders, then time, then repeating, then recording, then playback; a
/// request that names none of them gets the general hint.
pub proof fn lemma_suggestion_topics(t: Seq<char>)
    ensures
        ({
            let files = contains_seq(t, "файл"@) || contains_seq(t, "папк"@);
            let time = contains_seq(t, "врем"@) || contains_seq(t, "час"@);
            let repeat = contains_seq(t, "повтор"@) || contains_seq(t, "скажи"@);
            let listen = contains_seq(t, "слуш"@) || contains_seq(t, "запиш"@) || contains_seq(
                t,
                "микрофон"@,
            );
            let playback = contains_seq(t, "запись"@) || contains_seq(t, "проигр"@)
                || contains_seq(t, "прослуш"@);
            &&& files ==> suggestion_for(t) == SUGGEST_FILES@
            &&& (!files && time) ==> suggestion_for(t) == SUGGEST_TIME@
            &&& (!files && !time && repeat) ==> suggestion_for(t) == SUGGEST_REPEAT@
            &&& (!files && !time && !repeat && listen) ==> suggestion_for(t) == SUGGEST_LISTEN@
            &&& (!files && !time && !repeat && !listen && playback) ==> suggestion_for(t)
                == SUGGEST_PLAYBACK@
            &&& (!files && !time && !repeat && !listen && !playback) ==> suggestion_for(t)
                == SUGGEST_DEFAULT@
        }),
{
}

/// Exactly the three exit words end the loop.
pub proof fn lemma_exit_words(name: Seq<char>, original: Seq<char>, t: Seq<char>)
    ensures
        decide(name, original, t).should_exit <==> is_exit_request(t),
{
    reveal_strlit("выход");
    reveal_strlit("exit");
    reveal_strlit("quit");
    reveal_strlit("помощь");
    reveal_strlit("help");
    reveal_strlit("что умеешь");
    if is_exit_request(t) {
        assert(t.len() > 0);
        assert(!contains_seq(t, "что умеешь"@)) by {
            assert("что умеешь"@.len() > t.len());
        }
        assert(t != "помощь"@) by {
            if t == "помощь"@ {
                assert(t[0] == "помощь"@[0]);
            }
        }
        assert(t != "help"@) by {
            if t == "help"@ {
                assert(t[0] == "help"@[0]);
            }
        }
    }
}

/// A phrase to repeat is never blank and carries no surrounding white space.
pub proof fn lemma_repeat_phrase_trimmed(name: Seq<char>, original: Seq<char>, t: Seq<char>)
    ensures
        decide(name, original, t).action matches Some(ActionView::RepeatText(phrase)) ==> (
        phrase.len() > 0 && !spec_is_whitespace(phrase[0]) && !spec_is_whitespace(
            phrase[phrase.len() - 1],
        )),
{
    if let Some(ActionView::RepeatText(phrase)) = decide(name, original, t).action {
        lemma_trim_edges(t.skip("повтори "@.len() as int));
        lemma_trim_edges(t.skip("скажи "@.len() as int));
    }
}

proof fn lemma_digits_of_decimal(n: nat)
    ensures
        decimal(n).len() > 0,
        all_ascii_digits(decimal(n)),
        digits_value(decimal(n)) == n,
    decreases n,
{
    if n >= 10 {
        lemma_digits_of_decimal(n / 10);
        let d = decimal(n);
        assert(d.drop_last() =~= decimal(n / 10));
        assert forall|k: int| 0 <= k < d.len() implies is_ascii_digit(#[trigger] d[k]) by {
            if k < d.len() - 1 {
                assert(d[k] == decimal(n / 10)[k]);
            }
        }
        assert(digit_value(digit_char(n % 10)) == n % 10);
        assert(d.last() == digit_char(n % 10));
        assert(digits_value(d) == digits_value(decimal(n / 10)) * 10 + n % 10);
        assert(n == (n / 10) * 10 + n % 10);
    } else {
        assert(digit_value(digit_char(n)) == n);
        assert(decimal(n).drop_last() =~= Seq::<char>::empty());
        assert(decimal(n).last() == digit_char(n));
        assert(digits_value(Seq::<char>::empty()) == 0);
        assert(digits_value(decimal(n)) == digits_value(decimal(n).drop_last()) * 10
            + digit_value(decimal(n).last()));
    }
}

/// The number written in a recording notice reads back as the length asked for.
pub proof fn lemma_decimal_reads_back(n: u32)
    ensures
        spec_parse_u32(decimal(n as nat)) == Some(n),
{
    lemma_digits_of_decimal(n as nat);
    let d = decimal(n as nat);
    assert(is_ascii_digit(d[0]));
    assert(unsigned_digits(d) == d);
}

} // verus!
