//! The data that the parts of the assistant hand to one another: the user's
//! request, the kind of a reply, the actions the executor can run and the
//! brain's decision.

use vstd::prelude::*;
use crate::text::{
    chars_of, drop_whitespace_before, is_whitespace, lemma_drop_whitespace_bounds, lowercase,
    skip_whitespace_from, spec_is_whitespace, string_of, subrange_of, to_lowercase, trim,
    trim_end, trim_end_chars,
};

verus! {

/// The byte order mark that may lead the first line of redirected input.
pub const BYTE_ORDER_MARK: char = '\u{feff}';

/// Whether `c` is dropped from the start of a request: white space or a
/// byte order mark.
pub open spec fn is_leading_filler(c: char) -> bool {
    spec_is_whitespace(c) || c == BYTE_ORDER_MARK
}

/// The first index at or after `i` that holds neither white space nor a
/// byte order mark (`s.len()` if none).
pub open spec fn skip_filler_from(s: Seq<char>, i: int) -> int
    decreases s.len() - i,
{
    if 0 <= i < s.len() && is_leading_filler(s[i]) {
        skip_filler_from(s, i + 1)
    } else {
        i
    }
}

/// The text of a request: the input without the white space and byte order
/// marks it starts with and without the white space it ends with.
pub open spec fn cleaned_text(text: Seq<char>) -> Seq<char> {
    trim_end(text.skip(skip_filler_from(text, 0)))
}

proof fn lemma_skip_filler_bounds(s: Seq<char>, i: int)
    requires
        0 <= i <= s.len(),
    ensures
        i <= skip_filler_from(s, i) <= s.len(),
        skip_filler_from(s, i) < s.len() ==> !is_leading_filler(s[skip_filler_from(s, i)]),
    decreases s.len() - i,
{
    if i < s.len() && is_leading_filler(s[i]) {
        lemma_skip_filler_bounds(s, i + 1);
    }
}

/// One line of user input.
#[derive(Debug, Clone)]
pub struct UserRequest {
    /// The input without surrounding white space and byte order mark.
    pub original_text: String,
    /// `original_text` in lower case, the form the brain compares against.
    pub normalized_text: String,
}

impl UserRequest {
    /// Builds a request from a raw line: drops the white space around it and
    /// any byte order marks before the text, and keeps a lowercase copy for
    /// matching.
    pub fn new(text: String) -> (r: Self)
        ensures
            r.original_text@ == cleaned_text(text@),
            r.normalized_text@ == lowercase(cleaned_text(text@)),
            r.normalized_text@.len() == 0 <==> r.original_text@.len() == 0,
            trim(r.original_text@) == r.original_text@,
            r.original_text@.len() > 0 ==> r.original_text@[0] != BYTE_ORDER_MARK,
    {
        proof {
            lemma_cleaned_text_edges(text@);
        }
        let chars = chars_of(text.as_str());
        let mut start: usize = 0;
        while start < chars.len() && (is_whitespace(chars[start]) || chars[start]
            == BYTE_ORDER_MARK)
            invariant
                0 <= start <= chars.len(),
                skip_filler_from(chars@, 0) == skip_filler_from(chars@, start as int),
            decreases chars.len() - start,
        {
            start = start + 1;
        }
        let rest = subrange_of(&chars, start, chars.len());
        assert(rest@ =~= chars@.skip(start as int));
        let cleaned = trim_end_chars(&rest);
        let original_text = string_of(&cleaned);
        let normalized_text = to_lowercase(original_text.as_str());
        UserRequest { original_text, normalized_text }
    }

    /// Whether the request holds no text.
    pub fn is_empty(&self) -> (r: bool)
        ensures
            r == (self.normalized_text@.len() == 0),
    {
        self.normalized_text.as_str().is_empty()
    }
}

/// How a reply is presented.
#[derive(Debug, Clone, Copy, PartialEq, Eq, Structural)]
pub enum ReplyKind {
    /// A plain informational message.
    Info,
    /// Something the assistant proposes but does not run.
    Suggestion,
    /// The report of an executed action.
    Execution,
    /// An error.
    Error,
}

/// An action that the executor runs after the brain allowed it.
#[derive(Debug, Clone)]
pub enum Action {
    /// Show the local time.
    ShowLocalTime,
    /// List the current directory.
    ListCurrentDirectory,
    /// Play the last saved microphone recording.
    PlayLastRecording,
    /// Record a clip of the given length from the microphone into a WAV file.
    RecordMicrophoneClip { duration_secs: u32 },
    /// Repeat the given text back.
    RepeatText(String),
}

/// The model of an [`Action`], with texts as character sequences.
pub enum ActionView {
    ShowLocalTime,
    ListCurrentDirectory,
    PlayLastRecording,
    RecordMicrophoneClip { duration_secs: u32 },
    RepeatText(Seq<char>),
}

impl View for Action {
    type V = ActionView;

    open spec fn view(&self) -> ActionView {
        match self {
            Action::ShowLocalTime => ActionView::ShowLocalTime,
            Action::ListCurrentDirectory => ActionView::ListCurrentDirectory,
            Action::PlayLastRecording => ActionView::PlayLastRecording,
            Action::RecordMicrophoneClip { duration_secs } => ActionView::RecordMicrophoneClip {
                duration_secs: *duration_secs,
            },
            Action::RepeatText(text) => ActionView::RepeatText(text@),
        }
    }
}

/// The model of an optional action.
pub open spec fn action_option_view(a: Option<Action>) -> Option<ActionView> {
    match a {
        Some(action) => Some(action@),
        None => None,
    }
}

/// What the brain decided to answer and do.
#[derive(Debug, Clone)]
pub struct Decision {
    /// How the message is presented.
    pub kind: ReplyKind,
    /// The message for the user.
    pub message: String,
    /// The action to run after the message, if any.
    pub action: Option<Action>,
    /// Whether the main loop ends after this decision.
    pub should_exit: bool,
}

/// The model of a [`Decision`].
pub struct DecisionView {
    pub kind: ReplyKind,
    pub message: Seq<char>,
    pub action: Option<ActionView>,
    pub should_exit: bool,
}

impl View for Decision {
    type V = DecisionView;

    open spec fn view(&self) -> DecisionView {
        DecisionView {
            kind: self.kind,
            message: self.message@,
            action: action_option_view(self.action),
            should_exit: self.should_exit,
        }
    }
}

/// An informational reply with nothing to run.
pub open spec fn inform_view(message: Seq<char>) -> DecisionView {
    DecisionView { kind: ReplyKind::Info, message, action: None, should_exit: false }
}

/// A suggestion with nothing to run.
pub open spec fn suggest_view(message: Seq<char>) -> DecisionView {
    DecisionView { kind: ReplyKind::Suggestion, message, action: None, should_exit: false }
}

/// An informational reply followed by an action.
pub open spec fn execute_view(message: Seq<char>, action: ActionView) -> DecisionView {
    DecisionView { kind: ReplyKind::Info, message, action: Some(action), should_exit: false }
}

/// A farewell that ends the main loop.
pub open spec fn exit_view(message: Seq<char>) -> DecisionView {
    DecisionView { kind: ReplyKind::Info, message, action: None, should_exit: true }
}

impl Decision {
    /// An informational reply with nothing to run.
    pub fn inform(message: String) -> (d: Self)
        ensures
            d@ == inform_view(message@),
            d.message == message,
    {
        Decision { kind: ReplyKind::Info, message, action: None, should_exit: false }
    }

    /// A suggestion with nothing to run.
    pub fn suggest(message: String) -> (d: Self)
        ensures
            d@ == suggest_view(message@),
            d.message == message,
    {
        Decision { kind: ReplyKind::Suggestion, message, action: None, should_exit: false }
    }

    /// An informational reply followed by `action`.
    pub fn execute(message: String, action: Action) -> (d: Self)
        ensures
            d@ == execute_view(message@, action@),
            d.message == message,
            d.action == Some(action),
    {
        Decision { kind: ReplyKind::Info, message, action: Some(action), should_exit: false }
    }

    /// A farewell that ends the main loop.
    pub fn exit(message: String) -> (d: Self)
        ensures
            d@ == exit_view(message@),
            d.message == message,
    {
        Decision { kind: ReplyKind::Info, message, action: None, should_exit: true }
    }
}


/// The text of a request neither starts nor ends with white space, never
/// starts with a byte order mark, and cleaning it again changes nothing.
pub proof fn lemma_cleaned_text_edges(text: Seq<char>)
    ensures
        cleaned_text(text).len() > 0 ==> !spec_is_whitespace(cleaned_text(text)[0]),
        cleaned_text(text).len() > 0 ==> cleaned_text(text)[0] != BYTE_ORDER_MARK,
        cleaned_text(text).len() > 0 ==> !spec_is_whitespace(
            cleaned_text(text)[cleaned_text(text).len() - 1],
        ),
        trim(cleaned_text(text)) == cleaned_text(text),
        cleaned_text(cleaned_text(text)) == cleaned_text(text),
        cleaned_text(text).len() <= text.len(),
{
    let k = skip_filler_from(text, 0);
    lemma_skip_filler_bounds(text, 0);
    let u = text.skip(k);
    lemma_drop_whitespace_bounds(u, u.len() as int);
    let c = cleaned_text(text);
    if c.len() > 0 {
        assert(c[0] == text[k]);
        assert(c[c.len() - 1] == u[c.len() - 1]);
        assert(!is_leading_filler(c[0]));
        // Nothing to skip at the start of `c`.
        assert(skip_whitespace_from(c, 0) == 0);
        assert(skip_filler_from(c, 0) == 0);
        assert(c.skip(0) =~= c);
        // Nothing to drop at the end of `c`.
        assert(drop_whitespace_before(c, c.len() as int) == c.len());
        assert(c.take(c.len() as int) =~= c);
    } else {
        assert(skip_whitespace_from(c, 0) == 0);
        assert(skip_filler_from(c, 0) == 0);
        assert(c.skip(0) =~= c);
        assert(drop_whitespace_before(c, 0) == 0);
        assert(c.take(0) =~= c);
    }
}

} // verus!
