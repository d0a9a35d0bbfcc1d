//! The console roles: a listener that reads lines from standard input and an
//! informer that prints replies as `NAME[prefix]> message`. The reading and
//! printing themselves are the driver's outside work; the reply line is
//! built here.

use vstd::prelude::*;
use vstd::string::*;
use crate::text::{append_chars, append_str, chars_of, string_of, trim_end, trim_end_chars};
use crate::types::ReplyKind;

verus! {

/// Reads requests line by line from standard input.
pub struct ConsoleListener;

impl ConsoleListener {
    /// A listener on standard input.
    pub fn new() -> (r: Self) {
        ConsoleListener
    }
}

/// Prints replies to standard output, one line each.
pub struct ConsoleInformer {
    assistant_name: String,
}

/// The tag shown for a reply of kind `kind`.
pub open spec fn prefix_text(kind: ReplyKind) -> Seq<char> {
    match kind {
        ReplyKind::Info => "info"@,
        ReplyKind::Suggestion => "suggest"@,
        ReplyKind::Execution => "exec"@,
        ReplyKind::Error => "error"@,
    }
}

/// The printed line for `message` of kind `kind` from the assistant called
/// `name`: trailing white space of the message is dropped.
pub open spec fn reply_line(name: Seq<char>, kind: ReplyKind, message: Seq<char>) -> Seq<char> {
    name + "["@ + prefix_text(kind) + "]> "@ + trim_end(message)
}

impl ConsoleInformer {
    /// The name the replies are signed with.
    pub closed spec fn spec_assistant_name(&self) -> Seq<char> {
        self.assistant_name@
    }

    /// An informer that signs replies with `assistant_name`.
    pub fn new(assistant_name: &str) -> (r: Self)
        ensures
            r.spec_assistant_name() == assistant_name@,
    {
        ConsoleInformer { assistant_name: String::from_str(assistant_name) }
    }

    /// The tag shown for a reply of kind `kind`.
    pub fn prefix_for(kind: ReplyKind) -> (r: &'static str)
        ensures
            r@ == prefix_text(kind),
    {
        match kind {
            ReplyKind::Info => "info",
            ReplyKind::Suggestion => "suggest",
            ReplyKind::Execution => "exec",
            ReplyKind::Error => "error",
        }
    }

    /// The line printed for `message` of kind `kind`.
    pub fn format_reply(&self, kind: ReplyKind, message: &str) -> (r: String)
        ensures
            r@ == reply_line(self.spec_assistant_name(), kind, message@),
    {
        let mut out = chars_of(self.assistant_name.as_str());
        append_str(&mut out, "[");
        append_str(&mut out, Self::prefix_for(kind));
        append_str(&mut out, "]> ");
        let body = chars_of(message);
        let clean = trim_end_chars(&body);
        append_chars(&mut out, &clean);
        string_of(&out)
    }
}

} // verus!
