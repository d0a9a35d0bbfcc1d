//! Platform decisions about the console: which startup warnings to show and
//! whether a standard handle is usable. The console calls themselves are the
//! driver's outside work.

use vstd::prelude::*;
use crate::text::{append_str, decimal, push_decimal, string_of};

verus! {

pub const LEGACY_CONSOLE_WARNINGS: [&'static str; 5] = [
    "WARNING: THIS CONSOLE MAY NOT DISPLAY CYRILLIC CORRECTLY.",
    "IF YOU SEE QUESTION MARKS INSTEAD OF RUSSIAN TEXT, CHANGE THE CONSOLE FONT.",
    "IF CONSOLAS IS UNSTABLE, TRY LUCIDA CONSOLE.",
    "RECOMMENDED FONTS: LUCIDA CONSOLE OR CONSOLAS.",
    "RECOMMENDED HOST: WINDOWS TERMINAL.",
];

pub const INVALID_HANDLE_HEAD: &'static str = "GetStdHandle(";

pub const INVALID_HANDLE_TAIL: &'static str = ") вернул невалидный handle";

/// Prepares the console for Unicode text. Nothing global is changed: on a
/// Windows console Unicode goes through the wide-character calls instead.
pub fn enable_utf8_console() -> (r: Result<(), String>)
    ensures
        r is Ok,
{
    Ok(())
}

/// The warnings to print at startup: on a Windows console host that is not
/// Windows Terminal (`legacy_windows_console`), advice about fonts for
/// Cyrillic text; otherwise none.
pub fn startup_warnings(legacy_windows_console: bool) -> (r: Vec<&'static str>)
    ensures
        legacy_windows_console ==> r@ == LEGACY_CONSOLE_WARNINGS@,
        !legacy_windows_console ==> r@.len() == 0,
{
    let mut r: Vec<&'static str> = Vec::new();
    if legacy_windows_console {
        let mut i: usize = 0;
        while i < 5
            invariant
                0 <= i <= 5,
                r@ == LEGACY_CONSOLE_WARNINGS@.take(i as int),
            decreases 5 - i,
        {
            r.push(LEGACY_CONSOLE_WARNINGS[i]);
            assert(LEGACY_CONSOLE_WARNINGS@.take(i + 1) =~= LEGACY_CONSOLE_WARNINGS@.take(
                i as int,
            ).push(LEGACY_CONSOLE_WARNINGS@[i as int]));
            i = i + 1;
        }
        assert(LEGACY_CONSOLE_WARNINGS@.take(5) =~= LEGACY_CONSOLE_WARNINGS@);
    }
    r
}

/// The message for an unusable handle of kind `kind`.
pub open spec fn invalid_handle_message(kind: u32) -> Seq<char> {
    INVALID_HANDLE_HEAD@ + decimal(kind as nat) + INVALID_HANDLE_TAIL@
}

/// Whether the handle `handle` that `GetStdHandle(kind)` returned is usable:
/// `0` and `-1` are not.
pub fn check_std_handle(kind: u32, handle: isize) -> (r: Result<isize, String>)
    ensures
        (handle == 0 || handle == -1) ==> (r matches Err(e) && e@ == invalid_handle_message(kind)),
        !(handle == 0 || handle == -1) ==> r == Ok::<isize, String>(handle),
{
    if handle == 0 || handle == -1 {
        let mut buf: Vec<char> = Vec::new();
        append_str(&mut buf, INVALID_HANDLE_HEAD);
        push_decimal(&mut buf, kind as u128);
        append_str(&mut buf, INVALID_HANDLE_TAIL);
        return Err(string_of(&buf));
    }
    Ok(handle)
}

} // verus!
