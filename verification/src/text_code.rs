//! Terminal decoration of text with ANSI colour codes.

use vstd::prelude::*;
use vstd::string::*;

verus! {

/// The text wrapped as a bold green header.
pub open spec fn primary_header_text(text: Seq<char>) -> Seq<char> {
    "\x1b[1;32m"@ + text + "\x1b[0m"@
}

/// The text wrapped as a bold blue header.
pub open spec fn secondary_header_text(text: Seq<char>) -> Seq<char> {
    "\x1b[1;34m"@ + text + "\x1b[0m"@
}

/// The text wrapped as a bold red error.
pub open spec fn error_text(text: Seq<char>) -> Seq<char> {
    "\x1b[1;31m"@ + text + "\x1b[0m"@
}

/// Puts `text` between the escape sequence `code` and the reset sequence.
fn decorate(code: &str, text: &str) -> (out: String)
    ensures
        out@ == code@ + text@ + "\x1b[0m"@,
{
    let mut out = String::from_str(code);
    out.append(text);
    out.append("\x1b[0m");
    out
}

/// Text that can be decorated for display on a terminal.
pub trait TextCode {
    /// The characters that get decorated.
    spec fn text(&self) -> Seq<char>;

    fn as_primary_header(&self) -> (out: String)
        ensures
            out@ == primary_header_text(self.text()),
    ;

    fn as_secondary_header(&self) -> (out: String)
        ensures
            out@ == secondary_header_text(self.text()),
    ;

    fn as_error(&self) -> (out: String)
        ensures
            out@ == error_text(self.text()),
    ;
}

impl TextCode for String {
    open spec fn text(&self) -> Seq<char> {
        self@
    }

    fn as_primary_header(&self) -> (out: String) {
        decorate("\x1b[1;32m", self.as_str())
    }

    fn as_secondary_header(&self) -> (out: String) {
        decorate("\x1b[1;34m", self.as_str())
    }

    fn as_error(&self) -> (out: String) {
        decorate("\x1b[1;31m", self.as_str())
    }
}

impl TextCode for &str {
    open spec fn text(&self) -> Seq<char> {
        self@
    }

    fn as_primary_header(&self) -> (out: String) {
        decorate("\x1b[1;32m", self)
    }

    fn as_secondary_header(&self) -> (out: String) {
        decorate("\x1b[1;34m", self)
    }

    fn as_error(&self) -> (out: String) {
        decorate("\x1b[1;31m", self)
    }
}

/// Decorating adds the seven characters of a colour code in front and the four
/// of the reset code behind, and leaves the text itself in between.
pub proof fn lemma_header_keeps_text(text: Seq<char>)
    ensures
        primary_header_text(text).len() == text.len() + 11,
        primary_header_text(text).subrange(7, 7 + text.len() as int) == text,
        secondary_header_text(text).subrange(7, 7 + text.len() as int) == text,
        error_text(text).subrange(7, 7 + text.len() as int) == text,
{
    reveal_strlit("\x1b[1;32m");
    reveal_strlit("\x1b[1;34m");
    reveal_strlit("\x1b[1;31m");
    reveal_strlit("\x1b[0m");
}

} // verus!
