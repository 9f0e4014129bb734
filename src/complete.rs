//! Fixed-width task completion lines: a label padded to its field, cut to
//! what the terminal leaves, and a bracketed status tag.
use colored::Colorize;
use vstd::prelude::*;

verus! {

/// Outcome shown at the end of a completion line.
#[derive(Debug, Copy, Clone, PartialEq, Eq, Structural)]
pub enum CompleteStatus {
    OK,
    WARN,
    FAIL,
}

/// Line width used when the terminal is at least this wide or unknown.
pub const DEFAULT_WIDTH: u16 = 88;

/// Width of the field the label is padded to.
pub const LABEL_FIELD: usize = 80;

/// Room kept for the bracketed tag, `[ DONE ]`.
pub const TAG_ROOM: u16 = 8;

/// The word shown for a status.
pub open spec fn status_word(s: CompleteStatus) -> Seq<char> {
    match s {
        CompleteStatus::OK => "DONE"@,
        CompleteStatus::WARN => "WARN"@,
        CompleteStatus::FAIL => "FAIL"@,
    }
}

/// The terminal colour code of a status: green, yellow, red.
pub open spec fn status_color(s: CompleteStatus) -> Seq<char> {
    match s {
        CompleteStatus::OK => "32"@,
        CompleteStatus::WARN => "33"@,
        CompleteStatus::FAIL => "31"@,
    }
}

/// `r` is `word` as shown with colour code `code`: plain when colours are
/// off, or between the colour escape and the reset escape.
pub open spec fn painted(word: Seq<char>, code: Seq<char>, r: Seq<char>) -> bool {
    r == word || r == "\x1b["@ + code + "m"@ + word + "\x1b[0m"@
}

/// `tag` is how the word of `status` is shown.
pub open spec fn status_tag_of(status: CompleteStatus, tag: Seq<char>) -> bool {
    painted(status_word(status), status_color(status), tag)
}

/// No escape character in `s`.
pub open spec fn escape_free(s: Seq<char>) -> bool {
    forall|i: int| 0 <= i < s.len() ==> s[i] != '\x1b'
}

/// Width of the line: the terminal's columns when known and narrower than
/// the default, else the default.
pub open spec fn line_width(cols: Option<u16>) -> int {
    match cols {
        Some(c) => if c < DEFAULT_WIDTH {
            c as int
        } else {
            DEFAULT_WIDTH as int
        },
        None => DEFAULT_WIDTH as int,
    }
}

/// Room left for the label: the line width less the tag's room, never negative.
pub open spec fn label_room(cols: Option<u16>) -> int {
    if line_width(cols) >= TAG_ROOM {
        line_width(cols) - TAG_ROOM
    } else {
        0
    }
}

/// `n` spaces.
pub open spec fn spaces(n: int) -> Seq<char> {
    Seq::new(n as nat, |i: int| ' ')
}

/// The label left-justified in its field: spaces added up to the field width.
pub open spec fn padded_label(label: Seq<char>) -> Seq<char> {
    if label.len() >= LABEL_FIELD {
        label
    } else {
        label + spaces(LABEL_FIELD - label.len())
    }
}

/// The padded label, cut to the room the line leaves.
pub open spec fn label_part(label: Seq<char>, cols: Option<u16>) -> Seq<char> {
    let p = padded_label(label);
    if p.len() > label_room(cols) {
        p.take(label_room(cols))
    } else {
        p
    }
}

/// A completion line for `label` with the shown tag `tag`.
pub open spec fn completion_line(label: Seq<char>, cols: Option<u16>, tag: Seq<char>) -> Seq<char> {
    label_part(label, cols) + "[ "@ + tag + " ]"@
}

/// The line width for the terminal's reported columns.
pub fn line_width_for(cols: Option<u16>) -> (r: u16)
    ensures
        r as int == line_width(cols),
{
    match cols {
        Some(c) => if c < DEFAULT_WIDTH {
            c
        } else {
            DEFAULT_WIDTH
        },
        None => DEFAULT_WIDTH,
    }
}

/// Builds a completion line from the label, the terminal's columns and the
/// tag as it is to be shown.
pub fn format_complete_with(label: &str, cols: Option<u16>, tag: &str) -> (r: String)
    ensures
        r@ == completion_line(label@, cols, tag@),
{
    let width = line_width_for(cols);
    let room: usize = if width >= TAG_ROOM {
        (width - TAG_ROOM) as usize
    } else {
        0
    };
    let n = label.unicode_len();
    let full: usize = if n >= LABEL_FIELD {
        n
    } else {
        LABEL_FIELD
    };
    let target: usize = if full > room {
        room
    } else {
        full
    };
    let keep: usize = if n < target {
        n
    } else {
        target
    };
    let mut r = String::from_str(label.substring_char(0, keep));
    let mut j: usize = keep;
    while j < target
        invariant
            keep <= j <= target,
            r@ == label@.take(keep as int) + spaces(j - keep),
        decreases target - j,
    {
        proof {
            reveal_strlit(" ");
        }
        r.append(" ");
        assert(r@ =~= label@.take(keep as int) + spaces(j + 1 - keep));
        j = j + 1;
    }
    proof {
        assert(label@.take(keep as int) + spaces(target - keep) =~= label_part(label@, cols));
    }
    r.append("[ ");
    r.append(tag);
    r.append(" ]");
    r
}

/// Relies on colored's `Colorize::green` and `ColoredString`'s `Display`:
/// the text as it is when colours are off, else between `ESC[32m` and
/// `ESC[0m` (an input without escapes is kept unchanged in between).
#[verifier::external_body]
fn green_text(word: &str) -> (r: String)
    requires
        escape_free(word@),
    ensures
        painted(word@, "32"@, r@),
{
    word.green().to_string()
}

/// Relies on colored's `Colorize::yellow` and `ColoredString`'s `Display`:
/// the text as it is when colours are off, else between `ESC[33m` and `ESC[0m`.
#[verifier::external_body]
fn yellow_text(word: &str) -> (r: String)
    requires
        escape_free(word@),
    ensures
        painted(word@, "33"@, r@),
{
    word.yellow().to_string()
}

/// Relies on colored's `Colorize::red` and `ColoredString`'s `Display`:
/// the text as it is when colours are off, else between `ESC[31m` and `ESC[0m`.
#[verifier::external_body]
pub(crate) fn red_text(word: &str) -> (r: String)
    requires
        escape_free(word@),
    ensures
        painted(word@, "31"@, r@),
{
    word.red().to_string()
}

/// Relies on `termsize::get`: the columns of the terminal, when one is
/// attached and answers. Nothing is known of the value.
#[verifier::external_body]
fn terminal_cols() -> (r: Option<u16>) {
    termsize::get().map(|size| size.cols)
}

/// The status word as it is shown, coloured when colours are on.
pub fn status_tag(status: CompleteStatus) -> (r: String)
    ensures
        status_tag_of(status, r@),
{
    proof {
        reveal_strlit("DONE");
        reveal_strlit("WARN");
        reveal_strlit("FAIL");
    }
    match status {
        CompleteStatus::OK => green_text("DONE"),
        CompleteStatus::WARN => yellow_text("WARN"),
        CompleteStatus::FAIL => red_text("FAIL"),
    }
}

/// The completion line for a label and status on a terminal with the given
/// columns (`None`: unknown).
pub fn format_complete_width(label: &str, cols: Option<u16>, status: CompleteStatus) -> (r: String)
    ensures
        exists|tag: Seq<char>| status_tag_of(status, tag) && r@ == completion_line(label@, cols, tag),
{
    let tag = status_tag(status);
    format_complete_with(label, cols, tag.as_str())
}

/// The completion line for a label and status on the current terminal.
pub fn format_complete(label: &str, status: CompleteStatus) -> (r: String)
    ensures
        exists|cols: Option<u16>, tag: Seq<char>|
            status_tag_of(status, tag) && r@ == completion_line(label@, cols, tag),
{
    let cols = terminal_cols();
    format_complete_width(label, cols, status)
}

/// The completion line ending in `[ DONE ]`.
pub fn format_done(label: &str) -> (r: String)
    ensures
        exists|cols: Option<u16>, tag: Seq<char>|
            status_tag_of(CompleteStatus::OK, tag) && r@ == completion_line(label@, cols, tag),
{
    format_complete(label, CompleteStatus::OK)
}

/// The completion line ending in `[ WARN ]`.
pub fn format_warn(label: &str) -> (r: String)
    ensures
        exists|cols: Option<u16>, tag: Seq<char>|
            status_tag_of(CompleteStatus::WARN, tag) && r@ == completion_line(label@, cols, tag),
{
    format_complete(label, CompleteStatus::WARN)
}

/// The completion line ending in `[ FAIL ]`.
pub fn format_fail(label: &str) -> (r: String)
    ensures
        exists|cols: Option<u16>, tag: Seq<char>|
            status_tag_of(CompleteStatus::FAIL, tag) && r@ == completion_line(label@, cols, tag),
{
    format_complete(label, CompleteStatus::FAIL)
}

/// On a terminal of the default width or wider (or of unknown width), a
/// label of at most the field width is padded to it and the line, with the
/// plain `DONE` tag, is exactly the default width and ends in `[ DONE ]`; a
/// longer label is cut to the field width.
pub proof fn lemma_default_width_line(label: Seq<char>, cols: Option<u16>)
    requires
        line_width(cols) == DEFAULT_WIDTH,
    ensures
        label.len() <= LABEL_FIELD ==> label_part(label, cols) == label + spaces(
            LABEL_FIELD - label.len(),
        ),
        label.len() > LABEL_FIELD ==> label_part(label, cols) == label.take(LABEL_FIELD as int),
        label.len() <= LABEL_FIELD ==> completion_line(label, cols, status_word(CompleteStatus::OK)).len()
            == DEFAULT_WIDTH,
        completion_line(label, cols, status_word(CompleteStatus::OK)).len() == label_part(
            label,
            cols,
        ).len() + 8,
        completion_line(label, cols, status_word(CompleteStatus::OK)).subrange(
            label_part(label, cols).len() as int,
            label_part(label, cols).len() + 8int,
        ) == "[ DONE ]"@,
{
    reveal_strlit("[ ");
    reveal_strlit(" ]");
    reveal_strlit("DONE");
    reveal_strlit("[ DONE ]");
    let line = completion_line(label, cols, status_word(CompleteStatus::OK));
    let k = label_part(label, cols).len() as int;
    assert(line.subrange(k, k + 8) =~= "[ DONE ]"@);
}

/// The label part is the padded label cut to the room the line leaves: it
/// never holds more than that room, which is empty on a terminal of at
/// most eight columns.
pub proof fn lemma_label_part_clamped(label: Seq<char>, cols: Option<u16>)
    ensures
        label_room(cols) >= 0,
        label_part(label, cols).len() == if padded_label(label).len() > label_room(cols) {
            label_room(cols)
        } else {
            padded_label(label).len() as int
        },
        label_part(label, cols) == padded_label(label).take(label_part(label, cols).len() as int),
        line_width(cols) <= TAG_ROOM ==> label_part(label, cols).len() == 0,
{
    assert(padded_label(label).take(padded_label(label).len() as int) =~= padded_label(label));
}

} // verus!
