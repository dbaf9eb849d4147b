//! The debugging text of a cell.
//!
//! The text of the stored value comes from its `Debug` implementation; the text around it is built
//! here: `OnceCell(` and `)` around the value, and in the multi-line form the value on lines of its
//! own, each indented by four spaces and the last followed by a comma.
use vstd::prelude::*;
use core::fmt::Write;

verus! {

/// The text that a value's `Debug` implementation writes in its one-line form (`{:?}`).
///
/// Only [`debug_of`] makes one, so a text of this type is always the one-line form of some value.
pub struct CompactDebug {
    text: String,
}

/// The text that a value's `Debug` implementation writes in its multi-line form (`{:#?}`).
///
/// Only [`pretty_debug_of`] makes one, so a text of this type is always the multi-line form of
/// some value.
pub struct PrettyDebug {
    text: String,
}

impl View for CompactDebug {
    type V = Seq<char>;

    closed spec fn view(&self) -> Seq<char> {
        self.text@
    }
}

impl View for PrettyDebug {
    type V = Seq<char>;

    closed spec fn view(&self) -> Seq<char> {
        self.text@
    }
}

impl CompactDebug {
    /// The text.
    pub fn as_str(&self) -> (text: &str)
        ensures
            text@ == self@,
    {
        self.text.as_str()
    }
}

impl PrettyDebug {
    /// The text.
    pub fn as_str(&self) -> (text: &str)
        ensures
            text@ == self@,
    {
        self.text.as_str()
    }
}

/// Writes `value` with `{:?}` into a new `String`, which runs the `Debug` implementation of `T`.
/// Returns `None` when that implementation reports an error. Nothing is claimed of the text.
#[verifier::external_body]
pub fn debug_of<T: core::fmt::Debug>(value: &T) -> Option<CompactDebug> {
    let mut text = String::new();
    match write!(text, "{:?}", value) {
        Ok(()) => Some(CompactDebug { text }),
        Err(_) => None,
    }
}

/// Writes `value` with `{:#?}` (the multi-line form) into a new `String`, which runs the `Debug`
/// implementation of `T`. Returns `None` when that implementation reports an error. Nothing is
/// claimed of the text.
#[verifier::external_body]
pub fn pretty_debug_of<T: core::fmt::Debug>(value: &T) -> Option<PrettyDebug> {
    let mut text = String::new();
    match write!(text, "{:#?}", value) {
        Ok(()) => Some(PrettyDebug { text }),
        Err(_) => None,
    }
}

/// `lines` are the lines of `text` as `str::split_inclusive('\n')` cuts them: put together they
/// give `text`, none is empty, each but the last ends with its only line break, and the last
/// holds no line break but possibly at its end.
pub open spec fn lines_of(text: Seq<char>, lines: Seq<Seq<char>>) -> bool {
    &&& lines.flatten() == text
    &&& forall|i: int| 0 <= i < lines.len() ==> #[trigger] lines[i].len() > 0
    &&& forall|i: int, j: int|
        0 <= i < lines.len() && 0 <= j < lines[i].len() - 1 ==> #[trigger] lines[i][j] != '\n'
    &&& forall|i: int| 0 <= i < lines.len() - 1 ==> #[trigger] lines[i].last() == '\n'
}

/// Calls `str::split_inclusive` with the pattern `'\n'` and collects the pieces.
///
/// The contract states what the documentation of `split_inclusive` describes: the substrings of
/// `text` separated by line breaks, each keeping its line break at its end; a line break at the
/// very end ends the last piece, and no empty piece is produced.
#[verifier::external_body]
pub fn split_lines(text: &str) -> (lines: Vec<&str>)
    ensures
        lines_of(text@, lines@.map_values(|line: &str| line@)),
{
    text.split_inclusive('\n').collect()
}

/// The lines, each indented by four spaces, put together.
pub open spec fn indented(lines: Seq<Seq<char>>) -> Seq<char>
    decreases lines.len(),
{
    if lines.len() == 0 {
        Seq::empty()
    } else {
        indented(lines.drop_last()) + "    "@ + lines.last()
    }
}

/// The one-line debugging text of a cell whose value's one-line `Debug` text is `shown`.
pub fn framed(shown: &CompactDebug) -> (text: String)
    ensures
        text@ == "OnceCell("@ + shown@ + ")"@,
{
    "OnceCell(".to_owned().concat(shown.as_str()).concat(")")
}

/// The one-line frame hides nothing: two one-line debugging texts are equal only when the value
/// texts inside them are, so the text of a held value is determined by, and determines, the
/// value's one-line `Debug` text.
pub proof fn lemma_one_line_frame_is_injective(first: Seq<char>, second: Seq<char>)
    ensures
        "OnceCell("@ + first + ")"@ == "OnceCell("@ + second + ")"@ <==> first == second,
{
    let open = "OnceCell("@;
    let close = ")"@;
    if open + first + close == open + second + close {
        let whole = open + first + close;
        assert(first =~= whole.subrange(open.len() as int, whole.len() - close.len()));
        assert(second =~= whole.subrange(open.len() as int, whole.len() - close.len()));
    }
}

/// The multi-line debugging text of a cell whose value is shown as `shown` (in its multi-line
/// form): `OnceCell(` on a line of its own, then the lines of the value followed by a comma, each
/// indented by four spaces, then `)`.
pub fn framed_pretty(shown: &PrettyDebug) -> (text: String)
    ensures
        exists|lines: Seq<Seq<char>>|
            {
                &&& lines_of(shown@ + ",\n"@, lines)
                &&& text@ == "OnceCell(\n"@ + indented(lines) + ")"@
            },
{
    let body = shown.as_str().to_owned().concat(",\n");
    let lines = split_lines(body.as_str());
    let ghost views = lines@.map_values(|line: &str| line@);
    let mut text = "OnceCell(\n".to_owned();
    let mut i: usize = 0;
    while i < lines.len()
        invariant
            i <= lines.len(),
            views == lines@.map_values(|line: &str| line@),
            text@ == "OnceCell(\n"@ + indented(views.take(i as int)),
        decreases lines.len() - i,
    {
        assert(views.take(i + 1).drop_last() =~= views.take(i as int));
        text.append("    ");
        text.append(lines[i]);
        i = i + 1;
    }
    assert(views.take(lines.len() as int) =~= views);
    text.append(")");
    text
}

} // verus!
