//! The text layout of a rendered error.
//!
//! A rendering is made of three texts: what the cause displays, what the span
//! trace displays and, only where a backtrace was captured, what the backtrace
//! displays. This module says how they are laid out, builds the text, and
//! proves what holds of every rendering.

use vstd::prelude::*;

verus! {

/// The label that opens every rendering.
pub open spec fn cause_label() -> Seq<char> {
    "Error: "@
}

/// The blank line that separates two sections.
pub open spec fn section_break() -> Seq<char> {
    "\n\n"@
}

/// The label that opens the span trace section.
pub open spec fn span_trace_label() -> Seq<char> {
    "Span trace:\n"@
}

/// The label that opens the backtrace section.
pub open spec fn backtrace_label() -> Seq<char> {
    "Backtrace:\n"@
}

/// The word by which a reader finds the backtrace section: the label without
/// its line break.
pub open spec fn backtrace_title() -> Seq<char> {
    "Backtrace:"@
}

/// The part that every rendering has: the cause, a blank line, and the span
/// trace section.
pub open spec fn head(cause: Seq<char>, span_trace: Seq<char>) -> Seq<char> {
    cause_label() + cause + section_break() + span_trace_label() + span_trace
}

/// The whole rendering. With `backtrace` absent the text ends with the span
/// trace: no empty backtrace section is written.
pub open spec fn rendering(
    cause: Seq<char>,
    span_trace: Seq<char>,
    backtrace: Option<Seq<char>>,
) -> Seq<char> {
    match backtrace {
        Some(frames) => head(cause, span_trace) + section_break() + backtrace_label() + frames,
        None => head(cause, span_trace),
    }
}

/// The index at which the cause's text begins in a rendering.
pub open spec fn cause_start() -> nat {
    cause_label().len()
}

/// The index at which the span trace's text begins in a rendering.
pub open spec fn span_trace_start(cause: Seq<char>) -> nat {
    cause_start() + cause.len() + section_break().len() + span_trace_label().len()
}

/// The index at which the backtrace's text begins in a rendering that has one.
pub open spec fn backtrace_start(cause: Seq<char>, span_trace: Seq<char>) -> nat {
    span_trace_start(cause) + span_trace.len() + section_break().len() + backtrace_label().len()
}

/// `part` stands in `text`, in one piece, from index `at` on.
pub open spec fn occurs_at(text: Seq<char>, part: Seq<char>, at: nat) -> bool {
    &&& at + part.len() <= text.len()
    &&& text.subrange(at as int, (at + part.len()) as int) == part
}

/// `part` stands somewhere in `text`, in one piece.
pub open spec fn contains(text: Seq<char>, part: Seq<char>) -> bool {
    exists|at: nat| occurs_at(text, part, at)
}

/// The view of an optional text.
pub open spec fn text_of(part: Option<&str>) -> Option<Seq<char>> {
    match part {
        Some(text) => Some(text@),
        None => None,
    }
}

/// Lays the three texts out as one rendering.
pub fn compose(cause: &str, span_trace: &str, backtrace: Option<&str>) -> (text: String)
    ensures
        text@ == rendering(cause@, span_trace@, text_of(backtrace)),
{
    let mut text = String::from_str("Error: ");
    text.append(cause);
    text.append("\n\n");
    text.append("Span trace:\n");
    text.append(span_trace);
    match backtrace {
        Some(frames) => {
            text.append("\n\n");
            text.append("Backtrace:\n");
            text.append(frames);
        },
        None => {},
    }
    text
}

/// The lengths of the fixed pieces of a rendering.
pub proof fn lemma_label_lengths()
    ensures
        cause_label().len() == 7,
        section_break().len() == 2,
        span_trace_label().len() == 12,
        backtrace_label().len() == 11,
        backtrace_title().len() == 10,
{
    reveal_strlit("Error: ");
    reveal_strlit("\n\n");
    reveal_strlit("Span trace:\n");
    reveal_strlit("Backtrace:\n");
    reveal_strlit("Backtrace:");
}

/// A text that stands between two others stands in the whole at the length of
/// the first.
proof fn lemma_occurs_between(before: Seq<char>, part: Seq<char>, after: Seq<char>)
    ensures
        occurs_at(before + part + after, part, before.len()),
        contains(before + part + after, part),
{
    let text = before + part + after;
    assert(text.subrange(before.len() as int, (before.len() + part.len()) as int) =~= part);
    assert(occurs_at(text, part, before.len()));
}

/// What stands in a part of a text stands in the text.
proof fn lemma_occurs_within(
    text: Seq<char>,
    part: Seq<char>,
    at: nat,
    piece: Seq<char>,
    offset: nat,
)
    requires
        occurs_at(text, part, at),
        occurs_at(part, piece, offset),
    ensures
        occurs_at(text, piece, at + offset),
        contains(text, piece),
{
    let from = at + offset;
    let whole = text.subrange(at as int, (at + part.len()) as int);
    assert(text.subrange(from as int, (from + piece.len()) as int) =~= whole.subrange(
        offset as int,
        (offset + piece.len()) as int,
    ));
    assert(occurs_at(text, piece, from));
}

/// What follows the head of a rendering: nothing, or the backtrace section.
spec fn tail(backtrace: Option<Seq<char>>) -> Seq<char> {
    match backtrace {
        Some(frames) => section_break() + backtrace_label() + frames,
        None => Seq::empty(),
    }
}

/// Every rendering opens with the leading label and then holds the cause's
/// text, verbatim and in one piece.
pub proof fn lemma_rendering_holds_cause(
    cause: Seq<char>,
    span_trace: Seq<char>,
    backtrace: Option<Seq<char>>,
)
    ensures
        occurs_at(rendering(cause, span_trace, backtrace), cause_label(), 0),
        occurs_at(rendering(cause, span_trace, backtrace), cause, cause_start()),
        contains(rendering(cause, span_trace, backtrace), cause),
{
    let text = rendering(cause, span_trace, backtrace);
    let rest = section_break() + span_trace_label() + span_trace + tail(backtrace);
    assert(text =~= cause_label() + cause + rest);
    lemma_occurs_between(cause_label(), cause, rest);
    assert(text =~= Seq::<char>::empty() + cause_label() + (cause + rest));
    lemma_occurs_between(Seq::empty(), cause_label(), cause + rest);
}

/// Every rendering has the span trace section right after the cause: a blank
/// line, the label, and the span trace's text, which may be empty.
pub proof fn lemma_rendering_holds_span_trace(
    cause: Seq<char>,
    span_trace: Seq<char>,
    backtrace: Option<Seq<char>>,
)
    ensures
        occurs_at(
            rendering(cause, span_trace, backtrace),
            section_break() + span_trace_label(),
            cause_start() + cause.len(),
        ),
        occurs_at(rendering(cause, span_trace, backtrace), span_trace, span_trace_start(cause)),
        contains(rendering(cause, span_trace, backtrace), span_trace_label()),
{
    let text = rendering(cause, span_trace, backtrace);
    let opening = section_break() + span_trace_label();
    assert(text =~= (cause_label() + cause) + opening + (span_trace + tail(backtrace)));
    lemma_occurs_between(cause_label() + cause, opening, span_trace + tail(backtrace));
    assert(text =~= (cause_label() + cause + opening) + span_trace + tail(backtrace));
    lemma_occurs_between(cause_label() + cause + opening, span_trace, tail(backtrace));
    assert(opening =~= section_break() + span_trace_label() + Seq::<char>::empty());
    lemma_occurs_between(section_break(), span_trace_label(), Seq::empty());
    lemma_occurs_within(
        text,
        opening,
        cause_start() + cause.len(),
        span_trace_label(),
        section_break().len(),
    );
}

/// With an empty span trace the section is still there: the label stays, and
/// without a backtrace the rendering ends with it.
pub proof fn lemma_empty_span_trace(cause: Seq<char>)
    ensures
        rendering(cause, Seq::empty(), None) == cause_label() + cause + section_break()
            + span_trace_label(),
{
    assert(rendering(cause, Seq::empty(), None) =~= cause_label() + cause + section_break()
        + span_trace_label());
}

/// Without a captured backtrace the rendering is the head and nothing more:
/// it ends with the span trace.
pub proof fn lemma_backtrace_absent(cause: Seq<char>, span_trace: Seq<char>)
    ensures
        rendering(cause, span_trace, None) == head(cause, span_trace),
        rendering(cause, span_trace, None).len() == span_trace_start(cause) + span_trace.len(),
{
}

/// With a captured backtrace the rendering is the head, then a blank line, the
/// backtrace label and the backtrace's text, with which it ends.
pub proof fn lemma_backtrace_present(cause: Seq<char>, span_trace: Seq<char>, frames: Seq<char>)
    ensures
        rendering(cause, span_trace, Some(frames)) == head(cause, span_trace) + (section_break()
            + backtrace_label()) + frames,
        occurs_at(
            rendering(cause, span_trace, Some(frames)),
            section_break() + backtrace_label(),
            head(cause, span_trace).len(),
        ),
        occurs_at(
            rendering(cause, span_trace, Some(frames)),
            frames,
            backtrace_start(cause, span_trace),
        ),
        rendering(cause, span_trace, Some(frames)).len() == backtrace_start(cause, span_trace)
            + frames.len(),
        contains(rendering(cause, span_trace, Some(frames)), backtrace_title()),
{
    let text = rendering(cause, span_trace, Some(frames));
    let opening = section_break() + backtrace_label();
    assert(text =~= head(cause, span_trace) + opening + frames);
    lemma_occurs_between(head(cause, span_trace), opening, frames);
    assert(text =~= (head(cause, span_trace) + opening) + frames + Seq::<char>::empty());
    lemma_occurs_between(head(cause, span_trace) + opening, frames, Seq::empty());
    lemma_opening_holds_title();
    lemma_occurs_within(
        text,
        opening,
        head(cause, span_trace).len(),
        backtrace_title(),
        section_break().len(),
    );
}

/// The opening of the backtrace section holds the title, after the blank line.
proof fn lemma_opening_holds_title()
    ensures
        occurs_at(section_break() + backtrace_label(), backtrace_title(), section_break().len()),
{
    reveal_strlit("Backtrace:\n");
    reveal_strlit("Backtrace:");
    let opening = section_break() + backtrace_label();
    let at = section_break().len() as int;
    assert(opening.subrange(at, at + 10) =~= backtrace_title());
}

/// No label of the head holds the letter that the title begins with, and past
/// its first letter the title holds no line break.
proof fn lemma_title_letters()
    ensures
        backtrace_title()[0] == 'B',
        forall|k: int| 1 <= k < 10 ==> backtrace_title()[k] != '\n',
        forall|k: int| 0 <= k < 7 ==> cause_label()[k] != 'B',
        forall|k: int| 0 <= k < 2 ==> section_break()[k] == '\n',
        forall|k: int| 0 <= k < 12 ==> span_trace_label()[k] != 'B',
{
    reveal_strlit("Error: ");
    reveal_strlit("\n\n");
    reveal_strlit("Span trace:\n");
    reveal_strlit("Backtrace:");
}

/// The head of a rendering holds the word "Backtrace:" only where the cause's
/// text or the span trace's text holds it: the labels do not, and the word
/// cannot lie across the border of two pieces.
pub proof fn lemma_head_holds_no_backtrace_title(cause: Seq<char>, span_trace: Seq<char>)
    requires
        !contains(cause, backtrace_title()),
        !contains(span_trace, backtrace_title()),
    ensures
        !contains(head(cause, span_trace), backtrace_title()),
{
    lemma_label_lengths();
    lemma_title_letters();
    let text = head(cause, span_trace);
    let title = backtrace_title();
    let n = cause.len() as int;
    assert forall|at: nat| !occurs_at(text, title, at) by {
        if occurs_at(text, title, at) {
            let found = text.subrange(at as int, at as int + 10);
            assert(found[0] == title[0]);
            if at < 7 {
                assert(text[at as int] == cause_label()[at as int]);
            } else if at < 7 + n {
                if at + 10 <= 7 + n {
                    assert(cause.subrange(at - 7, at - 7 + 10) =~= found);
                    assert(occurs_at(cause, title, (at - 7) as nat));
                } else {
                    let k = 7 + n - at;
                    assert(found[k] == title[k]);
                    assert(text[7 + n] == section_break()[0]);
                }
            } else if at < 9 + n {
                assert(text[at as int] == section_break()[at - 7 - n]);
            } else if at < 21 + n {
                assert(text[at as int] == span_trace_label()[at - 9 - n]);
            } else {
                assert(span_trace.subrange(at - 21 - n, at - 21 - n + 10) =~= found);
                assert(occurs_at(span_trace, title, (at - 21 - n) as nat));
            }
        }
    }
}

/// Where neither the cause's text nor the span trace's text holds the word
/// "Backtrace:", a rendering holds it exactly where a backtrace was captured.
pub proof fn lemma_backtrace_title_iff_captured(
    cause: Seq<char>,
    span_trace: Seq<char>,
    backtrace: Option<Seq<char>>,
)
    requires
        !contains(cause, backtrace_title()),
        !contains(span_trace, backtrace_title()),
    ensures
        contains(rendering(cause, span_trace, backtrace), backtrace_title()) <==> backtrace is Some,
{
    match backtrace {
        Some(frames) => {
            lemma_backtrace_present(cause, span_trace, frames);
        },
        None => {
            lemma_head_holds_no_backtrace_title(cause, span_trace);
        },
    }
}

} // verus!
