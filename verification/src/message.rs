//! Assembly of the commit message from the user's answers.
//!
//! A message is a summary line, cut to [`LINE_WIDTH`] characters, followed by
//! an optional body section and an optional footer section, each of them
//! word-wrapped. The spec functions of this module say what each part is as a
//! sequence of characters; the executable functions build the strings.

use vstd::prelude::*;
use crate::commit_type::{get_attrs, CommitType};
use crate::wrapping::{fill, filled};

verus! {

/// The longest summary line, and the width that sections are wrapped to.
pub const LINE_WIDTH: usize = 100;

/// The first `limit` characters of `text`, or all of it if it has no more.
pub open spec fn capped(text: Seq<char>, limit: nat) -> Seq<char> {
    if text.len() <= limit {
        text
    } else {
        text.subrange(0, limit as int)
    }
}

/// The scope in parentheses, or nothing at all for an empty scope.
pub open spec fn scope_segment_text(scope: Seq<char>) -> Seq<char> {
    if scope.len() == 0 {
        Seq::empty()
    } else {
        "("@ + scope + ")"@
    }
}

/// The summary line before it is cut: type, scope segment, a colon, the
/// glyph of the type and the subject.
pub open spec fn summary_text(ty: CommitType, scope: Seq<char>, subject: Seq<char>) -> Seq<char> {
    ty.name_text() + scope_segment_text(scope) + ": "@ + ty.emoji_text() + " "@ + subject
}

/// The summary line as it stands in the message.
pub open spec fn header_text(ty: CommitType, scope: Seq<char>, subject: Seq<char>) -> Seq<char> {
    capped(summary_text(ty, scope, subject), LINE_WIDTH as nat)
}

/// The body before wrapping: a blank line and the body, or nothing.
pub open spec fn body_block_text(body: Seq<char>) -> Seq<char> {
    if body.len() == 0 {
        Seq::empty()
    } else {
        "\n\n"@ + body
    }
}

/// The footer line that announces a breaking change, or nothing.
pub open spec fn breaking_line_text(breaking: Seq<char>) -> Seq<char> {
    if breaking.len() == 0 {
        Seq::empty()
    } else {
        "\nBREAKING CHANGE: "@ + breaking
    }
}

/// The footer line that lists related issues, or nothing.
pub open spec fn issues_line_text(issues: Seq<char>) -> Seq<char> {
    if issues.len() == 0 {
        Seq::empty()
    } else {
        "\nRelated issues: "@ + issues
    }
}

/// The footer before wrapping: a newline and the lines that are present, or
/// nothing when neither is.
pub open spec fn footer_block_text(breaking: Seq<char>, issues: Seq<char>) -> Seq<char> {
    if breaking.len() == 0 && issues.len() == 0 {
        Seq::empty()
    } else {
        "\n"@ + breaking_line_text(breaking) + issues_line_text(issues)
    }
}

/// A block as it stands in the message: wrapped to [`LINE_WIDTH`], and
/// nothing for an empty block.
pub open spec fn section_text(block: Seq<char>) -> Seq<char> {
    if block.len() == 0 {
        Seq::empty()
    } else {
        filled(block, LINE_WIDTH)
    }
}

/// The whole message: header, body section and footer section, with nothing
/// between them but what the sections bring along.
pub open spec fn message_text(
    ty: CommitType,
    scope: Seq<char>,
    subject: Seq<char>,
    body: Seq<char>,
    breaking: Seq<char>,
    issues: Seq<char>,
) -> Seq<char> {
    header_text(ty, scope, subject) + section_text(body_block_text(body)) + section_text(
        footer_block_text(breaking, issues),
    )
}

/// Cuts `text` after `limit` characters.
pub fn cap(text: &str, limit: usize) -> (out: String)
    ensures
        out@ == capped(text@, limit as nat),
        out@.len() <= limit,
{
    if text.unicode_len() <= limit {
        String::from_str(text)
    } else {
        String::from_str(text.substring_char(0, limit))
    }
}

/// Builds the scope segment of the summary line.
pub fn scope_segment(scope: &str) -> (out: String)
    ensures
        out@ == scope_segment_text(scope@),
{
    if scope.is_empty() {
        String::new()
    } else {
        let mut out = String::from_str("(");
        out.append(scope);
        out.append(")");
        out
    }
}

/// Builds the summary line, cut to [`LINE_WIDTH`] characters.
pub fn header(ty: CommitType, scope: &str, subject: &str) -> (out: String)
    ensures
        out@ == header_text(ty, scope@, subject@),
        out@.len() <= LINE_WIDTH,
{
    let attrs = get_attrs(ty);
    let segment = scope_segment(scope);
    let mut line = ty.name();
    line.append(segment.as_str());
    line.append(": ");
    line.append(attrs.emoji.as_str());
    line.append(" ");
    line.append(subject);
    cap(line.as_str(), LINE_WIDTH)
}

/// Builds the body block that is handed to the wrapper.
pub fn body_block(body: &str) -> (out: String)
    ensures
        out@ == body_block_text(body@),
{
    if body.is_empty() {
        String::new()
    } else {
        let mut out = String::from_str("\n\n");
        out.append(body);
        out
    }
}

/// Builds the footer block that is handed to the wrapper.
pub fn footer_block(breaking: &str, issues: &str) -> (out: String)
    ensures
        out@ == footer_block_text(breaking@, issues@),
{
    if breaking.is_empty() && issues.is_empty() {
        String::new()
    } else {
        let mut out = String::from_str("\n");
        if !breaking.is_empty() {
            out.append("\nBREAKING CHANGE: ");
            out.append(breaking);
        }
        if !issues.is_empty() {
            out.append("\nRelated issues: ");
            out.append(issues);
        }
        out
    }
}

/// Wraps a block to [`LINE_WIDTH`] columns. An empty block stays empty.
pub fn wrap_section(block: &str) -> (out: String)
    ensures
        out@ == section_text(block@),
{
    if block.is_empty() {
        String::new()
    } else {
        fill(block, LINE_WIDTH)
    }
}

/// Puts a header and two finished sections together.
pub fn join_sections(header: &str, body_section: &str, footer_section: &str) -> (out: String)
    ensures
        out@ == header@ + body_section@ + footer_section@,
{
    let mut out = String::from_str(header);
    out.append(body_section);
    out.append(footer_section);
    out
}

/// Composes the commit message from the six answers.
pub fn compose(
    ty: CommitType,
    scope: &str,
    subject: &str,
    body: &str,
    breaking: &str,
    issues: &str,
) -> (out: String)
    ensures
        out@ == message_text(ty, scope@, subject@, body@, breaking@, issues@),
{
    let head = header(ty, scope, subject);
    let body_section = wrap_section(body_block(body).as_str());
    let footer_section = wrap_section(footer_block(breaking, issues).as_str());
    join_sections(head.as_str(), body_section.as_str(), footer_section.as_str())
}

/// In the summary line the scope stands in parentheses right behind the type
/// when there is one, and nothing stands there when there is none: the colon
/// follows the type directly.
pub proof fn lemma_scope_segment(ty: CommitType, scope: Seq<char>, subject: Seq<char>)
    ensures
        scope_segment_text(scope).len() == 0 <==> scope.len() == 0,
        scope.len() == 0 ==> summary_text(ty, scope, subject) == ty.name_text() + ": "@
            + ty.emoji_text() + " "@ + subject,
        scope.len() > 0 ==> summary_text(ty, scope, subject) == ty.name_text() + "("@ + scope + ")"@
            + ": "@ + ty.emoji_text() + " "@ + subject,
{
}

/// Where the type and the scope segment fit into the width, the header
/// begins with exactly the two of them.
pub proof fn lemma_header_scope_segment(ty: CommitType, scope: Seq<char>, subject: Seq<char>)
    requires
        ty.name_text().len() + scope_segment_text(scope).len() <= LINE_WIDTH,
    ensures
        header_text(ty, scope, subject).len() >= ty.name_text().len() + scope_segment_text(
            scope,
        ).len(),
        header_text(ty, scope, subject).subrange(
            0,
            (ty.name_text() + scope_segment_text(scope)).len() as int,
        ) == ty.name_text() + scope_segment_text(scope),
{
}

/// The header never has more than [`LINE_WIDTH`] characters, however long the
/// subject is.
pub proof fn lemma_header_length(ty: CommitType, scope: Seq<char>, subject: Seq<char>)
    ensures
        header_text(ty, scope, subject).len() <= LINE_WIDTH,
{
}

/// With no body, no breaking change and no issues, the message is the header
/// and nothing else.
pub proof fn lemma_header_only(ty: CommitType, scope: Seq<char>, subject: Seq<char>)
    ensures
        message_text(
            ty,
            scope,
            subject,
            Seq::empty(),
            Seq::empty(),
            Seq::empty(),
        ) == header_text(ty, scope, subject),
{
}

/// With a body and neither a breaking change nor issues, the message is the
/// header followed by the wrapped body block; the footer adds nothing.
pub proof fn lemma_body_only(
    ty: CommitType,
    scope: Seq<char>,
    subject: Seq<char>,
    body: Seq<char>,
)
    requires
        body.len() > 0,
    ensures
        section_text(footer_block_text(Seq::empty(), Seq::empty())) == Seq::<char>::empty(),
        message_text(ty, scope, subject, body, Seq::empty(), Seq::empty()) == header_text(
            ty,
            scope,
            subject,
        ) + filled("\n\n"@ + body, LINE_WIDTH),
{
}

/// With both a breaking change and issues, the footer block that is wrapped
/// holds an empty line, then the breaking-change line, then the issues line,
/// each begun by a newline of its own.
pub proof fn lemma_footer_lines(breaking: Seq<char>, issues: Seq<char>)
    requires
        breaking.len() > 0,
        issues.len() > 0,
    ensures
        footer_block_text(breaking, issues) == "\n"@ + ("\nBREAKING CHANGE: "@ + breaking) + (
        "\nRelated issues: "@ + issues),
        section_text(footer_block_text(breaking, issues)) == filled(
            footer_block_text(breaking, issues),
            LINE_WIDTH,
        ),
{
}

/// With nothing but a type and a subject, and a summary line that fits into
/// the width, the message reads `<type>: <glyph> <subject>`.
pub proof fn lemma_plain_message(ty: CommitType, subject: Seq<char>)
    requires
        (ty.name_text() + ": "@ + ty.emoji_text() + " "@ + subject).len() <= LINE_WIDTH,
    ensures
        message_text(
            ty,
            Seq::empty(),
            subject,
            Seq::empty(),
            Seq::empty(),
            Seq::empty(),
        ) == ty.name_text() + ": "@ + ty.emoji_text() + " "@ + subject,
{
}

} // verus!
