use vstd::prelude::*;
use vstd::string::*;

verus! {

/// Role of the lines whose text is spoken.
pub const ASSISTANT_ROLE: &'static str = "assistant";

/// Content block type that carries text.
pub const TEXT_BLOCK: &'static str = "text";

/// One content block of a transcript message.
#[derive(Debug, Clone)]
pub struct ContentBlock {
    pub kind: String,
    pub text: Option<String>,
}

/// The message of one transcript line.
#[derive(Debug, Clone)]
pub struct TranscriptRecord {
    pub role: String,
    pub content: Vec<ContentBlock>,
}

/// Why no assistant text came out of a transcript.
#[derive(Debug, Clone, Copy, PartialEq, Eq, Structural)]
pub enum TranscriptError {
    /// The transcript file could not be opened or read.
    NotFound,
    /// No line holds an assistant message with text.
    NoAssistantMessage,
}

/// The text of a block of type "text" that has one.
pub open spec fn block_text(b: ContentBlock) -> Option<Seq<char>> {
    if b.kind@ == TEXT_BLOCK@ && b.text is Some {
        Some(b.text->0@)
    } else {
        None
    }
}

/// The text of the first block at or after `i` that has one.
pub open spec fn text_from(bs: Seq<ContentBlock>, i: int) -> Option<Seq<char>>
    decreases bs.len() - i,
{
    if i < 0 || i >= bs.len() {
        None
    } else if block_text(bs[i]) is Some {
        block_text(bs[i])
    } else {
        text_from(bs, i + 1)
    }
}

/// The spoken text of a line: present when the line parsed, holds an
/// assistant message, and that message has a text block with text.
pub open spec fn line_text(line: Option<TranscriptRecord>) -> Option<Seq<char>> {
    match line {
        Some(rec) => if rec.role@ == ASSISTANT_ROLE@ {
            text_from(rec.content@, 0)
        } else {
            None
        },
        None => None,
    }
}

/// The text of the last line among the first `n` that has one.
pub open spec fn last_text(lines: Seq<Option<TranscriptRecord>>, n: int) -> Option<Seq<char>>
    decreases n,
{
    if n <= 0 {
        None
    } else if line_text(lines[n - 1]) is Some {
        line_text(lines[n - 1])
    } else {
        last_text(lines, n - 1)
    }
}

/// Whether `s` is the fixed word `lit`.
fn same_text(s: &String, lit: &str) -> (r: bool)
    ensures
        r == (s@ == lit@),
{
    *s == String::from_str(lit)
}

fn first_text(bs: &Vec<ContentBlock>) -> (r: Option<String>)
    ensures
        match r {
            Some(t) => text_from(bs@, 0) == Some(t@),
            None => text_from(bs@, 0) is None,
        },
{
    let mut i: usize = 0;
    while i < bs.len()
        invariant
            i <= bs@.len(),
            text_from(bs@, 0) == text_from(bs@, i as int),
        decreases bs.len() - i,
    {
        let b = &bs[i];
        if same_text(&b.kind, TEXT_BLOCK) {
            match &b.text {
                Some(t) => {
                    return Some(t.clone());
                },
                None => {},
            }
        }
        i = i + 1;
    }
    None
}

/// The text of the last assistant line. `lines` holds one entry per line of
/// the transcript, `None` where the line is blank, does not parse, or holds
/// no message; such lines are skipped.
pub fn extract_last_assistant_message(lines: &Vec<Option<TranscriptRecord>>) -> (r: Result<
    String,
    TranscriptError,
>)
    ensures
        match last_text(lines@, lines@.len() as int) {
            Some(t) => r is Ok && r->Ok_0@ == t,
            None => r == Err::<String, TranscriptError>(TranscriptError::NoAssistantMessage),
        },
{
    let mut last: Option<String> = None;
    let mut i: usize = 0;
    while i < lines.len()
        invariant
            i <= lines@.len(),
            match last {
                Some(t) => last_text(lines@, i as int) == Some(t@),
                None => last_text(lines@, i as int) is None,
            },
        decreases lines.len() - i,
    {
        match &lines[i] {
            Some(rec) => {
                if same_text(&rec.role, ASSISTANT_ROLE) {
                    match first_text(&rec.content) {
                        Some(t) => {
                            last = Some(t);
                        },
                        None => {},
                    }
                }
            },
            None => {},
        }
        i = i + 1;
    }
    match last {
        Some(t) => Ok(t),
        None => Err(TranscriptError::NoAssistantMessage),
    }
}

/// The line-by-line reading keeps only the last qualifying line: when line
/// `k` has text and no later line has, that text is the result; when no line
/// has text, there is none.
pub proof fn lemma_last_qualifying_line(lines: Seq<Option<TranscriptRecord>>, k: int)
    requires
        0 <= k < lines.len(),
        line_text(lines[k]) is Some,
        forall|j: int| k < j < lines.len() ==> line_text(#[trigger] lines[j]) is None,
    ensures
        last_text(lines, lines.len() as int) == line_text(lines[k]),
{
    lemma_last_text_skips(lines, k + 1, lines.len() as int);
}

/// Lines after `lo` without text leave the result at `lo`.
proof fn lemma_last_text_skips(lines: Seq<Option<TranscriptRecord>>, lo: int, n: int)
    requires
        0 <= lo <= n <= lines.len(),
        forall|j: int| lo <= j < n ==> line_text(#[trigger] lines[j]) is None,
    ensures
        last_text(lines, n) == last_text(lines, lo),
    decreases n - lo,
{
    if n > lo {
        lemma_last_text_skips(lines, lo, n - 1);
    }
}

/// A transcript in which no line has text yields no text.
pub proof fn lemma_no_qualifying_line(lines: Seq<Option<TranscriptRecord>>)
    requires
        forall|j: int| 0 <= j < lines.len() ==> line_text(#[trigger] lines[j]) is None,
    ensures
        last_text(lines, lines.len() as int) is None,
{
    lemma_last_text_skips(lines, 0, lines.len() as int);
}

} // verus!
