//! Helpers on text: what is drawn on a terminal row, and how stored text
//! falls into lines.
use vstd::prelude::*;
use vstd::std_specs::iter::IteratorSpec;
use vstd::string::*;

verus! {

/// Number of columns that the prompt takes at the start of every row.
pub const PREFIX_SIZE: u16 = 4;

/// The characters that start every redraw: back to the first column, then
/// the prompt.
pub open spec fn prompt() -> Seq<char> {
    seq!['\r', '>', '>', '>', ' ']
}

/// `count` blanks.
pub open spec fn blanks(count: nat) -> Seq<char> {
    Seq::new(count, |i: int| ' ')
}

/// What redraws a row that shows `content`.
pub open spec fn row(content: Seq<char>) -> Seq<char> {
    prompt() + content
}

/// `String::push` of std: the character is appended at the end of the text
/// and nothing else changes.
#[verifier::external_body]
pub(crate) fn push_char(text: &mut String, ch: char)
    ensures
        final(text)@ == old(text)@.push(ch),
{
    text.push(ch);
}

/// The text that redraws a row showing `content`.
pub fn draw_row(content: &str) -> (drawn: String)
    ensures
        drawn@ == row(content@),
{
    proof {
        reveal_strlit("\r>>> ");
        assert("\r>>> "@ =~= prompt());
    }
    String::from_str("\r>>> ").concat(content)
}

/// The text that draws the prompt on an empty row.
pub fn draw_prompt() -> (drawn: String)
    ensures
        drawn@ == row(Seq::empty()),
{
    proof {
        reveal_strlit("");
        assert(""@ =~= Seq::<char>::empty());
    }
    draw_row("")
}

/// A text of `count` blanks.
pub fn blank_text(count: usize) -> (text: String)
    ensures
        text@ == blanks(count as nat),
{
    let mut text = String::new();
    let mut done: usize = 0;
    while done < count
        invariant
            done <= count,
            text@ == blanks(done as nat),
        decreases count - done,
    {
        push_char(&mut text, ' ');
        done = done + 1;
        assert(text@ =~= blanks(done as nat));
    }
    text
}

/// The text of a string that may be absent.
pub open spec fn text_of(string: Option<String>) -> Option<Seq<char>> {
    match string {
        Some(string) => Some(string@),
        None => None,
    }
}

/// The texts that a list of strings holds, in order.
pub open spec fn texts(strings: Seq<String>) -> Seq<Seq<char>> {
    Seq::new(strings.len(), |i: int| strings[i]@)
}

/// The number of characters of `text` before its first line feed: its whole
/// length where it holds none.
pub open spec fn line_end(text: Seq<char>) -> nat
    decreases text.len(),
{
    if text.len() == 0 || text[0] == '\n' {
        0
    } else {
        1 + line_end(text.drop_first())
    }
}

/// A line as it was before its terminator: where the text before a line
/// feed ends in a carriage return, the carriage return belongs to the
/// terminator.
pub open spec fn without_return(line: Seq<char>) -> Seq<char> {
    if line.len() > 0 && line.last() == '\r' {
        line.drop_last()
    } else {
        line
    }
}

/// The lines of a text. A line ends at a line feed, or at a carriage return
/// followed by one, or where the text ends; nothing follows the last
/// terminator, so a text that ends in a terminator has no empty last line.
pub open spec fn lines_of(text: Seq<char>) -> Seq<Seq<char>>
    decreases text.len(),
{
    if text.len() == 0 {
        Seq::empty()
    } else {
        let end = line_end(text);
        if end >= text.len() {
            seq![text]
        } else {
            seq![without_return(text.subrange(0, end as int))] + lines_of(
                text.subrange(end as int + 1, text.len() as int),
            )
        }
    }
}

/// What a store holds after `entries` were written to it one by one, each
/// followed by a line feed.
pub open spec fn stored(entries: Seq<Seq<char>>) -> Seq<char>
    decreases entries.len(),
{
    if entries.len() == 0 {
        Seq::empty()
    } else {
        entries[0].push('\n') + stored(entries.drop_first())
    }
}

/// A text that survives being stored as one line: it holds no line feed and
/// does not end in a carriage return.
pub open spec fn single_line(entry: Seq<char>) -> bool {
    &&& forall|i: int| 0 <= i < entry.len() ==> entry[i] != '\n'
    &&& entry.len() > 0 ==> entry.last() != '\r'
}

/// `line_end` is the one position that has no line feed before it and a
/// line feed, or the end of the text, at it.
pub proof fn lemma_line_end_is(text: Seq<char>, end: int)
    requires
        0 <= end <= text.len(),
        forall|i: int| 0 <= i < end ==> text[i] != '\n',
        end < text.len() ==> text[end] == '\n',
    ensures
        line_end(text) == end,
    decreases text.len(),
{
    if end > 0 {
        let rest = text.drop_first();
        assert forall|i: int| 0 <= i < end - 1 implies rest[i] != '\n' by {
            assert(rest[i] == text[i + 1]);
        }
        lemma_line_end_is(rest, end - 1);
    }
}

/// Writing one more entry appends it and a line feed to what is stored.
pub proof fn lemma_stored_push(entries: Seq<Seq<char>>, line: Seq<char>)
    ensures
        stored(entries.push(line)) == stored(entries) + line.push('\n'),
    decreases entries.len(),
{
    let longer = entries.push(line);
    if entries.len() == 0 {
        assert(longer.drop_first() =~= Seq::<Seq<char>>::empty());
        assert(stored(longer.drop_first()) =~= Seq::<char>::empty());
        assert(stored(longer) =~= line.push('\n'));
        assert(stored(entries) + line.push('\n') =~= line.push('\n'));
    } else {
        assert(longer.drop_first() =~= entries.drop_first().push(line));
        lemma_stored_push(entries.drop_first(), line);
        assert(stored(longer) =~= stored(entries) + line.push('\n'));
    }
}

/// Reading back what was written gives the entries that were written, as
/// long as each of them is a single line.
pub proof fn lemma_lines_of_stored(entries: Seq<Seq<char>>)
    requires
        forall|i: int| 0 <= i < entries.len() ==> single_line(#[trigger] entries[i]),
    ensures
        lines_of(stored(entries)) == entries,
    decreases entries.len(),
{
    if entries.len() == 0 {
        assert(lines_of(stored(entries)) =~= entries);
    } else {
        let first = entries[0];
        let rest = entries.drop_first();
        let text = stored(entries);
        let end = first.len() as int;
        assert(single_line(first));
        assert forall|i: int| 0 <= i < rest.len() implies single_line(#[trigger] rest[i]) by {
            assert(rest[i] == entries[i + 1]);
        }
        lemma_lines_of_stored(rest);
        assert(text.len() == end + 1 + stored(rest).len());
        assert forall|i: int| 0 <= i < end implies text[i] != '\n' by {
            assert(text[i] == first[i]);
        }
        assert(text[end] == '\n');
        lemma_line_end_is(text, end);
        assert(text.subrange(0, end) =~= first);
        assert(text.subrange(end + 1, text.len() as int) =~= stored(rest));
        assert(without_return(first) == first);
        assert(lines_of(text) =~= seq![first] + rest);
        assert(seq![first] + rest =~= entries);
    }
}

/// Splits a text into its lines, in one pass over its characters.
pub fn split_lines(text: &str) -> (lines: Vec<String>)
    ensures
        texts(lines@) == lines_of(text@),
{
    let mut lines: Vec<String> = Vec::new();
    let mut line = String::new();
    // A carriage return was read last: it joins the line unless a line feed follows.
    let mut held = false;
    let mut chars = text.chars();
    let ghost length = text@.len() as int;
    let ghost mut start: int = 0;
    let ghost mut at: int = 0;
    proof {
        assert(texts(lines@) =~= Seq::<Seq<char>>::empty());
        assert(text@.subrange(0, length) =~= text@);
        assert(text@.subrange(0, 0) =~= line@);
    }
    loop
        invariant
            length == text@.len(),
            0 <= start <= at <= length,
            chars.remaining() == text@.subrange(at, length),
            forall|i: int| start <= i < at ==> text@[i] != '\n',
            lines_of(text@) == texts(lines@) + lines_of(text@.subrange(start, length)),
            text@.subrange(start, at) == if held {
                line@.push('\r')
            } else {
                line@
            },
            !held ==> line@.len() == 0 || line@.last() != '\r',
        ensures
            at == length,
        decreases length - at,
    {
        let ghost rest = text@.subrange(start, length);
        let ghost raw = text@.subrange(start, at);
        let ghost before = lines@;
        match chars.next() {
            None => {
                break ;
            },
            Some(ch) => {
                assert(ch == text@[at]);
                assert(text@.subrange(at, length).drop_first() =~= text@.subrange(at + 1, length));
                if ch == '\n' {
                    proof {
                        let end = at - start;
                        assert forall|i: int| 0 <= i < end implies rest[i] != '\n' by {
                            assert(rest[i] == text@[start + i]);
                        }
                        assert(rest[end] == '\n');
                        lemma_line_end_is(rest, end);
                        assert(rest.subrange(0, end) =~= raw);
                        assert(held ==> raw.drop_last() =~= line@);
                        assert(line@ == without_return(raw));
                        assert(rest.subrange(end + 1, rest.len() as int) =~= text@.subrange(
                            at + 1,
                            length,
                        ));
                        assert(texts(before.push(line)) =~= texts(before) + seq![line@]);
                    }
                    lines.push(line);
                    line = String::new();
                    held = false;
                    proof {
                        start = at + 1;
                        assert(text@.subrange(start, at + 1) =~= line@);
                    }
                } else {
                    if held {
                        push_char(&mut line, '\r');
                    }
                    if ch == '\r' {
                        held = true;
                    } else {
                        held = false;
                        push_char(&mut line, ch);
                    }
                    assert(text@.subrange(start, at + 1) =~= raw.push(ch));
                }
                proof {
                    at = at + 1;
                }
            },
        }
    }
    if held {
        push_char(&mut line, '\r');
    }
    if !line.as_str().is_empty() {
        proof {
            let rest = text@.subrange(start, length);
            assert forall|i: int| 0 <= i < rest.len() implies rest[i] != '\n' by {
                assert(rest[i] == text@[start + i]);
            }
            lemma_line_end_is(rest, rest.len() as int);
            assert(texts(lines@.push(line)) =~= texts(lines@) + seq![line@]);
        }
        lines.push(line);
    } else {
        proof {
            assert(texts(lines@) + Seq::<Seq<char>>::empty() =~= texts(lines@));
        }
    }
    lines
}

/// What moves the terminal to a fresh row once a line is submitted.
pub open spec fn fresh_row() -> Seq<char> {
    seq!['\n', '\r']
}

/// What clears the screen and puts the terminal's cursor at its top left.
pub open spec fn clear_sequence() -> Seq<char> {
    seq!['\u{1b}', '[', '2', 'J', '\u{1b}', '[', '1', ';', '1', 'H']
}

/// What a text looks like once quoted for a log: the form that
/// `<str as Debug>::fmt` of std gives it.
pub uninterp spec fn debug_form(text: Seq<char>) -> Seq<char>;

/// `<str as Debug>::fmt` of std, reached through `format!`: the text
/// between double quotes, with its special characters escaped. The result
/// depends on the text alone.
#[verifier::external_body]
pub(crate) fn debug_text(text: &str) -> (quoted: String)
    ensures
        quoted@ == debug_form(text@),
{
    format!("{text:?}")
}

/// A note for the log, as it is sent: the tag `[INFO]`, a blank and the
/// note.
pub open spec fn info_line(note: Seq<char>) -> Seq<char> {
    seq!['[', 'I', 'N', 'F', 'O', ']', ' '] + note
}

/// An error for the log, as it is sent: the tag `[ERROR]`, a blank and the
/// description of the error.
pub open spec fn error_line(detail: Seq<char>) -> Seq<char> {
    seq!['[', 'E', 'R', 'R', 'O', 'R', ']', ' '] + detail
}

/// The note that opens the log of a run.
pub open spec fn start_words() -> Seq<char> {
    "CLI started"@
}

/// The note that tells of an inserted character.
pub open spec fn insert_words(ch: char) -> Seq<char> {
    seq!['I', 'n', 's', 'e', 'r', 't', ' ', ch, '.']
}

/// The note that tells of a key that has no effect, by the key's name.
pub open spec fn unsupported_words(name: Seq<char>) -> Seq<char> {
    seq![
        'P',
        'r',
        'e',
        's',
        's',
        'e',
        'd',
        ' ',
        'u',
        'n',
        's',
        'u',
        'p',
        'p',
        'o',
        'r',
        't',
        'e',
        'd',
        ' ',
    ] + name + seq!['.']
}

/// Puts the tag `[INFO]` before a note that is already quoted.
pub fn tag_info(quoted: &str) -> (message: String)
    ensures
        message@ == info_line(quoted@),
{
    proof {
        reveal_strlit("[INFO] ");
        assert("[INFO] "@ =~= seq!['[', 'I', 'N', 'F', 'O', ']', ' ']);
    }
    String::from_str("[INFO] ").concat(quoted)
}

/// The message that reports an error described by `detail`.
pub fn error_message(detail: &str) -> (message: String)
    ensures
        message@ == error_line(detail@),
{
    proof {
        reveal_strlit("[ERROR] ");
        assert("[ERROR] "@ =~= seq!['[', 'E', 'R', 'R', 'O', 'R', ']', ' ']);
    }
    String::from_str("[ERROR] ").concat(detail)
}

/// The message that carries `note` to the log: the note is quoted, then
/// tagged.
pub fn info_message(note: &str) -> (message: String)
    ensures
        message@ == info_line(debug_form(note@)),
{
    let quoted = debug_text(note);
    tag_info(quoted.as_str())
}

/// The note that tells of the inserted character `ch`.
pub fn insert_note(ch: char) -> (note: String)
    ensures
        note@ == insert_words(ch),
{
    proof {
        reveal_strlit("Insert ");
    }
    let mut note = String::from_str("Insert ");
    push_char(&mut note, ch);
    push_char(&mut note, '.');
    assert(note@ =~= insert_words(ch));
    note
}

/// The note that tells of a key without effect, named `name`.
pub fn unsupported_note(name: &str) -> (note: String)
    ensures
        note@ == unsupported_words(name@),
{
    proof {
        reveal_strlit("Pressed unsupported ");
    }
    let mut note = String::from_str("Pressed unsupported ").concat(name);
    push_char(&mut note, '.');
    assert(note@ =~= unsupported_words(name@));
    note
}

/// The text that moves the terminal to a fresh row.
pub fn fresh_row_text() -> (text: String)
    ensures
        text@ == fresh_row(),
{
    proof {
        reveal_strlit("\n\r");
        assert("\n\r"@ =~= fresh_row());
    }
    String::from_str("\n\r")
}

/// The text that clears the screen.
pub fn clear_text() -> (text: String)
    ensures
        text@ == clear_sequence(),
{
    proof {
        reveal_strlit("\x1B[2J\x1B[1;1H");
        assert("\x1B[2J\x1B[1;1H"@ =~= clear_sequence());
    }
    String::from_str("\x1B[2J\x1B[1;1H")
}

} // verus!
