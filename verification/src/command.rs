//! The commands that the user gives the player, and the reading of a line
//! of input.

use vstd::prelude::*;
use vstd::string::{axiom_spec_iter, StrSliceExecFns, StringExecFns};

verus! {

/// What the user asks of the player.
#[derive(Debug, Clone, PartialEq, Eq)]
pub enum Command {
    Shutdown,
    Play(String),
    Pause,
    Goto(u32),
}

/// White space: what is cut off both ends of a path.
pub open spec fn is_space(c: char) -> bool {
    let code = c as u32;
    ||| 0x09 <= code <= 0x0d
    ||| code == 0x20
    ||| code == 0x85
    ||| code == 0xa0
    ||| code == 0x1680
    ||| 0x2000 <= code <= 0x200a
    ||| code == 0x2028
    ||| code == 0x2029
    ||| code == 0x202f
    ||| code == 0x205f
    ||| code == 0x3000
}

/// A quotation mark, double or single: what is taken out of a path.
pub open spec fn is_quote(c: char) -> bool {
    c == '"' || c == '\''
}

/// The word that ends the player.
pub open spec fn exit_word() -> Seq<char> {
    seq!['e', 'x', 'i', 't']
}

/// The word that is followed by the path of a medium to play.
pub open spec fn open_word() -> Seq<char> {
    seq!['o', 'p', 'e', 'n']
}

/// `word` stands in `text` at the place `at`.
pub open spec fn occurs_at(text: Seq<char>, word: Seq<char>, at: int) -> bool {
    0 <= at && at + word.len() <= text.len() && text.subrange(at, at + word.len()) == word
}

/// The first place at or after `from` where `word` stands in `text`, and
/// the length of `text` where it stands nowhere from there on.
pub open spec fn find_from(text: Seq<char>, word: Seq<char>, from: int) -> int
    decreases text.len() - from,
{
    if from < 0 || from >= text.len() || from + word.len() > text.len() {
        text.len() as int
    } else if occurs_at(text, word, from) {
        from
    } else {
        find_from(text, word, from + 1)
    }
}

/// `text` without the white space at its front.
pub open spec fn skip_front(text: Seq<char>) -> Seq<char>
    decreases text.len(),
{
    if text.len() > 0 && is_space(text[0]) {
        skip_front(text.drop_first())
    } else {
        text
    }
}

/// `text` without the white space at its back.
pub open spec fn skip_back(text: Seq<char>) -> Seq<char>
    decreases text.len(),
{
    if text.len() > 0 && is_space(text.last()) {
        skip_back(text.drop_last())
    } else {
        text
    }
}

/// `text` without the white space at either end.
pub open spec fn trimmed(text: Seq<char>) -> Seq<char> {
    skip_back(skip_front(text))
}

/// `text` without its quotation marks.
pub open spec fn without_quotes(text: Seq<char>) -> Seq<char> {
    text.filter(|c: char| !is_quote(c))
}

/// What follows the first `open` in `text`, up to the next `open` or to the
/// end.
pub open spec fn argument_of(text: Seq<char>) -> Seq<char>
    recommends
        find_from(text, open_word(), 0) < text.len(),
{
    let start = find_from(text, open_word(), 0) + open_word().len();
    text.subrange(start, find_from(text, open_word(), start))
}

/// What a line of input means.
pub enum ParsedLine {
    /// The line is the word `exit`.
    Exit,
    /// The line holds the word `open`, followed by this path.
    Open(Seq<char>),
    /// The line means nothing.
    Nothing,
}

/// The meaning of a line. The line `exit`, and no other, ends the player.
/// Any other line that holds `open` asks to play the medium whose path is
/// what follows the first `open`, up to the next `open` if there is one,
/// with its quotation marks taken out and the white space at both ends cut
/// off.
pub open spec fn parsed(text: Seq<char>) -> ParsedLine {
    if text == exit_word() {
        ParsedLine::Exit
    } else if find_from(text, open_word(), 0) < text.len() {
        ParsedLine::Open(trimmed(without_quotes(argument_of(text))))
    } else {
        ParsedLine::Nothing
    }
}

/// Tells whether `c` is white space.
pub fn space(c: char) -> (b: bool)
    ensures
        b == is_space(c),
{
    let code: u32 = c as u32;
    (0x09 <= code && code <= 0x0d) || code == 0x20 || code == 0x85 || code == 0xa0 || code
        == 0x1680 || (0x2000 <= code && code <= 0x200a) || code == 0x2028 || code == 0x2029
        || code == 0x202f || code == 0x205f || code == 0x3000
}

/// The characters of `line`, one by one.
fn chars_of(line: &str) -> (chars: Vec<char>)
    ensures
        chars@ == line@,
{
    broadcast use axiom_spec_iter;

    let mut chars: Vec<char> = Vec::new();
    for c in it: line.chars()
        invariant
            chars@ == it.seq().take(it.index() as int),
            it.seq() == line@,
    {
        chars.push(c);
    }
    assert(chars@ =~= line@);
    chars
}

/// Tells whether `open` stands in `text` at the place `at`.
fn open_at(text: &Vec<char>, at: usize) -> (found: bool)
    requires
        at + 4 <= text.len(),
    ensures
        found == occurs_at(text@, open_word(), at as int),
{
    let found = text[at] == 'o' && text[at + 1] == 'p' && text[at + 2] == 'e' && text[at + 3]
        == 'n';
    proof {
        let piece = text@.subrange(at as int, at + 4);
        assert(piece.len() == 4);
        assert(piece[0] == text@[at as int]);
        assert(piece[1] == text@[at + 1]);
        assert(piece[2] == text@[at + 2]);
        assert(piece[3] == text@[at + 3]);
        assert(open_word().len() == 4);
        assert(open_word()[0] == 'o' && open_word()[1] == 'p' && open_word()[2] == 'e'
            && open_word()[3] == 'n');
        if found {
            assert(piece =~= open_word());
        }
    }
    found
}

/// Computes [`find_from`] for the word `open`.
fn find_open(text: &Vec<char>, from: usize) -> (place: usize)
    requires
        from <= text.len(),
    ensures
        place == find_from(text@, open_word(), from as int),
        from <= place <= text.len(),
        place < text.len() ==> place + 4 <= text.len(),
{
    let mut at: usize = from;
    assert(open_word().len() == 4);
    while at < text.len() && text.len() - at >= 4
        invariant
            from <= at <= text.len(),
            open_word().len() == 4,
            find_from(text@, open_word(), from as int) == find_from(
                text@,
                open_word(),
                at as int,
            ),
        decreases text.len() - at,
    {
        if open_at(text, at) {
            return at;
        }
        at = at + 1;
    }
    text.len()
}

/// Parses one line of input: see [`parsed`]. `None` means that the line
/// asks for nothing.
pub fn parse_command(line: &str) -> (command: Option<Command>)
    ensures
        match parsed(line@) {
            ParsedLine::Exit => command == Some(Command::Shutdown),
            ParsedLine::Open(path) => command matches Some(Command::Play(found)) && found@
                == path,
            ParsedLine::Nothing => command is None,
        },
{
    let text = chars_of(line);
    let length = text.len();
    if length == 4 && text[0] == 'e' && text[1] == 'x' && text[2] == 'i' && text[3] == 't' {
        assert(text@ =~= exit_word());
        return Some(Command::Shutdown);
    }
    proof {
        if text@ == exit_word() {
            assert(exit_word().len() == 4);
            assert(exit_word()[0] == 'e' && exit_word()[1] == 'x' && exit_word()[2] == 'i'
                && exit_word()[3] == 't');
        }
    }
    let first = find_open(&text, 0);
    if first >= length {
        return None;
    }
    assert(open_word().len() == 4);
    let start = first + 4;
    let end = find_open(&text, start);
    let ghost argument = text@.subrange(start as int, end as int);
    // The places of the characters that are no quotation marks.
    let mut kept: Vec<usize> = Vec::new();
    let ghost mut bare: Seq<char> = Seq::empty();
    let mut at: usize = start;
    while at < end
        invariant
            start <= at <= end <= text.len(),
            bare == without_quotes(text@.subrange(start as int, at as int)),
            kept.len() == bare.len(),
            forall|k: int|
                0 <= k < kept.len() ==> start <= #[trigger] kept[k] < at && text@[kept[k] as int]
                    == bare[k],
        decreases end - at,
    {
        let c = text[at];
        proof {
            let before = text@.subrange(start as int, at as int);
            let after = text@.subrange(start as int, at + 1);
            assert(after.drop_last() =~= before);
            assert(after.last() == c);
            let keep = |c: char| !is_quote(c);
            reveal(Seq::filter);
            assert(after.len() > 0);
            assert(after.drop_last() == before);
            assert(after.filter(keep) == if keep(after.last()) {
                after.drop_last().filter(keep).push(after.last())
            } else {
                after.drop_last().filter(keep)
            });
        }
        if !(c == '"' || c == '\'') {
            kept.push(at);
            proof {
                bare = bare.push(c);
            }
        }
        at = at + 1;
    }
    assert(bare == without_quotes(argument));
    // Cut the white space off the front.
    let mut low: usize = 0;
    assert(bare.subrange(0, bare.len() as int) =~= bare);
    while low < kept.len() && space(text[kept[low]])
        invariant
            low <= kept.len() == bare.len(),
            forall|k: int|
                0 <= k < kept.len() ==> #[trigger] kept[k] < text.len() && text@[kept[k] as int]
                    == bare[k],
            skip_front(bare) == skip_front(bare.subrange(low as int, bare.len() as int)),
        decreases kept.len() - low,
    {
        proof {
            let rest = bare.subrange(low as int, bare.len() as int);
            assert(rest[0] == bare[low as int]);
            assert(rest.drop_first() =~= bare.subrange(low + 1, bare.len() as int));
        }
        low = low + 1;
    }
    let ghost front = bare.subrange(low as int, bare.len() as int);
    proof {
        if front.len() > 0 {
            assert(front[0] == bare[low as int]);
        }
        assert(skip_front(bare) == front);
    }
    // Cut the white space off the back.
    let mut high: usize = kept.len();
    while high > low && space(text[kept[high - 1]])
        invariant
            low <= high <= kept.len() == bare.len(),
            forall|k: int|
                0 <= k < kept.len() ==> #[trigger] kept[k] < text.len() && text@[kept[k] as int]
                    == bare[k],
            skip_back(front) == skip_back(bare.subrange(low as int, high as int)),
        decreases high,
    {
        proof {
            let rest = bare.subrange(low as int, high as int);
            assert(rest.last() == bare[high - 1]);
            assert(rest.drop_last() =~= bare.subrange(low as int, high - 1));
        }
        high = high - 1;
    }
    let ghost middle = bare.subrange(low as int, high as int);
    proof {
        if middle.len() > 0 {
            assert(middle.last() == bare[high - 1]);
        }
        assert(skip_back(front) == middle);
        assert(trimmed(bare) == middle);
    }
    // Copy what is left, character by character.
    let mut path = String::new();
    let mut next: usize = low;
    while next < high
        invariant
            low <= next <= high <= kept.len() == bare.len(),
            text@ == line@,
            forall|k: int|
                0 <= k < kept.len() ==> #[trigger] kept[k] < text.len() && text@[kept[k] as int]
                    == bare[k],
            path@ == bare.subrange(low as int, next as int),
        decreases high - next,
    {
        let place = kept[next];
        let piece = line.substring_char(place, place + 1);
        path.append(piece);
        proof {
            assert(piece@ =~= seq![bare[next as int]]);
            assert(path@ =~= bare.subrange(low as int, next + 1));
        }
        next = next + 1;
    }
    Some(Command::Play(path))
}

} // verus!
