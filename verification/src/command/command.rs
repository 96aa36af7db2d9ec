//! Parsing of a typed command line.
//!
//! The line is trimmed of surrounding white space and cut at every single
//! space; the last piece names the command and the pieces before it are its
//! arguments (two spaces in a row make an empty argument). A line of nothing
//! but white space is no command.

use vstd::prelude::*;
use vstd::string::StrSliceExecFns;

verus! {

/// The characters trimmed from the ends of a line: the Unicode white-space
/// set, as `str::trim` removes it.
pub open spec fn is_blank(c: char) -> bool {
    let u = c as u32;
    ||| u == 0x0009  // character tabulation
    ||| u == 0x000A  // line feed
    ||| u == 0x000B  // line tabulation
    ||| u == 0x000C  // form feed
    ||| u == 0x000D  // carriage return
    ||| u == 0x0020  // space
    ||| u == 0x0085  // next line
    ||| u == 0x00A0  // no-break space
    ||| u == 0x1680  // ogham space mark
    ||| (0x2000 <= u && u <= 0x200A)  // en quad through hair space
    ||| u == 0x2028  // line separator
    ||| u == 0x2029  // paragraph separator
    ||| u == 0x202F  // narrow no-break space
    ||| u == 0x205F  // medium mathematical space
    ||| u == 0x3000  // ideographic space
}

/// `s` without its leading blanks.
pub open spec fn trim_front(s: Seq<char>) -> Seq<char>
    decreases s.len(),
{
    if s.len() > 0 && is_blank(s[0]) {
        trim_front(s.drop_first())
    } else {
        s
    }
}

/// `s` without its trailing blanks.
pub open spec fn trim_back(s: Seq<char>) -> Seq<char>
    decreases s.len(),
{
    if s.len() > 0 && is_blank(s.last()) {
        trim_back(s.drop_last())
    } else {
        s
    }
}

/// `s` without leading and trailing blanks.
pub open spec fn trimmed(s: Seq<char>) -> Seq<char> {
    trim_back(trim_front(s))
}

/// The index of the first space in `s`, or `s.len()` when there is none.
pub open spec fn first_space(s: Seq<char>) -> int
    decreases s.len(),
{
    if s.len() == 0 {
        0
    } else if s[0] == ' ' {
        0
    } else {
        1 + first_space(s.drop_first())
    }
}

/// `first_space` points at the first space: everything before it is no
/// space, and it is a space unless it is the end.
pub proof fn lemma_first_space(s: Seq<char>)
    ensures
        0 <= first_space(s) <= s.len(),
        forall|j: int| 0 <= j < first_space(s) ==> s[j] != ' ',
        first_space(s) < s.len() ==> s[first_space(s)] == ' ',
    decreases s.len(),
{
    if s.len() > 0 && s[0] != ' ' {
        lemma_first_space(s.drop_first());
        assert forall|j: int| 0 <= j < first_space(s) implies s[j] != ' ' by {
            if j > 0 {
                assert(s[j] == s.drop_first()[j - 1]);
            }
        }
    }
}

/// `s` cut at every single space (so two spaces in a row yield an empty
/// piece). Never empty: a spaceless `s` is one piece, itself.
pub open spec fn split_spec(s: Seq<char>) -> Seq<Seq<char>>
    decreases s.len(),
{
    let i = first_space(s);
    if 0 <= i < s.len() {
        seq![s.subrange(0, i)] + split_spec(s.subrange(i + 1, s.len() as int))
    } else {
        seq![s]
    }
}

/// A parsed command line: the name of the command and its arguments.
#[derive(Debug)]
pub struct Command {
    pub command: String,
    pub arguments: Vec<String>,
}

fn is_blank_char(c: char) -> (b: bool)
    ensures
        b == is_blank(c),
{
    let u = c as u32;
    u == 0x0009 || u == 0x000A || u == 0x000B || u == 0x000C || u == 0x000D || u == 0x0020
        || u == 0x0085 || u == 0x00A0 || u == 0x1680 || (0x2000 <= u && u <= 0x200A)
        || u == 0x2028 || u == 0x2029 || u == 0x202F || u == 0x205F || u == 0x3000
}

impl Command {
    /// Parses one typed line: trims it, cuts it at spaces, and takes the
    /// last piece as the command's name and the pieces before it as the
    /// arguments. A line of nothing but white space parses to `None`.
    pub fn parse(text: String) -> (r: Option<Command>)
        ensures
            r is Some <==> trimmed(text@).len() > 0,
            r matches Some(c) ==> {
                &&& c.command@ == split_spec(trimmed(text@)).last()
                &&& c.arguments.deep_view() == split_spec(trimmed(text@)).drop_last()
            },
    {
        let t = text.as_str();
        let len = t.unicode_len();

        let mut start: usize = 0;
        proof {
            assert(t@.subrange(0, len as int) =~= t@);
        }
        while start < len && is_blank_char(t.get_char(start))
            invariant
                start <= len,
                len == t@.len(),
                trim_front(t@) == trim_front(t@.subrange(start as int, len as int)),
            decreases len - start,
        {
            proof {
                assert(t@.subrange(start as int, len as int).drop_first() =~= t@.subrange(
                    start as int + 1,
                    len as int,
                ));
            }
            start = start + 1;
        }
        proof {
            assert(trim_front(t@) == t@.subrange(start as int, len as int));
        }

        let mut end: usize = len;
        while end > start && is_blank_char(t.get_char(end - 1))
            invariant
                start <= end <= len,
                len == t@.len(),
                trim_front(t@) == t@.subrange(start as int, len as int),
                trimmed(t@) == trim_back(t@.subrange(start as int, end as int)),
            decreases end,
        {
            proof {
                assert(t@.subrange(start as int, end as int).drop_last() =~= t@.subrange(
                    start as int,
                    end as int - 1,
                ));
            }
            end = end - 1;
        }
        let ghost trimmed_text = t@.subrange(start as int, end as int);
        proof {
            assert(trimmed(t@) == trimmed_text);
        }

        if start == end {
            return None;
        }

        let mut chunks: Vec<String> = Vec::new();
        let mut chunk_start: usize = start;
        let mut i: usize = start;
        while i < end
            invariant
                start <= chunk_start <= i <= end <= len,
                len == t@.len(),
                trimmed_text == t@.subrange(start as int, end as int),
                forall|j: int| chunk_start <= j < i ==> t@[j] != ' ',
                split_spec(trimmed_text) == chunks.deep_view() + split_spec(
                    t@.subrange(chunk_start as int, end as int),
                ),
            decreases end - i,
        {
            if t.get_char(i) == ' ' {
                let ghost rest = t@.subrange(chunk_start as int, end as int);
                let ghost done = chunks.deep_view();
                let chunk = t.substring_char(chunk_start, i);
                chunks.push(chunk.to_owned());
                proof {
                    lemma_first_space(rest);
                    assert(forall|j: int|
                        0 <= j < i - chunk_start ==> rest[j] == t@[chunk_start + j] && rest[j]
                            != ' ');
                    assert(rest[i - chunk_start] == ' ');
                    assert(first_space(rest) == i - chunk_start);
                    assert(rest.subrange(0, i - chunk_start) =~= t@.subrange(
                        chunk_start as int,
                        i as int,
                    ));
                    assert(rest.subrange(i - chunk_start + 1, rest.len() as int) =~= t@.subrange(
                        i as int + 1,
                        end as int,
                    ));
                    assert(chunks.deep_view() =~= done.push(chunk@));
                    assert(split_spec(rest) == seq![chunk@] + split_spec(
                        t@.subrange(i as int + 1, end as int),
                    ));
                    assert(done + split_spec(rest) =~= chunks.deep_view() + split_spec(
                        t@.subrange(i as int + 1, end as int),
                    ));
                }
                chunk_start = i + 1;
            }
            i = i + 1;
        }

        let ghost last_rest = t@.subrange(chunk_start as int, end as int);
        let ghost done = chunks.deep_view();
        let chunk = t.substring_char(chunk_start, end);
        chunks.push(chunk.to_owned());
        proof {
            lemma_first_space(last_rest);
            assert(forall|j: int|
                0 <= j < last_rest.len() ==> last_rest[j] == t@[chunk_start + j] && last_rest[j]
                    != ' ');
            assert(first_space(last_rest) == last_rest.len());
            assert(chunk@ == last_rest);
            assert(chunks.deep_view() =~= done.push(chunk@));
            assert(split_spec(trimmed_text) =~= chunks.deep_view());
        }

        let ghost all_chunks = chunks.deep_view();
        let command = match chunks.pop() {
            Some(c) => c,
            None => {
                proof {
                    assert(false);
                }
                return None;
            },
        };
        proof {
            assert(command@ == all_chunks.last());
            assert(chunks.deep_view() =~= all_chunks.drop_last());
        }
        Some(Command { command, arguments: chunks })
    }
}

} // verus!
