//! Command lines: an executor's command is a name and arguments with single
//! spaces between them.

use vstd::prelude::*;
use vstd::string::StrSliceExecFns;
use crate::text::texts;

verus! {

/// The place of the first space of `s`; the length of `s` where it has none.
pub open spec fn first_space(s: Seq<char>) -> nat
    decreases s.len(),
{
    if s.len() == 0 {
        0
    } else if s[0] == ' ' {
        0
    } else {
        1 + first_space(s.drop_first())
    }
}

/// The pieces of `s` between its spaces, empty pieces too: a text without
/// a space is one piece, and every space ends one piece and starts another.
pub open spec fn split_spaces(s: Seq<char>) -> Seq<Seq<char>>
    decreases s.len(),
{
    let i = first_space(s);
    if i >= s.len() {
        seq![s]
    } else {
        seq![s.take(i as int)] + split_spaces(s.skip(i as int + 1))
    }
}

/// Where the first `j` characters are no spaces and a space or the end
/// follows, the first space is at `j`.
pub proof fn lemma_first_space_at(s: Seq<char>, j: int)
    requires
        0 <= j <= s.len(),
        forall|k: int| 0 <= k < j ==> s[k] != ' ',
        j < s.len() ==> s[j] == ' ',
    ensures
        first_space(s) == j,
    decreases s.len(),
{
    if j > 0 {
        let rest = s.drop_first();
        assert forall|k: int| 0 <= k < j - 1 implies rest[k] != ' ' by {
            assert(rest[k] == s[k + 1]);
        }
        lemma_first_space_at(rest, j - 1);
    }
}

/// The name that a command line starts with.
pub open spec fn command_name(command: Seq<char>) -> Seq<char> {
    split_spaces(command)[0]
}

/// The arguments that follow the name of a command line.
pub open spec fn command_args(command: Seq<char>) -> Seq<Seq<char>> {
    split_spaces(command).skip(1)
}

/// Cuts `command` at its spaces.
pub fn split_command(command: &str) -> (pieces: Vec<String>)
    ensures
        texts(pieces@) == split_spaces(command@),
        pieces@.len() >= 1,
{
    let n = command.unicode_len();
    let mut pieces: Vec<String> = Vec::new();
    let mut start: usize = 0;
    let mut i: usize = 0;
    assert(command@.skip(0) =~= command@);
    assert(texts(pieces@) + split_spaces(command@.skip(0)) =~= split_spaces(command@));
    while i < n
        invariant
            n == command@.len(),
            start <= i <= n,
            forall|k: int| start <= k < i ==> command@[k] != ' ',
            texts(pieces@) + split_spaces(command@.skip(start as int)) == split_spaces(command@),
        decreases n - i,
    {
        let c = command.get_char(i);
        if c == ' ' {
            let piece = command.substring_char(start, i).to_owned();
            proof {
                let rest = command@.skip(start as int);
                assert forall|k: int| 0 <= k < i - start implies rest[k] != ' ' by {
                    assert(rest[k] == command@[start + k]);
                }
                assert(rest[i - start] == ' ');
                lemma_first_space_at(rest, i - start);
                assert(rest.take(i - start) =~= command@.subrange(start as int, i as int));
                assert(rest.skip(i - start + 1) =~= command@.skip(i + 1));
                assert(texts(pieces@.push(piece)) =~= texts(pieces@).push(piece@));
                assert(texts(pieces@).push(piece@) + split_spaces(command@.skip(i + 1))
                    =~= texts(pieces@) + (seq![piece@] + split_spaces(command@.skip(i + 1))));
            }
            pieces.push(piece);
            start = i + 1;
        }
        i += 1;
    }
    let piece = command.substring_char(start, n).to_owned();
    proof {
        let rest = command@.skip(start as int);
        assert forall|k: int| 0 <= k < n - start implies rest[k] != ' ' by {
            assert(rest[k] == command@[start + k]);
        }
        lemma_first_space_at(rest, n - start);
        assert(rest =~= command@.subrange(start as int, n as int));
        assert(texts(pieces@.push(piece)) =~= texts(pieces@).push(piece@));
        assert(texts(pieces@).push(piece@) =~= texts(pieces@) + seq![piece@]);
    }
    pieces.push(piece);
    pieces
}

/// Cuts `command` into its name and its arguments.
pub fn parse_command(command: &str) -> (parsed: (String, Vec<String>))
    ensures
        parsed.0@ == command_name(command@),
        texts(parsed.1@) == command_args(command@),
{
    let mut pieces = split_command(command);
    assert(texts(pieces@).len() == pieces@.len());
    let ghost all = pieces@;
    let name = pieces.remove(0);
    assert(texts(pieces@) =~= texts(all).skip(1));
    assert(texts(all)[0] == name@);
    (name, pieces)
}

} // verus!
