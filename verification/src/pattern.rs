//! The query of a search as a regular expression. A store that matches
//! names by regular expression is handed the query with every operator
//! escaped, so that it looks for the text itself.

use vstd::prelude::*;
use vstd::string::{StrSliceExecFns, StringExecFns};

verus! {

/// Whether a regular expression reads `c` as an operator.
pub open spec fn is_operator(c: char) -> bool {
    ||| c == '\\'
    ||| c == '^'
    ||| c == '$'
    ||| c == '.'
    ||| c == '|'
    ||| c == '?'
    ||| c == '*'
    ||| c == '+'
    ||| c == '('
    ||| c == ')'
    ||| c == '['
    ||| c == ']'
    ||| c == '{'
    ||| c == '}'
}

/// One character as a regular expression that matches it alone.
pub open spec fn escaped_char(c: char) -> Seq<char> {
    if is_operator(c) {
        seq!['\\', c]
    } else {
        seq![c]
    }
}

/// A text as a regular expression that matches it alone: every operator
/// with a backslash before it, every other character as it is.
pub open spec fn escaped(text: Seq<char>) -> Seq<char>
    decreases text.len(),
{
    if text.len() == 0 {
        Seq::empty()
    } else {
        escaped(text.drop_last()) + escaped_char(text.last())
    }
}

/// Whether a regular expression reads `c` as an operator.
fn reads_as_operator(c: char) -> (r: bool)
    ensures
        r == is_operator(c),
{
    c == '\\' || c == '^' || c == '$' || c == '.' || c == '|' || c == '?' || c == '*' || c == '+'
        || c == '(' || c == ')' || c == '[' || c == ']' || c == '{' || c == '}'
}

/// Writes `text` as a regular expression that matches it alone.
pub fn regex_literal(text: &str) -> (pattern: String)
    ensures
        pattern@ == escaped(text@),
{
    let n = text.unicode_len();
    let mut pattern = String::new();
    let mut i: usize = 0;
    while i < n
        invariant
            n == text@.len(),
            i <= n,
            pattern@ == escaped(text@.take(i as int)),
        decreases n - i,
    {
        let c = text.get_char(i);
        let one = text.substring_char(i, i + 1);
        proof {
            reveal_strlit("\\");
            assert(text@.take(i + 1).drop_last() =~= text@.take(i as int));
            assert(text@.take(i + 1).last() == c);
            assert(one@ =~= seq![c]);
            assert("\\"@ =~= seq!['\\']);
            assert(seq!['\\'] + seq![c] =~= seq!['\\', c]);
        }
        if reads_as_operator(c) {
            pattern.append("\\");
        }
        pattern.append(one);
        assert(pattern@ =~= escaped(text@.take(i as int)) + escaped_char(c));
        i += 1;
    }
    assert(text@.take(n as int) =~= text@);
    pattern
}

/// Escaping adds nothing but backslashes: a text without operators is its
/// own pattern.
pub proof fn lemma_plain_text_unchanged(text: Seq<char>)
    requires
        forall|i: int| 0 <= i < text.len() ==> !is_operator(#[trigger] text[i]),
    ensures
        escaped(text) == text,
    decreases text.len(),
{
    if text.len() > 0 {
        lemma_plain_text_unchanged(text.drop_last());
        assert(text.drop_last() + seq![text.last()] =~= text);
    }
}

} // verus!
