//! Escaping of the characters and words that the query syntax reserves.

use vstd::prelude::*;

verus! {

/// The single characters that the query syntax reserves.
pub open spec fn is_reserved_char(c: char) -> bool {
    ||| c == '+'
    ||| c == '-'
    ||| c == '!'
    ||| c == '('
    ||| c == ')'
    ||| c == '{'
    ||| c == '}'
    ||| c == '['
    ||| c == ']'
    ||| c == '^'
    ||| c == '"'
    ||| c == '~'
    ||| c == '*'
    ||| c == '?'
    ||| c == ':'
    ||| c == '/'
}

/// Length of the reserved token that starts `s` (`&&`, `||`, `AND`, `OR` or
/// one reserved character), or 0 when `s` starts with none.
pub open spec fn reserved_len(s: Seq<char>) -> nat {
    if s.len() >= 3 && s[0] == 'A' && s[1] == 'N' && s[2] == 'D' {
        3
    } else if s.len() >= 2 && ((s[0] == '&' && s[1] == '&') || (s[0] == '|' && s[1] == '|') || (
    s[0] == 'O' && s[1] == 'R')) {
        2
    } else if s.len() >= 1 && is_reserved_char(s[0]) {
        1
    } else {
        0
    }
}

/// `s` with a backslash put in front of each reserved token, scanning from
/// the left and never overlapping two tokens.
pub open spec fn escaped(s: Seq<char>) -> Seq<char>
    decreases s.len(),
{
    if s.len() == 0 {
        Seq::empty()
    } else {
        let k = reserved_len(s);
        if k > 0 {
            seq!['\\'] + s.take(k as int) + escaped(s.skip(k as int))
        } else {
            seq![s[0]] + escaped(s.skip(1))
        }
    }
}

/// Relies on `regex::Regex::new` and `regex::Regex::replace_all`: the pattern
/// is the alternation of the reserved tokens, matched leftmost-first and
/// without overlap, and `\$0` puts a backslash before each whole match.
#[verifier::external_body]
pub(crate) fn escape_reserved(s: &str) -> (r: String)
    ensures
        r@ == escaped(s@),
{
    let re = regex::Regex::new(r#"(\+|\-|&&|\|\||!|\(|\)|\{|\}|\[|\]|\^|"|\~|\*|\?|:|/|AND|OR)"#)
        .unwrap();
    re.replace_all(s, r"\$0").into_owned()
}

proof fn lemma_plain_suffix(s: Seq<char>, lo: int)
    requires
        0 <= lo <= s.len(),
        forall|j: int| lo <= j < s.len() ==> reserved_len(#[trigger] s.skip(j)) == 0,
    ensures
        escaped(s.skip(lo)) == s.skip(lo),
    decreases s.len() - lo,
{
    if lo < s.len() {
        assert(reserved_len(s.skip(lo)) == 0);
        lemma_plain_suffix(s, lo + 1);
        assert(s.skip(lo).skip(1) =~= s.skip(lo + 1));
        assert(seq![s.skip(lo)[0]] + s.skip(lo + 1) =~= s.skip(lo));
    } else {
        assert(s.skip(lo) =~= Seq::<char>::empty());
    }
}

proof fn lemma_plain_span(s: Seq<char>, lo: int, i: int)
    requires
        0 <= lo <= i <= s.len(),
        forall|j: int| lo <= j < i ==> reserved_len(#[trigger] s.skip(j)) == 0,
    ensures
        escaped(s.skip(lo)) == s.subrange(lo, i) + escaped(s.skip(i)),
    decreases i - lo,
{
    if lo < i {
        assert(reserved_len(s.skip(lo)) == 0);
        lemma_plain_span(s, lo + 1, i);
        assert(s.skip(lo).skip(1) =~= s.skip(lo + 1));
        assert(seq![s.skip(lo)[0]] + s.subrange(lo + 1, i) =~= s.subrange(lo, i));
    } else {
        assert(s.subrange(lo, i) =~= Seq::<char>::empty());
    }
}

/// Escaping a text in which exactly one reserved token starts puts a single
/// backslash in front of that token and alters no other character.
pub proof fn lemma_escape_single_reserved(s: Seq<char>, i: int)
    requires
        0 <= i < s.len(),
        reserved_len(s.skip(i)) > 0,
        forall|j: int| 0 <= j < s.len() && j != i ==> reserved_len(#[trigger] s.skip(j)) == 0,
    ensures
        escaped(s) == s.take(i) + seq!['\\'] + s.skip(i),
{
    let k = reserved_len(s.skip(i)) as int;
    lemma_plain_span(s, 0, i);
    assert(s.skip(0) =~= s);
    lemma_plain_suffix(s, i + k);
    assert(s.skip(i).skip(k) =~= s.skip(i + k));
    assert(s.skip(i).take(k) + s.skip(i + k) =~= s.skip(i));
    assert(s.subrange(0, i) =~= s.take(i));
    assert(s.take(i) + (seq!['\\'] + s.skip(i).take(k) + s.skip(i + k)) =~= s.take(i) + seq!['\\']
        + s.skip(i));
}

} // verus!
