//! Plain text helpers used by the extractor: decimal parsing with
//! degrade-to-zero semantics, whitespace handling, and token selection.

use vstd::prelude::*;

verus! {

/// ASCII whitespace, the separator class used when splitting marker text
/// into tokens and when deciding that a text node is blank.
pub open spec fn is_space(c: char) -> bool {
    c == ' ' || c == '\t' || c == '\n' || c == '\r' || c == '\u{b}' || c == '\u{c}'
}

/// An ASCII decimal digit.
pub open spec fn is_digit(c: char) -> bool {
    '0' <= c && c <= '9'
}

/// The value of one decimal digit.
pub open spec fn digit_val(c: char) -> nat
    recommends
        is_digit(c),
{
    (c as nat - '0' as nat) as nat
}

/// Every character of `s` is a decimal digit.
pub open spec fn all_digits(s: Seq<char>) -> bool {
    forall|i: int| 0 <= i < s.len() ==> is_digit(s[i])
}

/// The number denoted by a sequence of decimal digits, most significant first.
pub open spec fn digits_val(s: Seq<char>) -> nat
    decreases s.len(),
{
    if s.len() == 0 {
        0
    } else {
        digits_val(s.drop_last()) * 10 + digit_val(s.last())
    }
}

/// The non-negative integer a marker's text denotes: its value when the text
/// is a non-empty run of decimal digits whose value fits in `usize`, and 0 on
/// any other input (the graceful-degradation policy for unparsable counts).
pub open spec fn spec_parse_count(s: Seq<char>) -> nat {
    if s.len() > 0 && all_digits(s) && digits_val(s) <= usize::MAX {
        digits_val(s)
    } else {
        0
    }
}

/// A prefix of a digit string denotes no more than the whole string.
proof fn lemma_digits_val_prefix(s: Seq<char>, k: int)
    requires
        0 <= k <= s.len(),
    ensures
        digits_val(s.take(k)) <= digits_val(s),
    decreases s.len() - k,
{
    if k < s.len() {
        lemma_digits_val_prefix(s, k + 1);
        assert(s.take(k + 1).drop_last() =~= s.take(k));
        assert(s.take(k + 1).last() == s[k]);
    } else {
        assert(s.take(k) =~= s);
    }
}

/// Parses marker text as a non-negative integer; any parse failure
/// (empty text, a non-digit character, overflow) yields 0.
pub fn parse_count(s: &str) -> (n: usize)
    ensures
        n == spec_parse_count(s@),
{
    let len = s.unicode_len();
    if len == 0 {
        return 0;
    }
    let mut acc: usize = 0;
    let mut i: usize = 0;
    while i < len
        invariant
            0 <= i <= len,
            len == s@.len(),
            all_digits(s@.take(i as int)),
            acc == digits_val(s@.take(i as int)),
        decreases len - i,
    {
        let c = s.get_char(i);
        if c < '0' || c > '9' {
            assert(!is_digit(s@[i as int]));
            assert(!all_digits(s@));
            return 0;
        }
        let d = (c as u32 - '0' as u32) as usize;
        if acc > (usize::MAX - d) / 10 {
            proof {
                assert(acc * 10 + d > usize::MAX) by (nonlinear_arith)
                    requires
                        acc > (usize::MAX - d) / 10,
                        d < 10,
                ;
                assert(s@.take(i + 1).drop_last() =~= s@.take(i as int));
                assert(digits_val(s@.take(i + 1)) == acc * 10 + d);
                lemma_digits_val_prefix(s@, i + 1);
                assert(digits_val(s@) > usize::MAX);
            }
            return 0;
        }
        proof {
            assert(acc * 10 + d <= usize::MAX) by (nonlinear_arith)
                requires
                    acc <= (usize::MAX - d) / 10,
                    d <= usize::MAX,
            ;
            assert(s@.take(i + 1).drop_last() =~= s@.take(i as int));
        }
        acc = acc * 10 + d;
        i = i + 1;
    }
    proof {
        assert(s@.take(len as int) =~= s@);
    }
    acc
}

/// Decides `is_space` on one character.
pub fn is_space_char(c: char) -> (b: bool)
    ensures
        b == is_space(c),
{
    c == ' ' || c == '\t' || c == '\n' || c == '\r' || c == '\u{b}' || c == '\u{c}'
}

/// `s` without its leading whitespace.
pub open spec fn skip_spaces(s: Seq<char>) -> Seq<char>
    decreases s.len(),
{
    if s.len() > 0 && is_space(s[0]) {
        skip_spaces(s.drop_first())
    } else {
        s
    }
}

/// The longest whitespace-free prefix of `s`.
pub open spec fn take_until_space(s: Seq<char>) -> Seq<char>
    decreases s.len(),
{
    if s.len() == 0 || is_space(s[0]) {
        Seq::empty()
    } else {
        seq![s[0]] + take_until_space(s.drop_first())
    }
}

/// The first whitespace-separated token of `s`; empty when `s` is empty or
/// all whitespace.
pub open spec fn spec_first_token(s: Seq<char>) -> Seq<char> {
    take_until_space(skip_spaces(s))
}

/// Returns the first whitespace-separated token of `s`, or the empty string
/// when `s` holds none.
pub fn first_token(s: &str) -> (t: String)
    ensures
        t@ == spec_first_token(s@),
{
    let len = s.unicode_len();
    let mut i: usize = 0;
    proof {
        assert(s@.subrange(0, len as int) =~= s@);
    }
    while i < len && is_space_char(s.get_char(i))
        invariant
            0 <= i <= len,
            len == s@.len(),
            skip_spaces(s@) == skip_spaces(s@.subrange(i as int, len as int)),
        decreases len - i,
    {
        proof {
            assert(s@.subrange(i as int, len as int).drop_first() =~= s@.subrange(
                i + 1,
                len as int,
            ));
        }
        i = i + 1;
    }
    proof {
        if i < len {
            assert(skip_spaces(s@) == s@.subrange(i as int, len as int));
        } else {
            assert(s@.subrange(i as int, len as int) =~= Seq::<char>::empty());
        }
    }
    let mut j: usize = i;
    while j < len && !is_space_char(s.get_char(j))
        invariant
            i <= j <= len,
            len == s@.len(),
            skip_spaces(s@) == skip_spaces(s@.subrange(i as int, len as int)),
            i < len ==> skip_spaces(s@) == s@.subrange(i as int, len as int),
            i == len ==> skip_spaces(s@) == Seq::<char>::empty(),
            spec_first_token(s@) == s@.subrange(i as int, j as int) + take_until_space(
                s@.subrange(j as int, len as int),
            ),
        decreases len - j,
    {
        proof {
            let rest = s@.subrange(j as int, len as int);
            assert(rest.drop_first() =~= s@.subrange(j + 1, len as int));
            assert(s@.subrange(i as int, j as int) + seq![s@[j as int]] =~= s@.subrange(
                i as int,
                j + 1,
            ));
        }
        j = j + 1;
    }
    proof {
        if j == len {
            assert(s@.subrange(j as int, len as int) =~= Seq::<char>::empty());
        }
        assert(take_until_space(s@.subrange(j as int, len as int)) =~= Seq::<char>::empty());
        assert(spec_first_token(s@) =~= s@.subrange(i as int, j as int));
    }
    let tok = s.substring_char(i, j);
    tok.to_owned()
}

/// Every character of `s` is whitespace (true of the empty string).
pub open spec fn is_blank(s: Seq<char>) -> bool {
    forall|i: int| 0 <= i < s.len() ==> is_space(s[i])
}

/// Decides `is_blank` on a string.
pub fn is_blank_text(s: &str) -> (b: bool)
    ensures
        b == is_blank(s@),
{
    let len = s.unicode_len();
    let mut i: usize = 0;
    while i < len
        invariant
            0 <= i <= len,
            len == s@.len(),
            forall|k: int| 0 <= k < i ==> is_space(s@[k]),
        decreases len - i,
    {
        if !is_space_char(s.get_char(i)) {
            return false;
        }
        i = i + 1;
    }
    true
}

/// A text node survives the tag filter exactly when it is not all whitespace.
pub open spec fn keeps_token(t: Seq<char>) -> bool {
    !is_blank(t)
}

/// Keeps, in order, the text nodes of a tag container that are not all
/// whitespace: those are the entry's tags.
pub fn filter_tags(tokens: Vec<String>) -> (r: Vec<String>)
    ensures
        r.deep_view() == tokens.deep_view().filter(|t: Seq<char>| keeps_token(t)),
{
    let mut r: Vec<String> = Vec::new();
    let mut i: usize = 0;
    proof {
        assert(tokens.deep_view().take(0) =~= Seq::<Seq<char>>::empty());
        reveal(Seq::filter);
    }
    while i < tokens.len()
        invariant
            0 <= i <= tokens.len(),
            tokens.deep_view().len() == tokens.len(),
            r.deep_view() == tokens.deep_view().take(i as int).filter(
                |t: Seq<char>| keeps_token(t),
            ),
        decreases tokens.len() - i,
    {
        let keep = !is_blank_text(tokens[i].as_str());
        proof {
            reveal(Seq::filter);
            let pre = tokens.deep_view().take(i + 1);
            assert(pre.drop_last() =~= tokens.deep_view().take(i as int));
            assert(pre.last() == tokens.deep_view()[i as int]);
            assert(tokens.deep_view()[i as int] == tokens[i as int]@);
        }
        if keep {
            let t = tokens[i].clone();
            assert(t@ == tokens.deep_view()[i as int]);
            r.push(t);
        }
        i = i + 1;
    }
    proof {
        assert(tokens.deep_view().take(tokens.len() as int) =~= tokens.deep_view());
    }
    r
}

} // verus!
