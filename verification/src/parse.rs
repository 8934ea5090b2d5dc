//! Reading the words of a command line: the command word and an index.

use vstd::prelude::*;
use vstd::string::StringSliceAdditionalSpecFns;

verus! {

/// The word that opens a command line.
#[derive(Clone, Copy, Debug, PartialEq, Eq, Structural)]
pub enum Keyword {
    Quit,
    Print,
    GetAt,
    SetAt,
    Push,
    Pop,
}

/// The command that `word` names, if it names one. The match is exact:
/// case and surrounding blanks count.
pub open spec fn keyword_of(word: Seq<u8>) -> Option<Keyword> {
    if word == "quit".spec_bytes() {
        Some(Keyword::Quit)
    } else if word == "print".spec_bytes() {
        Some(Keyword::Print)
    } else if word == "get".spec_bytes() {
        Some(Keyword::GetAt)
    } else if word == "set".spec_bytes() {
        Some(Keyword::SetAt)
    } else if word == "push".spec_bytes() {
        Some(Keyword::Push)
    } else if word == "pop".spec_bytes() {
        Some(Keyword::Pop)
    } else {
        None
    }
}

/// Whether `b` is one of the ASCII digits `0` to `9`.
pub open spec fn is_digit(b: u8) -> bool {
    48 <= b <= 57
}

/// Whether every byte of `s` is an ASCII digit.
pub open spec fn all_digits(s: Seq<u8>) -> bool {
    forall|i: int| 0 <= i < s.len() ==> is_digit(#[trigger] s[i])
}

/// The number that `digits` writes in base ten, a byte that is no digit
/// counting as zero.
pub open spec fn digits_value(digits: Seq<u8>) -> nat
    decreases digits.len(),
{
    if digits.len() == 0 {
        0
    } else {
        let units: nat = if is_digit(digits.last()) {
            (digits.last() - 48) as nat
        } else {
            0
        };
        digits_value(digits.drop_last()) * 10 + units
    }
}

/// `token` without the one `+` that may stand in front of the digits.
pub open spec fn unsigned_part(token: Seq<u8>) -> Seq<u8> {
    if token.len() > 0 && token[0] == 43 {
        token.skip(1)
    } else {
        token
    }
}

/// The index that `token` writes: an optional `+`, then one or more ASCII
/// digits whose value fits a `usize`. Anything else writes none.
pub open spec fn index_of(token: Seq<u8>) -> Option<usize> {
    let digits = unsigned_part(token);
    if digits.len() > 0 && all_digits(digits) && digits_value(digits) <= usize::MAX {
        Some(digits_value(digits) as usize)
    } else {
        None
    }
}

/// A number is at least as large as what any of its leading digits write.
proof fn prefix_value_is_no_larger(digits: Seq<u8>, k: int)
    requires
        0 <= k <= digits.len(),
    ensures
        digits_value(digits.take(k)) <= digits_value(digits),
    decreases digits.len(),
{
    if k == digits.len() {
        assert(digits.take(k) =~= digits);
    } else {
        prefix_value_is_no_larger(digits.drop_last(), k);
        assert(digits.drop_last().take(k) =~= digits.take(k));
    }
}

fn same_bytes(a: &[u8], b: &[u8]) -> (r: bool)
    ensures
        r == (a@ == b@),
{
    if a.len() != b.len() {
        return false;
    }
    let mut i: usize = 0;
    while i < a.len()
        invariant
            a@.len() == b@.len(),
            i <= a@.len(),
            forall|j: int| 0 <= j < i ==> a@[j] == b@[j],
        decreases a@.len() - i,
    {
        if a[i] != b[i] {
            return false;
        }
        i += 1;
    }
    assert(a@ =~= b@);
    true
}

/// Recognizes the command word of a line.
pub fn recognize(word: &str) -> (r: Option<Keyword>)
    ensures
        r == keyword_of(word.spec_bytes()),
{
    let bytes = word.as_bytes();
    if same_bytes(bytes, "quit".as_bytes()) {
        Some(Keyword::Quit)
    } else if same_bytes(bytes, "print".as_bytes()) {
        Some(Keyword::Print)
    } else if same_bytes(bytes, "get".as_bytes()) {
        Some(Keyword::GetAt)
    } else if same_bytes(bytes, "set".as_bytes()) {
        Some(Keyword::SetAt)
    } else if same_bytes(bytes, "push".as_bytes()) {
        Some(Keyword::Push)
    } else if same_bytes(bytes, "pop".as_bytes()) {
        Some(Keyword::Pop)
    } else {
        None
    }
}

/// Reads an index written in base ten.
pub fn parse_index(token: &[u8]) -> (r: Option<usize>)
    ensures
        r == index_of(token@),
{
    let n: usize = token.len();
    let start: usize = if n > 0 && token[0] == 43u8 {
        1
    } else {
        0
    };
    if start == n {
        return None;
    }
    let ghost digits = unsigned_part(token@);
    let mut value: usize = 0;
    let mut i: usize = start;
    assert(digits.take(0) =~= Seq::<u8>::empty());
    while i < n
        invariant
            start <= i <= n,
            n == token@.len(),
            digits == unsigned_part(token@),
            digits == token@.skip(start as int),
            digits.len() == n - start,
            all_digits(digits.take(i - start)),
            value == digits_value(digits.take(i - start)),
        decreases n - i,
    {
        let b: u8 = token[i];
        let ghost seen = digits.take(i - start);
        let ghost grown = digits.take(i - start + 1);
        proof {
            assert(grown.drop_last() =~= seen);
            assert(grown.last() == b);
            assert(digits[i - start] == b);
        }
        if b < 48u8 || b > 57u8 {
            return None;
        }
        let d: usize = (b - 48u8) as usize;
        if value > (usize::MAX - d) / 10 {
            proof {
                assert(digits_value(grown) == value * 10 + d);
                prefix_value_is_no_larger(digits, i - start + 1);
            }
            return None;
        }
        value = value * 10 + d;
        assert(value == digits_value(grown));
        i += 1;
    }
    assert(digits.take(n - start) =~= digits);
    Some(value)
}

} // verus!
