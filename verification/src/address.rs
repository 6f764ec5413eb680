//! The address-expression grammar.
//!
//! An address expression is an optional token (`$` or a run of decimal
//! digits), optionally followed by a comma and a second token. A trailing
//! comma is tolerated and degrades the expression to its first token. A
//! digit run that does not fit a machine word is a parse failure, never a
//! panic.

use vstd::prelude::*;

use crate::errors::EdError;
use crate::scanner::InputStream;

verus! {

/// One endpoint of an address expression: the symbolic last line, or a
/// literal 1-based line number.
#[derive(Clone, Copy, Debug, PartialEq, Eq, Structural)]
pub enum AddressToken {
    /// `$`, the last line of the buffer at resolution time.
    Dollar,
    /// A literal 1-based line number.
    Number(usize),
}

/// A whole address expression: one line, or an inclusive range of two.
#[derive(Clone, Copy, Debug, PartialEq, Eq, Structural)]
pub enum Address {
    /// A single addressed line.
    Single(AddressToken),
    /// An inclusive range from `start` to `end`.
    Range {
        /// The first addressed line.
        start: AddressToken,
        /// The last addressed line.
        end: AddressToken,
    },
}

/// Whether `c` is a decimal digit.
pub open spec fn is_digit(c: char) -> bool {
    48 <= c as u32 <= 57
}

/// The numeric value of the digit `c`.
pub open spec fn digit_val(c: char) -> int {
    c as u32 - 48
}

/// The base-10 value of a run of digits.
pub open spec fn digits_value(s: Seq<char>) -> int
    decreases s.len(),
{
    if s.len() == 0 {
        0
    } else {
        10 * digits_value(s.drop_last()) + digit_val(s.last())
    }
}

/// The length of the maximal run of digits in `s` starting at `i`.
pub open spec fn digit_run_len(s: Seq<char>, i: int) -> int
    decreases s.len() - i,
{
    if i < 0 || i >= s.len() {
        0
    } else if is_digit(s[i]) {
        1 + digit_run_len(s, i + 1)
    } else {
        0
    }
}

/// Whether `s` starts with an address token.
pub open spec fn tok_present(s: Seq<char>) -> bool {
    s.len() > 0 && (s[0] == '$' || is_digit(s[0]))
}

/// How many characters the leading token of `s` covers.
pub open spec fn tok_len(s: Seq<char>) -> int
    recommends
        tok_present(s),
{
    if s[0] == '$' {
        1
    } else {
        digit_run_len(s, 0)
    }
}

/// Whether the leading token of `s` fits a machine word.
pub open spec fn tok_ok(s: Seq<char>) -> bool
    recommends
        tok_present(s),
{
    s[0] == '$' || digits_value(s.take(digit_run_len(s, 0))) <= usize::MAX
}

/// The value of the leading token of `s`.
pub open spec fn tok_value(s: Seq<char>) -> AddressToken
    recommends
        tok_present(s),
        tok_ok(s),
{
    if s[0] == '$' {
        AddressToken::Dollar
    } else {
        AddressToken::Number(digits_value(s.take(digit_run_len(s, 0))) as usize)
    }
}

/// What parsing one address token from the front of `s` yields, together
/// with the number of characters consumed.
pub open spec fn spec_parse_token(s: Seq<char>) -> (Result<Option<AddressToken>, EdError>, int) {
    if !tok_present(s) {
        (Ok(None), 0)
    } else if !tok_ok(s) {
        (Err(EdError::AddressParseFailure), tok_len(s))
    } else {
        (Ok(Some(tok_value(s))), tok_len(s))
    }
}

/// What parsing a whole address expression from the front of `s` yields,
/// together with the number of characters consumed.
pub open spec fn spec_parse_address(s: Seq<char>) -> (Result<Option<Address>, EdError>, int) {
    if !tok_present(s) {
        (Ok(None), 0)
    } else if !tok_ok(s) {
        (Err(EdError::AddressParseFailure), tok_len(s))
    } else {
        let n1 = tok_len(s);
        let first = tok_value(s);
        let s1 = s.skip(n1);
        if s1.len() == 0 || s1[0] != ',' {
            (Ok(Some(Address::Single(first))), n1)
        } else {
            let s2 = s1.skip(1);
            if !tok_present(s2) {
                (Ok(Some(Address::Single(first))), n1 + 1)
            } else if !tok_ok(s2) {
                (Err(EdError::AddressParseFailure), n1 + 1 + tok_len(s2))
            } else {
                (Ok(Some(Address::Range { start: first, end: tok_value(s2) })), n1 + 1 + tok_len(
                    s2,
                ))
            }
        }
    }
}

/// The value of a digit run is never negative.
pub proof fn lemma_digits_value_nonneg(s: Seq<char>)
    requires
        forall|j: int| 0 <= j < s.len() ==> is_digit(s[j]),
    ensures
        digits_value(s) >= 0,
    decreases s.len(),
{
    if s.len() > 0 {
        lemma_digits_value_nonneg(s.drop_last());
    }
}

/// Reading one more digit multiplies the value by ten and adds the digit.
pub proof fn lemma_digits_value_step(s: Seq<char>, j: int)
    requires
        0 <= j < s.len(),
    ensures
        digits_value(s.take(j + 1)) == 10 * digits_value(s.take(j)) + digit_val(s[j]),
{
    assert(s.take(j + 1).drop_last() =~= s.take(j));
    assert(s.take(j + 1).last() == s[j]);
}

/// A prefix of a digit run never has a larger value than the whole run.
pub proof fn lemma_digits_value_prefix_le(s: Seq<char>, j: int)
    requires
        forall|i: int| 0 <= i < s.len() ==> is_digit(s[i]),
        0 <= j <= s.len(),
    ensures
        digits_value(s.take(j)) <= digits_value(s),
    decreases s.len() - j,
{
    if j == s.len() {
        assert(s.take(j) =~= s);
    } else {
        lemma_digits_value_step(s, j);
        lemma_digits_value_nonneg(s.take(j));
        assert(is_digit(s[j]));
        lemma_digits_value_prefix_le(s, j + 1);
    }
}

/// The maximal digit run starting at `i` stays within the sequence.
pub proof fn lemma_digit_run_len_bounds(s: Seq<char>, i: int)
    requires
        0 <= i <= s.len(),
    ensures
        0 <= digit_run_len(s, i) <= s.len() - i,
        i < s.len() && is_digit(s[i]) ==> digit_run_len(s, i) >= 1,
    decreases s.len() - i,
{
    if i < s.len() && is_digit(s[i]) {
        lemma_digit_run_len_bounds(s, i + 1);
    }
}

/// A run of `k` digits followed by the end of the input or a non-digit is
/// exactly the maximal digit run.
pub proof fn lemma_digit_run_len_from(s: Seq<char>, i: int, k: int)
    requires
        0 <= i <= k <= s.len(),
        forall|j: int| i <= j < k ==> is_digit(s[j]),
        k == s.len() || !is_digit(s[k]),
    ensures
        digit_run_len(s, i) == k - i,
    decreases k - i,
{
    if i < k {
        lemma_digit_run_len_from(s, i + 1, k);
    }
}

/// Whether `c` is a decimal digit, decided at run time.
pub fn is_digit_char(c: char) -> (b: bool)
    ensures
        b == is_digit(c),
{
    (c as u32) >= 48 && (c as u32) <= 57
}

/// Whether `c` can start an address token, decided at run time.
pub fn is_token_start(c: char) -> (b: bool)
    ensures
        b == (c == '$' || is_digit(c)),
{
    c == '$' || is_digit_char(c)
}

/// Turns a run of digits into the number it denotes, or `None` when that
/// number does not fit a machine word.
pub fn parse_number(digits: &Vec<char>) -> (r: Option<usize>)
    requires
        forall|i: int| 0 <= i < digits@.len() ==> is_digit(digits@[i]),
    ensures
        digits_value(digits@) <= usize::MAX ==> r == Some(digits_value(digits@) as usize),
        digits_value(digits@) > usize::MAX ==> r is None,
{
    let mut acc: usize = 0;
    let mut i: usize = 0;
    while i < digits.len()
        invariant
            0 <= i <= digits@.len(),
            forall|j: int| 0 <= j < digits@.len() ==> is_digit(digits@[j]),
            acc == digits_value(digits@.take(i as int)),
        decreases digits@.len() - i,
    {
        let d = ((digits[i] as u32) - 48) as usize;
        proof {
            lemma_digits_value_step(digits@, i as int);
        }
        if acc > (usize::MAX - d) / 10 {
            proof {
                lemma_digits_value_prefix_le(digits@, i as int + 1);
            }
            return None;
        }
        acc = acc * 10 + d;
        i = i + 1;
    }
    proof {
        assert(digits@.take(digits@.len() as int) =~= digits@);
    }
    Some(acc)
}

impl AddressToken {
    /// Reads one optional address token from the front of the stream.
    ///
    /// No leading `$` or digit leaves the stream untouched and yields no
    /// token; a digit run that does not fit a machine word is an
    /// [`EdError::AddressParseFailure`].
    pub fn parse(stream: &mut InputStream) -> (r: Result<Option<AddressToken>, EdError>)
        requires
            old(stream).wf(),
        ensures
            final(stream).wf(),
            final(stream).chars == old(stream).chars,
            ({
                let (sr, n) = spec_parse_token(old(stream).remaining());
                final(stream).pos == old(stream).pos + n && r == sr
            }),
    {
        let ghost rem = old(stream).remaining();
        let ghost pos0 = old(stream).pos as int;
        let first = stream.next_if_with_index(is_token_start);
        match first {
            None => Ok(None),
            Some((start, c)) => {
                if c == '$' {
                    Ok(Some(AddressToken::Dollar))
                } else {
                    let run = stream.consume_while(start, is_digit_char);
                    proof {
                        let k = stream.pos - pos0;
                        assert(forall|j: int| 0 <= j < k ==> is_digit(rem[j])) by {
                            assert(forall|i: int|
                                pos0 + 1 <= i < stream.pos ==> is_digit(#[trigger] stream.chars@[i]));
                            assert(forall|j: int| 0 <= j < k ==> rem[j] == stream.chars@[pos0 + j]);
                        }
                        assert(k == rem.len() || !is_digit(rem[k])) by {
                            if stream.pos < stream.chars@.len() {
                                assert(!is_digit(stream.chars@[stream.pos as int]));
                                assert(rem[k] == stream.chars@[pos0 + k]);
                            }
                        }
                        lemma_digit_run_len_from(rem, 0, k);
                        assert(run@ =~= rem.take(k));
                    }
                    match parse_number(&run) {
                        Some(n) => Ok(Some(AddressToken::Number(n))),
                        None => Err(EdError::AddressParseFailure),
                    }
                }
            },
        }
    }
}

impl Address {
    /// Reads one optional address expression from the front of the stream.
    pub fn parse(stream: &mut InputStream) -> (r: Result<Option<Address>, EdError>)
        requires
            old(stream).wf(),
        ensures
            final(stream).wf(),
            final(stream).chars == old(stream).chars,
            ({
                let (sr, n) = spec_parse_address(old(stream).remaining());
                final(stream).pos == old(stream).pos + n && r == sr
            }),
    {
        let ghost rem = old(stream).remaining();
        let first = match AddressToken::parse(stream) {
            Err(e) => {
                return Err(e);
            },
            Ok(None) => {
                return Ok(None);
            },
            Ok(Some(first)) => first,
        };
        proof {
            lemma_digit_run_len_bounds(rem, 0);
            assert(1 <= tok_len(rem) <= rem.len());
            assert(stream.remaining() =~= rem.skip(tok_len(rem)));
        }
        let ghost s1 = rem.skip(tok_len(rem));
        match stream.next_if_eq(',') {
            None => Ok(Some(Address::Single(first))),
            Some(_) => {
                proof {
                    assert(stream.remaining() =~= s1.skip(1));
                }
                match AddressToken::parse(stream) {
                    Err(e) => Err(e),
                    Ok(None) => Ok(Some(Address::Single(first))),
                    Ok(Some(end)) => Ok(Some(Address::Range { start: first, end })),
                }
            },
        }
    }
}

} // verus!
