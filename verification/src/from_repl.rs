//! Parsing protocol values from the words of an interactive command line.
//!
//! Words arrive as the same stack the completion trie walks: pushed in
//! reverse, so that popping yields them in line order. A raw byte is spelled
//! in decimal, with an optional leading plus sign, and must fit eight bits.

use vstd::prelude::*;
use vstd::string::StrSliceExecFns;

verus! {

/// Why a sequence of words does not spell a value.
#[derive(Debug, PartialEq, Eq)]
pub enum ParseError {
    /// A value's spelling is not a decimal integer in range.
    InvalidInt,
    /// A word was needed and the line had no more.
    ExpectedArgument,
    /// The line had words left over after the value was complete.
    UnexpectedArgument,
    /// A word matched no alternative at its position.
    UnknownArgument(String),
}

/// Whether `c` is a decimal digit.
pub open spec fn is_ascii_digit(c: char) -> bool {
    48 <= c as int <= 57
}

/// Whether every character of `s` is a decimal digit.
pub open spec fn all_digits(s: Seq<char>) -> bool {
    forall|i: int| 0 <= i < s.len() ==> is_ascii_digit(s[i])
}

/// The value of a decimal digit sequence, read left to right.
pub open spec fn digits_value(s: Seq<char>) -> nat
    decreases s.len(),
{
    if s.len() == 0 {
        0
    } else {
        digits_value(s.drop_last()) * 10 + (if s.last() as int >= 48 {
            (s.last() as int - 48) as nat
        } else {
            0
        })
    }
}

/// How a word spells a byte: an optional leading plus sign, then one or more
/// decimal digits, with a value of at most 255.
pub open spec fn spec_parse_u8(s: Seq<char>) -> Result<u8, ParseError> {
    let digits = if s.len() > 0 && s[0] == '+' {
        s.skip(1)
    } else {
        s
    };
    if digits.len() == 0 {
        Err(ParseError::InvalidInt)
    } else if !all_digits(digits) {
        Err(ParseError::InvalidInt)
    } else if digits_value(digits) > 255 {
        Err(ParseError::InvalidInt)
    } else {
        Ok(digits_value(digits) as u8)
    }
}

/// A longer digit sequence never has a smaller value.
proof fn lemma_digits_value_monotone(s: Seq<char>, k: int)
    requires
        0 <= k <= s.len(),
    ensures
        digits_value(s) >= digits_value(s.take(k)),
    decreases s.len() - k,
{
    if k == s.len() {
        assert(s.take(k) =~= s);
    } else {
        lemma_digits_value_monotone(s, k + 1);
        assert(s.take(k + 1).drop_last() =~= s.take(k));
        assert(digits_value(s.take(k + 1)) >= digits_value(s.take(k)));
    }
}

/// Parse one word as a byte.
#[verifier::loop_isolation(false)]
pub fn parse_u8(word: &str) -> (r: Result<u8, ParseError>)
    ensures
        r == spec_parse_u8(word@),
{
    let len = word.unicode_len();
    let start: usize = if len > 0 && word.get_char(0) == '+' {
        1
    } else {
        0
    };
    let ghost digits = if start == 1 {
        word@.skip(1)
    } else {
        word@
    };
    if len == start {
        return Err(ParseError::InvalidInt);
    }
    let mut acc: u32 = 0;
    let mut i: usize = start;
    while i < len
        invariant
            start <= i <= len,
            acc <= 255,
            forall|j: int| 0 <= j < i - start ==> is_ascii_digit(digits[j]),
            acc == digits_value(digits.take(i - start)),
        decreases len - i,
    {
        let c = word.get_char(i);
        let code = c as u32;
        proof {
            assert(digits[i - start] == word@[i as int]);
        }
        if code < 48 || code > 57 {
            proof {
                let sdigits = if word@.len() > 0 && word@[0] == '+' {
                    word@.skip(1)
                } else {
                    word@
                };
                assert(sdigits =~= digits);
                assert(0 <= i - start < digits.len() && !is_ascii_digit(digits[i - start]));
                assert(!all_digits(digits));
            }
            return Err(ParseError::InvalidInt);
        }
        let next = acc * 10 + (code - 48);
        proof {
            assert(digits.take(i - start + 1).drop_last() =~= digits.take(i - start));
            assert(digits.take(i - start + 1).last() == digits[i - start]);
        }
        if next > 255 {
            proof {
                let sdigits = if word@.len() > 0 && word@[0] == '+' {
                    word@.skip(1)
                } else {
                    word@
                };
                assert(sdigits =~= digits);
                lemma_digits_value_monotone(digits, i - start + 1);
            }
            return Err(ParseError::InvalidInt);
        }
        acc = next;
        i = i + 1;
    }
    proof {
        let sdigits = if word@.len() > 0 && word@[0] == '+' {
            word@.skip(1)
        } else {
            word@
        };
        assert(sdigits =~= digits);
        assert(digits.take(len - start) =~= digits);
        assert(all_digits(digits));
    }
    Ok(acc as u8)
}

/// A command vocabulary declares, per type, how a value of it is spelled by
/// the words of a line, handed over as a stack that pops in line order.
pub trait FromRepl: Sized {
    fn from_repl(words: &mut Vec<String>) -> Result<Self, ParseError>;
}

impl FromRepl for u8 {
    /// One word, spelling a byte in decimal.
    fn from_repl(words: &mut Vec<String>) -> Result<Self, ParseError> {
        let word = match words.pop() {
            Some(w) => w,
            None => {
                return Err(ParseError::ExpectedArgument);
            },
        };
        parse_u8(word.as_str())
    }
}

impl FromRepl for Vec<u8> {
    /// Every remaining word, each spelling a byte in decimal.
    fn from_repl(words: &mut Vec<String>) -> Result<Self, ParseError> {
        parse_bytes(words)
    }
}

/// How a whole word stack spells a byte string, popping in line order.
pub open spec fn spec_parse_bytes(words: Seq<Seq<char>>) -> Result<Seq<u8>, ParseError>
    decreases words.len(),
{
    if words.len() == 0 {
        Ok(Seq::empty())
    } else {
        match spec_parse_u8(words.last()) {
            Err(e) => Err(e),
            Ok(b) => match spec_parse_bytes(words.drop_last()) {
                Ok(rest) => Ok(seq![b] + rest),
                Err(e) => Err(e),
            },
        }
    }
}

/// Parse every remaining word as a byte, consuming the stack.
#[verifier::loop_isolation(false)]
pub fn parse_bytes(words: &mut Vec<String>) -> (r: Result<Vec<u8>, ParseError>)
    ensures
        match r {
            Ok(v) => spec_parse_bytes(crate::completion::string_views(old(words)@)) == Ok::<
                Seq<u8>,
                ParseError,
            >(v@),
            Err(e) => spec_parse_bytes(crate::completion::string_views(old(words)@)) == Err::<
                Seq<u8>,
                ParseError,
            >(e),
        },
{
    let ghost all = crate::completion::string_views(words@);
    let mut out: Vec<u8> = Vec::new();
    while words.len() > 0
        invariant
            spec_parse_bytes(all) == (match spec_parse_bytes(
                crate::completion::string_views(words@),
            ) {
                Ok(rest) => Ok::<Seq<u8>, ParseError>(out@ + rest),
                Err(e) => Err::<Seq<u8>, ParseError>(e),
            }),
        decreases words@.len(),
    {
        let ghost pre_words = words@;
        let ghost pre_out = out@;
        let word = match words.pop() {
            Some(w) => w,
            None => {
                return Err(ParseError::ExpectedArgument);  // unreachable: the stack is nonempty
            },
        };
        proof {
            let views = crate::completion::string_views(pre_words);
            assert(views.last() == word@);
            assert(views.drop_last() =~= crate::completion::string_views(words@));
        }
        match parse_u8(word.as_str()) {
            Ok(b) => {
                out.push(b);
                proof {
                    let rest = spec_parse_bytes(crate::completion::string_views(words@));
                    if rest is Ok {
                        assert(pre_out + (seq![b] + rest->Ok_0) =~= (pre_out + seq![b])
                            + rest->Ok_0);
                        assert(out@ =~= pre_out + seq![b]);
                    }
                }
            },
            Err(e) => {
                return Err(e);
            },
        }
    }
    proof {
        assert(crate::completion::string_views(words@) =~= Seq::<Seq<char>>::empty());
        assert(out@ + Seq::<u8>::empty() =~= out@);
    }
    Ok(out)
}

} // verus!
