//! The compute shader's source is a template in which a word stands for the
//! side length of a workgroup. This module puts the number in its place.

use vstd::prelude::*;
use vstd::string::*;

verus! {

/// The word that stands for the side length of a workgroup.
pub const WORKGROUP_WORD: &'static str = "WORKGROUP_SIZE";

/// The character of the decimal digit `d`.
pub open spec fn digit_char(d: nat) -> char {
    if d == 0 {
        '0'
    } else if d == 1 {
        '1'
    } else if d == 2 {
        '2'
    } else if d == 3 {
        '3'
    } else if d == 4 {
        '4'
    } else if d == 5 {
        '5'
    } else if d == 6 {
        '6'
    } else if d == 7 {
        '7'
    } else if d == 8 {
        '8'
    } else {
        '9'
    }
}

/// `n` in decimal digits, without leading zeros.
pub open spec fn decimal(n: nat) -> Seq<char>
    decreases n,
{
    if n < 10 {
        seq![digit_char(n)]
    } else {
        decimal(n / 10).push(digit_char(n % 10))
    }
}

/// `text` with `with` in the place of each occurrence of `word`, found from
/// left to right; an occurrence that begins inside an earlier one does not
/// count. Without a word to look for the text stays as it is.
pub open spec fn substitute(text: Seq<char>, word: Seq<char>, with: Seq<char>) -> Seq<char>
    decreases text.len(),
{
    if word.len() == 0 || text.len() < word.len() {
        text
    } else if text.subrange(0, word.len() as int) == word {
        with + substitute(text.skip(word.len() as int), word, with)
    } else {
        seq![text[0]] + substitute(text.skip(1), word, with)
    }
}

/// The characters of `text`.
fn chars_of(text: &str) -> (chars: Vec<char>)
    ensures
        chars@ == text@,
{
    let mut chars: Vec<char> = Vec::new();
    for c in it: text.chars()
        invariant
            it.seq() == text@,
            chars@ == it.seq().take(it.index()),
    {
        chars.push(c);
    }
    chars
}

/// Whether `word` stands in `text` at place `at`.
fn occurs_at(text: &Vec<char>, at: usize, word: &Vec<char>) -> (found: bool)
    requires
        at <= text@.len(),
    ensures
        found == (at + word@.len() <= text@.len() && text@.subrange(
            at as int,
            at + word@.len(),
        ) == word@),
{
    let length: usize = text.len();
    if word.len() > length - at {
        return false;
    }
    let mut k: usize = 0;
    while k < word.len()
        invariant
            k <= word@.len(),
            length == text@.len(),
            at + word@.len() <= length,
            forall|j: int| 0 <= j < k ==> text@[at + j] == word@[j],
        decreases word@.len() - k,
    {
        if text[at + k] != word[k] {
            assert(text@.subrange(at as int, at + word@.len())[k as int] == text@[at + k]);
            return false;
        }
        k = k + 1;
    }
    assert(text@.subrange(at as int, at + word@.len()) =~= word@);
    true
}

/// The decimal digit `d` as a string of one character.
fn digit_str(d: u32) -> (digit: &'static str)
    requires
        d < 10,
    ensures
        digit@ == seq![digit_char(d as nat)],
{
    proof {
        reveal_strlit("0");
        reveal_strlit("1");
        reveal_strlit("2");
        reveal_strlit("3");
        reveal_strlit("4");
        reveal_strlit("5");
        reveal_strlit("6");
        reveal_strlit("7");
        reveal_strlit("8");
        reveal_strlit("9");
    }
    let digit = if d == 0 {
        "0"
    } else if d == 1 {
        "1"
    } else if d == 2 {
        "2"
    } else if d == 3 {
        "3"
    } else if d == 4 {
        "4"
    } else if d == 5 {
        "5"
    } else if d == 6 {
        "6"
    } else if d == 7 {
        "7"
    } else if d == 8 {
        "8"
    } else {
        "9"
    };
    assert(digit@ =~= seq![digit_char(d as nat)]);
    digit
}

/// `n` in decimal digits, without leading zeros.
pub fn decimal_string(n: u32) -> (digits: String)
    ensures
        digits@ == decimal(n as nat),
    decreases n,
{
    if n < 10 {
        String::from_str(digit_str(n))
    } else {
        let mut digits = decimal_string(n / 10);
        digits.append(digit_str(n % 10));
        assert(digits@ =~= decimal(n as nat));
        digits
    }
}

/// `text` with `with` in the place of each occurrence of `word`.
pub fn replace_word(text: &str, word: &str, with: &str) -> (out: String)
    ensures
        out@ == substitute(text@, word@, with@),
{
    let chars = chars_of(text);
    let pattern = chars_of(word);
    let mut out = String::new();
    if pattern.len() == 0 {
        out.append(text);
        assert(out@ =~= text@);
        return out;
    }
    let mut start: usize = 0;
    let mut i: usize = 0;
    assert(text@.subrange(0, 0) + substitute(text@.skip(0), word@, with@) =~= substitute(
        text@,
        word@,
        with@,
    )) by {
        assert(text@.skip(0) =~= text@);
    }
    while i < chars.len()
        invariant
            start <= i <= chars@.len(),
            chars@ == text@,
            pattern@ == word@,
            pattern@.len() > 0,
            out@ + text@.subrange(start as int, i as int) + substitute(
                text@.skip(i as int),
                word@,
                with@,
            ) == substitute(text@, word@, with@),
        decreases chars@.len() - i,
    {
        let ghost rest = text@.skip(i as int);
        let ghost length = word@.len() as int;
        if occurs_at(&chars, i, &pattern) {
            proof {
                assert(rest.subrange(0, length) =~= text@.subrange(i as int, i + length));
                assert(rest.skip(length) =~= text@.skip(i + length));
                assert(substitute(rest, word@, with@) == with@ + substitute(
                    text@.skip(i + length),
                    word@,
                    with@,
                ));
            }
            let ghost before = out@;
            let ghost run = text@.subrange(start as int, i as int);
            out.append(text.substring_char(start, i));
            out.append(with);
            i = i + pattern.len();
            start = i;
            proof {
                let tail = substitute(text@.skip(i as int), word@, with@);
                assert(text@.subrange(start as int, i as int) =~= Seq::<char>::empty());
                assert(out@ + text@.subrange(start as int, i as int) + tail =~= before + run + (
                with@ + tail));
            }
        } else {
            proof {
                if rest.len() < length {
                    assert(text@.skip(i + 1).len() < length);
                    assert(text@.subrange(start as int, i as int) + rest =~= text@.subrange(
                        start as int,
                        i + 1,
                    ) + text@.skip(i + 1));
                } else {
                    assert(rest.subrange(0, length) =~= text@.subrange(i as int, i + length));
                    assert(rest.skip(1) =~= text@.skip(i + 1));
                    assert(text@.subrange(start as int, i as int) + seq![rest[0]]
                        =~= text@.subrange(start as int, i + 1));
                }
            }
            i = i + 1;
        }
    }
    out.append(text.substring_char(start, i));
    proof {
        assert(text@.skip(i as int) =~= Seq::<char>::empty());
    }
    out
}

/// The source of the compute shader: `template` with the decimal digits of
/// `workgroup_size` in the place of each occurrence of `WORKGROUP_WORD`.
pub fn compute_shader_source(template: &str, workgroup_size: u32) -> (source: String)
    ensures
        source@ == substitute(template@, WORKGROUP_WORD@, decimal(workgroup_size as nat)),
{
    let number = decimal_string(workgroup_size);
    replace_word(template, WORKGROUP_WORD, number.as_str())
}

} // verus!
