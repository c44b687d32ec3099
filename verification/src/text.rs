//! Text helpers shared by the rest of the library: comparison of strings,
//! decimal rendering of unsigned integers and ASCII case folding.

use vstd::prelude::*;

verus! {

/// Whether two strings hold the same characters.
pub fn str_eq(a: &str, b: &str) -> (same: bool)
    ensures
        same == (a@ == b@),
{
    let x = a.as_bytes();
    let y = b.as_bytes();
    proof {
        vstd::utf8::encode_utf8_decode_utf8(a@);
        vstd::utf8::encode_utf8_decode_utf8(b@);
    }
    if x.len() != y.len() {
        return false;
    }
    let mut i: usize = 0;
    while i < x.len()
        invariant
            i <= x.len(),
            x.len() == y.len(),
            x@ == vstd::utf8::encode_utf8(a@),
            y@ == vstd::utf8::encode_utf8(b@),
            forall|j: int| 0 <= j < i ==> x@[j] == y@[j],
        decreases x.len() - i,
    {
        if x[i] != y[i] {
            return false;
        }
        i += 1;
    }
    assert(x@ =~= y@);
    true
}

/// The characters of `text`.
pub fn chars_of(text: &str) -> (chars: Vec<char>)
    ensures
        chars@ == text@,
{
    let mut chars: Vec<char> = Vec::new();
    for c in iter: text.chars()
        invariant
            iter.seq() == text@,
            chars@ == iter.seq().take(iter.index() as int),
    {
        chars.push(c);
        assert(chars@ =~= iter.seq().take(iter.index() + 1));
    }
    assert(chars@ =~= text@);
    chars
}

/// The character of the decimal digit `d`.
pub open spec fn digit_char(d: nat) -> char
    recommends
        d < 10,
{
    if d == 0 {
        '0'
    } else if d == 1 {
        '1'
    } else if d == 2 {
        '2'
    } else if d == 3 {
        '3'
    } else if d == 4 {
        '4'
    } else if d == 5 {
        '5'
    } else if d == 6 {
        '6'
    } else if d == 7 {
        '7'
    } else if d == 8 {
        '8'
    } else {
        '9'
    }
}

/// Decimal notation of `n`, without sign or leading zeros.
pub open spec fn decimal(n: nat) -> Seq<char>
    decreases n,
{
    if n < 10 {
        seq![digit_char(n)]
    } else {
        decimal(n / 10).push(digit_char(n % 10))
    }
}

/// The one-character text of the decimal digit `d`.
fn digit_str(d: u64) -> (s: &'static str)
    requires
        d < 10,
    ensures
        s@ == seq![digit_char(d as nat)],
{
    proof {
        reveal_strlit("0");
        reveal_strlit("1");
        reveal_strlit("2");
        reveal_strlit("3");
        reveal_strlit("4");
        reveal_strlit("5");
        reveal_strlit("6");
        reveal_strlit("7");
        reveal_strlit("8");
        reveal_strlit("9");
    }
    let s = if d == 0 {
        "0"
    } else if d == 1 {
        "1"
    } else if d == 2 {
        "2"
    } else if d == 3 {
        "3"
    } else if d == 4 {
        "4"
    } else if d == 5 {
        "5"
    } else if d == 6 {
        "6"
    } else if d == 7 {
        "7"
    } else if d == 8 {
        "8"
    } else {
        "9"
    };
    assert(s@ =~= seq![digit_char(d as nat)]);
    s
}

/// Appends the decimal notation of `n` to `out`.
pub fn push_decimal(out: &mut String, n: u64)
    ensures
        final(out)@ == old(out)@ + decimal(n as nat),
    decreases n,
{
    if n >= 10 {
        push_decimal(out, n / 10);
    }
    out.append(digit_str(n % 10));
    proof {
        if n >= 10 {
            assert(final(out)@ =~= old(out)@ + decimal((n / 10) as nat).push(
                digit_char((n % 10) as nat),
            ));
        } else {
            assert(final(out)@ =~= old(out)@ + decimal(n as nat));
        }
    }
}

/// Decimal notation of `n`.
pub fn to_decimal(n: u64) -> (text: String)
    ensures
        text@ == decimal(n as nat),
{
    let mut text = String::new();
    push_decimal(&mut text, n);
    assert(text@ =~= decimal(n as nat));
    text
}

/// `c` with an ASCII capital letter turned into its small letter.
pub open spec fn ascii_lower(c: char) -> char {
    if 'A' <= c && c <= 'Z' {
        ((c as u8 + 32) as u8) as char
    } else {
        c
    }
}

/// `text` with each ASCII capital letter turned into its small letter.
pub open spec fn lowered(text: Seq<char>) -> Seq<char> {
    Seq::new(text.len(), |i: int| ascii_lower(text[i]))
}

/// Whether `value` reads `word` once the case of its ASCII letters is
/// disregarded. `word` holds ASCII characters and no capital letter.
pub(crate) fn reads_as(value: &str, word: &str) -> (same: bool)
    requires
        word.is_ascii(),
        lowered(word@) == word@,
    ensures
        same == (lowered(value@) == word@),
{
    broadcast use vstd::string::is_ascii_spec_bytes;

    if !value.is_ascii() {
        proof {
            if lowered(value@) == word@ {
                let i = choose|i: int|
                    0 <= i < value@.len() && !('\0' <= #[trigger] value@[i] <= '\u{7f}');
                assert(lowered(value@)[i] == value@[i]);
                assert('\0' <= word@[i] <= '\u{7f}');
            }
        }
        return false;
    }
    let x = value.as_bytes();
    let y = word.as_bytes();
    if x.len() != y.len() {
        return false;
    }
    let mut i: usize = 0;
    while i < x.len()
        invariant
            i <= x.len(),
            x.len() == y.len(),
            x.len() == value@.len(),
            y.len() == word@.len(),
            value.is_ascii(),
            word.is_ascii(),
            forall|j: int| 0 <= j < x.len() ==> x@[j] == value@[j] as u8,
            forall|j: int| 0 <= j < y.len() ==> y@[j] == word@[j] as u8,
            forall|j: int| 0 <= j < i ==> ascii_lower(value@[j]) == word@[j],
        decreases x.len() - i,
    {
        let b: u8 = x[i];
        let folded: u8 = if 65 <= b && b <= 90 {
            b + 32
        } else {
            b
        };
        proof {
            let c = value@[i as int];
            let w = word@[i as int];
            assert('\0' <= c <= '\u{7f}');
            assert('\0' <= w <= '\u{7f}');
            assert(ascii_lower(c) as u8 == folded);
        }
        if folded != y[i] {
            proof {
                if lowered(value@) == word@ {
                    assert(lowered(value@)[i as int] == word@[i as int]);
                }
            }
            return false;
        }
        proof {
            assert(ascii_lower(value@[i as int]) as u8 == word@[i as int] as u8);
            assert(ascii_lower(value@[i as int]) == word@[i as int]);
        }
        i += 1;
    }
    assert(lowered(value@) =~= word@);
    true
}

/// Whether `c` is whitespace: one of the characters to which Unicode gives
/// the property White_Space. These are the tab, the line feed, the vertical
/// tab, the form feed, the carriage return and the space, the next-line
/// character, the no-break spaces, the spaces of fixed width, the line and
/// the paragraph separator, and the ideographic space.
pub open spec fn white_space(c: char) -> bool {
    ||| '\u{9}' <= c <= '\u{d}'
    ||| c == ' '
    ||| c == '\u{85}'
    ||| c == '\u{a0}'
    ||| c == '\u{1680}'
    ||| '\u{2000}' <= c <= '\u{200a}'
    ||| c == '\u{2028}'
    ||| c == '\u{2029}'
    ||| c == '\u{202f}'
    ||| c == '\u{205f}'
    ||| c == '\u{3000}'
}

/// How many characters of whitespace `text` begins with.
pub open spec fn leading_space(text: Seq<char>) -> nat
    decreases text.len(),
{
    if text.len() > 0 && white_space(text.first()) {
        1 + leading_space(text.drop_first())
    } else {
        0
    }
}

/// How many characters of whitespace `text` ends with.
pub open spec fn trailing_space(text: Seq<char>) -> nat
    decreases text.len(),
{
    if text.len() > 0 && white_space(text.last()) {
        1 + trailing_space(text.drop_last())
    } else {
        0
    }
}

/// `text` without the whitespace that it begins and ends with.
pub open spec fn trimmed_text(text: Seq<char>) -> Seq<char> {
    let rest = text.skip(leading_space(text) as int);
    rest.take(rest.len() - trailing_space(rest))
}

/// The whitespace at either end of a text lies within the text, and is
/// whitespace; what follows it at the front, and what stands before it at
/// the back, is none.
pub proof fn lemma_space_at_the_ends(text: Seq<char>)
    ensures
        leading_space(text) <= text.len(),
        trailing_space(text) <= text.len(),
        forall|i: int| 0 <= i < leading_space(text) ==> white_space(#[trigger] text[i]),
        forall|i: int|
            text.len() - trailing_space(text) <= i < text.len() ==> white_space(#[trigger] text[i]),
        leading_space(text) < text.len() ==> !white_space(text[leading_space(text) as int]),
        trailing_space(text) < text.len() ==> !white_space(
            text[text.len() - trailing_space(text) - 1],
        ),
    decreases text.len(),
{
    if text.len() > 0 {
        let tail = text.drop_first();
        let head = text.drop_last();
        lemma_space_at_the_ends(tail);
        lemma_space_at_the_ends(head);
        if white_space(text.first()) {
            assert forall|i: int| 0 <= i < leading_space(text) implies white_space(
                #[trigger] text[i],
            ) by {
                if i > 0 {
                    assert(text[i] == tail[i - 1]);
                }
            }
            if leading_space(text) < text.len() {
                assert(text[leading_space(text) as int] == tail[leading_space(tail) as int]);
            }
        }
        if white_space(text.last()) {
            assert forall|i: int| text.len() - trailing_space(text) <= i < text.len() implies white_space(
                #[trigger] text[i],
            ) by {
                if i < text.len() - 1 {
                    assert(text[i] == head[i]);
                }
            }
            if trailing_space(text) < text.len() {
                assert(text[text.len() - trailing_space(text) - 1] == head[head.len()
                    - trailing_space(head) - 1]);
            }
        }
    }
}

/// What trimming leaves is one stretch of the text, with no whitespace at
/// its front or at its back; what it takes away is whitespace only.
pub proof fn lemma_trimmed_is_the_middle(text: Seq<char>)
    ensures
        exists|from: int, to: int|
            0 <= from <= to <= text.len() && trimmed_text(text) == #[trigger] text.subrange(
                from,
                to,
            ) && (forall|i: int| 0 <= i < from ==> white_space(#[trigger] text[i])) && (forall|i: int|
                to <= i < text.len() ==> white_space(#[trigger] text[i])),
        trimmed_text(text).len() > 0 ==> !white_space(trimmed_text(text).first()) && !white_space(
            trimmed_text(text).last(),
        ),
{
    lemma_space_at_the_ends(text);
    let from = leading_space(text) as int;
    let rest = text.skip(from);
    lemma_space_at_the_ends(rest);
    let to = text.len() - trailing_space(rest);
    assert(trimmed_text(text) =~= text.subrange(from, to));
    assert forall|i: int| to <= i < text.len() implies white_space(#[trigger] text[i]) by {
        assert(text[i] == rest[i - from]);
    }
    if trimmed_text(text).len() > 0 {
        assert(trimmed_text(text).first() == text[from]);
        assert(trimmed_text(text).last() == rest[rest.len() - trailing_space(rest) - 1]);
    }
}

/// Text that neither begins nor ends with whitespace is left as it is.
pub proof fn lemma_clean_text_stays(text: Seq<char>)
    requires
        text.len() > 0 ==> !white_space(text.first()) && !white_space(text.last()),
    ensures
        trimmed_text(text) == text,
{
    assert(text.skip(0) =~= text);
    assert(text.take(text.len() as int) =~= text);
}

/// Trimming again changes nothing.
pub proof fn lemma_trimming_twice(text: Seq<char>)
    ensures
        trimmed_text(trimmed_text(text)) == trimmed_text(text),
{
    lemma_trimmed_is_the_middle(text);
    lemma_clean_text_stays(trimmed_text(text));
}

} // verus!
