//! Characters of a string, hexadecimal digits and numbers, and the search for a separator.

use vstd::prelude::*;
use vstd::string::StringExecFns;

verus! {

/// The value of one hexadecimal digit, written in either case.
pub open spec fn digit_value(c: char) -> Option<nat> {
    if '0' <= c <= '9' {
        Some((c as int - '0' as int) as nat)
    } else if 'a' <= c <= 'f' {
        Some((c as int - 'a' as int + 10) as nat)
    } else if 'A' <= c <= 'F' {
        Some((c as int - 'A' as int + 10) as nat)
    } else {
        None
    }
}

/// The upper-case hexadecimal digit that stands for `d`, for `d` below 16.
pub open spec fn digit_char(d: nat) -> char {
    if d < 10 {
        ('0' as nat + d) as char
    } else {
        ('A' as nat + d - 10) as char
    }
}

/// The number that a run of hexadecimal digits denotes, most significant digit first.
/// The empty run denotes zero; a run with any other character denotes nothing.
pub open spec fn digits_value(text: Seq<char>) -> Option<nat>
    decreases text.len(),
{
    if text.len() == 0 {
        Some(0)
    } else {
        match (digits_value(text.drop_last()), digit_value(text.last())) {
            (Some(n), Some(d)) => Some(16 * n + d),
            _ => None,
        }
    }
}

/// The 16-bit number that `text` denotes in base 16: at least one digit, nothing but
/// digits, and a value that fits.
pub open spec fn hex_u16(text: Seq<char>) -> Option<u16> {
    match digits_value(text) {
        Some(n) if text.len() > 0 && n <= 0xFFFF => Some(n as u16),
        _ => None,
    }
}

/// The upper-case hexadecimal text of `n`, without leading zeros.
pub open spec fn number_text(n: nat) -> Seq<char>
    decreases n,
{
    if n < 16 {
        seq![digit_char(n)]
    } else {
        number_text(n / 16).push(digit_char(n % 16))
    }
}

/// The first index at or after `from` at which `text` holds `sep`, or the length of
/// `text` where there is none.
pub open spec fn find_from(text: Seq<char>, sep: char, from: int) -> int
    decreases text.len() - from,
{
    if from >= text.len() {
        text.len() as int
    } else if text[from] == sep {
        from
    } else {
        find_from(text, sep, from + 1)
    }
}

/// A run of digits denotes at least what any of its prefixes denotes.
pub proof fn lemma_digits_prefix(text: Seq<char>, k: int)
    requires
        0 <= k <= text.len(),
        digits_value(text) is Some,
    ensures
        digits_value(text.take(k)) is Some,
        digits_value(text.take(k))->0 <= digits_value(text)->0,
    decreases text.len(),
{
    if k < text.len() {
        assert(text.drop_last().take(k) == text.take(k));
        lemma_digits_prefix(text.drop_last(), k);
    } else {
        assert(text.take(k) == text);
    }
}

/// Reading back the text of a number gives the number.
pub proof fn lemma_number_text_value(n: nat)
    ensures
        number_text(n).len() > 0,
        digits_value(number_text(n)) == Some(n),
    decreases n,
{
    if n < 16 {
        let t = number_text(n);
        assert(digits_value(t.drop_last()) == Some(0nat));
    } else {
        lemma_number_text_value(n / 16);
        let t = number_text(n);
        assert(t.drop_last() == number_text(n / 16));
    }
}

/// Reading back the text of a 16-bit number gives that number.
pub proof fn lemma_hex_u16_of_number_text(n: u16)
    ensures
        hex_u16(number_text(n as nat)) == Some(n),
{
    lemma_number_text_value(n as nat);
}

/// Every character of a number's text is a hexadecimal digit.
pub proof fn lemma_number_text_digits(n: nat)
    ensures
        forall|i: int|
            0 <= i < number_text(n).len() ==> digit_value(#[trigger] number_text(n)[i]) is Some,
    decreases n,
{
    if n >= 16 {
        lemma_number_text_digits(n / 16);
    }
}

/// A search passes over a stretch that does not hold what is sought.
pub proof fn lemma_find_skips(text: Seq<char>, sep: char, from: int, to: int)
    requires
        0 <= from <= to <= text.len(),
        forall|j: int| from <= j < to ==> text[j] != sep,
    ensures
        find_from(text, sep, from) == find_from(text, sep, to),
    decreases to - from,
{
    if from < to {
        lemma_find_skips(text, sep, from + 1, to);
    }
}

/// The characters of `s`, in order.
pub fn chars_of(s: &str) -> (v: Vec<char>)
    ensures
        v@ == s@,
{
    let mut v: Vec<char> = Vec::new();
    for c in it: s.chars()
        invariant
            v@ == it.seq().take(it.index() as int),
            it.seq() == s@,
    {
        v.push(c);
    }
    v
}

/// Reads one hexadecimal digit.
pub fn digit_of(c: char) -> (r: Option<u8>)
    ensures
        match digit_value(c) {
            Some(d) => r == Some(d as u8) && d < 16,
            None => r is None,
        },
{
    if '0' <= c && c <= '9' {
        Some((c as u32 - '0' as u32) as u8)
    } else if 'a' <= c && c <= 'f' {
        Some((c as u32 - 'a' as u32 + 10) as u8)
    } else if 'A' <= c && c <= 'F' {
        Some((c as u32 - 'A' as u32 + 10) as u8)
    } else {
        None
    }
}

/// Reads a 16-bit number written in base 16.
pub fn parse_hex_u16(text: &[char]) -> (r: Option<u16>)
    ensures
        r == hex_u16(text@),
{
    if text.len() == 0 {
        return None;
    }
    let mut acc: u32 = 0;
    let mut i: usize = 0;
    while i < text.len()
        invariant
            i <= text@.len(),
            acc <= 0xFFFF,
            digits_value(text@.take(i as int)) == Some(acc as nat),
        decreases text@.len() - i,
    {
        let ghost head = text@.take(i + 1);
        assert(head.drop_last() == text@.take(i as int));
        match digit_of(text[i]) {
            None => {
                proof {
                    if digits_value(text@) is Some {
                        lemma_digits_prefix(text@, i + 1);
                    }
                }
                return None;
            },
            Some(d) => {
                let next: u32 = acc * 16 + d as u32;
                if next > 0xFFFF {
                    proof {
                        if digits_value(text@) is Some {
                            lemma_digits_prefix(text@, i + 1);
                        }
                    }
                    return None;
                }
                acc = next;
            },
        }
        i += 1;
    }
    assert(text@.take(i as int) == text@);
    Some(acc as u16)
}

/// Appends the upper-case digit for `d`.
pub(crate) fn push_digit(s: &mut String, d: u8)
    requires
        d < 16,
    ensures
        final(s)@ == old(s)@.push(digit_char(d as nat)),
{
    let digit: &str = match d {
        0 => "0",
        1 => "1",
        2 => "2",
        3 => "3",
        4 => "4",
        5 => "5",
        6 => "6",
        7 => "7",
        8 => "8",
        9 => "9",
        10 => "A",
        11 => "B",
        12 => "C",
        13 => "D",
        14 => "E",
        _ => "F",
    };
    proof {
        reveal_strlit("0");
        reveal_strlit("1");
        reveal_strlit("2");
        reveal_strlit("3");
        reveal_strlit("4");
        reveal_strlit("5");
        reveal_strlit("6");
        reveal_strlit("7");
        reveal_strlit("8");
        reveal_strlit("9");
        reveal_strlit("A");
        reveal_strlit("B");
        reveal_strlit("C");
        reveal_strlit("D");
        reveal_strlit("E");
        reveal_strlit("F");
    }
    s.append(digit);
}

/// Appends `n` in upper-case base 16, without leading zeros.
pub fn push_number(s: &mut String, n: u16)
    ensures
        final(s)@ == old(s)@ + number_text(n as nat),
{
    proof {
        reveal_with_fuel(number_text, 4);
    }
    if n >= 0x1000 {
        push_digit(s, (n / 0x1000) as u8);
    }
    if n >= 0x100 {
        push_digit(s, ((n / 0x100) % 16) as u8);
    }
    if n >= 0x10 {
        push_digit(s, ((n / 0x10) % 16) as u8);
    }
    push_digit(s, (n % 16) as u8);
}

/// Where `sep` first stands in `text` at or after `from`, or the length of `text`.
pub fn find(text: &[char], sep: char, from: usize) -> (at: usize)
    ensures
        at == find_from(text@, sep, from as int),
        at <= text@.len(),
        from <= text@.len() ==> from <= at,
{
    let mut i: usize = if from < text.len() {
        from
    } else {
        text.len()
    };
    while i < text.len() && text[i] != sep
        invariant
            i <= text@.len(),
            from <= text@.len() ==> from <= i,
            find_from(text@, sep, from as int) == find_from(text@, sep, i as int),
        decreases text@.len() - i,
    {
        i += 1;
    }
    i
}

} // verus!
