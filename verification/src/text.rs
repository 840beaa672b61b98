//! Text: comparison, search and the printing of numbers.
use vstd::prelude::*;

verus! {

/// What `str::to_lowercase` returns for a text.
pub uninterp spec fn lowercase(s: Seq<char>) -> Seq<char>;

/// What `str::to_uppercase` returns for a text.
pub uninterp spec fn uppercase(s: Seq<char>) -> Seq<char>;

/// What `str::trim` returns for a text.
pub uninterp spec fn trimmed(s: Seq<char>) -> Seq<char>;

/// What `char::to_uppercase` yields for a character, in order.
pub uninterp spec fn char_uppercase(c: char) -> Seq<char>;

/// What `char::is_lowercase` returns for a character.
pub uninterp spec fn char_is_lowercase(c: char) -> bool;

/// What `char::is_uppercase` returns for a character.
pub uninterp spec fn char_is_uppercase(c: char) -> bool;

/// What `char::is_alphabetic` returns for a character.
pub uninterp spec fn char_is_alphabetic(c: char) -> bool;

/// What `str::parse::<i32>` returns for a text: the number, or `None` where it
/// is an error.
pub uninterp spec fn parsed_i32(s: Seq<char>) -> Option<i32>;

/// What `u8::from_str_radix` with the radix 16 returns for a text: the number,
/// or `None` where it is an error.
pub uninterp spec fn parsed_hex_u8(s: Seq<char>) -> Option<u8>;

/// The number of bytes of a character in UTF-8.
pub open spec fn utf8_width(c: char) -> int {
    if (c as u32) < 0x80 {
        1
    } else if (c as u32) < 0x800 {
        2
    } else if (c as u32) < 0x1_0000 {
        3
    } else {
        4
    }
}

/// The number of bytes that the first `i` characters of a text take in UTF-8.
pub open spec fn byte_offset(chars: Seq<char>, i: int) -> int
    decreases i,
{
    if i <= 0 {
        0
    } else {
        byte_offset(chars, i - 1) + utf8_width(chars[i - 1])
    }
}

/// The characters `i` to `j` of a text are those whose bytes in UTF-8 are the
/// bytes `from` to `to`.
pub open spec fn cuts_at(chars: Seq<char>, from: int, to: int, i: int, j: int) -> bool {
    &&& 0 <= i <= j <= chars.len()
    &&& byte_offset(chars, i) == from
    &&& byte_offset(chars, j) == to
}

/// The part of a text whose bytes in UTF-8 are the bytes `from` to `to`, as
/// the index `[from..to]` takes it; `None` where one of the two lies inside a
/// character or behind the text, where that index panics.
pub open spec fn byte_slice(chars: Seq<char>, from: int, to: int) -> Option<Seq<char>> {
    if exists|i: int, j: int| cuts_at(chars, from, to, i, j) {
        let (i, j) = choose|i: int, j: int| cuts_at(chars, from, to, i, j);
        Some(chars.subrange(i, j))
    } else {
        None
    }
}

/// The bytes before a character are fewer than those before a later one.
pub proof fn lemma_byte_offset_grows(chars: Seq<char>, i: int, j: int)
    requires
        0 <= i < j,
    ensures
        byte_offset(chars, i) < byte_offset(chars, j),
    decreases j,
{
    if i + 1 < j {
        lemma_byte_offset_grows(chars, i, j - 1);
    }
}

/// `needle` stands in `hay` at index `i`.
pub open spec fn occurs_at(hay: Seq<char>, needle: Seq<char>, i: int) -> bool {
    &&& 0 <= i
    &&& i + needle.len() <= hay.len()
    &&& hay.subrange(i, i + needle.len()) == needle
}

/// `needle` stands somewhere in `hay`.
pub open spec fn has_substring(hay: Seq<char>, needle: Seq<char>) -> bool {
    exists|i: int| occurs_at(hay, needle, i)
}

/// `s` begins with `prefix`.
pub open spec fn has_prefix(s: Seq<char>, prefix: Seq<char>) -> bool {
    occurs_at(s, prefix, 0)
}

/// `s` ends with `suffix`.
pub open spec fn has_suffix(s: Seq<char>, suffix: Seq<char>) -> bool {
    occurs_at(s, suffix, s.len() - suffix.len())
}

/// The character that prints the digit `d`.
pub open spec fn digit_char(d: int) -> char {
    if d == 0 {
        '0'
    } else if d == 1 {
        '1'
    } else if d == 2 {
        '2'
    } else if d == 3 {
        '3'
    } else if d == 4 {
        '4'
    } else if d == 5 {
        '5'
    } else if d == 6 {
        '6'
    } else if d == 7 {
        '7'
    } else if d == 8 {
        '8'
    } else {
        '9'
    }
}

/// The character that prints a hexadecimal digit, in capitals.
pub open spec fn hex_char(d: int) -> char {
    if d < 10 {
        digit_char(d)
    } else if d == 10 {
        'A'
    } else if d == 11 {
        'B'
    } else if d == 12 {
        'C'
    } else if d == 13 {
        'D'
    } else if d == 14 {
        'E'
    } else {
        'F'
    }
}

/// A byte as `{:02X}` prints it: two hexadecimal digits in capitals.
pub open spec fn hex_pair(b: u8) -> Seq<char> {
    seq![hex_char(b as int / 16), hex_char(b as int % 16)]
}

/// A colour as `#RRGGBB`.
pub open spec fn color_code(r: u8, g: u8, b: u8) -> Seq<char> {
    seq!['#'] + hex_pair(r) + hex_pair(g) + hex_pair(b)
}

/// The decimal digits of a natural number, without leading zeros.
pub open spec fn decimal_digits(n: nat) -> Seq<char>
    decreases n,
{
    if n < 10 {
        seq![digit_char(n as int)]
    } else {
        decimal_digits(n / 10).push(digit_char((n % 10) as int))
    }
}

/// An integer as `{}` prints it: a minus sign where it is negative, then its
/// decimal digits.
pub open spec fn decimal(n: int) -> Seq<char> {
    if n < 0 {
        seq!['-'] + decimal_digits((-n) as nat)
    } else {
        decimal_digits(n as nat)
    }
}

/// The characters of a text, in order.
pub fn chars_of(s: &str) -> (v: Vec<char>)
    ensures
        v@ == s@,
{
    let mut v: Vec<char> = Vec::new();
    for c in it: s.chars()
        invariant
            v@ == it.seq().subrange(0, it.index() as int),
    {
        v.push(c);
    }
    v
}

/// `String::from_iter` over the characters of a vector: the text that holds
/// exactly these characters, in this order.
#[verifier::external_body]
pub(crate) fn text_of(chars: &Vec<char>) -> (s: String)
    ensures
        s@ == chars@,
{
    chars.iter().collect()
}

/// `str::to_lowercase`: the text in lower case, as Unicode defines it.
#[verifier::external_body]
pub(crate) fn to_lowercase(s: &str) -> (r: String)
    ensures
        r@ == lowercase(s@),
{
    s.to_lowercase()
}

/// `str::to_uppercase`: the text in upper case, as Unicode defines it.
#[verifier::external_body]
pub(crate) fn to_uppercase(s: &str) -> (r: String)
    ensures
        r@ == uppercase(s@),
{
    s.to_uppercase()
}

/// `str::trim`: the text without the white space at its two ends.
#[verifier::external_body]
pub(crate) fn trim(s: &str) -> (r: &str)
    ensures
        r@ == trimmed(s@),
{
    s.trim()
}

/// `char::to_uppercase`: the characters that the upper case of `c` consists
/// of, as Unicode defines it.
#[verifier::external_body]
pub(crate) fn to_uppercase_char(c: char) -> (r: Vec<char>)
    ensures
        r@ == char_uppercase(c),
{
    c.to_uppercase().collect()
}

/// `char::is_lowercase`: whether `c` has the Unicode property Lowercase.
#[verifier::external_body]
pub(crate) fn is_lowercase(c: char) -> (r: bool)
    ensures
        r == char_is_lowercase(c),
{
    c.is_lowercase()
}

/// `char::is_uppercase`: whether `c` has the Unicode property Uppercase.
#[verifier::external_body]
pub(crate) fn is_uppercase(c: char) -> (r: bool)
    ensures
        r == char_is_uppercase(c),
{
    c.is_uppercase()
}

/// `char::is_alphabetic`: whether `c` has the Unicode property Alphabetic.
#[verifier::external_body]
pub(crate) fn is_alphabetic(c: char) -> (r: bool)
    ensures
        r == char_is_alphabetic(c),
{
    c.is_alphabetic()
}

/// `str::parse::<i32>`: the number that the text writes in decimal digits
/// after an optional sign, or `None` where it writes none that fits.
#[verifier::external_body]
pub(crate) fn parse_i32(s: &str) -> (r: Option<i32>)
    ensures
        r == parsed_i32(s@),
{
    s.parse::<i32>().ok()
}

/// The character that prints the digit `d`.
fn digit(d: u64) -> (c: char)
    requires
        d < 10,
    ensures
        c == digit_char(d as int),
{
    if d == 0 {
        '0'
    } else if d == 1 {
        '1'
    } else if d == 2 {
        '2'
    } else if d == 3 {
        '3'
    } else if d == 4 {
        '4'
    } else if d == 5 {
        '5'
    } else if d == 6 {
        '6'
    } else if d == 7 {
        '7'
    } else if d == 8 {
        '8'
    } else {
        '9'
    }
}

/// The character that prints a hexadecimal digit, in capitals.
fn hex_digit(d: u8) -> (c: char)
    requires
        d < 16,
    ensures
        c == hex_char(d as int),
{
    if d < 10 {
        digit(d as u64)
    } else if d == 10 {
        'A'
    } else if d == 11 {
        'B'
    } else if d == 12 {
        'C'
    } else if d == 13 {
        'D'
    } else if d == 14 {
        'E'
    } else {
        'F'
    }
}

/// A colour as `#RRGGBB`.
pub fn color_text(r: u8, g: u8, b: u8) -> (text: String)
    ensures
        text@ == color_code(r, g, b),
{
    let mut out: Vec<char> = Vec::new();
    out.push('#');
    out.push(hex_digit(r / 16));
    out.push(hex_digit(r % 16));
    out.push(hex_digit(g / 16));
    out.push(hex_digit(g % 16));
    out.push(hex_digit(b / 16));
    out.push(hex_digit(b % 16));
    assert(out@ =~= color_code(r, g, b));
    text_of(&out)
}

/// Appends the decimal digits of `n`.
fn push_digits(n: u64, out: &mut Vec<char>)
    ensures
        final(out)@ == old(out)@ + decimal_digits(n as nat),
    decreases n,
{
    if n >= 10 {
        push_digits(n / 10, out);
    }
    out.push(digit(n % 10));
}

/// A natural number in decimal digits.
pub fn natural_text(n: u64) -> (r: String)
    ensures
        r@ == decimal_digits(n as nat),
{
    let mut out: Vec<char> = Vec::new();
    push_digits(n, &mut out);
    text_of(&out)
}

/// An integer as `{}` prints it.
pub fn integer_text(n: i64) -> (r: String)
    ensures
        r@ == decimal(n as int),
{
    let mut out: Vec<char> = Vec::new();
    if n < 0 {
        out.push('-');
        let magnitude: u64 = ((-(n + 1)) as u64) + 1;
        push_digits(magnitude, &mut out);
    } else {
        push_digits(n as u64, &mut out);
    }
    text_of(&out)
}

/// `u8::from_str_radix` with the radix 16: the number that the text writes in
/// hexadecimal digits, or `None` where it writes none that fits.
#[verifier::external_body]
pub(crate) fn parse_hex_u8(s: &str) -> (r: Option<u8>)
    ensures
        r == parsed_hex_u8(s@),
{
    u8::from_str_radix(s, 16).ok()
}

/// The number of bytes of a character in UTF-8.
pub fn width_of(c: char) -> (w: usize)
    ensures
        w == utf8_width(c),
{
    let code = c as u32;
    if code < 0x80 {
        1
    } else if code < 0x800 {
        2
    } else if code < 0x1_0000 {
        3
    } else {
        4
    }
}

/// The index of the character that begins at the byte `at`, counted from the
/// character `start` that begins at the byte `offset`; `None` where no
/// character begins there and the text does not end there.
fn char_index_at(chars: &Vec<char>, start: usize, offset: usize, at: usize) -> (r: Option<usize>)
    requires
        start <= chars.len(),
        offset == byte_offset(chars@, start as int),
        offset <= at,
    ensures
        match r {
            Some(i) => start <= i <= chars.len() && byte_offset(chars@, i as int) == at,
            None => forall|i: int| 0 <= i <= chars.len() ==> byte_offset(chars@, i) != at,
        },
{
    let mut i: usize = start;
    let mut bytes: usize = offset;
    proof {
        assert forall|k: int| 0 <= k < start implies byte_offset(chars@, k) != at by {
            lemma_byte_offset_grows(chars@, k, start as int);
        }
    }
    while bytes < at && i < chars.len()
        invariant
            start <= i <= chars.len(),
            bytes == byte_offset(chars@, i as int),
            offset <= bytes,
            forall|k: int| 0 <= k < i ==> byte_offset(chars@, k) != at,
        decreases chars.len() - i,
    {
        proof {
            assert forall|k: int| 0 <= k < i + 1 implies byte_offset(chars@, k) != at by {
                if k == i {
                } else {
                }
            }
        }
        let w = width_of(chars[i]);
        if bytes > usize::MAX - w {
            proof {
                assert forall|k: int| 0 <= k <= chars.len() implies byte_offset(chars@, k)
                    != at by {
                    if k > i {
                        if k > i + 1 {
                            lemma_byte_offset_grows(chars@, i + 1, k);
                        }
                    }
                }
            }
            return None;
        }
        bytes = bytes + w;
        i = i + 1;
    }
    if bytes == at {
        Some(i)
    } else {
        proof {
            assert forall|k: int| 0 <= k <= chars.len() implies byte_offset(chars@, k) != at by {
                if k > i {
                    lemma_byte_offset_grows(chars@, i as int, k);
                } else if k == i {
                }
            }
        }
        None
    }
}

/// The part of a text whose bytes in UTF-8 are the bytes `from` to `to`.
pub fn slice_bytes(chars: &Vec<char>, from: usize, to: usize) -> (r: Option<Vec<char>>)
    requires
        from <= to,
    ensures
        match r {
            Some(part) => byte_slice(chars@, from as int, to as int) == Some(part@),
            None => byte_slice(chars@, from as int, to as int) is None,
        },
{
    let i = match char_index_at(chars, 0, 0, from) {
        Some(i) => i,
        None => {
            return None;
        },
    };
    let j = match char_index_at(chars, i, from, to) {
        Some(j) => j,
        None => {
            return None;
        },
    };
    let mut part: Vec<char> = Vec::new();
    let mut k: usize = i;
    while k < j
        invariant
            i <= k <= j <= chars.len(),
            part@ == chars@.subrange(i as int, k as int),
        decreases j - k,
    {
        part.push(chars[k]);
        k = k + 1;
    }
    proof {
        assert(cuts_at(chars@, from as int, to as int, i as int, j as int));
        let (ci, cj) = choose|ci: int, cj: int| cuts_at(chars@, from as int, to as int, ci, cj);
        if ci < i {
            lemma_byte_offset_grows(chars@, ci, i as int);
        }
        if i < ci {
            lemma_byte_offset_grows(chars@, i as int, ci);
        }
        if cj < j {
            lemma_byte_offset_grows(chars@, cj, j as int);
        }
        if j < cj {
            lemma_byte_offset_grows(chars@, j as int, cj);
        }
    }
    Some(part)
}

/// `first` followed by `second`.
pub fn joined(first: &str, second: &str) -> (r: String)
    ensures
        r@ == first@ + second@,
{
    let mut r = String::from_str(first);
    r.append(second);
    r
}

/// `first`, `second` and `third` in a row.
pub fn joined3(first: &str, second: &str, third: &str) -> (r: String)
    ensures
        r@ == first@ + second@ + third@,
{
    let mut r = String::from_str(first);
    r.append(second);
    r.append(third);
    r
}

/// The number of bytes of a text in UTF-8, as `str::len` returns it.
pub open spec fn byte_length(s: Seq<char>) -> usize {
    vstd::utf8::encode_utf8(s).len() as usize
}

/// Whether two character sequences are the same.
pub fn same_chars(a: &Vec<char>, b: &Vec<char>) -> (r: bool)
    ensures
        r == (a@ == b@),
{
    if a.len() != b.len() {
        return false;
    }
    let mut i: usize = 0;
    while i < a.len()
        invariant
            a.len() == b.len(),
            i <= a.len(),
            a@.subrange(0, i as int) == b@.subrange(0, i as int),
        decreases a.len() - i,
    {
        if a[i] != b[i] {
            return false;
        }
        assert(a@.subrange(0, i + 1) == a@.subrange(0, i as int).push(a@[i as int]));
        assert(b@.subrange(0, i + 1) == b@.subrange(0, i as int).push(b@[i as int]));
        i = i + 1;
    }
    assert(a@ == a@.subrange(0, a.len() as int));
    assert(b@ == b@.subrange(0, b.len() as int));
    true
}

/// Whether two texts are the same.
pub fn same_text(a: &str, b: &str) -> (r: bool)
    ensures
        r == (a@ == b@),
{
    let x = chars_of(a);
    let y = chars_of(b);
    same_chars(&x, &y)
}

/// Whether `needle` stands in `hay` at index `i`.
fn chars_occur_at(hay: &Vec<char>, needle: &Vec<char>, i: usize) -> (r: bool)
    requires
        i + needle.len() <= hay.len(),
    ensures
        r == occurs_at(hay@, needle@, i as int),
{
    let mut j: usize = 0;
    while j < needle.len()
        invariant
            i + needle.len() <= hay.len(),
            j <= needle.len(),
            hay@.subrange(i as int, i + j) == needle@.subrange(0, j as int),
        decreases needle.len() - j,
    {
        if hay[i + j] != needle[j] {
            assert(hay@.subrange(i as int, i + needle.len())[j as int] != needle@[j as int]);
            return false;
        }
        assert(hay@.subrange(i as int, i + j + 1) == hay@.subrange(i as int, i + j).push(
            hay@[i + j],
        ));
        assert(needle@.subrange(0, j + 1) == needle@.subrange(0, j as int).push(needle@[j as int]));
        j = j + 1;
    }
    assert(needle@ == needle@.subrange(0, needle.len() as int));
    true
}

/// Whether `needle` stands somewhere in `hay`.
pub fn chars_contain(hay: &Vec<char>, needle: &Vec<char>) -> (r: bool)
    ensures
        r == has_substring(hay@, needle@),
{
    if needle.len() > hay.len() {
        return false;
    }
    if needle.len() == 0 {
        assert(hay@.subrange(0, 0) == needle@);
        assert(occurs_at(hay@, needle@, 0));
        return true;
    }
    let last: usize = hay.len() - needle.len();
    let mut i: usize = 0;
    while i <= last
        invariant
            last == hay.len() - needle.len(),
            0 < needle.len() <= hay.len(),
            i <= last + 1,
            forall|k: int| 0 <= k < i ==> !occurs_at(hay@, needle@, k),
        decreases last + 1 - i,
    {
        if chars_occur_at(hay, needle, i) {
            return true;
        }
        i = i + 1;
    }
    false
}

/// Whether `needle` stands somewhere in `hay`, as `str::contains` tells for a
/// text pattern.
pub fn contains(hay: &str, needle: &str) -> (r: bool)
    ensures
        r == has_substring(hay@, needle@),
{
    let h = chars_of(hay);
    let n = chars_of(needle);
    chars_contain(&h, &n)
}

/// Whether `s` begins with `prefix`.
pub fn starts_with(s: &str, prefix: &str) -> (r: bool)
    ensures
        r == has_prefix(s@, prefix@),
{
    let h = chars_of(s);
    let n = chars_of(prefix);
    if n.len() > h.len() {
        return false;
    }
    chars_occur_at(&h, &n, 0)
}

/// Whether `s` ends with `suffix`.
pub fn ends_with(s: &str, suffix: &str) -> (r: bool)
    ensures
        r == has_suffix(s@, suffix@),
{
    let h = chars_of(s);
    let n = chars_of(suffix);
    if n.len() > h.len() {
        return false;
    }
    chars_occur_at(&h, &n, h.len() - n.len())
}

} // verus!
