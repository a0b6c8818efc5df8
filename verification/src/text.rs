//! Character-level text operations: whitespace, trimming, lines, decimal
//! numbers and substring search, each with its mathematical model.

use vstd::prelude::*;

verus! {

/// Whether `c` has the Unicode property `White_Space`.
pub open spec fn whitespace(c: char) -> bool {
    let u = c as u32;
    ||| 0x09 <= u <= 0x0D
    ||| u == 0x20
    ||| u == 0x85
    ||| u == 0xA0
    ||| u == 0x1680
    ||| 0x2000 <= u <= 0x200A
    ||| u == 0x2028
    ||| u == 0x2029
    ||| u == 0x202F
    ||| u == 0x205F
    ||| u == 0x3000
}

/// `s` without its leading whitespace.
pub open spec fn trim_start(s: Seq<char>) -> Seq<char>
    decreases s.len(),
{
    if s.len() > 0 && whitespace(s.first()) {
        trim_start(s.drop_first())
    } else {
        s
    }
}

/// `s` without its trailing whitespace.
pub open spec fn trim_end(s: Seq<char>) -> Seq<char>
    decreases s.len(),
{
    if s.len() > 0 && whitespace(s.last()) {
        trim_end(s.drop_last())
    } else {
        s
    }
}

/// `s` without leading and trailing whitespace.
pub open spec fn trimmed(s: Seq<char>) -> Seq<char> {
    trim_end(trim_start(s))
}

/// The position of the first `c` in `s`, or `s.len()` where there is none.
pub open spec fn first_index(s: Seq<char>, c: char) -> int
    decreases s.len(),
{
    if s.len() == 0 {
        0
    } else if s.first() == c {
        0
    } else {
        1 + first_index(s.drop_first(), c)
    }
}

/// The position of the last `c` in `s`, or `-1` where there is none.
pub open spec fn last_index(s: Seq<char>, c: char) -> int
    decreases s.len(),
{
    if s.len() == 0 {
        -1
    } else if s.last() == c {
        s.len() - 1
    } else {
        last_index(s.drop_last(), c)
    }
}

/// The pieces of `s` between line feeds. There is always at least one piece.
pub open spec fn pieces(s: Seq<char>) -> Seq<Seq<char>>
    decreases s.len(),
{
    let k = first_index(s, '\n');
    if 0 <= k < s.len() {
        seq![s.subrange(0, k)] + pieces(s.subrange(k + 1, s.len() as int))
    } else {
        seq![s]
    }
}

/// The lines of `s`: its pieces between line feeds, where a final line feed
/// ends the last line instead of opening an empty one. The empty text has no
/// lines.
pub open spec fn lines(s: Seq<char>) -> Seq<Seq<char>> {
    let p = pieces(s);
    if p.len() > 0 && p.last().len() == 0 {
        p.drop_last()
    } else {
        p
    }
}

/// Whether `c` is whitespace.
pub fn is_whitespace(c: char) -> (r: bool)
    ensures
        r == whitespace(c),
{
    let u: u32 = c as u32;
    (0x09 <= u && u <= 0x0D) || u == 0x20 || u == 0x85 || u == 0xA0 || u == 0x1680 || (0x2000 <= u
        && u <= 0x200A) || u == 0x2028 || u == 0x2029 || u == 0x202F || u == 0x205F || u == 0x3000
}

/// The characters of `s`, in order.
pub fn chars_of(s: &str) -> (r: Vec<char>)
    ensures
        r@ == s@,
{
    let mut out: Vec<char> = Vec::new();
    for c in it: s.chars()
        invariant
            out@ == it.seq().take(it.index@),
    {
        out.push(c);
    }
    out
}

/// The first `c` of `s` is where [`first_index`] says, and there is none
/// before it.
pub proof fn lemma_first_index_bounds(s: Seq<char>, c: char)
    ensures
        0 <= first_index(s, c) <= s.len(),
        first_index(s, c) < s.len() ==> s[first_index(s, c)] == c,
        forall|i: int| 0 <= i < first_index(s, c) ==> s[i] != c,
    decreases s.len(),
{
    if s.len() > 0 && s.first() != c {
        lemma_first_index_bounds(s.drop_first(), c);
        assert forall|i: int| 0 <= i < first_index(s, c) implies s[i] != c by {
            if i > 0 {
                assert(s[i] == s.drop_first()[i - 1]);
            }
        }
    }
}

/// The last `c` of `s` is where [`last_index`] says, and there is none
/// after it.
pub proof fn lemma_last_index_bounds(s: Seq<char>, c: char)
    ensures
        -1 <= last_index(s, c) < s.len(),
        0 <= last_index(s, c) ==> s[last_index(s, c)] == c,
        forall|i: int| last_index(s, c) < i < s.len() ==> s[i] != c,
    decreases s.len(),
{
    if s.len() > 0 && s.last() != c {
        lemma_last_index_bounds(s.drop_last(), c);
        assert forall|i: int| last_index(s, c) < i < s.len() implies s[i] != c by {
            if i < s.len() - 1 {
                assert(s[i] == s.drop_last()[i]);
            }
        }
    }
}

/// Whether `s` holds whitespace only.
pub open spec fn all_whitespace(s: Seq<char>) -> bool {
    forall|i: int| 0 <= i < s.len() ==> whitespace(#[trigger] s[i])
}

/// Trimming at the start takes away a prefix of whitespace, and stops at the
/// first character that is none. The result is where what is left begins.
pub proof fn trim_start_is_tight(s: Seq<char>) -> (a: int)
    ensures
        0 <= a <= s.len(),
        trim_start(s) == s.subrange(a, s.len() as int),
        all_whitespace(s.subrange(0, a)),
        a < s.len() ==> !whitespace(s[a]),
    decreases s.len(),
{
    if s.len() > 0 && whitespace(s.first()) {
        let a = trim_start_is_tight(s.drop_first());
        assert(s.drop_first().subrange(a, s.len() - 1) =~= s.subrange(a + 1, s.len() as int));
        assert forall|i: int| 0 <= i < a + 1 implies whitespace(
            #[trigger] s.subrange(0, a + 1)[i],
        ) by {
            if i > 0 {
                assert(s.subrange(0, a + 1)[i] == s.drop_first().subrange(0, a)[i - 1]);
            }
        }
        a + 1
    } else {
        assert(s.subrange(0, s.len() as int) =~= s);
        0
    }
}

/// Trimming at the end takes away a suffix of whitespace, and stops at the
/// last character that is none. The result is where what is left ends.
pub proof fn trim_end_is_tight(s: Seq<char>) -> (b: int)
    ensures
        0 <= b <= s.len(),
        trim_end(s) == s.subrange(0, b),
        all_whitespace(s.subrange(b, s.len() as int)),
        b > 0 ==> !whitespace(s[b - 1]),
    decreases s.len(),
{
    if s.len() > 0 && whitespace(s.last()) {
        let b = trim_end_is_tight(s.drop_last());
        assert(s.drop_last().subrange(0, b) =~= s.subrange(0, b));
        assert forall|i: int| 0 <= i < s.len() - b implies whitespace(
            #[trigger] s.subrange(b, s.len() as int)[i],
        ) by {
            if i < s.len() - b - 1 {
                assert(s.subrange(b, s.len() as int)[i] == s.drop_last().subrange(
                    b,
                    s.len() - 1,
                )[i]);
            }
        }
        b
    } else {
        assert(s.subrange(0, s.len() as int) =~= s);
        s.len() as int
    }
}

/// What trimming leaves of `s` is the part from its first to its last
/// character that is not whitespace: what stands before and after that part
/// is whitespace only, and the part neither begins nor ends with whitespace.
/// The results are where the part begins and ends.
pub proof fn trimmed_is_tight(s: Seq<char>) -> (r: (int, int))
    ensures
        0 <= r.0 <= r.1 <= s.len(),
        trimmed(s) == s.subrange(r.0, r.1),
        all_whitespace(s.subrange(0, r.0)),
        all_whitespace(s.subrange(r.1, s.len() as int)),
        r.0 < r.1 ==> !whitespace(s[r.0]) && !whitespace(s[r.1 - 1]),
{
    let a = trim_start_is_tight(s);
    let rest = s.subrange(a, s.len() as int);
    let b = trim_end_is_tight(rest);
    assert(rest.subrange(0, b) =~= s.subrange(a, a + b));
    assert(rest.subrange(b, rest.len() as int) =~= s.subrange(a + b, s.len() as int));
    (a, a + b)
}

/// The position of the first `c` in `text[start..end]`, counted from the start
/// of `text`, or `end` where there is none.
pub fn find_first(text: &Vec<char>, start: usize, end: usize, c: char) -> (r: usize)
    requires
        start <= end <= text.len(),
    ensures
        r == start + first_index(text@.subrange(start as int, end as int), c),
        start <= r <= end,
{
    let ghost s = text@.subrange(start as int, end as int);
    proof {
        lemma_first_index_bounds(s, c);
    }
    let mut i: usize = start;
    while i < end && text[i] != c
        invariant
            start <= i <= end <= text.len(),
            s == text@.subrange(start as int, end as int),
            forall|j: int| 0 <= j < i - start ==> s[j] != c,
        decreases end - i,
    {
        i += 1;
    }
    proof {
        if i < end {
            assert(s[i - start] == c);
        }
    }
    i
}

/// The position of the last `c` in `text`, or `None` where there is none.
pub fn find_last(text: &Vec<char>, c: char) -> (r: Option<usize>)
    ensures
        match r {
            Some(i) => i == last_index(text@, c) && i < text.len(),
            None => last_index(text@, c) == -1,
        },
{
    proof {
        lemma_last_index_bounds(text@, c);
    }
    let mut i: usize = text.len();
    while i > 0 && text[i - 1] != c
        invariant
            i <= text.len(),
            forall|j: int| i <= j < text.len() ==> text@[j] != c,
        decreases i,
    {
        i -= 1;
    }
    if i == 0 {
        None
    } else {
        Some(i - 1)
    }
}

/// `parts` put together with a line feed between each two.
pub open spec fn joined(parts: Seq<Seq<char>>) -> Seq<char>
    decreases parts.len(),
{
    if parts.len() == 0 {
        Seq::empty()
    } else if parts.len() == 1 {
        parts.first()
    } else {
        parts.first() + seq!['\n'] + joined(parts.drop_first())
    }
}

/// The pieces of a text hold no line feed, and put together with line feeds
/// they are the text again.
pub proof fn pieces_rebuild(s: Seq<char>)
    ensures
        pieces(s).len() >= 1,
        joined(pieces(s)) == s,
        forall|i: int, j: int|
            0 <= i < pieces(s).len() && 0 <= j < pieces(s)[i].len() ==> pieces(s)[i][j] != '\n',
    decreases s.len(),
{
    lemma_first_index_bounds(s, '\n');
    let k = first_index(s, '\n');
    if k < s.len() {
        let head = s.subrange(0, k);
        let rest = s.subrange(k + 1, s.len() as int);
        pieces_rebuild(rest);
        assert(pieces(s).drop_first() =~= pieces(rest));
        assert(head + seq!['\n'] + rest =~= s);
        assert forall|i: int, j: int|
            0 <= i < pieces(s).len() && 0 <= j < pieces(s)[i].len() implies pieces(s)[i][j]
            != '\n' by {
            if i > 0 {
                assert(pieces(s)[i] == pieces(rest)[i - 1]);
            }
        }
    }
}

/// The slices of `text` that `bounds` delimits, in order.
pub open spec fn slices(text: Seq<char>, bounds: Seq<(usize, usize)>) -> Seq<Seq<char>> {
    Seq::new(bounds.len(), |i: int| text.subrange(bounds[i].0 as int, bounds[i].1 as int))
}

/// Whether every pair of `bounds` delimits a slice of a text of length `len`.
pub open spec fn within(bounds: Seq<(usize, usize)>, len: nat) -> bool {
    forall|i: int| 0 <= i < bounds.len() ==> (#[trigger] bounds[i]).0 <= bounds[i].1 <= len
}

/// The bounds of `text[start..end]` without its leading and trailing
/// whitespace.
pub fn trim_bounds(text: &Vec<char>, start: usize, end: usize) -> (r: (usize, usize))
    requires
        start <= end <= text.len(),
    ensures
        start <= r.0 <= r.1 <= end,
        text@.subrange(r.0 as int, r.1 as int) == trimmed(
            text@.subrange(start as int, end as int),
        ),
{
    let mut a: usize = start;
    while a < end && is_whitespace(text[a])
        invariant
            start <= a <= end <= text.len(),
            trim_start(text@.subrange(start as int, end as int)) == trim_start(
                text@.subrange(a as int, end as int),
            ),
        decreases end - a,
    {
        proof {
            assert(text@.subrange(a as int, end as int).drop_first() =~= text@.subrange(
                a + 1,
                end as int,
            ));
        }
        a += 1;
    }
    let mut b: usize = end;
    while b > a && is_whitespace(text[b - 1])
        invariant
            a <= b <= end <= text.len(),
            trim_end(text@.subrange(a as int, end as int)) == trim_end(
                text@.subrange(a as int, b as int),
            ),
        decreases b,
    {
        proof {
            assert(text@.subrange(a as int, b as int).drop_last() =~= text@.subrange(
                a as int,
                b - 1,
            ));
        }
        b -= 1;
    }
    (a, b)
}

/// The bounds of the lines of `text`, in order.
pub fn line_bounds(text: &Vec<char>) -> (r: Vec<(usize, usize)>)
    ensures
        within(r@, text@.len()),
        slices(text@, r@) == lines(text@),
{
    let len: usize = text.len();
    let mut out: Vec<(usize, usize)> = Vec::new();
    let mut pos: usize = 0;
    assert(text@.subrange(0, len as int) =~= text@);
    loop
        invariant
            len == text.len(),
            pos <= len,
            within(out@, text@.len()),
            pieces(text@) == slices(text@, out@) + pieces(text@.subrange(pos as int, len as int)),
        decreases len - pos,
    {
        let ghost rest = text@.subrange(pos as int, len as int);
        let k: usize = find_first(text, pos, len, '\n');
        if k < len {
            proof {
                assert(rest.subrange(0, k - pos) =~= text@.subrange(pos as int, k as int));
                assert(rest.subrange(k - pos + 1, rest.len() as int) =~= text@.subrange(
                    k + 1,
                    len as int,
                ));
            }
            out.push((pos, k));
            pos = k + 1;
        } else {
            if pos < len {
                out.push((pos, len));
            }
            return out;
        }
    }
}

/// Whether `c` is an ASCII decimal digit.
pub open spec fn digit(c: char) -> bool {
    '0' <= c <= '9'
}

/// The number that the decimal digit `c` stands for.
pub open spec fn digit_value(c: char) -> nat {
    (c as u32 - '0' as u32) as nat
}

/// Whether `s` holds decimal digits only.
pub open spec fn all_digits(s: Seq<char>) -> bool {
    forall|i: int| 0 <= i < s.len() ==> digit(#[trigger] s[i])
}

/// The number that the digits of `s` write in base ten.
pub open spec fn digits_value(s: Seq<char>) -> nat
    decreases s.len(),
{
    if s.len() == 0 {
        0
    } else {
        digits_value(s.drop_last()) * 10 + digit_value(s.last())
    }
}

/// `s` without the `+` that may stand before the digits of a number.
pub open spec fn unsigned_digits(s: Seq<char>) -> Seq<char> {
    if s.len() > 0 && s.first() == '+' {
        s.drop_first()
    } else {
        s
    }
}

/// The number that `s` writes, where it is an unsigned decimal number no
/// greater than `max`: an optional `+`, then at least one digit. Leading
/// zeros are accepted; a sign alone, a `-`, and any other character are not.
pub open spec fn unsigned_value(s: Seq<char>, max: nat) -> Option<nat> {
    let d = unsigned_digits(s);
    if d.len() > 0 && all_digits(d) && digits_value(d) <= max {
        Some(digits_value(d))
    } else {
        None
    }
}

/// A number written in digits is at least the number that any of its
/// prefixes writes.
pub proof fn lemma_digits_value_prefix(s: Seq<char>, k: int)
    requires
        0 <= k <= s.len(),
    ensures
        digits_value(s.take(k)) <= digits_value(s),
    decreases s.len() - k,
{
    if k < s.len() {
        lemma_digits_value_prefix(s.drop_last(), k);
        assert(s.drop_last().take(k) =~= s.take(k));
    } else {
        assert(s.take(k) =~= s);
    }
}

/// Reads `text[start..end]` as an unsigned decimal number no greater than
/// `max`.
pub fn parse_unsigned(text: &Vec<char>, start: usize, end: usize, max: u64) -> (r: Option<u64>)
    requires
        start <= end <= text.len(),
    ensures
        r is Some <==> unsigned_value(text@.subrange(start as int, end as int), max as nat) is Some,
        r is Some ==> r.unwrap() == unsigned_value(
            text@.subrange(start as int, end as int),
            max as nat,
        ).unwrap(),
{
    let first: usize = if start < end && text[start] == '+' {
        start + 1
    } else {
        start
    };
    let ghost d = text@.subrange(first as int, end as int);
    if first == end {
        return None;
    }
    let mut acc: u64 = 0;
    let mut i: usize = first;
    while i < end
        invariant
            start <= first <= i <= end <= text.len(),
            d == text@.subrange(first as int, end as int),
            d == unsigned_digits(text@.subrange(start as int, end as int)),
            all_digits(d.take(i - first)),
            acc == digits_value(d.take(i - first)),
            acc <= max,
        decreases end - i,
    {
        let c: char = text[i];
        if !(c >= '0' && c <= '9') {
            assert(d[i - first] == c);
            return None;
        }
        let v: u64 = (c as u32 - '0' as u32) as u64;
        proof {
            assert(d.take(i - first + 1).drop_last() =~= d.take(i - first));
            lemma_digits_value_prefix(d, i - first + 1);
        }
        let grown: u64 = match acc.checked_mul(10) {
            Some(m) => match m.checked_add(v) {
                Some(g) => g,
                None => {
                    return None;
                },
            },
            None => {
                return None;
            },
        };
        if grown > max {
            return None;
        }
        acc = grown;
        i += 1;
    }
    assert(d.take(end - first) =~= d);
    Some(acc)
}

/// The character that writes the digit `d` in lower-case hexadecimal; for
/// `d` below ten this is its decimal digit.
pub open spec fn digit_char(d: nat) -> char {
    if d < 10 {
        (48 + d) as u8 as char
    } else {
        (87 + d) as u8 as char
    }
}

/// `n` in base ten, without leading zeros.
pub open spec fn decimal(n: nat) -> Seq<char>
    decreases n,
{
    if n < 10 {
        seq![digit_char(n)]
    } else {
        decimal(n / 10).push(digit_char(n % 10))
    }
}

/// `n` in base ten, with a `-` before the digits of a negative number.
pub open spec fn signed_decimal(n: int) -> Seq<char> {
    if n < 0 {
        seq!['-'] + decimal((-n) as nat)
    } else {
        decimal(n as nat)
    }
}

/// `b` as two lower-case hexadecimal digits.
pub open spec fn hex_pair(b: u8) -> Seq<char> {
    seq![digit_char((b / 16) as nat), digit_char((b % 16) as nat)]
}

/// The decimal text of a number is made of digits, at least one, and they
/// write that number.
pub proof fn decimal_is_digits(n: nat)
    ensures
        decimal(n).len() > 0,
        all_digits(decimal(n)),
        digits_value(decimal(n)) == n,
    decreases n,
{
    if n < 10 {
        assert(decimal(n).drop_last() =~= Seq::<char>::empty());
        assert(digits_value(decimal(n)) == digits_value(Seq::<char>::empty()) * 10
            + digit_value(digit_char(n)));
    } else {
        decimal_is_digits(n / 10);
        assert(decimal(n).drop_last() =~= decimal(n / 10));
    }
}

/// What is written in base ten is read back as the same number.
pub proof fn decimal_round_trip(n: nat, max: nat)
    requires
        n <= max,
    ensures
        unsigned_value(decimal(n), max) == Some(n),
{
    decimal_is_digits(n);
}

/// The one-character text that writes the digit `d`.
pub fn digit_str(d: u8) -> (r: &'static str)
    requires
        d < 16,
    ensures
        r@ == seq![digit_char(d as nat)],
{
    proof {
        reveal_strlit("0");
        reveal_strlit("1");
        reveal_strlit("2");
        reveal_strlit("3");
        reveal_strlit("4");
        reveal_strlit("5");
        reveal_strlit("6");
        reveal_strlit("7");
        reveal_strlit("8");
        reveal_strlit("9");
        reveal_strlit("a");
        reveal_strlit("b");
        reveal_strlit("c");
        reveal_strlit("d");
        reveal_strlit("e");
        reveal_strlit("f");
    }
    let r: &'static str = match d {
        0 => "0",
        1 => "1",
        2 => "2",
        3 => "3",
        4 => "4",
        5 => "5",
        6 => "6",
        7 => "7",
        8 => "8",
        9 => "9",
        10 => "a",
        11 => "b",
        12 => "c",
        13 => "d",
        14 => "e",
        _ => "f",
    };
    r
}

/// Appends `n` in base ten to `out`.
pub fn append_decimal(out: &mut String, n: u128)
    ensures
        final(out)@ == old(out)@ + decimal(n as nat),
    decreases n,
{
    if n >= 10 {
        append_decimal(out, n / 10);
    }
    out.append(digit_str((n % 10) as u8));
}

/// Appends `n` in base ten to `out`, with a `-` first where `n` is negative.
pub fn append_signed_decimal(out: &mut String, n: i64)
    ensures
        final(out)@ == old(out)@ + signed_decimal(n as int),
{
    if n < 0 {
        proof {
            reveal_strlit("-");
        }
        out.append("-");
        let magnitude: u128 = (0 - (n as i128)) as u128;
        append_decimal(out, magnitude);
    } else {
        append_decimal(out, n as u128);
    }
}

/// Appends `b` as two lower-case hexadecimal digits to `out`.
pub fn append_hex_pair(out: &mut String, b: u8)
    ensures
        final(out)@ == old(out)@ + hex_pair(b),
{
    out.append(digit_str(b / 16));
    out.append(digit_str(b % 16));
}

/// Whether `needle` stands in `hay` at position `i`.
pub open spec fn occurs_at(hay: Seq<char>, needle: Seq<char>, i: int) -> bool {
    0 <= i && i + needle.len() <= hay.len() && hay.subrange(i, i + needle.len()) == needle
}

/// Whether `needle` stands somewhere in `hay`.
pub open spec fn contains(hay: Seq<char>, needle: Seq<char>) -> bool {
    exists|i: int| occurs_at(hay, needle, i)
}

/// Whether `needle` stands in `hay` at position `i`.
pub fn found_at(hay: &Vec<char>, needle: &Vec<char>, i: usize) -> (r: bool)
    requires
        i + needle.len() <= hay.len(),
    ensures
        r == occurs_at(hay@, needle@, i as int),
{
    let n: usize = needle.len();
    let mut j: usize = 0;
    while j < n
        invariant
            n == needle.len(),
            i + n <= hay.len(),
            j <= n,
            forall|k: int| 0 <= k < j ==> hay@[i + k] == needle@[k],
        decreases n - j,
    {
        if hay[i + j] != needle[j] {
            return false;
        }
        j += 1;
    }
    assert(hay@.subrange(i as int, i + n) =~= needle@);
    true
}

/// Whether `needle` stands somewhere in `hay`.
pub fn is_contained(hay: &Vec<char>, needle: &Vec<char>) -> (r: bool)
    ensures
        r == contains(hay@, needle@),
{
    if needle.len() > hay.len() {
        return false;
    }
    let last: usize = hay.len() - needle.len();
    let mut i: usize = 0;
    loop
        invariant
            last == hay.len() - needle.len(),
            i <= last,
            forall|k: int| 0 <= k < i ==> !occurs_at(hay@, needle@, k),
        decreases last - i,
    {
        if found_at(hay, needle, i) {
            return true;
        }
        if i == last {
            return false;
        }
        i += 1;
    }
}

} // verus!
