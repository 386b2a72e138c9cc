//! Text of numbers, as it appears in names and error messages.

use vstd::prelude::*;

verus! {

/// The upper-case hexadecimal digit of `d`.
pub open spec fn digit(d: int) -> Seq<char> {
    if d == 0 {
        "0"@
    } else if d == 1 {
        "1"@
    } else if d == 2 {
        "2"@
    } else if d == 3 {
        "3"@
    } else if d == 4 {
        "4"@
    } else if d == 5 {
        "5"@
    } else if d == 6 {
        "6"@
    } else if d == 7 {
        "7"@
    } else if d == 8 {
        "8"@
    } else if d == 9 {
        "9"@
    } else if d == 10 {
        "A"@
    } else if d == 11 {
        "B"@
    } else if d == 12 {
        "C"@
    } else if d == 13 {
        "D"@
    } else if d == 14 {
        "E"@
    } else {
        "F"@
    }
}

/// The last `width` hexadecimal digits of `v`, most significant first.
pub open spec fn hex(v: nat, width: nat) -> Seq<char>
    decreases width,
{
    if width == 0 {
        Seq::empty()
    } else {
        hex(v / 16, (width - 1) as nat) + digit((v % 16) as int)
    }
}

/// The decimal digits of `v`, without leading zeros (`"0"` for zero).
pub open spec fn decimal(v: nat) -> Seq<char>
    decreases v,
{
    if v < 10 {
        digit(v as int)
    } else {
        decimal(v / 10) + digit((v % 10) as int)
    }
}

fn digit_text(d: u32) -> (r: &'static str)
    requires
        d < 16,
    ensures
        r@ == digit(d as int),
{
    match d {
        0 => "0",
        1 => "1",
        2 => "2",
        3 => "3",
        4 => "4",
        5 => "5",
        6 => "6",
        7 => "7",
        8 => "8",
        9 => "9",
        10 => "A",
        11 => "B",
        12 => "C",
        13 => "D",
        14 => "E",
        _ => "F",
    }
}

/// Appends the last `width` hexadecimal digits of `v`.
pub fn push_hex(out: &mut String, v: u32, width: u32)
    ensures
        final(out)@ == old(out)@ + hex(v as nat, width as nat),
    decreases width,
{
    if width > 0 {
        push_hex(out, v / 16, width - 1);
        out.append(digit_text(v % 16));
    }
    assert(out@ =~= old(out)@ + hex(v as nat, width as nat));
}

/// Appends the decimal text of `v`.
pub fn push_decimal(out: &mut String, v: u64)
    ensures
        final(out)@ == old(out)@ + decimal(v as nat),
    decreases v,
{
    if v < 10 {
        out.append(digit_text(v as u32));
    } else {
        push_decimal(out, v / 10);
        out.append(digit_text((v % 10) as u32));
    }
    assert(out@ =~= old(out)@ + decimal(v as nat));
}

/// `"nid 0x"` and the node id in two digits.
pub open spec fn node_text(nid: u8) -> Seq<char> {
    "nid 0x"@ + hex(nid as nat, 2)
}

/// Starts a message about a node.
pub fn node_message(nid: u8) -> (r: String)
    ensures
        r@ == node_text(nid),
{
    let mut out = "nid 0x".to_owned();
    push_hex(&mut out, nid as u32, 2);
    out
}

/// A character with the Unicode property `White_Space`.
pub open spec fn is_white_space(c: char) -> bool {
    let u = c as u32;
    ||| 0x9 <= u <= 0xD
    ||| u == 0x20
    ||| u == 0x85
    ||| u == 0xA0
    ||| u == 0x1680
    ||| 0x2000 <= u <= 0x200A
    ||| u == 0x2028
    ||| u == 0x2029
    ||| u == 0x202F
    ||| u == 0x205F
    ||| u == 0x3000
}

fn white_space(c: char) -> (r: bool)
    ensures
        r == is_white_space(c),
{
    let u: u32 = c as u32;
    (0x9 <= u && u <= 0xD) || u == 0x20 || u == 0x85 || u == 0xA0 || u == 0x1680 || (0x2000 <= u && u
        <= 0x200A) || u == 0x2028 || u == 0x2029 || u == 0x202F || u == 0x205F || u == 0x3000
}

/// `s` without the white space at its start.
pub open spec fn trimmed_start(s: Seq<char>) -> Seq<char>
    decreases s.len(),
{
    if s.len() > 0 && is_white_space(s[0]) {
        trimmed_start(s.skip(1))
    } else {
        s
    }
}

/// `s` without the white space at its end.
pub open spec fn trimmed_end(s: Seq<char>) -> Seq<char>
    decreases s.len(),
{
    if s.len() > 0 && is_white_space(s.last()) {
        trimmed_end(s.drop_last())
    } else {
        s
    }
}

/// `s` without the white space at its start and at its end.
pub open spec fn trimmed(s: Seq<char>) -> Seq<char> {
    trimmed_end(trimmed_start(s))
}

/// The text without the white space around it.
pub fn trim(s: &str) -> (r: &str)
    ensures
        r@ == trimmed(s@),
{
    let n = s.unicode_len();
    let mut from: usize = 0;
    assert(s@.skip(0) =~= s@);
    while from < n && white_space(s.get_char(from))
        invariant
            from <= n,
            n == s@.len(),
            trimmed_start(s@) == trimmed_start(s@.skip(from as int)),
        decreases n - from,
    {
        assert(s@.skip(from as int).skip(1) =~= s@.skip(from + 1));
        from = from + 1;
    }
    assert(trimmed_start(s@) == s@.skip(from as int));
    let mut to: usize = n;
    assert(s@.subrange(from as int, n as int) =~= s@.skip(from as int));
    while to > from && white_space(s.get_char(to - 1))
        invariant
            from <= to <= n,
            n == s@.len(),
            trimmed(s@) == trimmed_end(s@.subrange(from as int, to as int)),
        decreases to,
    {
        assert(s@.subrange(from as int, to as int).drop_last() =~= s@.subrange(
            from as int,
            to - 1,
        ));
        to = to - 1;
    }
    assert(trimmed(s@) == s@.subrange(from as int, to as int));
    s.substring_char(from, to)
}

/// The number that a digit stands for, upper-case letters included.
pub open spec fn digit_value(c: char) -> int {
    if 'A' <= c <= 'F' {
        c as int - 'A' as int + 10
    } else {
        c as int - '0' as int
    }
}

/// The number that the digits stand for, most significant first.
pub open spec fn number_in(s: Seq<char>, base: int) -> int
    decreases s.len(),
{
    if s.len() == 0 {
        0
    } else {
        base * number_in(s.drop_last(), base) + digit_value(s.last())
    }
}

/// A digit is one character, `0` to `9` or `A` to `F`, and stands for its
/// number.
pub proof fn digit_stands_for_its_number(d: int)
    requires
        0 <= d < 16,
    ensures
        digit(d).len() == 1,
        digit_value(digit(d)[0]) == d,
        d < 10 ==> '0' <= digit(d)[0] <= '9',
        d >= 10 ==> 'A' <= digit(d)[0] <= 'F',
{
    reveal_strlit("0");
    reveal_strlit("1");
    reveal_strlit("2");
    reveal_strlit("3");
    reveal_strlit("4");
    reveal_strlit("5");
    reveal_strlit("6");
    reveal_strlit("7");
    reveal_strlit("8");
    reveal_strlit("9");
    reveal_strlit("A");
    reveal_strlit("B");
    reveal_strlit("C");
    reveal_strlit("D");
    reveal_strlit("E");
    reveal_strlit("F");
}

/// Decimal digits can be read back, for every number; all of them are `0` to
/// `9`, and only zero starts with `0`.
pub proof fn decimal_is_read_back(v: nat)
    ensures
        number_in(decimal(v), 10) == v,
        decimal(v).len() >= 1,
        forall|i: int| 0 <= i < decimal(v).len() ==> '0' <= #[trigger] decimal(v)[i] <= '9',
        v > 0 ==> decimal(v)[0] != '0',
        v == 0 ==> decimal(v).len() == 1,
    decreases v,
{
    if v < 10 {
        digit_stands_for_its_number(v as int);
        assert(number_in(decimal(v).drop_last(), 10) == 0);
        reveal_strlit("0");
    } else {
        decimal_is_read_back(v / 10);
        digit_stands_for_its_number((v % 10) as int);
        assert(decimal(v).drop_last() =~= decimal(v / 10));
        assert(decimal(v).last() == digit((v % 10) as int)[0]);
    }
}

/// Hexadecimal digits are as many as were asked for.
pub proof fn hex_has_its_width(v: nat, width: nat)
    ensures
        hex(v, width).len() == width,
        forall|i: int|
            0 <= i < width ==> '0' <= #[trigger] hex(v, width)[i] <= '9' || 'A' <= hex(v, width)[i]
                <= 'F',
    decreases width,
{
    if width > 0 {
        hex_has_its_width(v / 16, (width - 1) as nat);
        digit_stands_for_its_number((v % 16) as int);
    }
}

/// One digit more reads sixteen times as far, and every number that fits so
/// many digits can be read back from them.
pub proof fn hex_is_read_back(v: nat, width: nat, limit: nat)
    requires
        v < limit,
        limit == hex_limit(width),
    ensures
        number_in(hex(v, width), 16) == v,
    decreases width,
{
    if width > 0 {
        let less = (width - 1) as nat;
        hex_is_read_back(v / 16, less, hex_limit(less));
        digit_stands_for_its_number((v % 16) as int);
        assert(hex(v, width).drop_last() =~= hex(v / 16, less));
        assert(hex(v, width).last() == digit((v % 16) as int)[0]);
    }
}

/// The first number that does not fit so many hexadecimal digits.
pub open spec fn hex_limit(width: nat) -> nat
    decreases width,
{
    if width == 0 {
        1
    } else {
        16 * hex_limit((width - 1) as nat)
    }
}

/// Bytes, words and double words can be read back from 2, 4 and 8 digits.
pub proof fn numbers_are_read_back(a: u8, b: u16, c: u32)
    ensures
        number_in(hex(a as nat, 2), 16) == a,
        number_in(hex(b as nat, 4), 16) == b,
        number_in(hex(c as nat, 8), 16) == c,
{
    reveal_with_fuel(hex_limit, 9);
    hex_is_read_back(a as nat, 2, hex_limit(2));
    hex_is_read_back(b as nat, 4, hex_limit(4));
    hex_is_read_back(c as nat, 8, hex_limit(8));
}

/// The name of a node in messages ends with its two digits and differs between
/// nodes.
pub proof fn node_is_named(a: u8, b: u8)
    ensures
        node_text(a).take(6) == seq!['n', 'i', 'd', ' ', '0', 'x'],
        node_text(a).len() == 8,
        number_in(node_text(a).skip(6), 16) == a,
        node_text(a) == node_text(b) ==> a == b,
{
    reveal_strlit("nid 0x");
    hex_has_its_width(a as nat, 2);
    hex_has_its_width(b as nat, 2);
    numbers_are_read_back(a, 0, 0);
    numbers_are_read_back(b, 0, 0);
    assert(node_text(a).take(6) =~= "nid 0x"@);
    assert("nid 0x"@ =~= seq!['n', 'i', 'd', ' ', '0', 'x']);
    assert(node_text(a).skip(6) =~= hex(a as nat, 2));
    assert(node_text(b).skip(6) =~= hex(b as nat, 2));
}

/// The white space characters, one by one.
pub proof fn white_space_characters(c: char)
    ensures
        is_white_space(c) <==> seq![
            0x0009u32,
            0x000A,
            0x000B,
            0x000C,
            0x000D,
            0x0020,
            0x0085,
            0x00A0,
            0x1680,
            0x2000,
            0x2001,
            0x2002,
            0x2003,
            0x2004,
            0x2005,
            0x2006,
            0x2007,
            0x2008,
            0x2009,
            0x200A,
            0x2028,
            0x2029,
            0x202F,
            0x205F,
            0x3000,
        ].contains(c as u32),
{
    let all = seq![
        0x0009u32,
        0x000A,
        0x000B,
        0x000C,
        0x000D,
        0x0020,
        0x0085,
        0x00A0,
        0x1680,
        0x2000,
        0x2001,
        0x2002,
        0x2003,
        0x2004,
        0x2005,
        0x2006,
        0x2007,
        0x2008,
        0x2009,
        0x200A,
        0x2028,
        0x2029,
        0x202F,
        0x205F,
        0x3000,
    ];
    let u = c as u32;
    if is_white_space(c) {
        let at: int = if u <= 0xD {
            u - 9
        } else if u == 0x20 {
            5
        } else if u == 0x85 {
            6
        } else if u == 0xA0 {
            7
        } else if u == 0x1680 {
            8
        } else if u <= 0x200A {
            u - 0x2000 + 9
        } else if u == 0x2028 {
            20
        } else if u == 0x2029 {
            21
        } else if u == 0x202F {
            22
        } else if u == 0x205F {
            23
        } else {
            24
        };
        assert(all[at] == u);
    }
}

proof fn start_is_trimmed(s: Seq<char>) -> (from: int)
    ensures
        0 <= from <= s.len(),
        trimmed_start(s) == s.skip(from),
        forall|i: int| 0 <= i < from ==> is_white_space(#[trigger] s[i]),
        from < s.len() ==> !is_white_space(s[from]),
    decreases s.len(),
{
    if s.len() > 0 && is_white_space(s[0]) {
        let rest = s.skip(1);
        let from = start_is_trimmed(rest);
        assert(rest.skip(from) =~= s.skip(from + 1));
        assert forall|i: int| 0 <= i < from + 1 implies is_white_space(#[trigger] s[i]) by {
            if i > 0 {
                assert(s[i] == rest[i - 1]);
            }
        }
        from + 1
    } else {
        assert(s.skip(0) =~= s);
        0
    }
}

proof fn end_is_trimmed(s: Seq<char>) -> (to: int)
    ensures
        0 <= to <= s.len(),
        trimmed_end(s) == s.take(to),
        forall|i: int| to <= i < s.len() ==> is_white_space(#[trigger] s[i]),
        to > 0 ==> !is_white_space(s[to - 1]),
    decreases s.len(),
{
    if s.len() > 0 && is_white_space(s.last()) {
        let rest = s.drop_last();
        let to = end_is_trimmed(rest);
        assert(rest.take(to) =~= s.take(to));
        assert forall|i: int| to <= i < s.len() implies is_white_space(#[trigger] s[i]) by {
            if i < s.len() - 1 {
                assert(s[i] == rest[i]);
            }
        }
        to
    } else {
        assert(s.take(s.len() as int) =~= s);
        s.len() as int
    }
}

/// Trimming takes white space away at both ends, all of it and nothing else:
/// what is left is one piece of the text, all around it is white space, and it
/// neither starts nor ends with any.
pub proof fn only_white_space_is_trimmed(s: Seq<char>)
    ensures
        exists|from: int, to: int|
            0 <= from <= to <= s.len() && trimmed(s) == #[trigger] s.subrange(from, to) && (
            forall|i: int| 0 <= i < from || to <= i < s.len() ==> is_white_space(#[trigger] s[i])),
        trimmed(s).len() > 0 ==> !is_white_space(trimmed(s)[0]) && !is_white_space(
            trimmed(s).last(),
        ),
        trimmed(s).len() == 0 <==> (forall|i: int|
            0 <= i < s.len() ==> is_white_space(#[trigger] s[i])),
{
    let from = start_is_trimmed(s);
    let t = s.skip(from);
    let len = end_is_trimmed(t);
    let to = from + len;
    assert(t.take(len) =~= s.subrange(from, to));
    assert forall|i: int| 0 <= i < from || to <= i < s.len() implies is_white_space(
        #[trigger] s[i],
    ) by {
        if i >= to {
            assert(s[i] == t[i - from]);
        }
    }
    if len > 0 {
        assert(s[from] == t[0]);
        assert(trimmed(s)[0] == s[from]);
        assert(trimmed(s).last() == t[len - 1]);
    }
}

} // verus!
