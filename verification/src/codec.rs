//! Fixed-width hexadecimal text primitives used by the descriptor
//! encoding.

use vstd::prelude::*;

verus! {

/// The character for one hexadecimal digit value.
pub open spec fn hex_char(d: int) -> char {
    if d == 0 {
        '0'
    } else if d == 1 {
        '1'
    } else if d == 2 {
        '2'
    } else if d == 3 {
        '3'
    } else if d == 4 {
        '4'
    } else if d == 5 {
        '5'
    } else if d == 6 {
        '6'
    } else if d == 7 {
        '7'
    } else if d == 8 {
        '8'
    } else if d == 9 {
        '9'
    } else if d == 10 {
        'a'
    } else if d == 11 {
        'b'
    } else if d == 12 {
        'c'
    } else if d == 13 {
        'd'
    } else if d == 14 {
        'e'
    } else {
        'f'
    }
}

/// The digit value of one hexadecimal character, if it is one.
pub open spec fn hex_val(c: char) -> Option<int> {
    if c == '0' {
        Some(0int)
    } else if c == '1' {
        Some(1int)
    } else if c == '2' {
        Some(2int)
    } else if c == '3' {
        Some(3int)
    } else if c == '4' {
        Some(4int)
    } else if c == '5' {
        Some(5int)
    } else if c == '6' {
        Some(6int)
    } else if c == '7' {
        Some(7int)
    } else if c == '8' {
        Some(8int)
    } else if c == '9' {
        Some(9int)
    } else if c == 'a' {
        Some(10int)
    } else if c == 'b' {
        Some(11int)
    } else if c == 'c' {
        Some(12int)
    } else if c == 'd' {
        Some(13int)
    } else if c == 'e' {
        Some(14int)
    } else if c == 'f' {
        Some(15int)
    } else {
        None
    }
}

/// Sixteen to the given power.
pub open spec fn pow16(w: nat) -> int
    decreases w,
{
    if w == 0 {
        1
    } else {
        16 * pow16((w - 1) as nat)
    }
}

/// The value `v` written as exactly `w` hexadecimal characters, most
/// significant digit first.
pub open spec fn to_hex(v: int, w: nat) -> Seq<char>
    decreases w,
{
    if w == 0 {
        Seq::empty()
    } else {
        to_hex(v / 16, (w - 1) as nat).push(hex_char(v % 16))
    }
}

/// The value of a sequence of hexadecimal characters, or `None` if any
/// character is not a hexadecimal digit.
pub open spec fn from_hex(s: Seq<char>) -> Option<int>
    decreases s.len(),
{
    if s.len() == 0 {
        Some(0int)
    } else {
        match hex_val(s.last()) {
            None => None,
            Some(d) => match from_hex(s.drop_last()) {
                None => None,
                Some(rest) => Some(16 * rest + d),
            },
        }
    }
}

/// A fixed-width hexadecimal rendering always has its nominal width.
pub proof fn lemma_to_hex_len(v: int, w: nat)
    ensures
        to_hex(v, w).len() == w,
    decreases w,
{
    if w > 0 {
        lemma_to_hex_len(v / 16, (w - 1) as nat);
    }
}

/// The digit table and its inverse agree.
pub proof fn lemma_hex_char_val(d: int)
    requires
        0 <= d < 16,
    ensures
        hex_val(hex_char(d)) == Some(d),
{
}

/// If any character in the text is not a hexadecimal digit, the text
/// has no value.
pub proof fn lemma_from_hex_none(s: Seq<char>, j: int)
    requires
        0 <= j < s.len(),
        hex_val(s[j]) == None::<int>,
    ensures
        from_hex(s) == None::<int>,
    decreases s.len(),
{
    if j == s.len() - 1 {
    } else {
        assert(s.drop_last()[j] == s[j]);
        lemma_from_hex_none(s.drop_last(), j);
    }
}

/// Rendering a value and parsing the text back yields the value, for
/// any value the width can hold.
pub proof fn lemma_hex_round_trip(v: int, w: nat)
    requires
        0 <= v < pow16(w),
    ensures
        from_hex(to_hex(v, w)) == Some(v),
    decreases w,
{
    if w == 0 {
        assert(to_hex(v, w) =~= Seq::<char>::empty());
    } else {
        let high = to_hex(v / 16, (w - 1) as nat);
        let s = to_hex(v, w);
        lemma_to_hex_len(v / 16, (w - 1) as nat);
        assert(s.last() == hex_char(v % 16));
        assert(s.drop_last() =~= high);
        lemma_hex_char_val(v % 16);
        assert(v / 16 < pow16((w - 1) as nat)) by (nonlinear_arith)
            requires
                v < pow16(w) && pow16(w) == 16 * pow16((w - 1) as nat) && v >= 0,
        ;
        lemma_hex_round_trip(v / 16, (w - 1) as nat);
        assert(16 * (v / 16) + v % 16 == v);
    }
}

/// The largest width this crate renders covers exactly the 64-bit
/// values.
pub proof fn lemma_pow16_16()
    ensures
        pow16(16) == 0x1_0000_0000_0000_0000,
{
    reveal_with_fuel(pow16, 17);
}

/// Character-by-character equality of two text slices.
pub(crate) fn str_eq(a: &str, b: &str) -> (r: bool)
    ensures
        r == (a@ == b@),
{
    let a_len = a.unicode_len();
    let b_len = b.unicode_len();
    if a_len != b_len {
        return false;
    }
    let mut i: usize = 0;
    while i < a_len
        invariant
            i <= a_len,
            a_len == a@.len(),
            a_len == b@.len(),
            forall|j: int| 0 <= j < i ==> a@[j] == b@[j],
        decreases a_len - i,
    {
        if a.get_char(i) != b.get_char(i) {
            return false;
        }
        i += 1;
    }
    proof {
        assert(a@ =~= b@);
    }
    true
}

/// One hexadecimal character as text.
fn hex_char_str(d: u8) -> (r: &'static str)
    requires
        d < 16,
    ensures
        r@.len() == 1,
        r@[0] == hex_char(d as int),
{
    proof {
        reveal_strlit("0");
        reveal_strlit("1");
        reveal_strlit("2");
        reveal_strlit("3");
        reveal_strlit("4");
        reveal_strlit("5");
        reveal_strlit("6");
        reveal_strlit("7");
        reveal_strlit("8");
        reveal_strlit("9");
        reveal_strlit("a");
        reveal_strlit("b");
        reveal_strlit("c");
        reveal_strlit("d");
        reveal_strlit("e");
        reveal_strlit("f");
    }
    match d {
        0 => "0",
        1 => "1",
        2 => "2",
        3 => "3",
        4 => "4",
        5 => "5",
        6 => "6",
        7 => "7",
        8 => "8",
        9 => "9",
        10 => "a",
        11 => "b",
        12 => "c",
        13 => "d",
        14 => "e",
        _ => "f",
    }
}

/// Appends `v` as exactly `w` hexadecimal characters.
pub(crate) fn push_hex(out: &mut String, v: u64, w: u8)
    ensures
        final(out)@ == old(out)@ + to_hex(v as int, w as nat),
    decreases w,
{
    if w == 0 {
        proof {
            assert(old(out)@ + to_hex(v as int, 0) =~= old(out)@);
        }
        return ;
    }
    push_hex(out, v / 16, w - 1);
    let d = hex_char_str((v % 16) as u8);
    out.append(d);
    proof {
        assert(final(out)@ =~= old(out)@ + to_hex(v as int, w as nat));
    }
}

/// The digit value of one hexadecimal character.
fn hex_val_exec(c: char) -> (r: Option<u8>)
    ensures
        match r {
            Some(d) => hex_val(c) == Some(d as int) && d < 16,
            None => hex_val(c) == None::<int>,
        },
{
    match c {
        '0' => Some(0),
        '1' => Some(1),
        '2' => Some(2),
        '3' => Some(3),
        '4' => Some(4),
        '5' => Some(5),
        '6' => Some(6),
        '7' => Some(7),
        '8' => Some(8),
        '9' => Some(9),
        'a' => Some(10),
        'b' => Some(11),
        'c' => Some(12),
        'd' => Some(13),
        'e' => Some(14),
        'f' => Some(15),
        _ => None,
    }
}

/// Parses the 16 hexadecimal characters of `s` starting at `pos`.
pub(crate) fn parse_hex16(s: &str, pos: usize) -> (r: Option<u64>)
    requires
        pos + 16 <= s@.len(),
        s@.len() <= usize::MAX,
    ensures
        match r {
            Some(v) => from_hex(s@.subrange(pos as int, pos as int + 16)) == Some(v as int),
            None => from_hex(s@.subrange(pos as int, pos as int + 16)) == None::<int>,
        },
{
    let ghost whole = s@.subrange(pos as int, pos as int + 16);
    let mut acc: u64 = 0;
    let mut i: usize = 0;
    while i < 16
        invariant
            i <= 16,
            pos + 16 <= s@.len(),
            s@.len() <= usize::MAX,
            from_hex(s@.subrange(pos as int, pos as int + i)) == Some(acc as int),
            acc < pow16(i as nat),
        decreases 16 - i,
    {
        let c = s.get_char(pos + i);
        match hex_val_exec(c) {
            None => {
                proof {
                    let sub = s@.subrange(pos as int, pos as int + 16);
                    assert(sub[i as int] == s@[pos as int + i]);
                    lemma_from_hex_none(sub, i as int);
                }
                return None;
            },
            Some(d) => {
                proof {
                    let prev = s@.subrange(pos as int, pos as int + i);
                    let cur = s@.subrange(pos as int, pos as int + i + 1);
                    assert(cur.drop_last() =~= prev);
                    assert(cur.last() == s@[pos as int + i]);
                    assert(pow16((i + 1) as nat) == 16 * pow16(i as nat));
                    assert(16 * (acc as int) + (d as int) < 16 * pow16(i as nat))
                        by (nonlinear_arith)
                        requires
                            (acc as int) < pow16(i as nat) && (d as int) < 16,
                    ;
                    lemma_pow16_16();
                    assert(pow16((i + 1) as nat) <= pow16(16)) by {
                        lemma_pow16_increases((i + 1) as nat, 16);
                    }
                }
                acc = acc * 16 + (d as u64);
            },
        }
        i += 1;
    }
    proof {
        assert(s@.subrange(pos as int, pos as int + 16) =~= s@.subrange(
            pos as int,
            pos as int + i,
        ));
    }
    Some(acc)
}

/// Wider widths hold at least as many values.
pub proof fn lemma_pow16_increases(a: nat, b: nat)
    requires
        a <= b,
    ensures
        pow16(a) <= pow16(b),
    decreases b,
{
    if a < b {
        lemma_pow16_increases(a, (b - 1) as nat);
        assert(pow16(b) == 16 * pow16((b - 1) as nat));
        assert(pow16((b - 1) as nat) >= 1) by {
            lemma_pow16_pos((b - 1) as nat);
        }
    }
}

/// Every width holds at least one value.
pub proof fn lemma_pow16_pos(w: nat)
    ensures
        pow16(w) >= 1,
    decreases w,
{
    if w > 0 {
        lemma_pow16_pos((w - 1) as nat);
    }
}

} // verus!
