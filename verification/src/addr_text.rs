use crate::ether_addr::EtherAddr;
use vstd::prelude::*;

verus! {

/// The whitespace that parsing trims, around the address and around
/// each octet.
pub open spec fn spec_is_space(c: char) -> bool {
    c == ' ' || c == '\t' || c == '\n' || c == '\r' || c == '\u{b}' || c == '\u{c}'
}

/// The separators between octets: a colon or a hyphen.
pub open spec fn spec_is_sep(c: char) -> bool {
    c == ':' || c == '-'
}

/// The characters with leading whitespace removed.
pub open spec fn spec_trim_front(s: Seq<char>) -> Seq<char>
    decreases s.len(),
{
    if s.len() > 0 && spec_is_space(s[0]) {
        spec_trim_front(s.drop_first())
    } else {
        s
    }
}

/// The characters with trailing whitespace removed.
pub open spec fn spec_trim_back(s: Seq<char>) -> Seq<char>
    decreases s.len(),
{
    if s.len() > 0 && spec_is_space(s.last()) {
        spec_trim_back(s.drop_last())
    } else {
        s
    }
}

/// The characters with whitespace removed at both ends.
pub open spec fn spec_trim(s: Seq<char>) -> Seq<char> {
    spec_trim_back(spec_trim_front(s))
}

/// The characters split at every separator: one part more than there
/// are separators, each possibly empty.
pub open spec fn spec_split(s: Seq<char>) -> Seq<Seq<char>>
    decreases s.len(),
{
    if s.len() == 0 {
        seq![Seq::empty()]
    } else if spec_is_sep(s[0]) {
        seq![Seq::<char>::empty()] + spec_split(s.drop_first())
    } else {
        let rest = spec_split(s.drop_first());
        seq![seq![s[0]] + rest[0]] + rest.drop_first()
    }
}

/// The value of one hexadecimal digit, case-insensitive.
pub open spec fn spec_hex_val(c: char) -> Option<u8> {
    if c == '0' {
        Some(0u8)
    } else if c == '1' {
        Some(1u8)
    } else if c == '2' {
        Some(2u8)
    } else if c == '3' {
        Some(3u8)
    } else if c == '4' {
        Some(4u8)
    } else if c == '5' {
        Some(5u8)
    } else if c == '6' {
        Some(6u8)
    } else if c == '7' {
        Some(7u8)
    } else if c == '8' {
        Some(8u8)
    } else if c == '9' {
        Some(9u8)
    } else if c == 'a' || c == 'A' {
        Some(10u8)
    } else if c == 'b' || c == 'B' {
        Some(11u8)
    } else if c == 'c' || c == 'C' {
        Some(12u8)
    } else if c == 'd' || c == 'D' {
        Some(13u8)
    } else if c == 'e' || c == 'E' {
        Some(14u8)
    } else if c == 'f' || c == 'F' {
        Some(15u8)
    } else {
        None
    }
}

/// The octet one part stands for: after trimming it must be exactly two
/// hexadecimal digits.
pub open spec fn spec_parse_part(p: Seq<char>) -> Option<u8> {
    let t = spec_trim(p);
    if t.len() == 2 && spec_hex_val(t[0]) is Some && spec_hex_val(t[1]) is Some {
        Some((spec_hex_val(t[0]).unwrap() * 16 + spec_hex_val(t[1]).unwrap()) as u8)
    } else {
        None
    }
}

/// The octets of every part, where each part stands for one.
pub open spec fn spec_parts_values(s: Seq<char>) -> Option<Seq<u8>> {
    let parts = spec_split(s);
    if forall|i: int| 0 <= i < parts.len() ==> spec_parse_part(parts[i]) is Some {
        Some(Seq::new(parts.len(), |i: int| spec_parse_part(parts[i]).unwrap()))
    } else {
        None
    }
}

/// The address a string stands for: after trimming, exactly six parts
/// separated by colons or hyphens, each an octet of two hexadecimal
/// digits with its own whitespace trimmed.
pub open spec fn spec_parse_ether(s: Seq<char>) -> Option<Seq<u8>> {
    match spec_parts_values(spec_trim(s)) {
        Some(values) => if values.len() == 6 {
            Some(values)
        } else {
            None
        },
        None => None,
    }
}

/// A sequence without separators splits into itself alone.
proof fn lemma_split_no_sep(s: Seq<char>)
    requires
        forall|j: int| 0 <= j < s.len() ==> !spec_is_sep(s[j]),
    ensures
        spec_split(s) =~= seq![s],
    decreases s.len(),
{
    if s.len() == 0 {
        assert(s =~= Seq::<char>::empty());
    } else {
        lemma_split_no_sep(s.drop_first());
        assert(seq![s[0]] + s.drop_first() =~= s);
    }
}

/// A sequence whose first separator stands at `i` splits into the part
/// before it and the splits of what follows it.
proof fn lemma_split_first_sep(s: Seq<char>, i: int)
    requires
        0 <= i < s.len(),
        forall|j: int| 0 <= j < i ==> !spec_is_sep(s[j]),
        spec_is_sep(s[i]),
    ensures
        spec_split(s) =~= seq![s.take(i)] + spec_split(s.skip(i + 1)),
    decreases i,
{
    if i == 0 {
        assert(s.drop_first() =~= s.skip(1));
        assert(s.take(0) =~= Seq::<char>::empty());
    } else {
        lemma_split_first_sep(s.drop_first(), i - 1);
        assert(s.drop_first().take(i - 1) =~= s.subrange(1, i));
        assert(s.drop_first().skip(i) =~= s.skip(i + 1));
        let rest = spec_split(s.drop_first());
        assert(rest =~= seq![s.subrange(1, i)] + spec_split(s.skip(i + 1)));
        assert(seq![s[0]] + rest[0] =~= s.take(i));
        assert(rest.drop_first() =~= spec_split(s.skip(i + 1)));
    }
}

/// Splitting never yields an empty list of parts.
proof fn lemma_split_len(s: Seq<char>)
    ensures
        spec_split(s).len() >= 1,
    decreases s.len(),
{
    if s.len() > 0 {
        lemma_split_len(s.drop_first());
    }
}

/// Whitespace before `lo` and none at it means trimming the front skips
/// exactly to `lo`.
proof fn lemma_trim_front_range(s: Seq<char>, lo: int)
    requires
        0 <= lo <= s.len(),
        forall|j: int| 0 <= j < lo ==> spec_is_space(s[j]),
        lo < s.len() ==> !spec_is_space(s[lo]),
    ensures
        spec_trim_front(s) =~= s.skip(lo),
    decreases lo,
{
    if lo == 0 {
        assert(s.skip(0) =~= s);
    } else {
        lemma_trim_front_range(s.drop_first(), lo - 1);
        assert(s.drop_first().skip(lo - 1) =~= s.skip(lo));
    }
}

/// Whitespace from `hi` on and none just before it means trimming the
/// back cuts exactly at `hi`.
proof fn lemma_trim_back_range(s: Seq<char>, hi: int)
    requires
        0 <= hi <= s.len(),
        forall|j: int| hi <= j < s.len() ==> spec_is_space(s[j]),
        hi > 0 ==> !spec_is_space(s[hi - 1]),
    ensures
        spec_trim_back(s) =~= s.take(hi),
    decreases s.len(),
{
    if s.len() > hi {
        lemma_trim_back_range(s.drop_last(), hi);
        assert(s.drop_last().take(hi) =~= s.take(hi));
    } else {
        assert(s.take(hi) =~= s);
    }
}

fn is_space_c(c: char) -> (r: bool)
    ensures
        r == spec_is_space(c),
{
    c == ' ' || c == '\t' || c == '\n' || c == '\r' || c == '\u{b}' || c == '\u{c}'
}

fn is_sep_c(c: char) -> (r: bool)
    ensures
        r == spec_is_sep(c),
{
    c == ':' || c == '-'
}

fn hex_val_c(c: char) -> (r: Option<u8>)
    ensures
        r == spec_hex_val(c),
{
    if c == '0' {
        Some(0u8)
    } else if c == '1' {
        Some(1u8)
    } else if c == '2' {
        Some(2u8)
    } else if c == '3' {
        Some(3u8)
    } else if c == '4' {
        Some(4u8)
    } else if c == '5' {
        Some(5u8)
    } else if c == '6' {
        Some(6u8)
    } else if c == '7' {
        Some(7u8)
    } else if c == '8' {
        Some(8u8)
    } else if c == '9' {
        Some(9u8)
    } else if c == 'a' || c == 'A' {
        Some(10u8)
    } else if c == 'b' || c == 'B' {
        Some(11u8)
    } else if c == 'c' || c == 'C' {
        Some(12u8)
    } else if c == 'd' || c == 'D' {
        Some(13u8)
    } else if c == 'e' || c == 'E' {
        Some(14u8)
    } else if c == 'f' || c == 'F' {
        Some(15u8)
    } else {
        None
    }
}

fn collect_chars(s: &str) -> (r: Vec<char>)
    ensures
        r@ =~= s@,
{
    let n = s.unicode_len();
    let mut chars: Vec<char> = Vec::new();
    let mut i: usize = 0;
    while i < n
        invariant
            n == s@.len(),
            i <= n,
            chars@ =~= s@.take(i as int),
        decreases n - i,
    {
        chars.push(s.get_char(i));
        proof {
            assert(chars@ =~= s@.take(i + 1));
        }
        i = i + 1;
    }
    chars
}

fn trim_slice<'x>(t: &'x [char]) -> (r: &'x [char])
    ensures
        r@ =~= spec_trim(t@),
{
    let n = t.len();
    let mut lo: usize = 0;
    while lo < n && is_space_c(t[lo])
        invariant
            lo <= n,
            n == t@.len(),
            forall|j: int| 0 <= j < lo ==> spec_is_space(t@[j]),
        decreases n - lo,
    {
        lo = lo + 1;
    }
    let mut hi: usize = n;
    while hi > lo && is_space_c(t[hi - 1])
        invariant
            lo <= hi <= n,
            n == t@.len(),
            forall|j: int| hi <= j < n ==> spec_is_space(t@[j]),
        decreases hi,
    {
        hi = hi - 1;
    }
    proof {
        lemma_trim_front_range(t@, lo as int);
        lemma_trim_back_range(t@.skip(lo as int), (hi - lo) as int);
        assert(t@.skip(lo as int).take((hi - lo) as int) =~= t@.subrange(lo as int, hi as int));
    }
    vstd::slice::slice_subrange(t, lo, hi)
}

fn parse_part_slice(p: &[char]) -> (r: Option<u8>)
    ensures
        r == spec_parse_part(p@),
{
    let t = trim_slice(p);
    if t.len() != 2 {
        return None;
    }
    let hi = hex_val_c(t[0]);
    let lo = hex_val_c(t[1]);
    match (hi, lo) {
        (Some(h), Some(l)) => Some(h * 16 + l),
        _ => None,
    }
}

/// Parses every separator-delimited part of `t` and appends its octet
/// to `out`, failing on an unparsable part or on more than six in all.
fn parse_parts(t: &[char], out: &mut Vec<u8>) -> (ok: bool)
    requires
        old(out)@.len() <= 6,
    ensures
        ok <==> (spec_parts_values(t@) is Some && old(out)@.len() + spec_split(t@).len() <= 6),
        ok ==> final(out)@ =~= old(out)@ + spec_parts_values(t@).unwrap(),
        final(out)@.len() <= 6,
    decreases t@.len(),
{
    let n = t.len();
    let mut i: usize = 0;
    while i < n && !is_sep_c(t[i])
        invariant
            i <= n,
            n == t@.len(),
            forall|j: int| 0 <= j < i ==> !spec_is_sep(t@[j]),
        decreases n - i,
    {
        i = i + 1;
    }
    if i == n {
        proof {
            lemma_split_no_sep(t@);
        }
        match parse_part_slice(t) {
            Some(v) => {
                if out.len() >= 6 {
                    return false;
                }
                out.push(v);
                proof {
                    assert(spec_parts_values(t@) is Some);
                    assert(spec_parts_values(t@).unwrap() =~= seq![v]);
                    assert(out@ =~= old(out)@ + spec_parts_values(t@).unwrap());
                }
                true
            },
            None => {
                assert(spec_parse_part(spec_split(t@)[0]) is None);
                false
            },
        }
    } else {
        proof {
            lemma_split_first_sep(t@, i as int);
        }
        let part = vstd::slice::slice_subrange(t, 0, i);
        match parse_part_slice(part) {
            Some(v) => {
                if out.len() >= 6 {
                    proof {
                        lemma_split_len(t@.skip(i + 1));
                    }
                    return false;
                }
                out.push(v);
                let rest = vstd::slice::slice_subrange(t, i + 1, n);
                let ok = parse_parts(rest, out);
                proof {
                    let whole = spec_split(t@);
                    let back = spec_split(rest@);
                    assert(whole.len() == 1 + back.len());
                    assert(whole[0] =~= part@);
                    assert(forall|k: int| 0 <= k < back.len() ==> whole[k + 1] =~= back[k]);
                    if ok {
                        assert(spec_parts_values(rest@) is Some);
                        assert(forall|k: int|
                            0 <= k < whole.len() ==> spec_parse_part(#[trigger] whole[k])
                                is Some) by {
                            assert(forall|k: int|
                                0 <= k < back.len() ==> spec_parse_part(#[trigger] back[k])
                                    is Some);
                        }
                        assert(spec_parts_values(t@) is Some);
                        assert(spec_parts_values(t@).unwrap() =~= seq![v] + spec_parts_values(
                            rest@,
                        ).unwrap());
                        assert(out@ =~= old(out)@ + spec_parts_values(t@).unwrap());
                    } else {
                        if spec_parts_values(t@) is Some {
                            assert(forall|k: int|
                                0 <= k < back.len() ==> spec_parse_part(#[trigger] back[k])
                                    is Some) by {
                                assert(forall|k: int|
                                    0 <= k < whole.len() ==> spec_parse_part(#[trigger] whole[k])
                                        is Some);
                            }
                            assert(spec_parts_values(rest@) is Some);
                        }
                    }
                }
                ok
            },
            None => {
                assert(spec_parse_part(spec_split(t@)[0]) is None);
                false
            },
        }
    }
}

/// The lowercase hexadecimal digit of a value under sixteen.
pub open spec fn spec_hex_char(n: u8) -> char {
    if n == 0 {
        '0'
    } else if n == 1 {
        '1'
    } else if n == 2 {
        '2'
    } else if n == 3 {
        '3'
    } else if n == 4 {
        '4'
    } else if n == 5 {
        '5'
    } else if n == 6 {
        '6'
    } else if n == 7 {
        '7'
    } else if n == 8 {
        '8'
    } else if n == 9 {
        '9'
    } else if n == 10 {
        'a'
    } else if n == 11 {
        'b'
    } else if n == 12 {
        'c'
    } else if n == 13 {
        'd'
    } else if n == 14 {
        'e'
    } else {
        'f'
    }
}

/// One octet as two lowercase hexadecimal digits.
pub open spec fn spec_byte_chars(b: u8) -> Seq<char> {
    seq![spec_hex_char(b / 16), spec_hex_char((b % 16) as u8)]
}

/// A six-octet address as lowercase colon-separated hexadecimal.
pub open spec fn spec_addr_chars(a: Seq<u8>) -> Seq<char> {
    spec_byte_chars(a[0]) + seq![':'] + spec_byte_chars(a[1]) + seq![':'] + spec_byte_chars(a[2])
        + seq![':'] + spec_byte_chars(a[3]) + seq![':'] + spec_byte_chars(a[4]) + seq![':']
        + spec_byte_chars(a[5])
}

pub(crate) fn hex_char_str(n: u8) -> (r: &'static str)
    requires
        n < 16,
    ensures
        r@ =~= seq![spec_hex_char(n)],
{
    proof {
        reveal_strlit("0");
        reveal_strlit("1");
        reveal_strlit("2");
        reveal_strlit("3");
        reveal_strlit("4");
        reveal_strlit("5");
        reveal_strlit("6");
        reveal_strlit("7");
        reveal_strlit("8");
        reveal_strlit("9");
        reveal_strlit("a");
        reveal_strlit("b");
        reveal_strlit("c");
        reveal_strlit("d");
        reveal_strlit("e");
        reveal_strlit("f");
    }
    if n == 0 {
        "0"
    } else if n == 1 {
        "1"
    } else if n == 2 {
        "2"
    } else if n == 3 {
        "3"
    } else if n == 4 {
        "4"
    } else if n == 5 {
        "5"
    } else if n == 6 {
        "6"
    } else if n == 7 {
        "7"
    } else if n == 8 {
        "8"
    } else if n == 9 {
        "9"
    } else if n == 10 {
        "a"
    } else if n == 11 {
        "b"
    } else if n == 12 {
        "c"
    } else if n == 13 {
        "d"
    } else if n == 14 {
        "e"
    } else {
        "f"
    }
}

/// Appends one octet to `s` as two lowercase hexadecimal digits.
fn push_byte_hex(s: &mut String, b: u8)
    ensures
        final(s)@ =~= old(s)@ + spec_byte_chars(b),
{
    s.append(hex_char_str(b / 16));
    s.append(hex_char_str(b % 16));
}

impl EtherAddr {
    /// The address as lowercase colon-separated hexadecimal, the form
    /// `from_str` reads back.
    pub fn to_hex_string(&self) -> (r: String)
        ensures
            r@ =~= spec_addr_chars(self@),
    {
        proof {
            reveal_strlit(":");
        }
        let mut s = String::new();
        push_byte_hex(&mut s, self.0[0]);
        s.append(":");
        push_byte_hex(&mut s, self.0[1]);
        s.append(":");
        push_byte_hex(&mut s, self.0[2]);
        s.append(":");
        push_byte_hex(&mut s, self.0[3]);
        s.append(":");
        push_byte_hex(&mut s, self.0[4]);
        s.append(":");
        push_byte_hex(&mut s, self.0[5]);
        s
    }
}

/// A hexadecimal digit is neither whitespace nor a separator, and reads
/// back as the value it was written from.
proof fn lemma_hex_char_props(n: u8)
    requires
        n < 16,
    ensures
        !spec_is_space(spec_hex_char(n)),
        !spec_is_sep(spec_hex_char(n)),
        spec_hex_val(spec_hex_char(n)) == Some(n),
{
}

/// Two digits of one octet parse back to that octet.
proof fn lemma_byte_chars_part(b: u8)
    ensures
        spec_byte_chars(b).len() == 2,
        !spec_is_space(spec_byte_chars(b)[0]),
        !spec_is_space(spec_byte_chars(b)[1]),
        !spec_is_sep(spec_byte_chars(b)[0]),
        !spec_is_sep(spec_byte_chars(b)[1]),
        spec_parse_part(spec_byte_chars(b)) == Some(b),
{
    lemma_hex_char_props(b / 16);
    lemma_hex_char_props((b % 16) as u8);
    let p = spec_byte_chars(b);
    assert(spec_trim_front(p) =~= p);
    assert(spec_trim_back(p) =~= p);
    assert((b / 16) * 16 + (b % 16) == b) by (nonlinear_arith);
}

/// Formatting an address and parsing the text back yields the address
/// it came from: the parse/format round trip.
pub proof fn lemma_addr_text_roundtrip(a: Seq<u8>)
    requires
        a.len() == 6,
    ensures
        spec_parse_ether(spec_addr_chars(a)) == Some(a),
{
    let t = spec_addr_chars(a);
    lemma_byte_chars_part(a[0]);
    lemma_byte_chars_part(a[1]);
    lemma_byte_chars_part(a[2]);
    lemma_byte_chars_part(a[3]);
    lemma_byte_chars_part(a[4]);
    lemma_byte_chars_part(a[5]);
    assert(t.len() == 17);
    assert(spec_trim_front(t) =~= t);
    assert(spec_trim_back(t) =~= t);
    let t1 = t.skip(3);
    let t2 = t.skip(6);
    let t3 = t.skip(9);
    let t4 = t.skip(12);
    let t5 = t.skip(15);
    assert(t.take(2) =~= spec_byte_chars(a[0]));
    assert(t1.take(2) =~= spec_byte_chars(a[1]));
    assert(t2.take(2) =~= spec_byte_chars(a[2]));
    assert(t3.take(2) =~= spec_byte_chars(a[3]));
    assert(t4.take(2) =~= spec_byte_chars(a[4]));
    assert(t5 =~= spec_byte_chars(a[5]));
    assert(t1.skip(3) =~= t2);
    assert(t2.skip(3) =~= t3);
    assert(t3.skip(3) =~= t4);
    assert(t4.skip(3) =~= t5);
    lemma_split_first_sep(t, 2);
    assert(spec_split(t1) =~= seq![t1.take(2)] + spec_split(t1.skip(3))) by {
        lemma_split_first_sep(t1, 2);
    }
    assert(spec_split(t2) =~= seq![t2.take(2)] + spec_split(t2.skip(3))) by {
        lemma_split_first_sep(t2, 2);
    }
    assert(spec_split(t3) =~= seq![t3.take(2)] + spec_split(t3.skip(3))) by {
        lemma_split_first_sep(t3, 2);
    }
    assert(spec_split(t4) =~= seq![t4.take(2)] + spec_split(t4.skip(3))) by {
        lemma_split_first_sep(t4, 2);
    }
    lemma_split_no_sep(t5);
    let parts = spec_split(t);
    assert(parts =~= seq![
        spec_byte_chars(a[0]),
        spec_byte_chars(a[1]),
        spec_byte_chars(a[2]),
        spec_byte_chars(a[3]),
        spec_byte_chars(a[4]),
        spec_byte_chars(a[5]),
    ]);
    assert(forall|i: int| 0 <= i < parts.len() ==> spec_parse_part(#[trigger] parts[i]) is Some)
        by {
        assert(spec_parse_part(parts[0]) is Some);
        assert(spec_parse_part(parts[1]) is Some);
        assert(spec_parse_part(parts[2]) is Some);
        assert(spec_parse_part(parts[3]) is Some);
        assert(spec_parse_part(parts[4]) is Some);
        assert(spec_parse_part(parts[5]) is Some);
    }
    assert(spec_parts_values(t).unwrap() =~= a);
}

impl EtherAddr {
    /// Parses a colon- or hyphen-separated hexadecimal address, with
    /// whitespace trimmed around the whole and around each octet.
    /// Exactly the strings `spec_parse_ether` accepts yield an address.
    pub fn from_str(input: &str) -> (r: Result<EtherAddr, ()>)
        ensures
            r is Ok <==> spec_parse_ether(input@) is Some,
            r matches Ok(a) ==> spec_parse_ether(input@) == Some(a@),
    {
        let chars = collect_chars(input);
        let t = trim_slice(chars.as_slice());
        let mut out: Vec<u8> = Vec::new();
        let ok = parse_parts(t, &mut out);
        if ok && out.len() == 6 {
            let a = EtherAddr([out[0], out[1], out[2], out[3], out[4], out[5]]);
            proof {
                assert(a@ =~= spec_parts_values(spec_trim(chars@)).unwrap());
            }
            Ok(a)
        } else {
            Err(())
        }
    }
}

} // verus!
