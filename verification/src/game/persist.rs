//! The persisted form of an input map.
//!
//! Bindings are stored as a text of fixed-width records, one per
//! binding: a kind letter (`L` for linear, `V` for vector), eight hex
//! digits of input code, eight hex digits of action value, and a
//! newline. The format is a mapping, not a sequence: the order of
//! records carries no meaning, and a repeated input code simply keeps
//! its last record. Parsing is strict, and a parse that fails is
//! reported so that the caller can fall back to the defaults rather
//! than abort startup.

use vstd::prelude::*;
use vstd::string::StrSliceExecFns;
use vstd::string::StringExecFns;

use super::input::LinearInputType;
use super::input::VectorInputType;

verus! {

/// Parsing failed: the text is not a well-formed binding record list.
#[derive(Debug, Clone, Copy, PartialEq, Eq, Structural)]
pub struct BindingsParseError;

/// The character that writes a hex digit.
pub open spec fn spec_hex_char(n: int) -> char {
    if n == 0 {
        '0'
    } else if n == 1 {
        '1'
    } else if n == 2 {
        '2'
    } else if n == 3 {
        '3'
    } else if n == 4 {
        '4'
    } else if n == 5 {
        '5'
    } else if n == 6 {
        '6'
    } else if n == 7 {
        '7'
    } else if n == 8 {
        '8'
    } else if n == 9 {
        '9'
    } else if n == 10 {
        'a'
    } else if n == 11 {
        'b'
    } else if n == 12 {
        'c'
    } else if n == 13 {
        'd'
    } else if n == 14 {
        'e'
    } else {
        'f'
    }
}

/// The hex digit a character denotes, if any.
pub open spec fn spec_hex_val(c: char) -> Option<u32> {
    if c == '0' {
        Some(0u32)
    } else if c == '1' {
        Some(1u32)
    } else if c == '2' {
        Some(2u32)
    } else if c == '3' {
        Some(3u32)
    } else if c == '4' {
        Some(4u32)
    } else if c == '5' {
        Some(5u32)
    } else if c == '6' {
        Some(6u32)
    } else if c == '7' {
        Some(7u32)
    } else if c == '8' {
        Some(8u32)
    } else if c == '9' {
        Some(9u32)
    } else if c == 'a' {
        Some(10u32)
    } else if c == 'b' {
        Some(11u32)
    } else if c == 'c' {
        Some(12u32)
    } else if c == 'd' {
        Some(13u32)
    } else if c == 'e' {
        Some(14u32)
    } else if c == 'f' {
        Some(15u32)
    } else {
        None
    }
}

/// Every character of the sequence is a hex digit.
pub open spec fn spec_hex_digits_valid(s: Seq<char>) -> bool {
    forall|i: int| 0 <= i < s.len() ==> (#[trigger] spec_hex_val(s[i])) is Some
}

/// The number a digit sequence denotes, most significant first;
/// non-digits count as zero.
pub open spec fn spec_hex_value(s: Seq<char>) -> int
    decreases s.len(),
{
    if s.len() == 0 {
        0
    } else {
        spec_hex_value(s.drop_last()) * 16 + (match spec_hex_val(s.last()) {
            Some(d) => d as int,
            None => 0,
        })
    }
}

/// Sixteen to the `n`.
pub open spec fn pow16(n: nat) -> int
    decreases n,
{
    if n == 0 {
        1
    } else {
        16 * pow16((n - 1) as nat)
    }
}

/// A digit sequence denotes fewer than sixteen to its length.
pub proof fn lemma_hex_value_bound(s: Seq<char>)
    ensures
        0 <= spec_hex_value(s) < pow16(s.len()),
    decreases s.len(),
{
    if s.len() > 0 {
        lemma_hex_value_bound(s.drop_last());
    }
}

/// The eight hex digits of a 32-bit value, most significant first.
pub open spec fn spec_hex8(v: u32) -> Seq<char> {
    seq![
        spec_hex_char(((v >> 28u32) & 0xf) as int),
        spec_hex_char(((v >> 24u32) & 0xf) as int),
        spec_hex_char(((v >> 20u32) & 0xf) as int),
        spec_hex_char(((v >> 16u32) & 0xf) as int),
        spec_hex_char(((v >> 12u32) & 0xf) as int),
        spec_hex_char(((v >> 8u32) & 0xf) as int),
        spec_hex_char(((v >> 4u32) & 0xf) as int),
        spec_hex_char((v & 0xf) as int),
    ]
}

/// Writing a digit and reading it back is the identity.
pub proof fn lemma_hex_char_val(n: int)
    requires
        0 <= n < 16,
    ensures
        spec_hex_val(spec_hex_char(n)) == Some(n as u32),
{
}

/// The eight digits of a value denote the value.
pub proof fn lemma_hex8_round_trip(v: u32)
    ensures
        spec_hex_digits_valid(spec_hex8(v)),
        spec_hex_value(spec_hex8(v)) == v,
{
    let n0 = (v >> 28u32) & 0xf;
    let n1 = (v >> 24u32) & 0xf;
    let n2 = (v >> 20u32) & 0xf;
    let n3 = (v >> 16u32) & 0xf;
    let n4 = (v >> 12u32) & 0xf;
    let n5 = (v >> 8u32) & 0xf;
    let n6 = (v >> 4u32) & 0xf;
    let n7 = v & 0xf;
    assert(((v >> 28u32) & 0xf) < 16 && ((v >> 24u32) & 0xf) < 16 && ((v >> 20u32) & 0xf) < 16
        && ((v >> 16u32) & 0xf) < 16 && ((v >> 12u32) & 0xf) < 16 && ((v >> 8u32) & 0xf) < 16 && ((
    v >> 4u32) & 0xf) < 16 && (v & 0xf) < 16) by (bit_vector);
    assert(v == ((((((((v >> 28u32) & 0xf) * 16 + ((v >> 24u32) & 0xf)) * 16 + ((v >> 20u32)
        & 0xf)) * 16 + ((v >> 16u32) & 0xf)) * 16 + ((v >> 12u32) & 0xf)) * 16 + ((v >> 8u32)
        & 0xf)) * 16 + ((v >> 4u32) & 0xf)) * 16 + (v & 0xf)) by (bit_vector);
    lemma_hex_char_val(n0 as int);
    lemma_hex_char_val(n1 as int);
    lemma_hex_char_val(n2 as int);
    lemma_hex_char_val(n3 as int);
    lemma_hex_char_val(n4 as int);
    lemma_hex_char_val(n5 as int);
    lemma_hex_char_val(n6 as int);
    lemma_hex_char_val(n7 as int);
    assert forall|i: int| 0 <= i < spec_hex8(v).len() implies (#[trigger] spec_hex_val(
        spec_hex8(v)[i],
    )) is Some by {
        if i == 0 {
            assert(spec_hex8(v)[0] == spec_hex_char(n0 as int));
        } else if i == 1 {
            assert(spec_hex8(v)[1] == spec_hex_char(n1 as int));
        } else if i == 2 {
            assert(spec_hex8(v)[2] == spec_hex_char(n2 as int));
        } else if i == 3 {
            assert(spec_hex8(v)[3] == spec_hex_char(n3 as int));
        } else if i == 4 {
            assert(spec_hex8(v)[4] == spec_hex_char(n4 as int));
        } else if i == 5 {
            assert(spec_hex8(v)[5] == spec_hex_char(n5 as int));
        } else if i == 6 {
            assert(spec_hex8(v)[6] == spec_hex_char(n6 as int));
        } else {
            assert(spec_hex8(v)[7] == spec_hex_char(n7 as int));
        }
    }
    assert(spec_hex_value(spec_hex8(v)) == v) by {
        reveal_with_fuel(spec_hex_value, 9);
        assert(spec_hex8(v).drop_last() =~= seq![
            spec_hex_char(n0 as int),
            spec_hex_char(n1 as int),
            spec_hex_char(n2 as int),
            spec_hex_char(n3 as int),
            spec_hex_char(n4 as int),
            spec_hex_char(n5 as int),
            spec_hex_char(n6 as int),
        ]);
        assert(spec_hex8(v).drop_last().drop_last() =~= seq![
            spec_hex_char(n0 as int),
            spec_hex_char(n1 as int),
            spec_hex_char(n2 as int),
            spec_hex_char(n3 as int),
            spec_hex_char(n4 as int),
            spec_hex_char(n5 as int),
        ]);
        assert(spec_hex8(v).drop_last().drop_last().drop_last() =~= seq![
            spec_hex_char(n0 as int),
            spec_hex_char(n1 as int),
            spec_hex_char(n2 as int),
            spec_hex_char(n3 as int),
            spec_hex_char(n4 as int),
        ]);
        assert(spec_hex8(v).drop_last().drop_last().drop_last().drop_last() =~= seq![
            spec_hex_char(n0 as int),
            spec_hex_char(n1 as int),
            spec_hex_char(n2 as int),
            spec_hex_char(n3 as int),
        ]);
        assert(spec_hex8(v).drop_last().drop_last().drop_last().drop_last().drop_last() =~= seq![
            spec_hex_char(n0 as int),
            spec_hex_char(n1 as int),
            spec_hex_char(n2 as int),
        ]);
        assert(spec_hex8(
            v,
        ).drop_last().drop_last().drop_last().drop_last().drop_last().drop_last() =~= seq![
            spec_hex_char(n0 as int),
            spec_hex_char(n1 as int),
        ]);
        assert(spec_hex8(
            v,
        ).drop_last().drop_last().drop_last().drop_last().drop_last().drop_last().drop_last()
            =~= seq![spec_hex_char(n0 as int)]);
    }
}

/// One record of the persisted form.
pub open spec fn spec_record(kind: char, code: u32, value: u32) -> Seq<char> {
    seq![kind] + spec_hex8(code) + spec_hex8(value) + seq!['\n']
}

/// The records of the linear bindings, in storage order.
pub open spec fn spec_encode_linear(entries: Seq<(LinearInputType, u32)>) -> Seq<char>
    decreases entries.len(),
{
    if entries.len() == 0 {
        Seq::empty()
    } else {
        spec_encode_linear(entries.drop_last()) + spec_record(
            'L',
            entries.last().0.spec_code(),
            entries.last().1,
        )
    }
}

/// The records of the vector bindings, in storage order.
pub open spec fn spec_encode_vector(entries: Seq<(VectorInputType, u32)>) -> Seq<char>
    decreases entries.len(),
{
    if entries.len() == 0 {
        Seq::empty()
    } else {
        spec_encode_vector(entries.drop_last()) + spec_record(
            'V',
            entries.last().0.spec_code(),
            entries.last().1,
        )
    }
}

/// The whole persisted text: linear records, then vector records.
pub open spec fn spec_encode(
    linear: Seq<(LinearInputType, u32)>,
    vector: Seq<(VectorInputType, u32)>,
) -> Seq<char> {
    spec_encode_linear(linear) + spec_encode_vector(vector)
}

/// One parsed record.
pub ghost enum ParsedRecord {
    Linear(LinearInputType, u32),
    Vector(VectorInputType, u32),
}

/// What an eighteen-character record denotes, if well formed.
pub open spec fn spec_parse_record(rec: Seq<char>) -> Option<ParsedRecord> {
    if rec.len() != 18 {
        None
    } else if rec.last() != '\n' {
        None
    } else {
        let code_digits = rec.subrange(1, 9);
        let value_digits = rec.subrange(9, 17);
        if !spec_hex_digits_valid(code_digits) || !spec_hex_digits_valid(value_digits) {
            None
        } else {
            let code = spec_hex_value(code_digits) as u32;
            let value = spec_hex_value(value_digits) as u32;
            if rec[0] == 'L' {
                match LinearInputType::spec_from_code(code) {
                    Some(input) => Some(ParsedRecord::Linear(input, value)),
                    None => None,
                }
            } else if rec[0] == 'V' {
                match VectorInputType::spec_from_code(code) {
                    Some(input) => Some(ParsedRecord::Vector(input, value)),
                    None => None,
                }
            } else {
                None
            }
        }
    }
}

/// What a whole text denotes: the linear and vector entries of its
/// records, in order, or nothing if any part is malformed.
pub open spec fn spec_parse(s: Seq<char>) -> Option<
    (Seq<(LinearInputType, u32)>, Seq<(VectorInputType, u32)>),
>
    decreases s.len(),
{
    if s.len() == 0 {
        Some((Seq::empty(), Seq::empty()))
    } else if s.len() < 18 {
        None
    } else {
        match spec_parse(s.subrange(0, s.len() - 18)) {
            None => None,
            Some(parsed) => match spec_parse_record(
                s.subrange(s.len() - 18, s.len() as int),
            ) {
                None => None,
                Some(ParsedRecord::Linear(input, value)) => Some(
                    (parsed.0.push((input, value)), parsed.1),
                ),
                Some(ParsedRecord::Vector(input, value)) => Some(
                    (parsed.0, parsed.1.push((input, value))),
                ),
            },
        }
    }
}

fn push_hex_digit(s: &mut String, d: u32)
    requires
        d < 16,
    ensures
        final(s)@ == old(s)@.push(spec_hex_char(d as int)),
{
    if d == 0 {
        s.append("0");
        proof {
            reveal_strlit("0");
            assert(s@ =~= old(s)@.push('0'));
        }
    } else if d == 1 {
        s.append("1");
        proof {
            reveal_strlit("1");
            assert(s@ =~= old(s)@.push('1'));
        }
    } else if d == 2 {
        s.append("2");
        proof {
            reveal_strlit("2");
            assert(s@ =~= old(s)@.push('2'));
        }
    } else if d == 3 {
        s.append("3");
        proof {
            reveal_strlit("3");
            assert(s@ =~= old(s)@.push('3'));
        }
    } else if d == 4 {
        s.append("4");
        proof {
            reveal_strlit("4");
            assert(s@ =~= old(s)@.push('4'));
        }
    } else if d == 5 {
        s.append("5");
        proof {
            reveal_strlit("5");
            assert(s@ =~= old(s)@.push('5'));
        }
    } else if d == 6 {
        s.append("6");
        proof {
            reveal_strlit("6");
            assert(s@ =~= old(s)@.push('6'));
        }
    } else if d == 7 {
        s.append("7");
        proof {
            reveal_strlit("7");
            assert(s@ =~= old(s)@.push('7'));
        }
    } else if d == 8 {
        s.append("8");
        proof {
            reveal_strlit("8");
            assert(s@ =~= old(s)@.push('8'));
        }
    } else if d == 9 {
        s.append("9");
        proof {
            reveal_strlit("9");
            assert(s@ =~= old(s)@.push('9'));
        }
    } else if d == 10 {
        s.append("a");
        proof {
            reveal_strlit("a");
            assert(s@ =~= old(s)@.push('a'));
        }
    } else if d == 11 {
        s.append("b");
        proof {
            reveal_strlit("b");
            assert(s@ =~= old(s)@.push('b'));
        }
    } else if d == 12 {
        s.append("c");
        proof {
            reveal_strlit("c");
            assert(s@ =~= old(s)@.push('c'));
        }
    } else if d == 13 {
        s.append("d");
        proof {
            reveal_strlit("d");
            assert(s@ =~= old(s)@.push('d'));
        }
    } else if d == 14 {
        s.append("e");
        proof {
            reveal_strlit("e");
            assert(s@ =~= old(s)@.push('e'));
        }
    } else {
        s.append("f");
        proof {
            reveal_strlit("f");
            assert(s@ =~= old(s)@.push('f'));
        }
    }
}

fn push_hex8(s: &mut String, v: u32)
    ensures
        final(s)@ == old(s)@ + spec_hex8(v),
{
    proof {
        assert(((v >> 28u32) & 0xf) < 16 && ((v >> 24u32) & 0xf) < 16 && ((v >> 20u32) & 0xf)
            < 16 && ((v >> 16u32) & 0xf) < 16 && ((v >> 12u32) & 0xf) < 16 && ((v >> 8u32) & 0xf)
            < 16 && ((v >> 4u32) & 0xf) < 16 && (v & 0xf) < 16) by (bit_vector);
    }
    push_hex_digit(s, (v >> 28) & 0xf);
    push_hex_digit(s, (v >> 24) & 0xf);
    push_hex_digit(s, (v >> 20) & 0xf);
    push_hex_digit(s, (v >> 16) & 0xf);
    push_hex_digit(s, (v >> 12) & 0xf);
    push_hex_digit(s, (v >> 8) & 0xf);
    push_hex_digit(s, (v >> 4) & 0xf);
    push_hex_digit(s, v & 0xf);
    proof {
        assert(s@ =~= old(s)@ + spec_hex8(v));
    }
}

/// Serializes binding entries into the fixed-width record text.
pub fn encode_bindings(
    linear: &Vec<(LinearInputType, u32)>,
    vector: &Vec<(VectorInputType, u32)>,
) -> (r: String)
    ensures
        r@ == spec_encode(linear@, vector@),
{
    let mut out = String::new();
    let mut i: usize = 0;
    while i < linear.len()
        invariant
            i <= linear@.len(),
            out@ == spec_encode_linear(linear@.take(i as int)),
        decreases linear@.len() - i,
    {
        let ghost before = out@;
        let entry = linear[i];
        out.append("L");
        push_hex8(&mut out, entry.0.code());
        push_hex8(&mut out, entry.1);
        out.append("\n");
        proof {
            reveal_strlit("L");
            reveal_strlit("\n");
            assert(out@ =~= before + spec_record('L', entry.0.spec_code(), entry.1));
            assert(linear@.take(i + 1).drop_last() =~= linear@.take(i as int));
            assert(out@ =~= spec_encode_linear(linear@.take(i + 1)));
        }
        i += 1;
    }
    proof {
        assert(linear@.take(linear@.len() as int) =~= linear@);
    }
    let mut j: usize = 0;
    while j < vector.len()
        invariant
            j <= vector@.len(),
            out@ == spec_encode_linear(linear@) + spec_encode_vector(vector@.take(j as int)),
        decreases vector@.len() - j,
    {
        let ghost before = out@;
        let entry = vector[j];
        out.append("V");
        push_hex8(&mut out, entry.0.code());
        push_hex8(&mut out, entry.1);
        out.append("\n");
        proof {
            reveal_strlit("V");
            reveal_strlit("\n");
            assert(out@ =~= before + spec_record('V', entry.0.spec_code(), entry.1));
            assert(vector@.take(j + 1).drop_last() =~= vector@.take(j as int));
            assert(out@ =~= spec_encode_linear(linear@) + spec_encode_vector(
                vector@.take(j + 1),
            ));
        }
        j += 1;
    }
    proof {
        assert(vector@.take(vector@.len() as int) =~= vector@);
    }
    out
}

fn parse_hex_digit(c: char) -> (r: Option<u32>)
    ensures
        r == spec_hex_val(c),
{
    if c == '0' {
        Some(0)
    } else if c == '1' {
        Some(1)
    } else if c == '2' {
        Some(2)
    } else if c == '3' {
        Some(3)
    } else if c == '4' {
        Some(4)
    } else if c == '5' {
        Some(5)
    } else if c == '6' {
        Some(6)
    } else if c == '7' {
        Some(7)
    } else if c == '8' {
        Some(8)
    } else if c == '9' {
        Some(9)
    } else if c == 'a' {
        Some(10)
    } else if c == 'b' {
        Some(11)
    } else if c == 'c' {
        Some(12)
    } else if c == 'd' {
        Some(13)
    } else if c == 'e' {
        Some(14)
    } else if c == 'f' {
        Some(15)
    } else {
        None
    }
}

fn parse_hex8(s: &str, start: usize) -> (r: Option<u32>)
    requires
        start + 8 <= s@.len(),
        s@.len() <= usize::MAX,
    ensures
        match r {
            Some(v) => spec_hex_digits_valid(s@.subrange(start as int, start + 8))
                && spec_hex_value(s@.subrange(start as int, start + 8)) == v,
            None => !spec_hex_digits_valid(s@.subrange(start as int, start + 8)),
        },
{
    let ghost digits = s@.subrange(start as int, start + 8);
    let mut acc: u64 = 0;
    let mut j: usize = 0;
    while j < 8
        invariant
            j <= 8,
            start + 8 <= s@.len(),
            s@.len() <= usize::MAX,
            digits == s@.subrange(start as int, start + 8),
            spec_hex_digits_valid(digits.take(j as int)),
            acc == spec_hex_value(digits.take(j as int)),
            0 <= acc < pow16(j as nat),
            pow16(j as nat) <= 0x1_0000_0000,
        decreases 8 - j,
    {
        let c = s.get_char(start + j);
        proof {
            assert(digits[j as int] == s@[start + j]);
        }
        match parse_hex_digit(c) {
            None => {
                proof {
                    assert(!spec_hex_digits_valid(digits)) by {
                        if spec_hex_digits_valid(digits) {
                            assert(spec_hex_val(digits[j as int]) is Some);
                        }
                    }
                }
                return None;
            },
            Some(d) => {
                proof {
                    assert(pow16((j + 1) as nat) == 16 * pow16(j as nat));
                    assert(pow16(8) == 0x1_0000_0000 && pow16(7) == 0x10000000 && pow16(6)
                        == 0x1000000 && pow16(5) == 0x100000 && pow16(4) == 0x10000 && pow16(3)
                        == 0x1000 && pow16(2) == 0x100 && pow16(1) == 0x10 && pow16(0) == 1) by {
                        reveal_with_fuel(pow16, 9);
                    }
                    assert(digits.take(j + 1).drop_last() =~= digits.take(j as int));
                    assert(digits.take(j + 1).last() == c);
                }
                acc = acc * 16 + (d as u64);
            },
        }
        j += 1;
    }
    proof {
        assert(digits.take(8) =~= digits);
        assert(pow16(8) == 0x1_0000_0000) by {
            reveal_with_fuel(pow16, 9);
        }
    }
    Some(acc as u32)
}

/// Parses the fixed-width record text into binding entries, in record
/// order. `None` exactly when the text is not a well-formed record
/// list.
pub fn parse_bindings(s: &str) -> (r: Option<
    (Vec<(LinearInputType, u32)>, Vec<(VectorInputType, u32)>),
>)
    ensures
        (r is Some) <==> (spec_parse(s@) is Some),
        r matches Some(parsed) ==> spec_parse(s@) == Some((parsed.0@, parsed.1@)),
{
    let n = s.unicode_len();
    if n % 18 != 0 {
        proof {
            lemma_parse_some_multiple(s@);
        }
        return None;
    }
    let mut lv: Vec<(LinearInputType, u32)> = Vec::new();
    let mut vv: Vec<(VectorInputType, u32)> = Vec::new();
    let mut off: usize = 0;
    while off < n
        invariant
            off <= n,
            n == s@.len(),
            n % 18 == 0,
            off % 18 == 0,
            spec_parse(s@.take(off as int)) == Some((lv@, vv@)),
        decreases n - off,
    {
        proof {
            assert(off + 18 <= n) by (nonlinear_arith)
                requires
                    off < n,
                    off % 18 == 0,
                    n % 18 == 0,
            ;
        }
        let ghost prefix = s@.take(off as int);
        let ghost rec = s@.subrange(off as int, off + 18);
        let ghost whole = s@.take(off + 18);
        proof {
            assert(whole.len() == off + 18);
            assert(whole.subrange(0, off as int) =~= prefix);
            assert(whole.subrange(off as int, off + 18) =~= rec);
        }
        let kind = s.get_char(off);
        let newline = s.get_char(off + 17);
        proof {
            assert(rec[0] == s@[off as int]);
            assert(rec.last() == s@[off + 17]);
            assert(rec.subrange(1, 9) =~= s@.subrange(off + 1, off + 9));
            assert(rec.subrange(9, 17) =~= s@.subrange(off + 9, off + 17));
        }
        if newline != '\n' || (kind != 'L' && kind != 'V') {
            proof {
                lemma_parse_prefix_none(s@, off + 18);
            }
            return None;
        }
        let code = match parse_hex8(s, off + 1) {
            Some(c) => c,
            None => {
                proof {
                    lemma_parse_prefix_none(s@, off + 18);
                }
                return None;
            },
        };
        let value = match parse_hex8(s, off + 9) {
            Some(v) => v,
            None => {
                proof {
                    lemma_parse_prefix_none(s@, off + 18);
                }
                return None;
            },
        };
        proof {
            lemma_hex_value_bound(rec.subrange(1, 9));
            lemma_hex_value_bound(rec.subrange(9, 17));
        }
        if kind == 'L' {
            match LinearInputType::from_code(code) {
                Some(input) => {
                    lv.push((input, value));
                },
                None => {
                    proof {
                        lemma_parse_prefix_none(s@, off + 18);
                    }
                    return None;
                },
            }
        } else {
            match VectorInputType::from_code(code) {
                Some(input) => {
                    vv.push((input, value));
                },
                None => {
                    proof {
                        lemma_parse_prefix_none(s@, off + 18);
                    }
                    return None;
                },
            }
        }
        off = off + 18;
    }
    proof {
        assert(s@.take(n as int) =~= s@);
    }
    Some((lv, vv))
}

/// A text a parse accepts has a length that is a multiple of the
/// record width.
pub proof fn lemma_parse_some_multiple(s: Seq<char>)
    ensures
        spec_parse(s) is Some ==> s.len() % 18 == 0,
    decreases s.len(),
{
    if s.len() >= 18 {
        lemma_parse_some_multiple(s.subrange(0, s.len() - 18));
    }
}

/// Once a prefix aligned on record boundaries fails to parse, the
/// whole text fails with it.
pub proof fn lemma_parse_prefix_none(s: Seq<char>, k: int)
    requires
        0 <= k <= s.len(),
        (s.len() - k) % 18 == 0,
        spec_parse(s.take(k)) is None,
    ensures
        spec_parse(s) is None,
    decreases s.len() - k,
{
    if s.len() == k {
        assert(s.take(k) =~= s);
    } else {
        assert(s.take(s.len() - 18).take(k) =~= s.take(k));
        lemma_parse_prefix_none(s.take(s.len() - 18), k);
        assert(s.take(s.len() - 18) =~= s.subrange(0, s.len() - 18));
    }
}

/// One well-formed linear record parses back to its entry.
pub proof fn lemma_parse_record_linear(input: LinearInputType, value: u32)
    ensures
        spec_record('L', input.spec_code(), value).len() == 18,
        spec_parse_record(spec_record('L', input.spec_code(), value)) == Some(
            ParsedRecord::Linear(input, value),
        ),
{
    let rec = spec_record('L', input.spec_code(), value);
    lemma_hex8_round_trip(input.spec_code());
    lemma_hex8_round_trip(value);
    assert(rec.len() == 18);
    assert(rec[0] == 'L');
    assert(rec.last() == '\n');
    assert(rec.subrange(1, 9) =~= spec_hex8(input.spec_code()));
    assert(rec.subrange(9, 17) =~= spec_hex8(value));
    input.lemma_code_round_trip();
}

/// One well-formed vector record parses back to its entry.
pub proof fn lemma_parse_record_vector(input: VectorInputType, value: u32)
    ensures
        spec_record('V', input.spec_code(), value).len() == 18,
        spec_parse_record(spec_record('V', input.spec_code(), value)) == Some(
            ParsedRecord::Vector(input, value),
        ),
{
    let rec = spec_record('V', input.spec_code(), value);
    lemma_hex8_round_trip(input.spec_code());
    lemma_hex8_round_trip(value);
    assert(rec.len() == 18);
    assert(rec[0] == 'V');
    assert(rec.last() == '\n');
    assert(rec.subrange(1, 9) =~= spec_hex8(input.spec_code()));
    assert(rec.subrange(9, 17) =~= spec_hex8(value));
    input.lemma_code_round_trip();
}

/// Round trip: parsing a serialized binding list recovers exactly the
/// entries that were serialized, linear and vector alike.
#[verifier::rlimit(100)]
#[verifier::spinoff_prover]
pub proof fn lemma_parse_encode(
    linear: Seq<(LinearInputType, u32)>,
    vector: Seq<(VectorInputType, u32)>,
)
    ensures
        spec_parse(spec_encode(linear, vector)) == Some((linear, vector)),
    decreases linear.len() + vector.len(),
{
    let s = spec_encode(linear, vector);
    if vector.len() > 0 {
        let last = vector.last();
        let rec = spec_record('V', last.0.spec_code(), last.1);
        lemma_parse_record_vector(last.0, last.1);
        lemma_parse_encode(linear, vector.drop_last());
        assert(s =~= spec_encode(linear, vector.drop_last()) + rec);
        assert(s.subrange(0, s.len() - 18) =~= spec_encode(linear, vector.drop_last()));
        assert(s.subrange(s.len() - 18, s.len() as int) =~= rec);
        assert(vector.drop_last().push(last) =~= vector);
    } else if linear.len() > 0 {
        let last = linear.last();
        let rec = spec_record('L', last.0.spec_code(), last.1);
        lemma_parse_record_linear(last.0, last.1);
        lemma_parse_encode(linear.drop_last(), vector);
        assert(spec_encode_vector(vector) =~= Seq::<char>::empty());
        assert(s =~= spec_encode(linear.drop_last(), vector) + rec);
        assert(s.subrange(0, s.len() - 18) =~= spec_encode(linear.drop_last(), vector));
        assert(s.subrange(s.len() - 18, s.len() as int) =~= rec);
        assert(linear.drop_last().push(last) =~= linear);
    } else {
        assert(s =~= Seq::<char>::empty());
        assert(linear =~= Seq::<(LinearInputType, u32)>::empty());
        assert(vector =~= Seq::<(VectorInputType, u32)>::empty());
    }
}

} // verus!
