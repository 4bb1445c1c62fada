//! The packed correction table: symbols 0, 1 and 2 at two bits each, four to a
//! byte, the first symbol of a byte in its two highest bits.

use vstd::prelude::*;
use crate::text::push_char;

verus! {

/// The symbol that a character of a correction string stands for: the digits
/// `'1'` and `'2'` stand for themselves, anything else for 0.
pub open spec fn symbol_of_char(c: char) -> u8 {
    if c == '1' {
        1u8
    } else if c == '2' {
        2u8
    } else {
        0u8
    }
}

/// The symbols of a correction string, one per character.
pub open spec fn symbols_of(s: Seq<char>) -> Seq<u8> {
    Seq::new(s.len(), |i: int| symbol_of_char(s[i]))
}

/// `symbols[k]`, or 0 past the end.
pub open spec fn symbol_or_zero(symbols: Seq<u8>, k: int) -> u8 {
    if 0 <= k < symbols.len() {
        symbols[k]
    } else {
        0u8
    }
}

/// Four symbols in one byte, the first in the two highest bits.
pub open spec fn group_byte(a: u8, b: u8, c: u8, d: u8) -> u8 {
    (a << 6u8) | (b << 4u8) | (c << 2u8) | d
}

/// Byte `j` of the packed form of `symbols`.
pub open spec fn packed_byte(symbols: Seq<u8>, j: int) -> u8 {
    group_byte(
        symbol_or_zero(symbols, 4 * j),
        symbol_or_zero(symbols, 4 * j + 1),
        symbol_or_zero(symbols, 4 * j + 2),
        symbol_or_zero(symbols, 4 * j + 3),
    )
}

/// The packed form of `symbols`: one byte for every four symbols, the last
/// byte padded with zero symbols.
pub open spec fn packed(symbols: Seq<u8>) -> Seq<u8> {
    Seq::new(((symbols.len() + 3) / 4) as nat, |j: int| packed_byte(symbols, j))
}

/// The two bits of `byte` that hold the symbol at position `pos` (0 to 3) of
/// the byte.
pub open spec fn symbol_in_byte(byte: u8, pos: int) -> u8 {
    (byte >> ((6 - 2 * pos) as u8)) & 3u8
}

/// The symbol at `index` of a table of `len` symbols packed in `bytes`; 0 at
/// and past `len`.
pub open spec fn decoded(bytes: Seq<u8>, len: nat, index: nat) -> u8 {
    if index >= len {
        0u8
    } else {
        symbol_in_byte(bytes[index as int / 4], index as int % 4)
    }
}

/// Reads the symbol at `index` from a table of `len` symbols packed in `bytes`.
pub fn decode(bytes: &[u8], len: usize, index: usize) -> (symbol: u8)
    requires
        len <= 4 * bytes@.len(),
    ensures
        symbol == decoded(bytes@, len as nat, index as nat),
        symbol <= 3,
        index >= len ==> symbol == 0,
{
    if index >= len {
        return 0;
    }
    let byte_index: usize = index / 4;
    let pos: usize = index % 4;
    let shift: u8 = (6 - 2 * pos) as u8;
    let byte: u8 = bytes[byte_index];
    let symbol: u8 = (byte >> shift) & 3u8;
    assert(((byte >> shift) & 3u8) <= 3u8) by (bit_vector);
    symbol
}


/// Putting a symbol into the first free position of a byte fills that position
/// and leaves the earlier ones as they were.
proof fn lemma_fill_position(a: u8, b: u8, c: u8, d: u8)
    ensures
        (0u8 | (a << 6u8)) == group_byte(a, 0, 0, 0),
        (group_byte(a, 0, 0, 0) | (b << 4u8)) == group_byte(a, b, 0, 0),
        (group_byte(a, b, 0, 0) | (c << 2u8)) == group_byte(a, b, c, 0),
        (group_byte(a, b, c, 0) | (d << 0u8)) == group_byte(a, b, c, d),
{
    assert((0u8 | (a << 6u8)) == ((a << 6u8) | (0u8 << 4u8) | (0u8 << 2u8) | 0u8)) by (bit_vector);
    assert((((a << 6u8) | (0u8 << 4u8) | (0u8 << 2u8) | 0u8) | (b << 4u8)) == ((a << 6u8) | (b
        << 4u8) | (0u8 << 2u8) | 0u8)) by (bit_vector);
    assert((((a << 6u8) | (b << 4u8) | (0u8 << 2u8) | 0u8) | (c << 2u8)) == ((a << 6u8) | (b
        << 4u8) | (c << 2u8) | 0u8)) by (bit_vector);
    assert((((a << 6u8) | (b << 4u8) | (c << 2u8) | 0u8) | (d << 0u8)) == ((a << 6u8) | (b
        << 4u8) | (c << 2u8) | d)) by (bit_vector);
}

/// A symbol below 4 comes back from each position of the byte it was put in.
proof fn lemma_group_positions(a: u8, b: u8, c: u8, d: u8)
    requires
        a < 4,
        b < 4,
        c < 4,
        d < 4,
    ensures
        symbol_in_byte(group_byte(a, b, c, d), 0) == a,
        symbol_in_byte(group_byte(a, b, c, d), 1) == b,
        symbol_in_byte(group_byte(a, b, c, d), 2) == c,
        symbol_in_byte(group_byte(a, b, c, d), 3) == d,
{
    assert(a < 4 && b < 4 && c < 4 && d < 4 ==> ((((a << 6u8) | (b << 4u8) | (c << 2u8) | d)
        >> 6u8) & 3u8) == a) by (bit_vector);
    assert(a < 4 && b < 4 && c < 4 && d < 4 ==> ((((a << 6u8) | (b << 4u8) | (c << 2u8) | d)
        >> 4u8) & 3u8) == b) by (bit_vector);
    assert(a < 4 && b < 4 && c < 4 && d < 4 ==> ((((a << 6u8) | (b << 4u8) | (c << 2u8) | d)
        >> 2u8) & 3u8) == c) by (bit_vector);
    assert(a < 4 && b < 4 && c < 4 && d < 4 ==> ((((a << 6u8) | (b << 4u8) | (c << 2u8) | d)
        >> 0u8) & 3u8) == d) by (bit_vector);
}

/// Packing and then decoding gives every symbol back: for symbols 0, 1 and 2
/// (and 3, which the format has room for), the symbol decoded at each index
/// below the length is the one that was packed there.
pub proof fn lemma_pack_decode_round_trip(symbols: Seq<u8>, index: nat)
    requires
        forall|k: int| 0 <= k < symbols.len() ==> symbols[k] < 4,
        index < symbols.len(),
    ensures
        decoded(packed(symbols), symbols.len(), index) == symbols[index as int],
{
    let j = index as int / 4;
    lemma_group_positions(
        symbol_or_zero(symbols, 4 * j),
        symbol_or_zero(symbols, 4 * j + 1),
        symbol_or_zero(symbols, 4 * j + 2),
        symbol_or_zero(symbols, 4 * j + 3),
    );
}

/// Decoding at or past the logical length gives 0, whatever the bytes are.
pub proof fn lemma_decode_out_of_range(bytes: Seq<u8>, len: nat, index: nat)
    requires
        index >= len,
    ensures
        decoded(bytes, len, index) == 0,
{
}

/// Packs symbols at two bits each, four to a byte, the last byte filled up
/// with zeros.
pub fn pack_symbols(symbols: &[u8]) -> (bytes: Vec<u8>)
    requires
        forall|k: int| 0 <= k < symbols@.len() ==> symbols@[k] < 4,
    ensures
        bytes@ == packed(symbols@),
        symbols@.len() <= 4 * bytes@.len(),
{
    let n: usize = symbols.len();
    let mut bytes: Vec<u8> = Vec::new();
    let mut current: u8 = 0;
    let mut i: usize = 0;
    assert(group_byte(0, 0, 0, 0) == 0u8) by (bit_vector);
    while i < n
        invariant
            n == symbols@.len(),
            i <= n,
            forall|k: int| 0 <= k < symbols@.len() ==> symbols@[k] < 4,
            bytes@.len() == i / 4,
            forall|j: int| 0 <= j < bytes@.len() ==> bytes@[j] == packed_byte(symbols@, j),
            current == packed_byte(symbols@.subrange(0, i as int), i as int / 4),
        decreases n - i,
    {
        let value: u8 = symbols[i];
        let pos: usize = i % 4;
        let shift: u8 = (6 - 2 * pos) as u8;
        let ghost before = symbols@.subrange(0, i as int);
        let ghost after = symbols@.subrange(0, i as int + 1);
        let ghost j = i as int / 4;
        proof {
            lemma_fill_position(
                symbol_or_zero(after, 4 * j),
                symbol_or_zero(after, 4 * j + 1),
                symbol_or_zero(after, 4 * j + 2),
                symbol_or_zero(after, 4 * j + 3),
            );
            assert(forall|k: int| 0 <= k < i ==> before[k] == after[k]);
            assert(after[i as int] == value);
            assert(group_byte(0, 0, 0, 0) == 0u8) by (bit_vector);
            if pos == 0 {
                assert(current == 0u8);
                assert(shift == 6u8);
            } else if pos == 1 {
                assert(current == group_byte(after[4 * j], 0, 0, 0));
                assert(shift == 4u8);
            } else if pos == 2 {
                assert(current == group_byte(after[4 * j], after[4 * j + 1], 0, 0));
                assert(shift == 2u8);
            } else {
                assert(current == group_byte(after[4 * j], after[4 * j + 1], after[4 * j + 2], 0));
                assert(shift == 0u8);
            }
        }
        current = current | (value << shift);
        assert(current == packed_byte(after, j));
        i = i + 1;
        if pos == 3 {
            proof {
                assert(forall|k: int| 4 * j <= k < 4 * j + 4 ==> after[k] == symbols@[k]);
                assert(packed_byte(after, j) == packed_byte(symbols@, j));
                lemma_fill_position(0, 0, 0, 0);
                assert(group_byte(0, 0, 0, 0) == 0u8) by (bit_vector);
            }
            bytes.push(current);
            current = 0;
        }
    }
    if n % 4 != 0 {
        assert(symbols@.subrange(0, n as int) == symbols@);
        bytes.push(current);
    }
    assert(bytes@ =~= packed(symbols@));
    bytes
}


/// The symbol that a character of a correction string stands for.
pub fn char_symbol(c: char) -> (symbol: u8)
    ensures
        symbol == symbol_of_char(c),
        symbol <= 2,
{
    if c == '1' {
        1
    } else if c == '2' {
        2
    } else {
        0
    }
}

/// Packs a correction string: each character is one symbol, `'1'` and `'2'`
/// as themselves and anything else as 0. Returns the bytes and the number of
/// symbols.
pub fn string_to_two_bits(s: &str) -> (table: (Vec<u8>, usize))
    ensures
        table.0@ == packed(symbols_of(s@)),
        table.1 == s@.len(),
        table.1 <= 4 * table.0@.len(),
{
    let mut symbols: Vec<u8> = Vec::new();
    for c in it: s.chars()
        invariant
            it.seq() == s@,
            symbols@.len() == it.index(),
            forall|k: int| 0 <= k < symbols@.len() ==> symbols@[k] == symbol_of_char(s@[k]),
    {
        symbols.push(char_symbol(c));
    }
    assert(symbols@ =~= symbols_of(s@));
    let bytes = pack_symbols(symbols.as_slice());
    (bytes, symbols.len())
}

/// `n` characters `'0'`.
pub open spec fn zeros(n: nat) -> Seq<char> {
    Seq::new(n, |i: int| '0')
}

/// What one character of a compressed correction string stands for: a letter
/// for its run of digits, any other character for itself.
pub open spec fn expansion(c: char) -> Seq<char> {
    if c == 'A' {
        zeros(60)
    } else if c == 'B' {
        zeros(50)
    } else if c == 'C' {
        zeros(40)
    } else if c == 'D' {
        zeros(30)
    } else if c == 'E' {
        zeros(20)
    } else if c == 'F' {
        zeros(10)
    } else if c == 'G' {
        zeros(5)
    } else if c == 'H' {
        zeros(4)
    } else if c == 'I' {
        zeros(3)
    } else if c == 'J' {
        zeros(2)
    } else if c == 'a' {
        zeros(9).push('1')
    } else if c == 'b' {
        zeros(8).push('1')
    } else if c == 'c' {
        zeros(7).push('1')
    } else if c == 'd' {
        zeros(6).push('1')
    } else if c == 'e' {
        zeros(5).push('1')
    } else if c == 'f' {
        zeros(4).push('1')
    } else if c == 'g' {
        zeros(3).push('1')
    } else if c == 'i' {
        zeros(2).push('1')
    } else if c == 'k' {
        zeros(1).push('1')
    } else if c == 'l' {
        zeros(9).push('2')
    } else if c == 'm' {
        zeros(8).push('2')
    } else if c == 'n' {
        zeros(7).push('2')
    } else if c == 'o' {
        zeros(6).push('2')
    } else if c == 'p' {
        zeros(5).push('2')
    } else if c == 'q' {
        zeros(4).push('2')
    } else if c == 'r' {
        zeros(3).push('2')
    } else if c == 's' {
        zeros(2).push('2')
    } else if c == 't' {
        zeros(1).push('2')
    } else if c == 'j' {
        seq!['0', '1', '0', '1']
    } else if c == 'h' {
        seq!['0', '0', '1', '0', '0', '1']
    } else {
        seq![c]
    }
}

/// The expanded form of a compressed correction string: the expansions of its
/// characters, in order.
pub open spec fn expanded(s: Seq<char>) -> Seq<char>
    decreases s.len(),
{
    if s.len() == 0 {
        Seq::empty()
    } else {
        expanded(s.drop_last()) + expansion(s.last())
    }
}

/// The run of digits that a letter stands for; `None` for a character that
/// stands for itself.
fn letter_run(c: char) -> (run: Option<&'static str>)
    ensures
        match run {
            Some(r) => r@ == expansion(c),
            None => expansion(c) == seq![c],
        },
{
    if c == 'A' {
        proof {
            reveal_strlit("000000000000000000000000000000000000000000000000000000000000");
        }
        assert("000000000000000000000000000000000000000000000000000000000000"@ =~= expansion(c));
        Some("000000000000000000000000000000000000000000000000000000000000")
    } else if c == 'B' {
        proof {
            reveal_strlit("00000000000000000000000000000000000000000000000000");
        }
        assert("00000000000000000000000000000000000000000000000000"@ =~= expansion(c));
        Some("00000000000000000000000000000000000000000000000000")
    } else if c == 'C' {
        proof {
            reveal_strlit("0000000000000000000000000000000000000000");
        }
        assert("0000000000000000000000000000000000000000"@ =~= expansion(c));
        Some("0000000000000000000000000000000000000000")
    } else if c == 'D' {
        proof {
            reveal_strlit("000000000000000000000000000000");
        }
        assert("000000000000000000000000000000"@ =~= expansion(c));
        Some("000000000000000000000000000000")
    } else if c == 'E' {
        proof {
            reveal_strlit("00000000000000000000");
        }
        assert("00000000000000000000"@ =~= expansion(c));
        Some("00000000000000000000")
    } else if c == 'F' {
        proof {
            reveal_strlit("0000000000");
        }
        assert("0000000000"@ =~= expansion(c));
        Some("0000000000")
    } else if c == 'G' {
        proof {
            reveal_strlit("00000");
        }
        assert("00000"@ =~= expansion(c));
        Some("00000")
    } else if c == 'H' {
        proof {
            reveal_strlit("0000");
        }
        assert("0000"@ =~= expansion(c));
        Some("0000")
    } else if c == 'I' {
        proof {
            reveal_strlit("000");
        }
        assert("000"@ =~= expansion(c));
        Some("000")
    } else if c == 'J' {
        proof {
            reveal_strlit("00");
        }
        assert("00"@ =~= expansion(c));
        Some("00")
    } else if c == 'a' {
        proof {
            reveal_strlit("0000000001");
        }
        assert("0000000001"@ =~= expansion(c));
        Some("0000000001")
    } else if c == 'b' {
        proof {
            reveal_strlit("000000001");
        }
        assert("000000001"@ =~= expansion(c));
        Some("000000001")
    } else if c == 'c' {
        proof {
            reveal_strlit("00000001");
        }
        assert("00000001"@ =~= expansion(c));
        Some("00000001")
    } else if c == 'd' {
        proof {
            reveal_strlit("0000001");
        }
        assert("0000001"@ =~= expansion(c));
        Some("0000001")
    } else if c == 'e' {
        proof {
            reveal_strlit("000001");
        }
        assert("000001"@ =~= expansion(c));
        Some("000001")
    } else if c == 'f' {
        proof {
            reveal_strlit("00001");
        }
        assert("00001"@ =~= expansion(c));
        Some("00001")
    } else if c == 'g' {
        proof {
            reveal_strlit("0001");
        }
        assert("0001"@ =~= expansion(c));
        Some("0001")
    } else if c == 'i' {
        proof {
            reveal_strlit("001");
        }
        assert("001"@ =~= expansion(c));
        Some("001")
    } else if c == 'k' {
        proof {
            reveal_strlit("01");
        }
        assert("01"@ =~= expansion(c));
        Some("01")
    } else if c == 'l' {
        proof {
            reveal_strlit("0000000002");
        }
        assert("0000000002"@ =~= expansion(c));
        Some("0000000002")
    } else if c == 'm' {
        proof {
            reveal_strlit("000000002");
        }
        assert("000000002"@ =~= expansion(c));
        Some("000000002")
    } else if c == 'n' {
        proof {
            reveal_strlit("00000002");
        }
        assert("00000002"@ =~= expansion(c));
        Some("00000002")
    } else if c == 'o' {
        proof {
            reveal_strlit("0000002");
        }
        assert("0000002"@ =~= expansion(c));
        Some("0000002")
    } else if c == 'p' {
        proof {
            reveal_strlit("000002");
        }
        assert("000002"@ =~= expansion(c));
        Some("000002")
    } else if c == 'q' {
        proof {
            reveal_strlit("00002");
        }
        assert("00002"@ =~= expansion(c));
        Some("00002")
    } else if c == 'r' {
        proof {
            reveal_strlit("0002");
        }
        assert("0002"@ =~= expansion(c));
        Some("0002")
    } else if c == 's' {
        proof {
            reveal_strlit("002");
        }
        assert("002"@ =~= expansion(c));
        Some("002")
    } else if c == 't' {
        proof {
            reveal_strlit("02");
        }
        assert("02"@ =~= expansion(c));
        Some("02")
    } else if c == 'j' {
        proof {
            reveal_strlit("0101");
        }
        assert("0101"@ =~= expansion(c));
        Some("0101")
    } else if c == 'h' {
        proof {
            reveal_strlit("001001");
        }
        assert("001001"@ =~= expansion(c));
        Some("001001")
    } else {
        None
    }
}

/// Expands a compressed correction string: every letter is replaced by the
/// run of digits it stands for, every other character is kept.
pub fn jieya(s: &str) -> (out: String)
    ensures
        out@ == expanded(s@),
{
    let mut out: String = String::new();
    for c in it: s.chars()
        invariant
            it.seq() == s@,
            out@ == expanded(s@.subrange(0, it.index())),
    {
        let ghost i = it.index();
        proof {
            let next = s@.subrange(0, i + 1);
            assert(next.drop_last() =~= s@.subrange(0, i));
            assert(next.last() == c);
        }
        match letter_run(c) {
            Some(run) => {
                out.append(run);
            },
            None => {
                push_char(&mut out, c);
            },
        }
    }
    assert(s@.subrange(0, s@.len() as int) =~= s@);
    out
}

} // verus!
