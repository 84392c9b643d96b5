//! Rendering of identifier bytes as byte-reversed (display order) hex strings.
//!
//! Block hashes and transaction ids are stored in wire byte order, which is
//! the reverse of the conventional display order: the rendering walks the
//! bytes from the last to the first and prints two lowercase hex digits for
//! each.

use vstd::prelude::*;
use vstd::string::StringExecFns;

verus! {

/// The lowercase hex digit for a nibble value; values above 15 never arise.
pub open spec fn hex_digit_char(n: u8) -> char {
    if n == 0 {
        '0'
    } else if n == 1 {
        '1'
    } else if n == 2 {
        '2'
    } else if n == 3 {
        '3'
    } else if n == 4 {
        '4'
    } else if n == 5 {
        '5'
    } else if n == 6 {
        '6'
    } else if n == 7 {
        '7'
    } else if n == 8 {
        '8'
    } else if n == 9 {
        '9'
    } else if n == 10 {
        'a'
    } else if n == 11 {
        'b'
    } else if n == 12 {
        'c'
    } else if n == 13 {
        'd'
    } else if n == 14 {
        'e'
    } else {
        'f'
    }
}

/// The nibble value of a lowercase hex digit; other characters never arise.
pub open spec fn nibble_val(c: char) -> u8 {
    if c == '0' {
        0
    } else if c == '1' {
        1
    } else if c == '2' {
        2
    } else if c == '3' {
        3
    } else if c == '4' {
        4
    } else if c == '5' {
        5
    } else if c == '6' {
        6
    } else if c == '7' {
        7
    } else if c == '8' {
        8
    } else if c == '9' {
        9
    } else if c == 'a' {
        10
    } else if c == 'b' {
        11
    } else if c == 'c' {
        12
    } else if c == 'd' {
        13
    } else if c == 'e' {
        14
    } else {
        15
    }
}

/// The two hex digits of one byte, high nibble first.
pub open spec fn byte_hex(b: u8) -> Seq<char> {
    seq![hex_digit_char(b / 16), hex_digit_char(b % 16)]
}

/// The hex rendering of the bytes in reversed (display) order: the first
/// stored byte is rendered last.
pub open spec fn hex_swapped(bytes: Seq<u8>) -> Seq<char>
    decreases bytes.len(),
{
    if bytes.len() == 0 {
        Seq::empty()
    } else {
        hex_swapped(bytes.skip(1)) + byte_hex(bytes[0])
    }
}

/// The bytes read back from a byte-reversed hex rendering: the last two
/// digits give the first byte.
pub open spec fn unhex_swapped(s: Seq<char>) -> Seq<u8>
    decreases s.len(),
{
    if s.len() < 2 {
        Seq::empty()
    } else {
        seq![
            (16 * nibble_val(s[s.len() - 2]) + nibble_val(s[s.len() - 1])) as u8,
        ] + unhex_swapped(s.take(s.len() - 2))
    }
}

/// The rendering of a byte sequence is twice as long as the sequence.
pub proof fn lemma_hex_swapped_len(bytes: Seq<u8>)
    ensures
        hex_swapped(bytes).len() == 2 * bytes.len(),
    decreases bytes.len(),
{
    if bytes.len() > 0 {
        lemma_hex_swapped_len(bytes.skip(1));
    }
}

proof fn lemma_nibble_round_trip(n: u8)
    requires
        n < 16,
    ensures
        nibble_val(hex_digit_char(n)) == n,
{
}

/// Law: rendering bytes as byte-reversed hex and reading the digits back in
/// the same reversed order returns the original bytes, so the reversal done
/// twice is the identity.
pub proof fn lemma_hex_swapped_round_trip(bytes: Seq<u8>)
    ensures
        unhex_swapped(hex_swapped(bytes)) == bytes,
    decreases bytes.len(),
{
    if bytes.len() == 0 {
        assert(unhex_swapped(hex_swapped(bytes)) =~= bytes);
    } else {
        let b0 = bytes[0];
        let rest = hex_swapped(bytes.skip(1));
        let h = hex_swapped(bytes);
        lemma_hex_swapped_len(bytes.skip(1));
        assert(h.len() == rest.len() + 2);
        assert(h[h.len() - 2] == hex_digit_char(b0 / 16));
        assert(h[h.len() - 1] == hex_digit_char(b0 % 16));
        lemma_nibble_round_trip(b0 / 16);
        lemma_nibble_round_trip(b0 % 16);
        assert(16 * nibble_val(h[h.len() - 2]) + nibble_val(h[h.len() - 1]) == b0);
        assert(h.take(h.len() - 2) =~= rest);
        lemma_hex_swapped_round_trip(bytes.skip(1));
        assert(unhex_swapped(h) =~= bytes);
    }
}

fn push_hex_digit(s: &mut String, n: u8)
    requires
        n < 16,
    ensures
        final(s)@ == old(s)@ + seq![hex_digit_char(n)],
{
    match n {
        0 => {
            proof {
                reveal_strlit("0");
            }
            s.append("0");
        },
        1 => {
            proof {
                reveal_strlit("1");
            }
            s.append("1");
        },
        2 => {
            proof {
                reveal_strlit("2");
            }
            s.append("2");
        },
        3 => {
            proof {
                reveal_strlit("3");
            }
            s.append("3");
        },
        4 => {
            proof {
                reveal_strlit("4");
            }
            s.append("4");
        },
        5 => {
            proof {
                reveal_strlit("5");
            }
            s.append("5");
        },
        6 => {
            proof {
                reveal_strlit("6");
            }
            s.append("6");
        },
        7 => {
            proof {
                reveal_strlit("7");
            }
            s.append("7");
        },
        8 => {
            proof {
                reveal_strlit("8");
            }
            s.append("8");
        },
        9 => {
            proof {
                reveal_strlit("9");
            }
            s.append("9");
        },
        10 => {
            proof {
                reveal_strlit("a");
            }
            s.append("a");
        },
        11 => {
            proof {
                reveal_strlit("b");
            }
            s.append("b");
        },
        12 => {
            proof {
                reveal_strlit("c");
            }
            s.append("c");
        },
        13 => {
            proof {
                reveal_strlit("d");
            }
            s.append("d");
        },
        14 => {
            proof {
                reveal_strlit("e");
            }
            s.append("e");
        },
        _ => {
            proof {
                reveal_strlit("f");
            }
            s.append("f");
        },
    }
    proof {
        assert(s@ =~= old(s)@ + seq![hex_digit_char(n)]);
    }
}

/// Renders the bytes as a hex string in reversed (display) byte order.
pub fn arr_to_hex_swapped(bytes: &[u8]) -> (r: String)
    ensures
        r@ == hex_swapped(bytes@),
{
    let mut r = String::new();
    let mut i: usize = bytes.len();
    while i > 0
        invariant
            i <= bytes@.len(),
            r@ == hex_swapped(bytes@.skip(i as int)),
        decreases i,
    {
        i = i - 1;
        let b = bytes[i];
        proof {
            let s = bytes@;
            assert(s.skip(i as int).len() > 0);
            assert(s.skip(i as int)[0] == b);
            assert(s.skip(i as int).skip(1) =~= s.skip(i as int + 1));
        }
        assert(b >> 4 == b / 16) by (bit_vector);
        assert(b & 0x0f == b % 16) by (bit_vector);
        assert(b >> 4 < 16) by (bit_vector);
        assert(b & 0x0f < 16) by (bit_vector);
        push_hex_digit(&mut r, b >> 4);
        push_hex_digit(&mut r, b & 0x0f);
        proof {
            assert(r@ =~= hex_swapped(bytes@.skip(i as int)));
        }
    }
    proof {
        assert(bytes@.skip(0) =~= bytes@);
    }
    r
}

} // verus!
