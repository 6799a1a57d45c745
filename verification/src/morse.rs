//! Morse decoding of dot/dash symbols into characters.

use vstd::prelude::*;

verus! {

/// The length of one Morse unit.
pub const MORSE_UNIT_MS: u32 = 200;

/// A press shorter than this is a dot, a longer one a dash.
pub const DOT_DASH_THRESHOLD_MS: u32 = MORSE_UNIT_MS * 2;

/// Silence of this length ends a letter.
pub const LETTER_GAP_MS: u32 = MORSE_UNIT_MS * 3;

/// Silence of this length ends a word.
pub const WORD_GAP_MS: u32 = MORSE_UNIT_MS * 7;

/// The longest code that the decoder holds.
pub const MAX_SYMBOLS: u8 = 5;

#[derive(Clone, Copy, Debug, PartialEq, Eq, Structural)]
pub enum Symbol {
    Dot,
    Dash,
}

/// The International Morse code of a letter or digit; `None` for any other
/// character.
pub open spec fn morse_code(c: char) -> Option<Seq<Symbol>> {
    let dot = Symbol::Dot;
    let dash = Symbol::Dash;
    match c {
        'E' => Some(seq![dot]),
        'T' => Some(seq![dash]),
        'I' => Some(seq![dot, dot]),
        'A' => Some(seq![dot, dash]),
        'N' => Some(seq![dash, dot]),
        'M' => Some(seq![dash, dash]),
        'S' => Some(seq![dot, dot, dot]),
        'U' => Some(seq![dot, dot, dash]),
        'R' => Some(seq![dot, dash, dot]),
        'W' => Some(seq![dot, dash, dash]),
        'D' => Some(seq![dash, dot, dot]),
        'K' => Some(seq![dash, dot, dash]),
        'G' => Some(seq![dash, dash, dot]),
        'O' => Some(seq![dash, dash, dash]),
        'H' => Some(seq![dot, dot, dot, dot]),
        'V' => Some(seq![dot, dot, dot, dash]),
        'F' => Some(seq![dot, dot, dash, dot]),
        'L' => Some(seq![dot, dash, dot, dot]),
        'P' => Some(seq![dot, dash, dash, dot]),
        'J' => Some(seq![dot, dash, dash, dash]),
        'B' => Some(seq![dash, dot, dot, dot]),
        'X' => Some(seq![dash, dot, dot, dash]),
        'C' => Some(seq![dash, dot, dash, dot]),
        'Y' => Some(seq![dash, dot, dash, dash]),
        'Z' => Some(seq![dash, dash, dot, dot]),
        'Q' => Some(seq![dash, dash, dot, dash]),
        '5' => Some(seq![dot, dot, dot, dot, dot]),
        '4' => Some(seq![dot, dot, dot, dot, dash]),
        '3' => Some(seq![dot, dot, dot, dash, dash]),
        '2' => Some(seq![dot, dot, dash, dash, dash]),
        '1' => Some(seq![dot, dash, dash, dash, dash]),
        '0' => Some(seq![dash, dash, dash, dash, dash]),
        '9' => Some(seq![dash, dash, dash, dash, dot]),
        '8' => Some(seq![dash, dash, dash, dot, dot]),
        '7' => Some(seq![dash, dash, dot, dot, dot]),
        '6' => Some(seq![dash, dot, dot, dot, dot]),
        _ => None,
    }
}

/// The character whose Morse code is `s`, if there is one.
pub open spec fn decode_symbols(s: Seq<Symbol>) -> Option<char> {
    if exists|c: char| morse_code(c) == Some(s) {
        Some(choose|c: char| morse_code(c) == Some(s))
    } else {
        None
    }
}

/// What the pending symbols become when `s` is pushed: a sixth symbol is
/// never held, it discards the whole code instead.
pub open spec fn push_symbol(pending: Seq<Symbol>, s: Symbol) -> Seq<Symbol> {
    if pending.len() >= MAX_SYMBOLS as nat {
        Seq::empty()
    } else {
        pending.push(s)
    }
}

pub open spec fn symbol_bit(s: Symbol) -> nat {
    match s {
        Symbol::Dot => 0,
        Symbol::Dash => 1,
    }
}

/// Binary value of the first `n` symbols of `s`, the first one most
/// significant, a dash standing for 1.
pub open spec fn prefix_value(s: Seq<Symbol>, n: nat) -> nat
    decreases n,
{
    if n == 0 {
        0
    } else {
        2 * prefix_value(s, (n - 1) as nat) + symbol_bit(s[n - 1])
    }
}

pub open spec fn code_value(s: Seq<Symbol>) -> nat {
    prefix_value(s, s.len())
}

pub open spec fn two_pow(n: nat) -> nat
    decreases n,
{
    if n == 0 {
        1
    } else {
        2 * two_pow((n - 1) as nat)
    }
}

/// The `len` symbols whose binary value is `bits`.
pub open spec fn symbols_of(len: nat, bits: nat) -> Seq<Symbol>
    decreases len,
{
    if len == 0 {
        Seq::empty()
    } else {
        symbols_of((len - 1) as nat, bits / 2).push(
            if bits % 2 == 1 {
                Symbol::Dash
            } else {
                Symbol::Dot
            },
        )
    }
}

proof fn lemma_prefix_value_push(s: Seq<Symbol>, x: Symbol, n: nat)
    requires
        n <= s.len(),
    ensures
        prefix_value(s.push(x), n) == prefix_value(s, n),
    decreases n,
{
    if n > 0 {
        lemma_prefix_value_push(s, x, (n - 1) as nat);
    }
}

proof fn lemma_symbols_of(len: nat, bits: nat)
    requires
        bits < two_pow(len),
    ensures
        symbols_of(len, bits).len() == len,
        code_value(symbols_of(len, bits)) == bits,
    decreases len,
{
    if len > 0 {
        lemma_symbols_of((len - 1) as nat, bits / 2);
        let t = symbols_of((len - 1) as nat, bits / 2);
        let x = if bits % 2 == 1 { Symbol::Dash } else { Symbol::Dot };
        lemma_prefix_value_push(t, x, t.len());
    }
}

/// Distinct characters have distinct Morse codes.
pub proof fn lemma_codes_distinct(c1: char, c2: char)
    requires
        morse_code(c1) is Some,
        morse_code(c1) == morse_code(c2),
    ensures
        c1 == c2,
{
    reveal_with_fuel(prefix_value, 6);
    let s1 = morse_code(c1)->0;
    let s2 = morse_code(c2)->0;
    assert(code_value(s1) == code_value(s2));
    assert(s1.len() == s2.len());
}

proof fn lemma_decodes_to(c: char, s: Seq<Symbol>)
    requires
        morse_code(c) == Some(s),
    ensures
        decode_symbols(s) == Some(c),
{
    let d = choose|x: char| morse_code(x) == Some(s);
    lemma_codes_distinct(c, d);
}

proof fn lemma_prefix_value_drop_last(s: Seq<Symbol>, k: nat)
    requires
        k < s.len(),
    ensures
        prefix_value(s.drop_last(), k) == prefix_value(s, k),
    decreases k,
{
    if k > 0 {
        lemma_prefix_value_drop_last(s, (k - 1) as nat);
    }
}

/// Codes of one length are told apart by their binary value.
proof fn lemma_code_value_injective(s: Seq<Symbol>, t: Seq<Symbol>)
    requires
        s.len() == t.len(),
        code_value(s) == code_value(t),
    ensures
        s == t,
    decreases s.len(),
{
    if s.len() > 0 {
        let n = (s.len() - 1) as nat;
        lemma_prefix_value_drop_last(s, n);
        lemma_prefix_value_drop_last(t, n);
        lemma_code_value_injective(s.drop_last(), t.drop_last());
        assert(s.last() == t.last());
        assert(s =~= s.drop_last().push(s.last()));
        assert(t =~= t.drop_last().push(t.last()));
    } else {
        assert(s =~= t);
    }
}

proof fn lemma_decodes_code(c: char, len: nat, bits: nat)
    requires
        bits < two_pow(len),
        morse_code(c) is Some,
        morse_code(c)->0.len() == len,
        code_value(morse_code(c)->0) == bits,
    ensures
        decode_symbols(symbols_of(len, bits)) == Some(c),
{
    lemma_symbols_of(len, bits);
    lemma_code_value_injective(morse_code(c)->0, symbols_of(len, bits));
    lemma_decodes_to(c, symbols_of(len, bits));
}

/// Decoding the Morse code of a letter or digit gives that letter or digit
/// back.
pub proof fn lemma_decode_code(c: char)
    requires
        morse_code(c) is Some,
    ensures
        decode_symbols(morse_code(c)->0) == Some(c),
{
    lemma_decodes_to(c, morse_code(c)->0);
}

/// Every decoded character is an upper-case letter or a digit.
pub proof fn lemma_decoded_is_letter_or_digit(s: Seq<Symbol>, c: char)
    requires
        decode_symbols(s) == Some(c),
    ensures
        ('A' <= c && c <= 'Z') || ('0' <= c && c <= '9'),
{
    let d = choose|x: char| morse_code(x) == Some(s);
    assert(morse_code(d) == Some(s));
}

/// Two codes, each of at most five symbols, that decode to one character are
/// the same code: the same length and the same bits.
pub proof fn lemma_decoded_code_unique(l1: nat, b1: nat, l2: nat, b2: nat, c: char)
    requires
        b1 < two_pow(l1),
        b2 < two_pow(l2),
        decode_symbols(symbols_of(l1, b1)) == Some(c),
        decode_symbols(symbols_of(l2, b2)) == Some(c),
    ensures
        l1 == l2,
        b1 == b2,
{
    lemma_symbols_of(l1, b1);
    lemma_symbols_of(l2, b2);
    let s1 = symbols_of(l1, b1);
    let s2 = symbols_of(l2, b2);
    let d1 = choose|x: char| morse_code(x) == Some(s1);
    let d2 = choose|x: char| morse_code(x) == Some(s2);
    assert(morse_code(d1) == Some(s1));
    assert(morse_code(d2) == Some(s2));
}

/// Every letter and digit is decoded from exactly the length and bits of its
/// code, with one to five symbols.
pub proof fn lemma_code_has_key(c: char)
    requires
        morse_code(c) is Some,
    ensures
        ({
            let code = morse_code(c)->0;
            &&& 1 <= code.len() <= MAX_SYMBOLS as nat
            &&& code_value(code) < two_pow(code.len())
            &&& symbols_of(code.len(), code_value(code)) == code
            &&& decode_symbols(symbols_of(code.len(), code_value(code))) == Some(c)
        }),
{
    let code = morse_code(c)->0;
    lemma_morse_code_len(c);
    lemma_code_value_bound(code);
    lemma_symbols_of(code.len(), code_value(code));
    lemma_code_value_injective(code, symbols_of(code.len(), code_value(code)));
    lemma_decode_code(c);
}

proof fn lemma_prefix_value_bound(s: Seq<Symbol>, n: nat)
    requires
        n <= s.len(),
    ensures
        prefix_value(s, n) < two_pow(n),
    decreases n,
{
    if n > 0 {
        lemma_prefix_value_bound(s, (n - 1) as nat);
    }
}

proof fn lemma_code_value_bound(s: Seq<Symbol>)
    ensures
        code_value(s) < two_pow(s.len()),
{
    lemma_prefix_value_bound(s, s.len());
}

/// The letters and digits, the characters that have a Morse code.
pub open spec fn morse_chars() -> Set<char> {
    Set::new(|c: char| morse_code(c) is Some)
}

/// The (length, bits) pairs of at most five symbols that decode to a
/// character.
pub open spec fn decodable_codes() -> Set<(nat, nat)> {
    Set::new(
        |p: (nat, nat)|
            p.0 <= MAX_SYMBOLS as nat && p.1 < two_pow(p.0) && decode_symbols(
                symbols_of(p.0, p.1),
            ) is Some,
    )
}

/// The length and bits of the code of `c`.
pub open spec fn code_key(c: char) -> (nat, nat) {
    let code = morse_code(c)->0;
    (code.len(), code_value(code))
}

/// Exactly 36 characters have a Morse code, and exactly 36 (length, bits)
/// pairs decode to a character: the pair of each character's code, so that
/// the table matches the 36 letters and digits one to one with those pairs.
pub proof fn lemma_exactly_36_codes()
    ensures
        morse_chars().finite(),
        morse_chars().len() == 36,
        decodable_codes() == morse_chars().map(|c: char| code_key(c)),
        decodable_codes().finite(),
        decodable_codes().len() == 36,
{
    let listed = set![
        'E', 'T', 'I', 'A', 'N', 'M', 'S', 'U', 'R', 'W', 'D', 'K', 'G', 'O', 'H', 'V', 'F', 'L',
        'P', 'J', 'B', 'X', 'C', 'Y', 'Z', 'Q', '5', '4', '3', '2', '1', '0', '9', '8', '7', '6'
    ];
    assert(morse_chars() =~= listed);
    assert(listed.len() == 36);
    let key = |c: char| code_key(c);
    assert forall|p: (nat, nat)| decodable_codes().contains(p) implies morse_chars().map(
        key,
    ).contains(p) by {
        let s = symbols_of(p.0, p.1);
        let c = choose|x: char| morse_code(x) == Some(s);
        assert(morse_code(c) == Some(s));
        lemma_symbols_of(p.0, p.1);
        assert(key(c) == p);
        assert(morse_chars().contains(c));
    }
    assert forall|p: (nat, nat)| morse_chars().map(key).contains(p) implies decodable_codes().contains(
        p,
    ) by {
        let c = choose|x: char| morse_chars().contains(x) && key(x) == p;
        lemma_code_has_key(c);
    }
    assert(decodable_codes() =~= morse_chars().map(key));
    assert forall|c1: char, c2: char|
        morse_chars().contains(c1) && morse_chars().contains(c2) && #[trigger] key(c1) == #[trigger] key(
            c2,
        ) implies c1 == c2 by {
        lemma_code_value_injective(morse_code(c1)->0, morse_code(c2)->0);
        lemma_codes_distinct(c1, c2);
    }
    vstd::set_lib::lemma_map_size(morse_chars(), decodable_codes(), key);
}

/// The pending symbols after each of `syms` was pushed, in order.
pub open spec fn push_all(pending: Seq<Symbol>, syms: Seq<Symbol>) -> Seq<Symbol>
    decreases syms.len(),
{
    if syms.len() == 0 {
        pending
    } else {
        push_symbol(push_all(pending, syms.drop_last()), syms.last())
    }
}

/// Up to five symbols pushed onto an empty decoder are held exactly.
pub proof fn lemma_push_all_short(syms: Seq<Symbol>)
    requires
        syms.len() <= MAX_SYMBOLS as nat,
    ensures
        push_all(Seq::empty(), syms) == syms,
    decreases syms.len(),
{
    if syms.len() > 0 {
        lemma_push_all_short(syms.drop_last());
        assert(syms.drop_last().push(syms.last()) =~= syms);
    }
}

/// A sixth symbol pushed onto an empty decoder discards the code.
pub proof fn lemma_sixth_symbol_discards(syms: Seq<Symbol>)
    requires
        syms.len() == MAX_SYMBOLS as nat + 1,
    ensures
        push_all(Seq::empty(), syms) == Seq::<Symbol>::empty(),
{
    lemma_push_all_short(syms.drop_last());
}

/// Pushing the Morse code of a letter or digit onto an empty decoder, symbol
/// by symbol, and then decoding gives that letter or digit.
pub proof fn lemma_code_roundtrip(c: char)
    requires
        morse_code(c) is Some,
    ensures
        decode_symbols(push_all(Seq::empty(), morse_code(c)->0)) == Some(c),
{
    lemma_morse_code_len(c);
    lemma_push_all_short(morse_code(c)->0);
    lemma_decode_code(c);
}

proof fn lemma_morse_code_len(c: char)
    requires
        morse_code(c) is Some,
    ensures
        1 <= morse_code(c)->0.len() <= MAX_SYMBOLS as nat,
{
}

/// Decodes the `len` symbols whose binary value is `bits`.
///
/// Only codes of one to five symbols, with no bit set at or above position
/// `len`, can decode to a character; any other input gives `None`.
pub fn decode_morse(len: u8, bits: u8) -> (r: Option<char>)
    ensures
        len <= MAX_SYMBOLS && (bits as nat) < two_pow(len as nat) ==> r == decode_symbols(
            symbols_of(len as nat, bits as nat),
        ),
        !(len <= MAX_SYMBOLS && (bits as nat) < two_pow(len as nat)) ==> r is None,
{
    match len {
        1 => decode_length_1(bits),
        2 => decode_length_2(bits),
        3 => decode_length_3(bits),
        4 => decode_length_4(bits),
        5 => decode_length_5(bits),
        _ => {
            proof {
                if len == 0 && (bits as nat) < two_pow(0) {
                    lemma_no_code(0, bits as nat);
                }
            }
            None
        },
    }
}

/// No letter or digit has a code of no symbols or of more than five.
proof fn lemma_no_code(len: nat, bits: nat)
    requires
        bits < two_pow(len),
        len == 0 || len > MAX_SYMBOLS as nat,
    ensures
        decode_symbols(symbols_of(len, bits)) is None,
{
    lemma_symbols_of(len, bits);
    let s = symbols_of(len, bits);
    assert forall|c: char| morse_code(c) != Some(s) by {
        if morse_code(c) is Some {
            lemma_morse_code_len(c);
        }
    }
}
/// A code that no letter or digit has, by its length and value, decodes to
/// nothing.
proof fn lemma_unassigned_code(len: nat, bits: nat)
    requires
        bits < two_pow(len),
        forall|c: char|
            #[trigger] morse_code(c) is Some ==> morse_code(c)->0.len() != len || code_value(
                morse_code(c)->0,
            ) != bits,
    ensures
        decode_symbols(symbols_of(len, bits)) is None,
{
    lemma_symbols_of(len, bits);
}

/// Decodes a code of 1 symbol with binary value `bits`.
fn decode_length_1(bits: u8) -> (r: Option<char>)
    ensures
        (bits as nat) < two_pow(1) ==> r == decode_symbols(symbols_of(1, bits as nat)),
        (bits as nat) >= two_pow(1) ==> r is None,
{
    proof {
        reveal_with_fuel(prefix_value, 2);
        reveal_with_fuel(two_pow, 2);
    }
    match bits {
        0b0 => {
            proof {
                lemma_decodes_code('E', 1, 0);
            }
            Some('E')
        },
        0b1 => {
            proof {
                lemma_decodes_code('T', 1, 1);
            }
            Some('T')
        },
        _ => {
            proof {
                if (bits as nat) < two_pow(1) {
                    lemma_unassigned_code(1, bits as nat);
                }
            }
            None
        },
    }
}

/// Decodes a code of 2 symbols with binary value `bits`.
fn decode_length_2(bits: u8) -> (r: Option<char>)
    ensures
        (bits as nat) < two_pow(2) ==> r == decode_symbols(symbols_of(2, bits as nat)),
        (bits as nat) >= two_pow(2) ==> r is None,
{
    proof {
        reveal_with_fuel(prefix_value, 3);
        reveal_with_fuel(two_pow, 3);
    }
    match bits {
        0b00 => {
            proof {
                lemma_decodes_code('I', 2, 0);
            }
            Some('I')
        },
        0b01 => {
            proof {
                lemma_decodes_code('A', 2, 1);
            }
            Some('A')
        },
        0b10 => {
            proof {
                lemma_decodes_code('N', 2, 2);
            }
            Some('N')
        },
        0b11 => {
            proof {
                lemma_decodes_code('M', 2, 3);
            }
            Some('M')
        },
        _ => {
            proof {
                if (bits as nat) < two_pow(2) {
                    lemma_unassigned_code(2, bits as nat);
                }
            }
            None
        },
    }
}

/// Decodes a code of 3 symbols with binary value `bits`.
fn decode_length_3(bits: u8) -> (r: Option<char>)
    ensures
        (bits as nat) < two_pow(3) ==> r == decode_symbols(symbols_of(3, bits as nat)),
        (bits as nat) >= two_pow(3) ==> r is None,
{
    proof {
        reveal_with_fuel(prefix_value, 4);
        reveal_with_fuel(two_pow, 4);
    }
    match bits {
        0b000 => {
            proof {
                lemma_decodes_code('S', 3, 0);
            }
            Some('S')
        },
        0b001 => {
            proof {
                lemma_decodes_code('U', 3, 1);
            }
            Some('U')
        },
        0b010 => {
            proof {
                lemma_decodes_code('R', 3, 2);
            }
            Some('R')
        },
        0b011 => {
            proof {
                lemma_decodes_code('W', 3, 3);
            }
            Some('W')
        },
        0b100 => {
            proof {
                lemma_decodes_code('D', 3, 4);
            }
            Some('D')
        },
        0b101 => {
            proof {
                lemma_decodes_code('K', 3, 5);
            }
            Some('K')
        },
        0b110 => {
            proof {
                lemma_decodes_code('G', 3, 6);
            }
            Some('G')
        },
        0b111 => {
            proof {
                lemma_decodes_code('O', 3, 7);
            }
            Some('O')
        },
        _ => {
            proof {
                if (bits as nat) < two_pow(3) {
                    lemma_unassigned_code(3, bits as nat);
                }
            }
            None
        },
    }
}

/// Decodes a code of 4 symbols with binary value `bits`.
fn decode_length_4(bits: u8) -> (r: Option<char>)
    ensures
        (bits as nat) < two_pow(4) ==> r == decode_symbols(symbols_of(4, bits as nat)),
        (bits as nat) >= two_pow(4) ==> r is None,
{
    proof {
        reveal_with_fuel(prefix_value, 5);
        reveal_with_fuel(two_pow, 5);
    }
    match bits {
        0b0000 => {
            proof {
                lemma_decodes_code('H', 4, 0);
            }
            Some('H')
        },
        0b0001 => {
            proof {
                lemma_decodes_code('V', 4, 1);
            }
            Some('V')
        },
        0b0010 => {
            proof {
                lemma_decodes_code('F', 4, 2);
            }
            Some('F')
        },
        0b0100 => {
            proof {
                lemma_decodes_code('L', 4, 4);
            }
            Some('L')
        },
        0b0110 => {
            proof {
                lemma_decodes_code('P', 4, 6);
            }
            Some('P')
        },
        0b0111 => {
            proof {
                lemma_decodes_code('J', 4, 7);
            }
            Some('J')
        },
        0b1000 => {
            proof {
                lemma_decodes_code('B', 4, 8);
            }
            Some('B')
        },
        0b1001 => {
            proof {
                lemma_decodes_code('X', 4, 9);
            }
            Some('X')
        },
        0b1010 => {
            proof {
                lemma_decodes_code('C', 4, 10);
            }
            Some('C')
        },
        0b1011 => {
            proof {
                lemma_decodes_code('Y', 4, 11);
            }
            Some('Y')
        },
        0b1100 => {
            proof {
                lemma_decodes_code('Z', 4, 12);
            }
            Some('Z')
        },
        0b1101 => {
            proof {
                lemma_decodes_code('Q', 4, 13);
            }
            Some('Q')
        },
        _ => {
            proof {
                if (bits as nat) < two_pow(4) {
                    lemma_unassigned_code(4, bits as nat);
                }
            }
            None
        },
    }
}

/// Decodes a code of 5 symbols with binary value `bits`.
fn decode_length_5(bits: u8) -> (r: Option<char>)
    ensures
        (bits as nat) < two_pow(5) ==> r == decode_symbols(symbols_of(5, bits as nat)),
        (bits as nat) >= two_pow(5) ==> r is None,
{
    proof {
        reveal_with_fuel(prefix_value, 6);
        reveal_with_fuel(two_pow, 6);
    }
    match bits {
        0b00000 => {
            proof {
                lemma_decodes_code('5', 5, 0);
            }
            Some('5')
        },
        0b00001 => {
            proof {
                lemma_decodes_code('4', 5, 1);
            }
            Some('4')
        },
        0b00011 => {
            proof {
                lemma_decodes_code('3', 5, 3);
            }
            Some('3')
        },
        0b00111 => {
            proof {
                lemma_decodes_code('2', 5, 7);
            }
            Some('2')
        },
        0b01111 => {
            proof {
                lemma_decodes_code('1', 5, 15);
            }
            Some('1')
        },
        0b11111 => {
            proof {
                lemma_decodes_code('0', 5, 31);
            }
            Some('0')
        },
        0b11110 => {
            proof {
                lemma_decodes_code('9', 5, 30);
            }
            Some('9')
        },
        0b11100 => {
            proof {
                lemma_decodes_code('8', 5, 28);
            }
            Some('8')
        },
        0b11000 => {
            proof {
                lemma_decodes_code('7', 5, 24);
            }
            Some('7')
        },
        0b10000 => {
            proof {
                lemma_decodes_code('6', 5, 16);
            }
            Some('6')
        },
        _ => {
            proof {
                if (bits as nat) < two_pow(5) {
                    lemma_unassigned_code(5, bits as nat);
                }
            }
            None
        },
    }
}

/// Collects dots and dashes and turns them into a character.
pub struct MorseDecoder {
    len: u8,
    bits: u8,
}

impl View for MorseDecoder {
    type V = Seq<Symbol>;

    /// The symbols pushed since the decoder was last cleared, oldest first.
    closed spec fn view(&self) -> Seq<Symbol> {
        symbols_of(self.len as nat, self.bits as nat)
    }
}

impl MorseDecoder {
    #[verifier::type_invariant]
    spec fn inv(self) -> bool {
        &&& self.len <= MAX_SYMBOLS
        &&& (self.bits as nat) < two_pow(self.len as nat)
    }

    pub fn new() -> (d: Self)
        ensures
            d@ == Seq::<Symbol>::empty(),
    {
        MorseDecoder { len: 0, bits: 0 }
    }

    /// Appends a symbol; with five symbols already held, the code is discarded
    /// and the new symbol with it.
    pub fn push(&mut self, symbol: Symbol)
        ensures
            final(self)@ == push_symbol(old(self)@, symbol),
            final(self)@.len() <= MAX_SYMBOLS as nat,
    {
        proof {
            use_type_invariant(&*self);
            lemma_symbols_of(self.len as nat, self.bits as nat);
        }
        if self.len >= MAX_SYMBOLS {
            self.clear();
            return;
        }
        let bits = self.bits;
        assert(bits < 16) by {
            reveal_with_fuel(two_pow, 6);
        }
        assert(bits << 1u8 == bits * 2) by (bit_vector)
            requires
                bits < 16,
        ;
        assert((bits << 1u8) | 1u8 == bits * 2 + 1) by (bit_vector)
            requires
                bits < 16,
        ;
        let mut next = bits << 1;
        if let Symbol::Dash = symbol {
            next |= 1;
        }
        *self = MorseDecoder { len: self.len + 1, bits: next };
    }

    pub fn has_symbols(&self) -> (r: bool)
        ensures
            r == (self@.len() > 0),
    {
        proof {
            use_type_invariant(self);
            lemma_symbols_of(self.len as nat, self.bits as nat);
        }
        self.len != 0
    }

    /// Decodes the held symbols and clears the decoder.
    pub fn take_char(&mut self) -> (r: Option<char>)
        ensures
            r == decode_symbols(old(self)@),
            final(self)@ == Seq::<Symbol>::empty(),
    {
        proof {
            use_type_invariant(&*self);
        }
        let decoded = decode_morse(self.len, self.bits);
        self.clear();
        decoded
    }

    fn clear(&mut self)
        ensures
            final(self)@ == Seq::<Symbol>::empty(),
    {
        *self = MorseDecoder { len: 0, bits: 0 };
    }
}

} // verus!
