use vstd::prelude::*;
use crate::keys::{Keystroke, lemma_named_index_round_trip, lemma_from_named_index};

verus! {

/// The lower-case hexadecimal digit for `n`, which is below 16.
pub open spec fn hex_char(n: u32) -> char {
    if n == 0 { '0' } else if n == 1 { '1' } else if n == 2 { '2' } else if n == 3 { '3' }
    else if n == 4 { '4' } else if n == 5 { '5' } else if n == 6 { '6' } else if n == 7 { '7' }
    else if n == 8 { '8' } else if n == 9 { '9' } else if n == 10 { 'a' } else if n == 11 { 'b' }
    else if n == 12 { 'c' } else if n == 13 { 'd' } else if n == 14 { 'e' } else { 'f' }
}

/// The value of a lower-case hexadecimal digit.
pub open spec fn hex_value(c: char) -> Option<u32> {
    if c == '0' { Some(0u32) } else if c == '1' { Some(1u32) } else if c == '2' { Some(2u32) }
    else if c == '3' { Some(3u32) } else if c == '4' { Some(4u32) } else if c == '5' { Some(5u32) }
    else if c == '6' { Some(6u32) } else if c == '7' { Some(7u32) } else if c == '8' { Some(8u32) }
    else if c == '9' { Some(9u32) } else if c == 'a' { Some(10u32) } else if c == 'b' { Some(11u32) }
    else if c == 'c' { Some(12u32) } else if c == 'd' { Some(13u32) } else if c == 'e' { Some(14u32) }
    else if c == 'f' { Some(15u32) } else { None }
}

/// The eight hexadecimal digits of `x`, most significant first.
pub open spec fn hex8(x: u32) -> Seq<char> {
    seq![
        hex_char((x >> 28u32) & 15u32), hex_char((x >> 24u32) & 15u32),
        hex_char((x >> 20u32) & 15u32), hex_char((x >> 16u32) & 15u32),
        hex_char((x >> 12u32) & 15u32), hex_char((x >> 8u32) & 15u32),
        hex_char((x >> 4u32) & 15u32), hex_char(x & 15u32),
    ]
}

/// The text of one keystroke: `K` and two hex digits for the index of a named
/// key, `U` and the character itself, or `O` and eight hex digits of the code.
pub open spec fn key_text(k: Keystroke) -> Seq<char> {
    match k {
        Keystroke::Unicode(c) => seq!['U', c],
        Keystroke::Other(x) => seq!['O'] + hex8(x),
        _ => {
            let i = k.named_index()->0 as u32;
            seq!['K', hex_char((i >> 4u32) & 15u32), hex_char(i & 15u32)]
        },
    }
}

/// The keystrokes' texts separated by commas.
pub open spec fn keys_text(ks: Seq<Keystroke>) -> Seq<char>
    decreases ks.len(),
{
    if ks.len() == 0 {
        Seq::empty()
    } else if ks.len() == 1 {
        key_text(ks[0])
    } else {
        keys_text(ks.drop_last()) + seq![','] + key_text(ks.last())
    }
}

/// The stored text of a keystroke sequence: its keystrokes in order, in brackets.
pub open spec fn actions_text(ks: Seq<Keystroke>) -> Seq<char> {
    seq!['['] + keys_text(ks) + seq![']']
}

/// Error for a text that is not the text of any keystroke sequence.
#[derive(Debug, Clone, Copy, PartialEq, Eq, Structural)]
pub struct MalformedActions {
    /// Where in the text, in characters, the problem was found.
    pub position: usize,
}

/// Relies on std's `String::push`, which appends one character.
#[verifier::external_body]
fn push_char(s: &mut String, c: char)
    ensures
        final(s)@ == old(s)@.push(c),
{
    s.push(c)
}

fn hex_digit(n: u32) -> (c: char)
    requires
        n < 16,
    ensures
        c == hex_char(n),
        hex_value(c) == Some(n),
{
    if n == 0 { '0' } else if n == 1 { '1' } else if n == 2 { '2' } else if n == 3 { '3' }
    else if n == 4 { '4' } else if n == 5 { '5' } else if n == 6 { '6' } else if n == 7 { '7' }
    else if n == 8 { '8' } else if n == 9 { '9' } else if n == 10 { 'a' } else if n == 11 { 'b' }
    else if n == 12 { 'c' } else if n == 13 { 'd' } else if n == 14 { 'e' } else { 'f' }
}

fn digit_value(c: char) -> (r: Option<u32>)
    ensures
        r == hex_value(c),
        r matches Some(n) ==> n < 16 && hex_char(n) == c,
{
    if c == '0' { Some(0) } else if c == '1' { Some(1) } else if c == '2' { Some(2) }
    else if c == '3' { Some(3) } else if c == '4' { Some(4) } else if c == '5' { Some(5) }
    else if c == '6' { Some(6) } else if c == '7' { Some(7) } else if c == '8' { Some(8) }
    else if c == '9' { Some(9) } else if c == 'a' { Some(10) } else if c == 'b' { Some(11) }
    else if c == 'c' { Some(12) } else if c == 'd' { Some(13) } else if c == 'e' { Some(14) }
    else if c == 'f' { Some(15) } else { None }
}

proof fn lemma_nibbles(x: u32)
    ensures
        (x >> 28u32) & 15u32 < 16, (x >> 24u32) & 15u32 < 16, (x >> 20u32) & 15u32 < 16,
        (x >> 16u32) & 15u32 < 16, (x >> 12u32) & 15u32 < 16, (x >> 8u32) & 15u32 < 16,
        (x >> 4u32) & 15u32 < 16, x & 15u32 < 16,
{
    assert((x >> 28u32) & 15u32 < 16) by (bit_vector);
    assert((x >> 24u32) & 15u32 < 16) by (bit_vector);
    assert((x >> 20u32) & 15u32 < 16) by (bit_vector);
    assert((x >> 16u32) & 15u32 < 16) by (bit_vector);
    assert((x >> 12u32) & 15u32 < 16) by (bit_vector);
    assert((x >> 8u32) & 15u32 < 16) by (bit_vector);
    assert((x >> 4u32) & 15u32 < 16) by (bit_vector);
    assert(x & 15u32 < 16) by (bit_vector);
}

proof fn lemma_compose8(a: u32, b: u32, c: u32, d: u32, e: u32, f: u32, g: u32, h: u32)
    requires
        a < 16, b < 16, c < 16, d < 16, e < 16, f < 16, g < 16, h < 16,
    ensures
        ({
            let x = (a << 28u32) | (b << 24u32) | (c << 20u32) | (d << 16u32) | (e << 12u32) | (f
                << 8u32) | (g << 4u32) | h;
            (x >> 28u32) & 15u32 == a && (x >> 24u32) & 15u32 == b && (x >> 20u32) & 15u32 == c
                && (x >> 16u32) & 15u32 == d && (x >> 12u32) & 15u32 == e && (x >> 8u32) & 15u32
                == f && (x >> 4u32) & 15u32 == g && x & 15u32 == h
        }),
{
    assert({
        let x = (a << 28u32) | (b << 24u32) | (c << 20u32) | (d << 16u32) | (e << 12u32) | (f
            << 8u32) | (g << 4u32) | h;
        (x >> 28u32) & 15u32 == a && (x >> 24u32) & 15u32 == b && (x >> 20u32) & 15u32 == c && (x
            >> 16u32) & 15u32 == d && (x >> 12u32) & 15u32 == e && (x >> 8u32) & 15u32 == f && (x
            >> 4u32) & 15u32 == g && x & 15u32 == h
    }) by (bit_vector)
        requires
            a < 16, b < 16, c < 16, d < 16, e < 16, f < 16, g < 16, h < 16,
    ;
}

proof fn lemma_decompose8(x: u32)
    ensures
        x == ((((x >> 28u32) & 15u32) << 28u32) | (((x >> 24u32) & 15u32) << 24u32) | (((x
            >> 20u32) & 15u32) << 20u32) | (((x >> 16u32) & 15u32) << 16u32) | (((x >> 12u32)
            & 15u32) << 12u32) | (((x >> 8u32) & 15u32) << 8u32) | (((x >> 4u32) & 15u32)
            << 4u32) | (x & 15u32)),
{
    assert(x == ((((x >> 28u32) & 15u32) << 28u32) | (((x >> 24u32) & 15u32) << 24u32) | (((x
        >> 20u32) & 15u32) << 20u32) | (((x >> 16u32) & 15u32) << 16u32) | (((x >> 12u32) & 15u32)
        << 12u32) | (((x >> 8u32) & 15u32) << 8u32) | (((x >> 4u32) & 15u32) << 4u32) | (x
        & 15u32))) by (bit_vector);
}

proof fn lemma_byte_nibbles(i: u32)
    requires
        i < 256,
    ensures
        (i >> 4u32) & 15u32 < 16,
        i & 15u32 < 16,
        ((((i >> 4u32) & 15u32) << 4u32) | (i & 15u32)) == i,
{
    assert((i >> 4u32) & 15u32 < 16) by (bit_vector);
    assert(i & 15u32 < 16) by (bit_vector);
    assert(((((i >> 4u32) & 15u32) << 4u32) | (i & 15u32)) == i) by (bit_vector)
        requires
            i < 256,
    ;
}

proof fn lemma_compose2(h: u32, l: u32)
    requires
        h < 16,
        l < 16,
    ensures
        ((h << 4u32) | l) < 256,
        (((h << 4u32) | l) >> 4u32) & 15u32 == h,
        ((h << 4u32) | l) & 15u32 == l,
{
    assert(((h << 4u32) | l) < 256 && (((h << 4u32) | l) >> 4u32) & 15u32 == h && ((h << 4u32)
        | l) & 15u32 == l) by (bit_vector)
        requires
            h < 16,
            l < 16,
    ;
}

/// Appends the text of one keystroke.
fn push_key_text(out: &mut String, k: Keystroke)
    ensures
        final(out)@ == old(out)@ + key_text(k),
{
    proof {
        lemma_named_index_round_trip(k);
    }
    match k {
        Keystroke::Unicode(c) => {
            push_char(out, 'U');
            push_char(out, c);
            assert(final(out)@ =~= old(out)@ + key_text(k));
        },
        Keystroke::Other(x) => {
            proof {
                lemma_nibbles(x);
            }
            push_char(out, 'O');
            push_char(out, hex_digit((x >> 28) & 15));
            push_char(out, hex_digit((x >> 24) & 15));
            push_char(out, hex_digit((x >> 20) & 15));
            push_char(out, hex_digit((x >> 16) & 15));
            push_char(out, hex_digit((x >> 12) & 15));
            push_char(out, hex_digit((x >> 8) & 15));
            push_char(out, hex_digit((x >> 4) & 15));
            push_char(out, hex_digit(x & 15));
            assert(final(out)@ =~= old(out)@ + key_text(k));
        },
        _ => {
            let i = match k.named_index_of() {
                Some(i) => i as u32,
                None => 0,
            };
            proof {
                lemma_byte_nibbles(i);
            }
            push_char(out, 'K');
            push_char(out, hex_digit((i >> 4) & 15));
            push_char(out, hex_digit(i & 15));
            assert(final(out)@ =~= old(out)@ + key_text(k));
        },
    }
}

/// The stored text of a keystroke sequence.
pub fn encode_actions(actions: &Vec<Keystroke>) -> (r: String)
    ensures
        r@ == actions_text(actions@),
{
    let mut out = String::new();
    push_char(&mut out, '[');
    let mut i: usize = 0;
    while i < actions.len()
        invariant
            i <= actions@.len(),
            out@ == seq!['['] + keys_text(actions@.take(i as int)),
        decreases actions@.len() - i,
    {
        assert(actions@.take(i + 1).drop_last() =~= actions@.take(i as int));
        if i > 0 {
            push_char(&mut out, ',');
        }
        push_key_text(&mut out, actions[i]);
        proof {
            if i == 0 {
                assert(actions@.take(1) =~= seq![actions@[0]]);
            }
        }
        assert(out@ =~= seq!['['] + keys_text(actions@.take(i + 1)));
        i = i + 1;
    }
    push_char(&mut out, ']');
    assert(actions@.take(actions@.len() as int) =~= actions@);
    assert(out@ =~= actions_text(actions@));
    out
}

proof fn lemma_hex_char_value(n: u32)
    requires
        n < 16,
    ensures
        hex_value(hex_char(n)) == Some(n),
{
}

/// The text of a keystroke starts with a letter that fixes its length.
proof fn lemma_key_text_shape(k: Keystroke)
    ensures
        key_text(k).len() >= 2,
        key_text(k)[0] == 'U' <==> k is Unicode,
        key_text(k)[0] == 'O' <==> k is Other,
        key_text(k)[0] == 'K' <==> k.named_index() is Some,
        k is Unicode ==> key_text(k).len() == 2,
        k is Other ==> key_text(k).len() == 9,
        k.named_index() is Some ==> key_text(k).len() == 3,
{
    lemma_named_index_round_trip(k);
}

/// Reads the keystroke whose text starts at `p`, and where it ends.
fn parse_key(text: &str, n: usize, p: usize) -> (r: Option<(Keystroke, usize)>)
    requires
        n == text@.len(),
        p < n,
    ensures
        r matches Some((k, q)) ==> p < q <= n && text@.subrange(p as int, q as int) == key_text(k),
        forall|k: Keystroke|
            p + key_text(k).len() <= n && text@.subrange(p as int, p + key_text(k).len())
                == key_text(k) ==> r == Some((k, (p + key_text(k).len()) as usize)),
{
    let lead = text.get_char(p);
    if lead == 'U' {
        if n - p < 2 {
            proof {
                assert forall|k: Keystroke|
                    p + key_text(k).len() <= n && text@.subrange(p as int, p + key_text(k).len())
                        == key_text(k) implies false by {
                    lemma_key_text_shape(k);
                    assert(text@.subrange(p as int, p + key_text(k).len())[0] == text@[p as int]);
                }
            }
            return None;
        }
        let c = text.get_char(p + 1);
        let k = Keystroke::Unicode(c);
        assert(text@.subrange(p as int, p + 2) =~= key_text(k));
        proof {
            assert forall|k2: Keystroke|
                p + key_text(k2).len() <= n && text@.subrange(p as int, p + key_text(k2).len())
                    == key_text(k2) implies k2 == k && key_text(k2).len() == 2 by {
                lemma_key_text_shape(k2);
                assert(text@.subrange(p as int, p + key_text(k2).len())[0] == text@[p as int]);
                assert(text@.subrange(p as int, p + key_text(k2).len())[1] == text@[p + 1]);
            }
        }
        Some((k, p + 2))
    } else if lead == 'O' {
        if n - p < 9 {
            proof {
                assert forall|k: Keystroke|
                    p + key_text(k).len() <= n && text@.subrange(p as int, p + key_text(k).len())
                        == key_text(k) implies false by {
                    lemma_key_text_shape(k);
                    assert(text@.subrange(p as int, p + key_text(k).len())[0] == text@[p as int]);
                }
            }
            return None;
        }
        let d0 = digit_value(text.get_char(p + 1));
        let d1 = digit_value(text.get_char(p + 2));
        let d2 = digit_value(text.get_char(p + 3));
        let d3 = digit_value(text.get_char(p + 4));
        let d4 = digit_value(text.get_char(p + 5));
        let d5 = digit_value(text.get_char(p + 6));
        let d6 = digit_value(text.get_char(p + 7));
        let d7 = digit_value(text.get_char(p + 8));
        match (d0, d1, d2, d3, d4, d5, d6, d7) {
            (Some(a), Some(b), Some(c), Some(d), Some(e), Some(f), Some(g), Some(h)) => {
                let x = (a << 28) | (b << 24) | (c << 20) | (d << 16) | (e << 12) | (f << 8) | (g
                    << 4) | h;
                let k = Keystroke::Other(x);
                proof {
                    lemma_compose8(a, b, c, d, e, f, g, h);
                }
                assert(text@.subrange(p as int, p + 9) =~= key_text(k));
                proof {
                    assert forall|k2: Keystroke|
                        p + key_text(k2).len() <= n && text@.subrange(
                            p as int,
                            p + key_text(k2).len(),
                        ) == key_text(k2) implies k2 == k && key_text(k2).len() == 9 by {
                        lemma_key_text_shape(k2);
                        let sub = text@.subrange(p as int, p + key_text(k2).len());
                        assert(sub[0] == text@[p as int]);
                        let y = k2->Other_0;
                        lemma_nibbles(y);
                        lemma_decompose8(y);
                        assert(sub[1] == text@[p + 1]);
                        assert(sub[2] == text@[p + 2]);
                        assert(sub[3] == text@[p + 3]);
                        assert(sub[4] == text@[p + 4]);
                        assert(sub[5] == text@[p + 5]);
                        assert(sub[6] == text@[p + 6]);
                        assert(sub[7] == text@[p + 7]);
                        assert(sub[8] == text@[p + 8]);
                        lemma_hex_char_value((y >> 28u32) & 15u32);
                        lemma_hex_char_value((y >> 24u32) & 15u32);
                        lemma_hex_char_value((y >> 20u32) & 15u32);
                        lemma_hex_char_value((y >> 16u32) & 15u32);
                        lemma_hex_char_value((y >> 12u32) & 15u32);
                        lemma_hex_char_value((y >> 8u32) & 15u32);
                        lemma_hex_char_value((y >> 4u32) & 15u32);
                        lemma_hex_char_value(y & 15u32);
                    }
                }
                Some((k, p + 9))
            },
            _ => {
                proof {
                    assert forall|k: Keystroke|
                        p + key_text(k).len() <= n && text@.subrange(p as int, p + key_text(k).len())
                            == key_text(k) implies false by {
                        lemma_key_text_shape(k);
                        let sub = text@.subrange(p as int, p + key_text(k).len());
                        assert(sub[0] == text@[p as int]);
                        let y = k->Other_0;
                        lemma_nibbles(y);
                        assert(sub[1] == text@[p + 1]);
                        assert(sub[2] == text@[p + 2]);
                        assert(sub[3] == text@[p + 3]);
                        assert(sub[4] == text@[p + 4]);
                        assert(sub[5] == text@[p + 5]);
                        assert(sub[6] == text@[p + 6]);
                        assert(sub[7] == text@[p + 7]);
                        assert(sub[8] == text@[p + 8]);
                        lemma_hex_char_value((y >> 28u32) & 15u32);
                        lemma_hex_char_value((y >> 24u32) & 15u32);
                        lemma_hex_char_value((y >> 20u32) & 15u32);
                        lemma_hex_char_value((y >> 16u32) & 15u32);
                        lemma_hex_char_value((y >> 12u32) & 15u32);
                        lemma_hex_char_value((y >> 8u32) & 15u32);
                        lemma_hex_char_value((y >> 4u32) & 15u32);
                        lemma_hex_char_value(y & 15u32);
                    }
                }
                None
            },
        }
    } else if lead == 'K' {
        if n - p < 3 {
            proof {
                assert forall|k: Keystroke|
                    p + key_text(k).len() <= n && text@.subrange(p as int, p + key_text(k).len())
                        == key_text(k) implies false by {
                    lemma_key_text_shape(k);
                    assert(text@.subrange(p as int, p + key_text(k).len())[0] == text@[p as int]);
                }
            }
            return None;
        }
        let hi = digit_value(text.get_char(p + 1));
        let lo = digit_value(text.get_char(p + 2));
        let found = match (hi, lo) {
            (Some(h), Some(l)) => {
                proof {
                    lemma_compose2(h, l);
                }
                let i = ((h << 4) | l) as u8;
                match Keystroke::from_named_index(i) {
                    Some(k) => {
                        proof {
                            lemma_from_named_index(i);
                            lemma_named_index_round_trip(k);
                        }
                        assert(text@.subrange(p as int, p + 3) =~= key_text(k));
                        Some((k, p + 3))
                    },
                    None => None,
                }
            },
            _ => None,
        };
        proof {
            assert forall|k2: Keystroke|
                p + key_text(k2).len() <= n && text@.subrange(p as int, p + key_text(k2).len())
                    == key_text(k2) implies found == Some((k2, (p + key_text(k2).len()) as usize)) by {
                lemma_key_text_shape(k2);
                lemma_named_index_round_trip(k2);
                let sub = text@.subrange(p as int, p + key_text(k2).len());
                assert(sub[0] == text@[p as int]);
                assert(sub[1] == text@[p + 1]);
                assert(sub[2] == text@[p + 2]);
                let j = k2.named_index()->0 as u32;
                lemma_byte_nibbles(j);
                lemma_hex_char_value((j >> 4u32) & 15u32);
                lemma_hex_char_value(j & 15u32);
            }
        }
        found
    } else {
        proof {
            assert forall|k: Keystroke|
                p + key_text(k).len() <= n && text@.subrange(p as int, p + key_text(k).len())
                    == key_text(k) implies false by {
                lemma_key_text_shape(k);
                assert(text@.subrange(p as int, p + key_text(k).len())[0] == text@[p as int]);
            }
        }
        None
    }
}

proof fn lemma_keys_text_step(t: Seq<Keystroke>, j: int)
    requires
        0 <= j < t.len(),
    ensures
        keys_text(t.take(j + 1)) == keys_text(t.take(j)) + (if j > 0 {
            seq![',']
        } else {
            Seq::empty()
        }) + key_text(t[j]),
{
    assert(t.take(j + 1).drop_last() =~= t.take(j));
    if j == 0 {
        assert(keys_text(t.take(0)) =~= Seq::<char>::empty());
        assert(keys_text(t.take(j + 1)) =~= keys_text(t.take(j)) + Seq::<char>::empty() + key_text(t[j]));
    } else {
        assert(keys_text(t.take(j + 1)) =~= keys_text(t.take(j)) + seq![','] + key_text(t[j]));
    }
}

proof fn lemma_keys_text_prefix(t: Seq<Keystroke>, j: int)
    requires
        0 <= j <= t.len(),
    ensures
        keys_text(t.take(j)).len() <= keys_text(t).len(),
        keys_text(t).subrange(0, keys_text(t.take(j)).len() as int) == keys_text(t.take(j)),
        0 < j < t.len() ==> keys_text(t)[keys_text(t.take(j)).len() as int] == ',',
    decreases t.len(),
{
    if j == t.len() {
        assert(t.take(j) =~= t);
        assert(keys_text(t).subrange(0, keys_text(t).len() as int) =~= keys_text(t));
    } else if t.len() == 1 {
        assert(keys_text(t.take(0)) =~= Seq::<char>::empty());
        assert(keys_text(t).subrange(0, 0) =~= Seq::<char>::empty());
    } else {
        let u = t.drop_last();
        assert(t.take(j) =~= u.take(j));
        lemma_keys_text_prefix(u, j);
        let whole = keys_text(t);
        assert(whole == keys_text(u) + seq![','] + key_text(t.last()));
        let l = keys_text(t.take(j)).len() as int;
        assert(whole.subrange(0, l) =~= keys_text(u).subrange(0, l));
        if j == u.len() {
            assert(u.take(j) =~= u);
        }
    }
}

proof fn lemma_key_at(t: Seq<Keystroke>, j: int)
    requires
        0 <= j < t.len(),
    ensures
        ({
            let p = 1 + keys_text(t.take(j)).len() + (if j > 0 { 1int } else { 0int });
            let q = p + key_text(t[j]).len();
            let text = actions_text(t);
            &&& q < text.len()
            &&& text.subrange(p, q) == key_text(t[j])
            &&& keys_text(t.take(j + 1)).len() + 1 == q
            &&& (j + 1 < t.len() ==> text[q] == ',')
            &&& (j + 1 == t.len() ==> q == text.len() - 1)
        }),
{
    lemma_keys_text_step(t, j);
    lemma_keys_text_prefix(t, j + 1);
    let p = 1 + keys_text(t.take(j)).len() + (if j > 0 { 1int } else { 0int });
    let q = p + key_text(t[j]).len();
    let text = actions_text(t);
    let kt = keys_text(t);
    let pre = keys_text(t.take(j + 1));
    assert(pre.len() == q - 1);
    assert(text == seq!['['] + kt + seq![']']);
    assert(forall|i: int| 0 <= i < pre.len() ==> kt[i] == pre[i]) by {
        assert forall|i: int| 0 <= i < pre.len() implies kt[i] == pre[i] by {
            assert(kt.subrange(0, pre.len() as int)[i] == kt[i]);
        }
    }
    assert(text.subrange(p, q) =~= pre.subrange(p - 1, q - 1));
    assert(pre.subrange(p - 1, q - 1) =~= key_text(t[j]));
    if j + 1 < t.len() {
        lemma_keys_text_prefix(t, j + 2);
        lemma_keys_text_step(t, j + 1);
        assert(text[q] == kt[q - 1]);
    }
    if j + 1 == t.len() {
        assert(t.take(j + 1) =~= t);
    }
}

proof fn lemma_nonempty_text(t: Seq<Keystroke>)
    requires
        t.len() > 0,
    ensures
        keys_text(t).len() >= 2,
{
    lemma_keys_text_prefix(t, 1);
    lemma_keys_text_step(t, 0);
    lemma_key_text_shape(t[0]);
}

/// Reads a keystroke sequence back from its stored text. Exactly the texts
/// that `encode_actions` produces are accepted, and each gives back the
/// sequence it was made from.
#[verifier::rlimit(60)]
pub fn decode_actions(text: &str) -> (r: Result<Vec<Keystroke>, MalformedActions>)
    ensures
        r matches Ok(v) ==> actions_text(v@) == text@,
        forall|t: Seq<Keystroke>| text@ == actions_text(t) ==> (r matches Ok(v) && v@ == t),
{
    let n = text.unicode_len();
    if n < 2 || text.get_char(0) != '[' || text.get_char(n - 1) != ']' {
        proof {
            assert forall|t: Seq<Keystroke>| text@ != actions_text(t) by {
                if text@ == actions_text(t) {
                    assert(text@[0] == '[');
                    assert(text@[text@.len() - 1] == ']');
                }
            }
        }
        return Err(MalformedActions { position: 0 });
    }
    if n == 2 {
        assert(text@ =~= actions_text(Seq::<Keystroke>::empty()));
        proof {
            assert forall|t: Seq<Keystroke>| text@ == actions_text(t) implies t =~= Seq::<Keystroke>::empty() by {
                if t.len() > 0 {
                    lemma_nonempty_text(t);
                }
            }
        }
        return Ok(Vec::new());
    }
    let mut out: Vec<Keystroke> = Vec::new();
    let mut p: usize = 1;
    proof {
        assert forall|t: Seq<Keystroke>| text@ == actions_text(t) implies 0 < t.len() && out@ =~= t.take(0) by {
            if t.len() == 0 {
                assert(actions_text(t).len() == 2);
            }
        }
    }
    loop
        invariant
            n == text@.len(),
            2 < n,
            1 <= p < n,
            text@[0] == '[',
            text@[n - 1] == ']',
            out@.len() == 0 ==> p == 1,
            out@.len() > 0 ==> text@.subrange(0, p as int) == seq!['['] + keys_text(out@) + seq![','],
            forall|t: Seq<Keystroke>|
                text@ == actions_text(t) ==> out@.len() < t.len() && out@ == t.take(out@.len() as int)
                    && p == 1 + keys_text(out@).len() + (if out@.len() > 0 { 1int } else { 0int }),
        decreases n - p,
    {
        let ghost before = out@;
        proof {
            assert forall|t: Seq<Keystroke>| text@ == actions_text(t) implies
                p + key_text(t[before.len() as int]).len() <= n
                && text@.subrange(p as int, p + key_text(t[before.len() as int]).len()) == key_text(t[before.len() as int]) by {
                lemma_key_at(t, before.len() as int);
            }
        }
        match parse_key(text, n, p) {
            None => {
                return Err(MalformedActions { position: p });
            },
            Some((k, q)) => {
                out.push(k);
                proof {
                    assert(out@.drop_last() =~= before);
                    assert forall|t: Seq<Keystroke>| text@ == actions_text(t) implies
                        k == t[before.len() as int] && out@ =~= t.take(out@.len() as int)
                        && q < n && q as int == keys_text(out@).len() + 1
                        && (out@.len() < t.len() ==> text@[q as int] == ',')
                        && (out@.len() == t.len() ==> q == n - 1) by {
                        lemma_key_at(t, before.len() as int);
                    }
                    if before.len() == 0 {
                        assert(text@.subrange(0, q as int) =~= seq!['['] + keys_text(out@));
                    } else {
                        assert(text@.subrange(0, q as int) =~= seq!['['] + keys_text(out@));
                    }
                }
                if q >= n {
                    proof {
                        assert forall|t: Seq<Keystroke>| text@ != actions_text(t) by {
                            if text@ == actions_text(t) {
                                assert(q < n);
                            }
                        }
                    }
                    return Err(MalformedActions { position: q });
                }
                let c = text.get_char(q);
                if c == ',' {
                    assert(text@.subrange(0, q + 1) =~= text@.subrange(0, q as int) + seq![',']);
                    p = q + 1;
                } else if c == ']' && q == n - 1 {
                    assert(text@ =~= text@.subrange(0, q as int) + seq![']']);
                    proof {
                        assert forall|t: Seq<Keystroke>| text@ == actions_text(t) implies out@ == t by {
                            assert(out@.len() <= t.len());
                            if out@.len() < t.len() {
                                assert(text@[q as int] == ',');
                            }
                            assert(t.take(t.len() as int) =~= t);
                        }
                    }
                    return Ok(out);
                } else {
                    proof {
                        assert forall|t: Seq<Keystroke>| text@ != actions_text(t) by {
                            if text@ == actions_text(t) {
                                if out@.len() < t.len() {
                                    assert(text@[q as int] == ',');
                                }
                            }
                        }
                    }
                    return Err(MalformedActions { position: q });
                }
            },
        }
    }
}

proof fn lemma_key_text_injective(x: Keystroke, y: Keystroke)
    requires
        key_text(x) == key_text(y),
    ensures
        x == y,
{
    lemma_key_text_shape(x);
    lemma_key_text_shape(y);
    lemma_named_index_round_trip(x);
    lemma_named_index_round_trip(y);
    let t = key_text(x);
    if x is Unicode {
        assert(t[1] == key_text(y)[1]);
    } else if x is Other {
        let a = x->Other_0;
        let b = y->Other_0;
        lemma_nibbles(a);
        lemma_nibbles(b);
        lemma_decompose8(a);
        lemma_decompose8(b);
        assert forall|i: int| 1 <= i < 9 implies #[trigger] t[i] == key_text(y)[i] by {}
        lemma_hex_char_value((a >> 28u32) & 15u32);
        lemma_hex_char_value((a >> 24u32) & 15u32);
        lemma_hex_char_value((a >> 20u32) & 15u32);
        lemma_hex_char_value((a >> 16u32) & 15u32);
        lemma_hex_char_value((a >> 12u32) & 15u32);
        lemma_hex_char_value((a >> 8u32) & 15u32);
        lemma_hex_char_value((a >> 4u32) & 15u32);
        lemma_hex_char_value(a & 15u32);
        lemma_hex_char_value((b >> 28u32) & 15u32);
        lemma_hex_char_value((b >> 24u32) & 15u32);
        lemma_hex_char_value((b >> 20u32) & 15u32);
        lemma_hex_char_value((b >> 16u32) & 15u32);
        lemma_hex_char_value((b >> 12u32) & 15u32);
        lemma_hex_char_value((b >> 8u32) & 15u32);
        lemma_hex_char_value((b >> 4u32) & 15u32);
        lemma_hex_char_value(b & 15u32);
        let u = key_text(y);
        assert(hex_value(t[1]) == hex_value(u[1]));
        assert(hex_value(t[2]) == hex_value(u[2]));
        assert(hex_value(t[3]) == hex_value(u[3]));
        assert(hex_value(t[4]) == hex_value(u[4]));
        assert(hex_value(t[5]) == hex_value(u[5]));
        assert(hex_value(t[6]) == hex_value(u[6]));
        assert(hex_value(t[7]) == hex_value(u[7]));
        assert(hex_value(t[8]) == hex_value(u[8]));
        assert((a >> 28u32) & 15u32 == (b >> 28u32) & 15u32);
        assert((a >> 24u32) & 15u32 == (b >> 24u32) & 15u32);
        assert((a >> 20u32) & 15u32 == (b >> 20u32) & 15u32);
        assert((a >> 16u32) & 15u32 == (b >> 16u32) & 15u32);
        assert((a >> 12u32) & 15u32 == (b >> 12u32) & 15u32);
        assert((a >> 8u32) & 15u32 == (b >> 8u32) & 15u32);
        assert((a >> 4u32) & 15u32 == (b >> 4u32) & 15u32);
        assert(a & 15u32 == b & 15u32);
        assert(a == b);
    } else {
        let i = x.named_index()->0 as u32;
        let j = y.named_index()->0 as u32;
        lemma_byte_nibbles(i);
        lemma_byte_nibbles(j);
        lemma_hex_char_value((i >> 4u32) & 15u32);
        lemma_hex_char_value(i & 15u32);
        lemma_hex_char_value((j >> 4u32) & 15u32);
        lemma_hex_char_value(j & 15u32);
        assert(hex_value(t[1]) == hex_value(key_text(y)[1]));
        assert(hex_value(t[2]) == hex_value(key_text(y)[2]));
        assert((i >> 4u32) & 15u32 == (j >> 4u32) & 15u32);
        assert(i & 15u32 == j & 15u32);
        assert(i == j);
        assert(Keystroke::spec_from_named_index(i as u8) == Some(x));
        assert(Keystroke::spec_from_named_index(j as u8) == Some(y));
    }
}

proof fn lemma_key_prefix_unique(s: Seq<char>, x: Keystroke, y: Keystroke)
    requires
        key_text(x).len() <= s.len(),
        key_text(y).len() <= s.len(),
        s.subrange(0, key_text(x).len() as int) == key_text(x),
        s.subrange(0, key_text(y).len() as int) == key_text(y),
    ensures
        x == y,
{
    lemma_key_text_shape(x);
    lemma_key_text_shape(y);
    assert(s.subrange(0, key_text(x).len() as int)[0] == s[0]);
    assert(s.subrange(0, key_text(y).len() as int)[0] == s[0]);
    lemma_key_text_injective(x, y);
}

proof fn lemma_common_prefix(a: Seq<Keystroke>, b: Seq<Keystroke>, j: int)
    requires
        actions_text(a) == actions_text(b),
        0 <= j <= a.len(),
        j <= b.len(),
    ensures
        a.take(j) == b.take(j),
    decreases j,
{
    if j == 0 {
        assert(a.take(0) =~= b.take(0));
    } else {
        lemma_common_prefix(a, b, j - 1);
        lemma_key_at(a, j - 1);
        lemma_key_at(b, j - 1);
        let text = actions_text(a);
        let p = 1 + keys_text(a.take(j - 1)).len() + (if j - 1 > 0 { 1int } else { 0int });
        let rest = text.subrange(p, text.len() as int);
        let ka = key_text(a[j - 1]);
        let kb = key_text(b[j - 1]);
        assert(rest.subrange(0, ka.len() as int) =~= text.subrange(p, p + ka.len()));
        assert(rest.subrange(0, kb.len() as int) =~= text.subrange(p, p + kb.len()));
        lemma_key_prefix_unique(rest, a[j - 1], b[j - 1]);
        assert(a.take(j) =~= a.take(j - 1).push(a[j - 1]));
        assert(b.take(j) =~= b.take(j - 1).push(b[j - 1]));
    }
}

proof fn lemma_shorter_differs(a: Seq<Keystroke>, b: Seq<Keystroke>)
    requires
        a.len() < b.len(),
    ensures
        actions_text(a) != actions_text(b),
{
    if actions_text(a) == actions_text(b) {
        let text = actions_text(a);
        if a.len() == 0 {
            lemma_nonempty_text(b);
            assert(keys_text(a) =~= Seq::<char>::empty());
        } else {
            let j = a.len() - 1;
            lemma_common_prefix(a, b, a.len() as int);
            lemma_key_at(a, j);
            lemma_key_at(b, j);
            assert(a.take(j) == b.take(j)) by {
                assert(a.take(j) =~= a.take(a.len() as int).take(j));
                assert(b.take(j) =~= b.take(a.len() as int).take(j));
            }
            assert(a[j] == b[j]) by {
                assert(a[j] == a.take(a.len() as int)[j]);
                assert(b[j] == b.take(a.len() as int)[j]);
            }
            assert(text[text.len() - 1] == ']');
        }
    }
}

/// Different keystroke sequences have different texts, so decoding a
/// sequence's text gives that sequence back.
pub proof fn lemma_actions_text_injective(a: Seq<Keystroke>, b: Seq<Keystroke>)
    requires
        actions_text(a) == actions_text(b),
    ensures
        a == b,
{
    if a.len() < b.len() {
        lemma_shorter_differs(a, b);
    } else if b.len() < a.len() {
        lemma_shorter_differs(b, a);
    } else {
        lemma_common_prefix(a, b, a.len() as int);
        assert(a.take(a.len() as int) =~= a);
        assert(b.take(b.len() as int) =~= b);
    }
}

} // verus!
