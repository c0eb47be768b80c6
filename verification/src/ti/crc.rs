//! The CRC-32 by which the device checks the content of its flash.

use vstd::prelude::*;

verus! {

/// The generator polynomial, lowest power first.
pub const CRC32_RPOLY: u32 = 0xEDB8_8320;

/// The state of the register before the first bit, and what its last state is xored with.
pub const CRC32_INIT: u32 = 0xFFFF_FFFF;

/// The state of the register when one more bit has been shifted in: the lowest bit of the
/// state and the bit of the message leave together, and if they differ, the generator
/// polynomial is subtracted.
pub open spec fn crc_shift(state: u32, bit: bool) -> u32 {
    if (state & 1 == 1) != bit {
        (state >> 1) ^ CRC32_RPOLY
    } else {
        state >> 1
    }
}

/// The state of the register when the lowest `n` bits of `word`, lowest first, have been
/// shifted in.
pub open spec fn crc_feed(state: u32, word: u32, n: nat) -> u32
    decreases n,
{
    if n == 0 {
        state
    } else {
        crc_shift(
            crc_feed(state, word, (n - 1) as nat),
            (word >> ((n - 1) as u32)) & 1 == 1,
        )
    }
}

/// The state of the register when the bytes have been shifted in.
pub open spec fn crc_state(data: Seq<u8>) -> u32
    decreases data.len(),
{
    if data.len() == 0 {
        CRC32_INIT
    } else {
        crc_feed(crc_state(data.drop_last()), data.last() as u32, 8)
    }
}

/// The CRC-32 (ISO-HDLC) of the bytes.
pub open spec fn crc32(data: Seq<u8>) -> u32 {
    crc_state(data) ^ 0xFFFF_FFFF
}

/// Xoring the bits into the state beforehand gives the same as shifting them in.
proof fn lemma_feed_step(state: u32, word: u32, k: u32)
    requires
        k < 32,
    ensures
        ({
            let fed = crc_feed(state, word, k as nat);
            let next = crc_feed(state, word, (k + 1) as nat);
            let ahead = fed ^ (word >> k);
            next ^ ((word >> k) >> 1) == if ahead & 1 == 1 {
                (ahead >> 1) ^ CRC32_RPOLY
            } else {
                ahead >> 1
            }
        }),
{
    let fed = crc_feed(state, word, k as nat);
    let rest = word >> k;
    let ahead = fed ^ rest;
    assert((fed ^ rest) & 1 == 1 <==> (fed & 1 == 1) != (rest & 1 == 1)) by (bit_vector);
    assert((fed ^ rest) >> 1 == (fed >> 1) ^ (rest >> 1)) by (bit_vector);
    assert(((fed >> 1) ^ 0xEDB8_8320u32) ^ (rest >> 1) == ((fed >> 1) ^ (rest >> 1))
        ^ 0xEDB8_8320u32) by (bit_vector);
}

/// Calculates the CRC-32 using the ISO-HDLC polynomial.
pub fn crc32_iso_hdlc(data: &[u8]) -> (crc: u32)
    ensures
        crc == crc32(data@),
{
    let mut crc: u32 = CRC32_INIT;
    let mut i: usize = 0;
    assert(data@.take(0) =~= Seq::empty());
    while i < data.len()
        invariant
            i <= data@.len(),
            crc == crc_state(data@.take(i as int)),
        decreases data@.len() - i,
    {
        let byte: u32 = data[i] as u32;
        let ghost state = crc;
        crc = crc ^ byte;
        assert(byte >> 0u32 == byte) by (bit_vector);
        let mut k: u32 = 0;
        while k < 8
            invariant
                k <= 8,
                crc == crc_feed(state, byte, k as nat) ^ (byte >> k),
            decreases 8 - k,
        {
            proof {
                lemma_feed_step(state, byte, k);
                let next: u32 = (k + 1) as u32;
                assert((byte >> k) >> 1u32 == byte >> next) by (bit_vector)
                    requires
                        k < 8,
                        next == k + 1,
                ;
            }
            if crc & 1 != 0 {
                assert(crc & 1 != 0 ==> crc & 1 == 1) by (bit_vector);
                crc = (crc >> 1u32) ^ CRC32_RPOLY;
            } else {
                crc = crc >> 1u32;
            }
            k = k + 1;
        }
        assert(byte >> 8u32 == 0) by (bit_vector)
            requires
                byte <= 0xFF,
        ;
        let ghost fed = crc_feed(state, byte, 8);
        assert(fed ^ 0 == fed) by (bit_vector);
        assert(data@.take(i + 1).drop_last() =~= data@.take(i as int));
        i = i + 1;
    }
    assert(data@.take(i as int) =~= data@);
    crc ^ 0xFFFF_FFFF
}

/// The state of the register when `n` zero bits have been shifted in.
spec fn crc_turns(state: u32, n: nat) -> u32
    decreases n,
{
    if n == 0 {
        state
    } else {
        crc_shift(crc_turns(state, (n - 1) as nat), false)
    }
}

/// What is left of `word` when its lowest `n` bits have been taken off one by one.
spec fn shifted_off(word: u32, n: nat) -> u32
    decreases n,
{
    if n == 0 {
        word
    } else {
        shifted_off(word, (n - 1) as nat) >> 1
    }
}

proof fn lemma_shifted_off(word: u32, n: u32)
    requires
        n < 32,
    ensures
        shifted_off(word, n as nat) == word >> n,
    decreases n,
{
    if n == 0 {
        assert(word >> 0u32 == word) by (bit_vector);
    } else {
        let m: u32 = (n - 1) as u32;
        lemma_shifted_off(word, m);
        assert((word >> m) >> 1u32 == word >> n) by (bit_vector)
            requires
                n < 32,
                n == m + 1,
        ;
    }
}

/// Xoring a word into the state and shifting in zero bits gives the same as shifting in the
/// bits of the word.
proof fn lemma_feed_is_turns(state: u32, word: u32, n: nat)
    requires
        n <= 32,
    ensures
        crc_feed(state, word, n) ^ shifted_off(word, n) == crc_turns(state ^ word, n),
    decreases n,
{
    if n > 0 {
        let m: u32 = (n - 1) as u32;
        lemma_feed_is_turns(state, word, m as nat);
        lemma_shifted_off(word, m);
        lemma_feed_step(state, word, m);
    }
}

proof fn lemma_shift_injective(a: u32, b: u32, bit: bool)
    requires
        crc_shift(a, bit) == crc_shift(b, bit),
    ensures
        a == b,
{
    let next_a = crc_shift(a, bit);
    let next_b = crc_shift(b, bit);
    assert(a == b) by (bit_vector)
        requires
            next_a == if (a & 1 == 1) != bit {
                (a >> 1) ^ 0xEDB8_8320u32
            } else {
                a >> 1
            },
            next_b == if (b & 1 == 1) != bit {
                (b >> 1) ^ 0xEDB8_8320u32
            } else {
                b >> 1
            },
            next_a == next_b,
    ;
}

proof fn lemma_turns_injective(a: u32, b: u32, n: nat)
    requires
        crc_turns(a, n) == crc_turns(b, n),
    ensures
        a == b,
    decreases n,
{
    if n > 0 {
        let m = (n - 1) as nat;
        lemma_shift_injective(crc_turns(a, m), crc_turns(b, m), false);
        lemma_turns_injective(a, b, m);
    }
}

/// Different states stay different under the same bits.
proof fn lemma_feed_injective_in_state(a: u32, b: u32, word: u32, n: nat)
    requires
        crc_feed(a, word, n) == crc_feed(b, word, n),
    ensures
        a == b,
    decreases n,
{
    if n > 0 {
        let m = (n - 1) as nat;
        lemma_shift_injective(
            crc_feed(a, word, m),
            crc_feed(b, word, m),
            (word >> (m as u32)) & 1 == 1,
        );
        lemma_feed_injective_in_state(a, b, word, m);
    }
}

/// Different bits lead from the same state to different states.
proof fn lemma_feed_injective_in_word(state: u32, a: u32, b: u32, n: nat)
    requires
        n <= 32,
        shifted_off(a, n) == shifted_off(b, n),
        crc_feed(state, a, n) == crc_feed(state, b, n),
    ensures
        a == b,
{
    lemma_feed_is_turns(state, a, n);
    lemma_feed_is_turns(state, b, n);
    lemma_turns_injective(state ^ a, state ^ b, n);
    assert(a == b) by (bit_vector)
        requires
            state ^ a == state ^ b,
    ;
}

/// Bits can be shifted in in two portions.
proof fn lemma_feed_in_portions(state: u32, word: u32, n: nat, k: nat)
    requires
        n < 32,
        n + k <= 32,
    ensures
        crc_feed(state, word, n + k) == crc_feed(
            crc_feed(state, word, n),
            word >> (n as u32),
            k,
        ),
    decreases k,
{
    if k > 0 {
        let m = (k - 1) as nat;
        lemma_feed_in_portions(state, word, n, m);
        let lower: u32 = n as u32;
        let upper: u32 = m as u32;
        let both: u32 = (n + m) as u32;
        assert((word >> lower) >> upper == word >> both) by (bit_vector)
            requires
                lower < 32,
                upper < 32,
                both < 32,
                both == lower + upper,
        ;
        assert((n + k - 1) as nat == n + m);
    }
}

/// Only the lowest `n` bits of a word matter.
proof fn lemma_feed_low_bits(state: u32, a: u32, b: u32, n: nat)
    requires
        n <= 32,
        forall|i: u32| #![trigger a >> i] i < n ==> (a >> i) & 1 == (b >> i) & 1,
    ensures
        crc_feed(state, a, n) == crc_feed(state, b, n),
    decreases n,
{
    if n > 0 {
        let m: u32 = (n - 1) as u32;
        assert((a >> m) & 1 == (b >> m) & 1);
        lemma_feed_low_bits(state, a, b, m as nat);
    }
}

/// At most four bytes as a word, the first byte lowest.
spec fn window_word(bytes: Seq<u8>) -> u32
    decreases bytes.len(),
{
    if bytes.len() == 0 {
        0
    } else {
        window_word(bytes.drop_last()) | ((bytes.last() as u32) << ((8 * (bytes.len() - 1)) as u32))
    }
}

proof fn lemma_window_word_fits(bytes: Seq<u8>)
    requires
        bytes.len() <= 4,
    ensures
        bytes.len() < 4 ==> window_word(bytes) >> ((8 * bytes.len()) as u32) == 0,
        shifted_off(window_word(bytes), 8 * bytes.len()) == 0,
    decreases bytes.len(),
{
    let n: u32 = (8 * bytes.len()) as u32;
    let word = window_word(bytes);
    if bytes.len() == 0 {
        assert(0u32 >> 0u32 == 0) by (bit_vector);
    } else {
        let low = window_word(bytes.drop_last());
        let last = bytes.last() as u32;
        let m: u32 = (8 * (bytes.len() - 1)) as u32;
        lemma_window_word_fits(bytes.drop_last());
        if bytes.len() < 4 {
            assert((low | (last << m)) >> n == 0) by (bit_vector)
                requires
                    low >> m == 0,
                    last <= 0xFF,
                    n == m + 8,
                    n < 32,
            ;
            lemma_shifted_off(word, n);
        } else {
            lemma_shifted_off(word, 31);
            assert((word >> 31u32) >> 1u32 == 0) by (bit_vector);
        }
    }
}

proof fn lemma_window_word_injective(a: Seq<u8>, b: Seq<u8>)
    requires
        a.len() == b.len() <= 4,
        window_word(a) == window_word(b),
    ensures
        a == b,
    decreases a.len(),
{
    if a.len() > 0 {
        let m: u32 = (8 * (a.len() - 1)) as u32;
        let low_a = window_word(a.drop_last());
        let low_b = window_word(b.drop_last());
        let last_a = a.last() as u32;
        let last_b = b.last() as u32;
        lemma_window_word_fits(a.drop_last());
        lemma_window_word_fits(b.drop_last());
        assert(low_a == low_b && last_a == last_b) by (bit_vector)
            requires
                low_a >> m == 0,
                low_b >> m == 0,
                last_a <= 0xFF,
                last_b <= 0xFF,
                m <= 24,
                low_a | (last_a << m) == low_b | (last_b << m),
        ;
        lemma_window_word_injective(a.drop_last(), b.drop_last());
        assert(a =~= a.drop_last().push(a.last()));
        assert(b =~= b.drop_last().push(b.last()));
    } else {
        assert(a =~= b);
    }
}

/// At most four bytes can be shifted in as one word.
proof fn lemma_state_after_window(before: Seq<u8>, window: Seq<u8>)
    requires
        window.len() <= 4,
    ensures
        crc_state(before + window) == crc_feed(
            crc_state(before),
            window_word(window),
            8 * window.len(),
        ),
    decreases window.len(),
{
    if window.len() == 0 {
        assert(before + window =~= before);
    } else {
        let shorter = window.drop_last();
        let state = crc_state(before);
        let m: u32 = (8 * shorter.len()) as u32;
        let low = window_word(shorter);
        let last = window.last() as u32;
        let word = window_word(window);
        lemma_state_after_window(before, shorter);
        lemma_window_word_fits(shorter);
        assert((before + window).drop_last() =~= before + shorter);
        lemma_feed_in_portions(state, word, m as nat, 8);
        assert(word >> m == last) by (bit_vector)
            requires
                word == low | (last << m),
                low >> m == 0,
                last <= 0xFF,
                m <= 24,
        ;
        assert forall|i: u32| #![trigger word >> i] i < m implies (word >> i) & 1 == (low >> i) & 1 by {
            assert((word >> i) & 1 == (low >> i) & 1) by (bit_vector)
                requires
                    word == low | (last << m),
                    i < m,
                    m <= 24,
            ;
        }
        lemma_feed_low_bits(state, word, low, m as nat);
    }
}

/// Different states stay different under the same bytes.
proof fn lemma_state_before_tail(a: Seq<u8>, b: Seq<u8>, tail: Seq<u8>)
    requires
        crc_state(a + tail) == crc_state(b + tail),
    ensures
        crc_state(a) == crc_state(b),
    decreases tail.len(),
{
    if tail.len() == 0 {
        assert(a + tail =~= a);
        assert(b + tail =~= b);
    } else {
        let shorter = tail.drop_last();
        assert((a + tail).drop_last() =~= a + shorter);
        assert((b + tail).drop_last() =~= b + shorter);
        lemma_feed_injective_in_state(
            crc_state(a + shorter),
            crc_state(b + shorter),
            tail.last() as u32,
            8,
        );
        lemma_state_before_tail(a, b, shorter);
    }
}

/// A change that stays within four bytes in a row changes the CRC-32.
pub proof fn law_crc_detects_change_within_four_bytes(data: Seq<u8>, changed: Seq<u8>, start: int)
    requires
        data.len() == changed.len(),
        data != changed,
        forall|i: int|
            0 <= i < data.len() && !(start <= i < start + 4) ==> #[trigger] data[i] == changed[i],
    ensures
        crc32(data) != crc32(changed),
{
    let from = if start < 0 {
        0
    } else if start > data.len() {
        data.len() as int
    } else {
        start
    };
    let to = if start + 4 < from {
        from
    } else if start + 4 > data.len() {
        data.len() as int
    } else {
        start + 4
    };
    let before = data.take(from);
    let window = data.subrange(from, to);
    let window_changed = changed.subrange(from, to);
    let tail = data.skip(to);
    assert(data =~= before + window + tail);
    assert(changed =~= before + window_changed + tail);
    if crc32(data) == crc32(changed) {
        let state = crc_state(data);
        let state_changed = crc_state(changed);
        assert(state == state_changed) by (bit_vector)
            requires
                state ^ 0xFFFF_FFFFu32 == state_changed ^ 0xFFFF_FFFFu32,
        ;
        lemma_state_before_tail(before + window, before + window_changed, tail);
        lemma_state_after_window(before, window);
        lemma_state_after_window(before, window_changed);
        lemma_window_word_fits(window);
        lemma_window_word_fits(window_changed);
        lemma_feed_injective_in_word(
            crc_state(before),
            window_word(window),
            window_word(window_changed),
            8 * window.len(),
        );
        lemma_window_word_injective(window, window_changed);
    }
}

/// A word divided by the generator polynomial: it is halved, and what was odd about it is
/// made up for by the polynomial.
pub open spec fn halved(word: u32) -> u32 {
    if word % 2 == 1 {
        ((word / 2) as u32) ^ 0xEDB8_8320
    } else {
        (word / 2) as u32
    }
}

proof fn lemma_shift_halves(word: u32)
    ensures
        crc_shift(word, false) == halved(word),
{
    assert((word & 1 == 1) == (word % 2 == 1) && word >> 1 == word / 2) by (bit_vector);
}

/// The CRC-32 of no bytes is zero. With each byte that is appended, the inverted CRC-32 takes
/// up the byte and is halved eight times.
pub proof fn law_crc_takes_up_every_byte(data: Seq<u8>, byte: u8)
    ensures
        crc32(Seq::<u8>::empty()) == 0,
        ({
            let start = (crc32(data) ^ 0xFFFF_FFFF) ^ (byte as u32);
            let half = halved(halved(halved(halved(start))));
            crc32(data.push(byte)) ^ 0xFFFF_FFFF == halved(halved(halved(halved(half))))
        }),
{
    assert(0xFFFF_FFFFu32 ^ 0xFFFF_FFFFu32 == 0) by (bit_vector);
    assert(crc_state(Seq::<u8>::empty()) == 0xFFFF_FFFF);
    let state = crc_state(data);
    let word = byte as u32;
    let longer = data.push(byte);
    assert(longer.drop_last() =~= data);
    let fed = crc_feed(state, word, 8);
    assert(crc_state(longer) == fed);
    lemma_feed_is_turns(state, word, 8);
    lemma_shifted_off(word, 8);
    assert(word >> 8u32 == 0 && fed ^ 0 == fed && (fed ^ 0xFFFF_FFFF) ^ 0xFFFF_FFFF == fed && (state
        ^ 0xFFFF_FFFF) ^ 0xFFFF_FFFF == state) by (bit_vector)
        requires
            word <= 0xFF,
    ;
    reveal_with_fuel(crc_turns, 9);
    let start = state ^ word;
    let w1 = halved(start);
    let w2 = halved(w1);
    let w3 = halved(w2);
    let w4 = halved(w3);
    let w5 = halved(w4);
    let w6 = halved(w5);
    let w7 = halved(w6);
    lemma_shift_halves(start);
    lemma_shift_halves(w1);
    lemma_shift_halves(w2);
    lemma_shift_halves(w3);
    lemma_shift_halves(w4);
    lemma_shift_halves(w5);
    lemma_shift_halves(w6);
    lemma_shift_halves(w7);
}

} // verus!
