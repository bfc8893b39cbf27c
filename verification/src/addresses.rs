use vstd::prelude::*;
use vstd::string::StringExecFns;
use crate::model::{Frame, FrameV};
use crate::text::push_char;

verus! {

pub open spec fn hex_digit(d: int) -> char {
    if d == 0 {
        '0'
    } else if d == 1 {
        '1'
    } else if d == 2 {
        '2'
    } else if d == 3 {
        '3'
    } else if d == 4 {
        '4'
    } else if d == 5 {
        '5'
    } else if d == 6 {
        '6'
    } else if d == 7 {
        '7'
    } else if d == 8 {
        '8'
    } else if d == 9 {
        '9'
    } else if d == 10 {
        'a'
    } else if d == 11 {
        'b'
    } else if d == 12 {
        'c'
    } else if d == 13 {
        'd'
    } else if d == 14 {
        'e'
    } else {
        'f'
    }
}

/// Lower-case hexadecimal digits of `n`, most significant first, with no
/// zero padding (zero itself is one digit).
pub open spec fn hex_rep(n: int) -> Seq<char>
    decreases n,
{
    if n < 16 {
        seq![hex_digit(n)]
    } else {
        hex_rep(n / 16) + seq![hex_digit(n % 16)]
    }
}

/// The two's-complement bits of a raw offset, read as unsigned, the way
/// hexadecimal formatting of a signed value shows them.
pub open spec fn offset_bits(n: i64) -> u64 {
    if n >= 0 {
        n as u64
    } else {
        (n + 0x1_0000_0000_0000_0000) as u64
    }
}

/// The textual form of one frame's offset.
pub open spec fn offset_str(n: i64) -> Seq<char> {
    "0x"@ + hex_rep(offset_bits(n) as int)
}

fn hex_digit_exec(d: u64) -> (r: char)
    requires
        d < 16,
    ensures
        r == hex_digit(d as int),
{
    if d == 0 {
        '0'
    } else if d == 1 {
        '1'
    } else if d == 2 {
        '2'
    } else if d == 3 {
        '3'
    } else if d == 4 {
        '4'
    } else if d == 5 {
        '5'
    } else if d == 6 {
        '6'
    } else if d == 7 {
        '7'
    } else if d == 8 {
        '8'
    } else if d == 9 {
        '9'
    } else if d == 10 {
        'a'
    } else if d == 11 {
        'b'
    } else if d == 12 {
        'c'
    } else if d == 13 {
        'd'
    } else if d == 14 {
        'e'
    } else {
        'f'
    }
}

/// Formats `n` as bare lower-case hexadecimal digits.
pub fn hex_string(n: u64) -> (r: String)
    ensures
        r@ == hex_rep(n as int),
{
    let mut digits: Vec<char> = Vec::new();
    let mut m: u64 = n;
    digits.push(hex_digit_exec(m % 16));
    m = m / 16;
    proof {
        assert(digits@.reverse() =~= seq![hex_digit(n as int % 16)]);
        if n >= 16 {
            assert(hex_rep(n as int) == hex_rep(n as int / 16) + seq![hex_digit(n as int % 16)]);
        }
    }
    while m != 0
        invariant
            if m == 0 {
                hex_rep(n as int) == digits@.reverse()
            } else {
                hex_rep(n as int) == hex_rep(m as int) + digits@.reverse()
            },
        decreases m,
    {
        let d = hex_digit_exec(m % 16);
        let ghost old_digits = digits@;
        let ghost old_m = m as int;
        digits.push(d);
        m = m / 16;
        proof {
            assert(digits@.reverse() =~= seq![hex_digit(old_m % 16)] + old_digits.reverse());
            if old_m < 16 {
                assert(hex_rep(old_m) == seq![hex_digit(old_m)]);
                assert(hex_rep(n as int) == digits@.reverse());
            } else {
                assert(hex_rep(old_m) == hex_rep(old_m / 16) + seq![hex_digit(old_m % 16)]);
                assert(hex_rep(n as int) == hex_rep(m as int) + digits@.reverse());
            }
        }
    }
    let mut out = String::new();
    let total: usize = digits.len();
    let mut j: usize = total;
    proof {
        assert(digits@.skip(total as int).reverse() =~= Seq::<char>::empty());
    }
    while j > 0
        invariant
            total == digits@.len(),
            j <= total,
            out@ == digits@.skip(j as int).reverse(),
        decreases j,
    {
        let ghost before = out@;
        push_char(&mut out, digits[j - 1]);
        proof {
            assert(digits@.skip(j - 1).reverse() =~= before.push(digits@[j - 1]));
        }
        j -= 1;
    }
    proof {
        assert(digits@.skip(0).reverse() =~= digits@.reverse());
    }
    out
}

/// Formats one raw offset as `0x` plus bare hexadecimal digits.
pub fn format_offset(n: i64) -> (r: String)
    ensures
        r@ == offset_str(n),
{
    let bits: u64 = if n >= 0 {
        n as u64
    } else {
        #[verifier::truncate]
        let w: u64 = ((n as i128) + 0x1_0000_0000_0000_0000i128) as u64;
        w
    };
    proof {
        assert(bits == offset_bits(n));
    }
    let digits = hex_string(bits);
    let mut out = String::from_str("0x");
    out.append(digits.as_str());
    out
}

/// The ordered hexadecimal offset list handed to the symbol resolver: one
/// entry per frame, leaf-first, in the frames' own order.
pub open spec fn offsets_of(frames: Seq<FrameV>) -> Seq<Seq<char>> {
    Seq::new(frames.len(), |i: int| offset_str(frames[i].image_offset))
}

pub fn frame_offsets(frames: &Vec<Frame>) -> (r: Vec<String>)
    ensures
        r@.len() == frames@.len(),
        forall|i: int|
            0 <= i < r@.len() ==> r@[i]@ == offset_str(frames@[i].image_offset),
{
    let mut out: Vec<String> = Vec::new();
    let n: usize = frames.len();
    let mut i: usize = 0;
    while i < n
        invariant
            n == frames@.len(),
            i <= n,
            out@.len() == i,
            forall|k: int| 0 <= k < i ==> out@[k]@ == offset_str(frames@[k].image_offset),
        decreases n - i,
    {
        out.push(format_offset(frames[i].image_offset));
        i += 1;
    }
    out
}

} // verus!
