//! Quantizing color bytes to a number of significant bits.

use crate::layout::TargetColors;
use vstd::prelude::*;
use vstd::string::StringSliceAdditionalSpecFns;

verus! {

/// How many of the most significant bits of each color byte are kept.
#[derive(Debug, Clone, Copy, PartialEq, Eq, Structural)]
pub enum SignificantBits {
    Bits1,
    Bits2,
    Bits3,
    Bits4,
    Bits5,
    Bits6,
    Bits7,
    Bits8,
}

/// How many low-order bits of a byte are discarded when `count` bits are kept.
pub open spec fn dropped_bits(bits: SignificantBits) -> u8 {
    match bits {
        SignificantBits::Bits1 => 7,
        SignificantBits::Bits2 => 6,
        SignificantBits::Bits3 => 5,
        SignificantBits::Bits4 => 4,
        SignificantBits::Bits5 => 3,
        SignificantBits::Bits6 => 2,
        SignificantBits::Bits7 => 1,
        SignificantBits::Bits8 => 0,
    }
}

/// The byte whose top `8 - shift` bits are set and whose other bits are clear.
pub open spec fn mask_for(shift: u8) -> u8 {
    (0xffu8 << shift) as u8
}

/// Half of the discarded range: the complement of the mask, shifted right once.
pub open spec fn bias_for(shift: u8) -> u8 {
    (!mask_for(shift)) >> 1u8
}

/// One color byte after its low `shift` bits are replaced by the midpoint bias.
pub open spec fn quantize(b: u8, shift: u8) -> u8 {
    (b & mask_for(shift)) | bias_for(shift)
}

/// A pixel buffer after every color byte of every whole chunk is quantized;
/// alpha bytes and the bytes of a trailing partial chunk are kept.
pub open spec fn masked_pixels(s: Seq<u8>, layout: TargetColors, bits: SignificantBits) -> Seq<u8> {
    Seq::new(
        s.len(),
        |i: int|
            if layout.is_color_byte(s.len(), i as nat) {
                quantize(s[i], dropped_bits(bits))
            } else {
                s[i]
            },
    )
}

/// The bytes that ASCII trimming removes: space, tab, line feed, form feed
/// and carriage return.
pub open spec fn is_ascii_blank(c: u8) -> bool {
    c == 0x20u8 || c == 0x09u8 || c == 0x0au8 || c == 0x0cu8 || c == 0x0du8
}

/// `text` is the single byte at `k` with only ASCII whitespace around it.
pub open spec fn lone_byte_at(text: Seq<u8>, k: int) -> bool {
    &&& 0 <= k < text.len()
    &&& forall|i: int| 0 <= i < text.len() && i != k ==> is_ascii_blank(#[trigger] text[i])
}

/// The count of significant bits that `text` names: one decimal digit from
/// 1 to 8, possibly surrounded by ASCII whitespace.
pub open spec fn parsed_bits(text: Seq<u8>) -> Option<nat> {
    if exists|k: int| lone_byte_at(text, k) && 0x31u8 <= #[trigger] text[k] <= 0x38u8 {
        let k = choose|k: int| lone_byte_at(text, k) && 0x31u8 <= #[trigger] text[k] <= 0x38u8;
        Some((text[k] - 0x30u8) as nat)
    } else {
        None
    }
}

/// The error for text that names no count of bits.
pub const BITS_ERROR: &'static str = "expected value between 1 and 8";

impl SignificantBits {
    pub open spec fn count(self) -> nat {
        (8 - dropped_bits(self)) as nat
    }

    /// The mask of this bit count: its top bits set.
    pub fn mask(self) -> (r: u8)
        ensures
            r == mask_for(dropped_bits(self)),
    {
        let shift: u8 = match self {
            SignificantBits::Bits1 => 7,
            SignificantBits::Bits2 => 6,
            SignificantBits::Bits3 => 5,
            SignificantBits::Bits4 => 4,
            SignificantBits::Bits5 => 3,
            SignificantBits::Bits6 => 2,
            SignificantBits::Bits7 => 1,
            SignificantBits::Bits8 => 0,
        };
        0xffu8 << shift
    }

    /// The midpoint bias that replaces the discarded bits.
    pub fn bias(self) -> (r: u8)
        ensures
            r == bias_for(dropped_bits(self)),
    {
        (!self.mask()) >> 1u8
    }

    /// The count of significant bits named by a digit byte from `1` to `8`.
    fn from_digit(d: u8) -> (r: SignificantBits)
        requires
            0x31u8 <= d <= 0x38u8,
        ensures
            r.count() == (d - 0x30u8) as nat,
    {
        if d == 0x31u8 {
            SignificantBits::Bits1
        } else if d == 0x32u8 {
            SignificantBits::Bits2
        } else if d == 0x33u8 {
            SignificantBits::Bits3
        } else if d == 0x34u8 {
            SignificantBits::Bits4
        } else if d == 0x35u8 {
            SignificantBits::Bits5
        } else if d == 0x36u8 {
            SignificantBits::Bits6
        } else if d == 0x37u8 {
            SignificantBits::Bits7
        } else {
            SignificantBits::Bits8
        }
    }

    /// Parses a count of significant bits: a digit from 1 to 8, with ASCII
    /// whitespace allowed around it.
    pub fn parse(s: &str) -> (r: Result<SignificantBits, &'static str>)
        ensures
            match parsed_bits(s.spec_bytes()) {
                Some(n) => r is Ok && r->Ok_0.count() == n,
                None => r == Err::<SignificantBits, &'static str>(BITS_ERROR),
            },
    {
        let b = s.as_bytes();
        let ghost text = b@;
        let len = b.len();
        let mut start: usize = 0;
        while start < len && (b[start] == 0x20u8 || b[start] == 0x09u8 || b[start] == 0x0au8
            || b[start] == 0x0cu8 || b[start] == 0x0du8)
            invariant
                start <= len,
                len == text.len(),
                b@ == text,
                forall|i: int| 0 <= i < start ==> is_ascii_blank(#[trigger] text[i]),
            decreases len - start,
        {
            start += 1;
        }
        let mut end: usize = len;
        while end > start && (b[end - 1] == 0x20u8 || b[end - 1] == 0x09u8 || b[end - 1]
            == 0x0au8 || b[end - 1] == 0x0cu8 || b[end - 1] == 0x0du8)
            invariant
                start <= end <= len,
                len == text.len(),
                b@ == text,
                forall|i: int| end <= i < len ==> is_ascii_blank(#[trigger] text[i]),
            decreases end,
        {
            end -= 1;
        }
        if end - start == 1 && 0x31u8 <= b[start] && b[start] <= 0x38u8 {
            let d = b[start];
            proof {
                assert(lone_byte_at(text, start as int));
                let k = choose|k: int| lone_byte_at(text, k) && 0x31u8 <= #[trigger] text[k] <= 0x38u8;
                if k != start as int {
                    assert(!is_ascii_blank(text[start as int]));
                    assert(!is_ascii_blank(text[k]));
                }
            }
            Ok(SignificantBits::from_digit(d))
        } else {
            proof {
                if exists|k: int| lone_byte_at(text, k) && 0x31u8 <= #[trigger] text[k] <= 0x38u8 {
                    let k = choose|k: int| lone_byte_at(text, k) && 0x31u8 <= #[trigger] text[k] <= 0x38u8;
                    assert(!is_ascii_blank(text[k]));
                    if start < end {
                        assert(!is_ascii_blank(text[start as int]));
                        assert(!is_ascii_blank(text[end - 1]));
                    }
                }
            }
            Err(BITS_ERROR)
        }
    }

    /// Quantizes the color bytes of `bytes`, laid out as `target_colors`, in
    /// place. Keeping all eight bits leaves the buffer as it is.
    pub fn run(self, bytes: &mut [u8], target_colors: TargetColors)
        ensures
            final(bytes)@ == masked_pixels(old(bytes)@, target_colors, self),
    {
        if self == SignificantBits::Bits8 {
            proof {
                lemma_keep_all_bits(bytes@, target_colors);
            }
            return;
        }
        let mask = self.mask();
        let bias = self.bias();
        let (chunk, colors): (usize, usize) = match target_colors {
            TargetColors::L8 | TargetColors::Rgb8 => (1, 1),
            TargetColors::La8 => (2, 1),
            TargetColors::Rgba8 => (4, 3),
        };
        let len = bytes.len();
        let ghost orig = bytes@;
        let ghost target = masked_pixels(orig, target_colors, self);
        let mut i: usize = 0;
        while i < len
            invariant
                len == bytes@.len(),
                len == orig.len(),
                i <= len,
                chunk as nat == target_colors.chunk_len(),
                colors as nat == target_colors.color_len(),
                mask == mask_for(dropped_bits(self)),
                bias == bias_for(dropped_bits(self)),
                target == masked_pixels(orig, target_colors, self),
                forall|j: int| 0 <= j < i ==> bytes@[j] == target[j],
                forall|j: int| i <= j < len ==> bytes@[j] == orig[j],
            decreases len - i,
        {
            let off = i % chunk;
            if off < colors && chunk <= len && i - off <= len - chunk {
                bytes[i] = (bytes[i] & mask) | bias;
            }
            i += 1;
        }
        assert(bytes@ =~= target);
    }
}

impl std::str::FromStr for SignificantBits {
    type Err = &'static str;

    fn from_str(s: &str) -> (r: Result<SignificantBits, &'static str>)
        ensures
            match parsed_bits(s.spec_bytes()) {
                Some(n) => r is Ok && r->Ok_0.count() == n,
                None => r == Err::<SignificantBits, &'static str>(BITS_ERROR),
            },
    {
        SignificantBits::parse(s)
    }
}

proof fn lemma_quantize_keep_all(b: u8)
    ensures
        ((b & (0xffu8 << 0u8)) | (!(0xffu8 << 0u8) >> 1u8)) == b,
{
    assert(((b & (0xffu8 << 0u8)) | (!(0xffu8 << 0u8) >> 1u8)) == b) by (bit_vector);
}

/// Keeping all eight bits changes nothing.
pub proof fn lemma_keep_all_bits(s: Seq<u8>, layout: TargetColors)
    ensures
        masked_pixels(s, layout, SignificantBits::Bits8) == s,
{
    assert forall|i: int| 0 <= i < s.len() implies masked_pixels(
        s,
        layout,
        SignificantBits::Bits8,
    )[i] == s[i] by {
        lemma_quantize_keep_all(s[i]);
    }
    assert(masked_pixels(s, layout, SignificantBits::Bits8) =~= s);
}


proof fn lemma_quantize_zero(s: u8)
    ensures
        ((0u8 & (0xffu8 << s)) | (!(0xffu8 << s) >> 1u8)) == (!(0xffu8 << s) >> 1u8),
{
    assert(((0u8 & (0xffu8 << s)) | (!(0xffu8 << s) >> 1u8)) == (!(0xffu8 << s) >> 1u8))
        by (bit_vector);
}

proof fn lemma_quantize_coarser(b: u8, fine: u8, coarse: u8)
    requires
        fine <= coarse,
        coarse <= 7,
    ensures
        ((((b & (0xffu8 << fine)) | (!(0xffu8 << fine) >> 1u8)) & (0xffu8 << coarse)) | (!(0xffu8
            << coarse) >> 1u8)) == ((b & (0xffu8 << coarse)) | (!(0xffu8 << coarse) >> 1u8)),
{
    assert(((((b & (0xffu8 << fine)) | (!(0xffu8 << fine) >> 1u8)) & (0xffu8 << coarse)) | (!(
    0xffu8 << coarse) >> 1u8)) == ((b & (0xffu8 << coarse)) | (!(0xffu8 << coarse) >> 1u8)))
        by (bit_vector)
        requires
            fine <= coarse,
            coarse <= 7,
    ;
}

/// An all-zero buffer comes out with the midpoint bias in every color byte
/// and zero in every other byte.
pub proof fn lemma_zero_buffer(s: Seq<u8>, layout: TargetColors, bits: SignificantBits)
    requires
        forall|i: int| 0 <= i < s.len() ==> s[i] == 0,
    ensures
        masked_pixels(s, layout, bits).len() == s.len(),
        forall|i: int|
            0 <= i < s.len() ==> masked_pixels(s, layout, bits)[i] == if layout.is_color_byte(
                s.len(),
                i as nat,
            ) {
                bias_for(dropped_bits(bits))
            } else {
                0u8
            },
{
    assert forall|i: int| 0 <= i < s.len() implies masked_pixels(s, layout, bits)[i] == if layout.is_color_byte(
        s.len(),
        i as nat,
    ) {
        bias_for(dropped_bits(bits))
    } else {
        0u8
    } by {
        lemma_quantize_zero(dropped_bits(bits));
    }
}

/// Masking with a count of bits, then again with the same or a smaller
/// count, is masking once with the smaller count.
pub proof fn lemma_coarser_absorbs_finer(
    s: Seq<u8>,
    layout: TargetColors,
    fine: SignificantBits,
    coarse: SignificantBits,
)
    requires
        coarse.count() <= fine.count(),
    ensures
        masked_pixels(masked_pixels(s, layout, fine), layout, coarse) == masked_pixels(
            s,
            layout,
            coarse,
        ),
{
    let once = masked_pixels(s, layout, fine);
    assert forall|i: int| 0 <= i < s.len() implies masked_pixels(once, layout, coarse)[i]
        == masked_pixels(s, layout, coarse)[i] by {
        lemma_quantize_coarser(s[i], dropped_bits(fine), dropped_bits(coarse));
    }
    assert(masked_pixels(once, layout, coarse) =~= masked_pixels(s, layout, coarse));
}

/// Masking twice with the same count of bits is masking once.
pub proof fn lemma_idempotent(s: Seq<u8>, layout: TargetColors, bits: SignificantBits)
    ensures
        masked_pixels(masked_pixels(s, layout, bits), layout, bits) == masked_pixels(
            s,
            layout,
            bits,
        ),
{
    lemma_coarser_absorbs_finer(s, layout, bits, bits);
}

/// Alpha bytes are never changed: the fourth byte of each `Rgba8` pixel and
/// the second byte of each `La8` pixel keep their value.
pub proof fn lemma_alpha_kept(s: Seq<u8>, layout: TargetColors, bits: SignificantBits)
    ensures
        layout == TargetColors::Rgba8 ==> forall|i: int|
            0 <= i < s.len() && i % 4 == 3 ==> #[trigger] masked_pixels(s, layout, bits)[i] == s[i],
        layout == TargetColors::La8 ==> forall|i: int|
            0 <= i < s.len() && i % 2 == 1 ==> #[trigger] masked_pixels(s, layout, bits)[i] == s[i],
{
}

/// Of an `Rgba8` buffer only the red, green and blue bytes of whole pixels
/// may change; of an `La8` buffer only the luma bytes of whole pixels.
pub proof fn lemma_only_color_bytes_change(
    s: Seq<u8>,
    layout: TargetColors,
    bits: SignificantBits,
)
    ensures
        forall|i: int|
            0 <= i < s.len() && #[trigger] masked_pixels(s, layout, bits)[i] != s[i] ==> {
                &&& layout == TargetColors::Rgba8 ==> i % 4 < 3 && i - i % 4 + 4 <= s.len()
                &&& layout == TargetColors::La8 ==> i % 2 == 0 && i - i % 2 + 2 <= s.len()
            },
{
}

} // verus!
