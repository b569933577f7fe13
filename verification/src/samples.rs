use vstd::prelude::*;

verus! {

/// Split interleaved stereo samples (L,R,L,R,...) into planar layout: all
/// left samples first, then all right samples, each channel in time order.
pub fn deinterleave_stereo(input: &[i16]) -> (r: Vec<i16>)
    requires
        input@.len() % 2 == 0,
    ensures
        r@.len() == input@.len(),
        forall|i: int| 0 <= i < input@.len() / 2 ==> r@[i] == input@[2 * i],
        forall|i: int|
            input@.len() / 2 <= i < input@.len() ==> r@[i] == input@[2 * (i - input@.len() / 2)
                + 1],
{
    let half = input.len() / 2;
    proof {
        assert(2 * (input@.len() / 2) == input@.len());
    }
    let mut out: Vec<i16> = Vec::new();
    let mut i: usize = 0;
    while i < half
        invariant
            i <= half,
            half == input@.len() / 2,
            2 * (half as int) == input@.len(),
            input@.len() <= usize::MAX,
            out@.len() == i,
            forall|k: int| 0 <= k < i ==> out@[k] == input@[2 * k],
        decreases half - i,
    {
        out.push(input[2 * i]);
        i = i + 1;
    }
    let mut j: usize = 0;
    while j < half
        invariant
            j <= half,
            half == input@.len() / 2,
            2 * (half as int) == input@.len(),
            input@.len() <= usize::MAX,
            out@.len() == half + j,
            forall|k: int| 0 <= k < half ==> out@[k] == input@[2 * k],
            forall|k: int|
                half <= k < half + j ==> out@[k] == input@[2 * (k - half) + 1],
        decreases half - j,
    {
        out.push(input[2 * j + 1]);
        j = j + 1;
    }
    out
}

/// Write one mono stream to both stereo channels: each input sample appears
/// twice in a row, left then right.
pub fn duplicate_to_stereo(input: &[i16]) -> (r: Vec<i16>)
    ensures
        r@.len() == 2 * input@.len(),
        forall|i: int|
            0 <= i < input@.len() ==> r@[2 * i] == input@[i] && r@[2 * i + 1] == input@[i],
{
    let mut out: Vec<i16> = Vec::new();
    let mut i: usize = 0;
    while i < input.len()
        invariant
            i <= input@.len(),
            out@.len() == 2 * i,
            forall|k: int|
                0 <= k < i ==> out@[2 * k] == input@[k] && out@[2 * k + 1] == input@[k],
        decreases input@.len() - i,
    {
        let s = input[i];
        out.push(s);
        out.push(s);
        i = i + 1;
    }
    out
}

/// Fill a device render buffer from the pre-loaded source: sequential
/// samples from position `pos` on, and silence once the source is
/// exhausted. Returns the position the next callback continues from.
pub fn fill_from_source(source: &[i16], pos: usize, out: &mut Vec<i16>) -> (new_pos: usize)
    requires
        pos <= source@.len(),
    ensures
        final(out)@.len() == old(out)@.len(),
        forall|i: int|
            0 <= i < old(out)@.len() ==> final(out)@[i] == (if pos + i < source@.len() {
                source@[pos + i]
            } else {
                0i16
            }),
        new_pos == if pos + old(out)@.len() <= source@.len() {
            pos + old(out)@.len()
        } else {
            source@.len() as int
        },
        new_pos <= source@.len(),
{
    let mut i: usize = 0;
    let mut p: usize = pos;
    while i < out.len()
        invariant
            i <= out@.len(),
            out@.len() == old(out)@.len(),
            pos <= source@.len(),
            p == if pos + i <= source@.len() {
                pos + i
            } else {
                source@.len() as int
            },
            forall|k: int|
                0 <= k < i ==> out@[k] == (if pos + k < source@.len() {
                    source@[pos + k]
                } else {
                    0i16
                }),
        decreases out@.len() - i,
    {
        if p < source.len() {
            let s = source[p];
            out.set(i, s);
            p = p + 1;
        } else {
            out.set(i, 0);
        }
        i = i + 1;
    }
    p
}

/// The 8-bit sample a 16-bit sample narrows to: its high byte.
pub open spec fn spec_narrow_16_to_8(x: i16) -> i8 {
    (x >> 8) as i8
}

/// The 16-bit sample an 8-bit sample widens to: shifted into the high byte,
/// so full scale maps to full scale.
pub open spec fn spec_widen_8_to_16(x: i8) -> i16 {
    (x as i16) << 8
}

/// Widen an 8-bit sample to 16 bits.
pub fn widen_sample_8_to_16(x: i8) -> (r: i16)
    ensures
        r == spec_widen_8_to_16(x),
{
    (x as i16) << 8
}

/// Narrow a 16-bit sample to 8 bits; the low byte is the quantization this
/// conversion discards.
pub fn narrow_sample_16_to_8(x: i16) -> (r: i8)
    ensures
        r == spec_narrow_16_to_8(x),
{
    (x >> 8) as i8
}

/// Integer sample conversion round-trips losslessly: widening an 8-bit
/// sample and narrowing it back returns the original sample, so the only
/// loss in integer format conversion is the quantization of narrowing.
pub proof fn lemma_widen_narrow_roundtrip(x: i8)
    ensures
        spec_narrow_16_to_8(spec_widen_8_to_16(x)) == x,
{
    assert(((((x as i16) << 8) >> 8) as i8) == x) by (bit_vector);
}

} // verus!
