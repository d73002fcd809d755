use vstd::prelude::*;
use crate::format::SampleFormat;

verus! {

/// The sample representations the encoder accepts.
#[derive(Clone, Copy, Debug, PartialEq, Eq, Structural)]
pub enum InputKind {
    F32,
    I16,
}

/// Low byte of a sample's two's-complement form.
pub open spec fn low_byte(s: i16) -> u8 {
    (s as u16 & 0xff) as u8
}

/// High byte of a sample's two's-complement form.
pub open spec fn high_byte(s: i16) -> u8 {
    (s as u16 >> 8) as u8
}

/// The sample that a little-endian byte pair stands for.
pub open spec fn sample_of(lo: u8, hi: u8) -> i16 {
    ((hi as u16) << 8 | lo as u16) as i16
}

/// Each sample as two little-endian bytes, in input order.
pub open spec fn pcm16_le(xs: Seq<i16>) -> Seq<u8> {
    Seq::new(
        2 * xs.len(),
        |k: int|
            if k % 2 == 0 {
                low_byte(xs[k / 2])
            } else {
                high_byte(xs[k / 2])
            },
    )
}

/// Reads a byte stream back as little-endian 16-bit samples.
pub open spec fn decode_pcm16_le(b: Seq<u8>) -> Seq<i16> {
    Seq::new(b.len() / 2, |i: int| sample_of(b[2 * i], b[2 * i + 1]))
}

/// The representations the encoder handles; any other is refused.
pub fn input_kind(f: SampleFormat) -> (r: Option<InputKind>)
    ensures
        f == SampleFormat::F32 ==> r == Some(InputKind::F32),
        f == SampleFormat::I16 ==> r == Some(InputKind::I16),
        f == SampleFormat::Other ==> r.is_none(),
{
    match f {
        SampleFormat::F32 => Some(InputKind::F32),
        SampleFormat::I16 => Some(InputKind::I16),
        SampleFormat::Other => None,
    }
}

/// Encodes one batch of samples as little-endian 16-bit PCM.
pub fn encode_pcm16(samples: &[i16]) -> (r: Vec<u8>)
    requires
        2 * samples@.len() <= usize::MAX,
    ensures
        r@ == pcm16_le(samples@),
{
    let mut out: Vec<u8> = Vec::with_capacity(2 * samples.len());
    let mut i: usize = 0;
    while i < samples.len()
        invariant
            i <= samples@.len(),
            out@.len() == 2 * i,
            forall|k: int| 0 <= k < 2 * i ==> #[trigger] out@[k] == pcm16_le(samples@)[k],
        decreases samples@.len() - i,
    {
        let s = samples[i];
        let u = s as u16;
        out.push((u & 0xff) as u8);
        out.push((u >> 8) as u8);
        proof {
            assert(((2 * i) as int) % 2 == 0 && ((2 * i) as int) / 2 == i);
            assert(((2 * i + 1) as int) % 2 == 1 && ((2 * i + 1) as int) / 2 == i);
        }
        i = i + 1;
    }
    assert(out@ =~= pcm16_le(samples@));
    out
}

proof fn lemma_byte_pair(s: i16)
    ensures
        sample_of(low_byte(s), high_byte(s)) == s,
{
    assert((((s as u16 >> 8) as u8) as u16) << 8 | ((s as u16 & 0xff) as u8) as u16 == s as u16)
        by (bit_vector);
    assert(((s as u16) as i16) == s) by (bit_vector);
}

/// Encoding is lossless for 16-bit input: the output holds two bytes per sample,
/// and reading it back as little-endian 16-bit integers gives the samples again.
pub proof fn encode_decode_round_trip(xs: Seq<i16>)
    ensures
        pcm16_le(xs).len() == 2 * xs.len(),
        decode_pcm16_le(pcm16_le(xs)) == xs,
{
    let b = pcm16_le(xs);
    assert forall|i: int| 0 <= i < xs.len() implies #[trigger] decode_pcm16_le(b)[i] == xs[i] by {
        assert((2 * i) % 2 == 0 && (2 * i) / 2 == i);
        assert((2 * i + 1) % 2 == 1 && (2 * i + 1) / 2 == i);
        lemma_byte_pair(xs[i]);
    }
    assert(decode_pcm16_le(b) =~= xs);
}

} // verus!
