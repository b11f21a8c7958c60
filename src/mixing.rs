use vstd::prelude::*;
use crate::config::WavFormat;
use vstd::arithmetic::div_mod::{
    lemma_fundamental_div_mod, lemma_hoist_over_denominator, lemma_mod_bound,
};
use vstd::arithmetic::power2::{
    lemma2_to64, lemma_pow2_adds, lemma_pow2_strictly_increases, lemma_pow2_unfold, pow2,
};

verus! {

/// The contents of one container file: its format and its samples.
#[derive(Clone, Debug)]
pub struct Segment<T> {
    pub format: WavFormat,
    pub samples: Vec<T>,
}

/// Why a list of segments could not be merged.
#[derive(Clone, Copy, Debug, PartialEq, Eq, Structural)]
pub enum MergeError {
    /// There was no segment to merge.
    NoSegments,
    /// The segment at `index` has another format than the first one.
    FormatMismatch { index: usize },
}

/// The samples of `segs` one after the other.
pub open spec fn concat_samples<T>(segs: Seq<Segment<T>>) -> Seq<T>
    decreases segs.len(),
{
    if segs.len() == 0 {
        Seq::empty()
    } else {
        concat_samples(segs.drop_last()) + segs.last().samples@
    }
}

/// Every segment of `segs` up to `n` has the format of the first.
pub open spec fn same_format_up_to<T>(segs: Seq<Segment<T>>, n: int) -> bool {
    forall|i: int| 0 <= i < n ==> (#[trigger] segs[i]).format == segs[0].format
}

/// Concatenates segments of one format, in list order, into one segment of
/// that format.
pub fn merge_segments<T: Copy>(segments: &Vec<Segment<T>>) -> (r: Result<Segment<T>, MergeError>)
    ensures
        segments@.len() == 0 <==> r matches Err(MergeError::NoSegments),
        segments@.len() > 0 && same_format_up_to(segments@, segments@.len() as int) <==> r is Ok,
        r matches Ok(m) ==> m.format == segments@[0].format && m.samples@ == concat_samples(
            segments@,
        ),
        r matches Err(MergeError::FormatMismatch { index }) ==> index < segments@.len()
            && segments@[index as int].format != segments@[0].format && same_format_up_to(
            segments@,
            index as int,
        ),
{
    if segments.len() == 0 {
        return Err(MergeError::NoSegments);
    }
    let format = segments[0].format;
    let mut samples: Vec<T> = Vec::new();
    let mut i: usize = 0;
    while i < segments.len()
        invariant
            0 < segments@.len(),
            i <= segments@.len(),
            format == segments@[0].format,
            same_format_up_to(segments@, i as int),
            samples@ == concat_samples(segments@.take(i as int)),
        decreases segments@.len() - i,
    {
        let seg = &segments[i];
        if seg.format != format {
            return Err(MergeError::FormatMismatch { index: i });
        }
        let ghost before = samples@;
        let mut j: usize = 0;
        while j < seg.samples.len()
            invariant
                j <= seg.samples@.len(),
                samples@ == before + seg.samples@.take(j as int),
            decreases seg.samples@.len() - j,
        {
            samples.push(seg.samples[j]);
            j = j + 1;
            assert(samples@ =~= before + seg.samples@.take(j as int));
        }
        proof {
            assert(seg.samples@.take(j as int) =~= seg.samples@);
            assert(segments@.take(i + 1).drop_last() =~= segments@.take(i as int));
            assert(segments@.take(i + 1).last() == segments@[i as int]);
        }
        i = i + 1;
    }
    assert(segments@.take(i as int) =~= segments@);
    Ok(Segment { format, samples })
}

proof fn lemma_concat_append<T>(xs: Seq<Segment<T>>, ys: Seq<Segment<T>>)
    ensures
        concat_samples(xs + ys) == concat_samples(xs) + concat_samples(ys),
    decreases ys.len(),
{
    if ys.len() == 0 {
        assert(xs + ys =~= xs);
        assert(concat_samples(xs) + Seq::<T>::empty() =~= concat_samples(xs));
    } else {
        lemma_concat_append(xs, ys.drop_last());
        assert((xs + ys).drop_last() =~= xs + ys.drop_last());
        assert((xs + ys).last() == ys.last());
        assert(concat_samples(xs) + concat_samples(ys.drop_last()) + ys.last().samples@
            =~= concat_samples(xs) + (concat_samples(ys.drop_last()) + ys.last().samples@));
    }
}

/// Merging keeps order and does not depend on grouping: the samples of the
/// segment lists `xs`, `ys`, `zs` merged as one list are those of `xs`, then
/// `ys`, then `zs`; and for three segments `a`, `b`, `c` they are
/// `a ++ b ++ c`, whether `a` and `b` or `b` and `c` were merged first.
pub proof fn lemma_merge_associative<T>(
    xs: Seq<Segment<T>>,
    ys: Seq<Segment<T>>,
    zs: Seq<Segment<T>>,
    a: Segment<T>,
    b: Segment<T>,
    c: Segment<T>,
    ab: Segment<T>,
    bc: Segment<T>,
)
    requires
        ab.samples@ == concat_samples(seq![a, b]),
        bc.samples@ == concat_samples(seq![b, c]),
    ensures
        concat_samples(xs + ys + zs) == concat_samples(xs) + concat_samples(ys) + concat_samples(
            zs,
        ),
        concat_samples(seq![a, b, c]) == a.samples@ + b.samples@ + c.samples@,
        concat_samples(seq![ab, c]) == concat_samples(seq![a, b, c]),
        concat_samples(seq![a, bc]) == concat_samples(seq![a, b, c]),
{
    lemma_concat_append(xs + ys, zs);
    lemma_concat_append(xs, ys);
    let e = Seq::<Segment<T>>::empty();
    assert(seq![a].drop_last() =~= e);
    assert(seq![a, b].drop_last() =~= seq![a]);
    assert(seq![a, b, c].drop_last() =~= seq![a, b]);
    assert(seq![b].drop_last() =~= e);
    assert(seq![b, c].drop_last() =~= seq![b]);
    assert(seq![ab].drop_last() =~= e);
    assert(seq![ab, c].drop_last() =~= seq![ab]);
    assert(seq![bc].drop_last() =~= e);
    assert(seq![a, bc].drop_last() =~= seq![a]);
    assert(concat_samples(e) =~= Seq::<T>::empty());
    assert(seq![a].last() == a);
    assert(seq![b].last() == b);
    assert(seq![ab].last() == ab);
    assert(seq![a, b].last() == b);
    assert(seq![b, c].last() == c);
    assert(seq![a, b, c].last() == c);
    assert(seq![ab, c].last() == c);
    assert(seq![a, bc].last() == bc);
    assert(concat_samples(seq![a]) =~= a.samples@);
    assert(concat_samples(seq![b]) =~= b.samples@);
    assert(concat_samples(seq![ab]) =~= ab.samples@);
    assert(concat_samples(seq![a, b, c]) =~= a.samples@ + b.samples@ + c.samples@);
    assert(concat_samples(seq![ab, c]) =~= a.samples@ + b.samples@ + c.samples@);
    assert(concat_samples(seq![a, bc]) =~= a.samples@ + b.samples@ + c.samples@);
}


/// The sample of a track at index `i`, silence past its end.
pub open spec fn sample_or_silence(s: Seq<i32>, i: int) -> int {
    if 0 <= i < s.len() {
        s[i] as int
    } else {
        0
    }
}

/// The arithmetic mean of two amplitudes, rounded toward zero.
pub open spec fn mean_amplitude(a: int, b: int) -> int {
    let t = a + b;
    if t >= 0 {
        t / 2
    } else {
        -((-t) / 2)
    }
}

/// The track that mixes `a` and `b`: as long as the longer one, each sample the
/// mean of the two, the shorter one taken as silent past its end.
pub open spec fn superimposed(a: Seq<i32>, b: Seq<i32>) -> Seq<i32> {
    let n = if a.len() >= b.len() {
        a.len()
    } else {
        b.len()
    };
    Seq::new(n, |i: int| mean_amplitude(sample_or_silence(a, i), sample_or_silence(b, i)) as i32)
}

/// Mixes two amplitudes: their mean, rounded toward zero.
pub fn mix_samples(a: i32, b: i32) -> (r: i32)
    ensures
        r == mean_amplitude(a as int, b as int),
{
    let t: i64 = a as i64 + b as i64;
    if t >= 0 {
        (t / 2) as i32
    } else {
        (-((-t) / 2)) as i32
    }
}

/// Mixes two tracks sample by sample into one track as long as the longer.
pub fn superimpose(a: &Vec<i32>, b: &Vec<i32>) -> (r: Vec<i32>)
    ensures
        r@ == superimposed(a@, b@),
{
    let n = if a.len() >= b.len() {
        a.len()
    } else {
        b.len()
    };
    let mut out: Vec<i32> = Vec::new();
    let mut i: usize = 0;
    while i < n
        invariant
            i <= n,
            n == if a@.len() >= b@.len() {
                a@.len()
            } else {
                b@.len()
            },
            out@ =~= superimposed(a@, b@).take(i as int),
        decreases n - i,
    {
        let x: i32 = if i < a.len() {
            a[i]
        } else {
            0
        };
        let y: i32 = if i < b.len() {
            b[i]
        } else {
            0
        };
        out.push(mix_samples(x, y));
        i = i + 1;
        assert(out@ =~= superimposed(a@, b@).take(i as int));
    }
    out
}

/// Mixing two silent tracks of length `n` gives a silent track of length `n`.
pub proof fn lemma_superimpose_silent(n: nat)
    ensures
        superimposed(Seq::new(n, |_i: int| 0i32), Seq::new(n, |_i: int| 0i32)) == Seq::new(
            n,
            |_i: int| 0i32,
        ),
{
    assert(superimposed(Seq::new(n, |_i: int| 0i32), Seq::new(n, |_i: int| 0i32)) =~= Seq::new(
        n,
        |_i: int| 0i32,
    ));
}

/// Mixing a track `long` with a shorter track `short` gives a track as long as
/// `long`; past the end of `short` each sample is the mean of `long`'s sample
/// and silence, which is `long`'s sample itself wherever that sample is
/// silent, and in either order of the two tracks.
pub proof fn lemma_superimpose_tail(long: Seq<i32>, short: Seq<i32>)
    requires
        short.len() < long.len(),
    ensures
        superimposed(long, short).len() == long.len(),
        superimposed(short, long).len() == long.len(),
        forall|i: int|
            short.len() <= i < long.len() ==> {
                &&& #[trigger] superimposed(long, short)[i] == mean_amplitude(long[i] as int, 0)
                &&& superimposed(short, long)[i] == mean_amplitude(long[i] as int, 0)
                &&& long[i] == 0 ==> superimposed(long, short)[i] == long[i]
            },
{
}

/// The two channels that the encoder takes: a two-channel track is split
/// into its even-indexed (left) and odd-indexed (right) samples; any other
/// track is copied to both channels.
pub open spec fn channel_split(s: Seq<i16>, channels: u16) -> (Seq<i16>, Seq<i16>) {
    if channels == 2 {
        (
            Seq::new(((s.len() + 1) / 2) as nat, |k: int| s[2 * k]),
            Seq::new((s.len() / 2) as nat, |k: int| s[2 * k + 1]),
        )
    } else {
        (s, s)
    }
}

/// Lays out interleaved samples as the left and right channels of a
/// two-channel encoder.
pub fn split_channels(samples: &Vec<i16>, channels: u16) -> (r: (Vec<i16>, Vec<i16>))
    ensures
        (r.0@, r.1@) == channel_split(samples@, channels),
{
    let mut left: Vec<i16> = Vec::new();
    let mut right: Vec<i16> = Vec::new();
    let mut i: usize = 0;
    while i < samples.len()
        invariant
            i <= samples@.len(),
            channels == 2 ==> left@ =~= Seq::new(
                ((i + 1) / 2) as nat,
                |k: int| samples@[2 * k],
            ) && right@ =~= Seq::new((i / 2) as nat, |k: int| samples@[2 * k + 1]),
            channels != 2 ==> left@ =~= samples@.take(i as int) && right@ =~= samples@.take(
                i as int,
            ),
        decreases samples@.len() - i,
    {
        let x = samples[i];
        if channels == 2 {
            if left.len() <= right.len() {
                left.push(x);
            } else {
                right.push(x);
            }
        } else {
            left.push(x);
            right.push(x);
        }
        i = i + 1;
    }
    assert(samples@.take(i as int) =~= samples@);
    (left, right)
}

/// An integer amplitude of a `bits`-bit container, rescaled to 16 bits:
/// divided by `2^(bits - 16)` and rounded down for deeper containers,
/// multiplied by `2^(16 - bits)` for shallower ones.
pub open spec fn to_16_bit(sample: int, bits: nat) -> int {
    if bits >= 16 {
        sample / pow2((bits - 16) as nat) as int
    } else {
        sample * pow2((16 - bits) as nat)
    }
}

/// `sample` is an amplitude that a `bits`-bit signed container can hold.
pub open spec fn fits_depth(sample: int, bits: nat) -> bool {
    1 <= bits <= 32 && -(pow2((bits - 1) as nat) as int) <= sample < pow2((bits - 1) as nat)
}

/// `2^e` for `e` up to 16.
fn small_pow2(e: u16) -> (r: u64)
    requires
        e <= 16,
    ensures
        r == pow2(e as nat),
        r <= 0x1_0000,
{
    proof {
        lemma2_to64();
    }
    let mut p: u64 = 1;
    let mut k: u16 = 0;
    while k < e
        invariant
            k <= e <= 16,
            p == pow2(k as nat),
            pow2(16) == 0x1_0000,
        decreases e - k,
    {
        proof {
            lemma_pow2_unfold((k + 1) as nat);
            lemma_pow2_strictly_increases(k as nat, 16);
        }
        p = p * 2;
        k = k + 1;
    }
    proof {
        if e < 16 {
            lemma_pow2_strictly_increases(e as nat, 16);
        }
    }
    p
}

/// Rescales an integer amplitude of a `bits_per_sample`-bit container to the
/// 16 bits that the encoder takes.
pub fn pcm_to_i16(sample: i32, bits_per_sample: u16) -> (r: i16)
    requires
        fits_depth(sample as int, bits_per_sample as nat),
    ensures
        r as int == to_16_bit(sample as int, bits_per_sample as nat),
{
    let bits = bits_per_sample;
    proof {
        lemma2_to64();
    }
    if bits >= 16 {
        let p = small_pow2(bits - 16);
        proof {
            let pi = p as int;
            let s = sample as int;
            lemma_pow2_adds(15, (bits - 16) as nat);
            assert((15 + (bits - 16)) as nat == (bits - 1) as nat);
            assert(pow2((bits - 1) as nat) == 0x8000 * pi);
            lemma_hoist_over_denominator(s, 0x8000, p as nat);
            lemma_fundamental_div_mod(s, pi);
            lemma_mod_bound(s, pi);
            let q = s / pi;
            assert(-0x8000 <= q < 0x8000) by (nonlinear_arith)
                requires
                    s == pi * q + s % pi,
                    0 <= s % pi < pi,
                    -(0x8000 * pi) <= s < 0x8000 * pi,
                    pi > 0,
            ;
        }
        let t: u64 = (sample as i64 + 0x8000i64 * p as i64) as u64;
        let q: u64 = t / p;
        (q as i64 - 0x8000i64) as i16
    } else {
        let p = small_pow2(16 - bits);
        proof {
            let pi = p as int;
            let s = sample as int;
            lemma_pow2_adds((bits - 1) as nat, (16 - bits) as nat);
            assert(((bits - 1) + (16 - bits)) as nat == 15);
            let h = pow2((bits - 1) as nat) as int;
            assert(h * pi == 0x8000);
            assert(-0x8000 <= s * pi < 0x8000) by (nonlinear_arith)
                requires
                    -h <= s < h,
                    h * pi == 0x8000,
                    pi > 0,
            ;
        }
        (sample as i64 * p as i64) as i16
    }
}

} // verus!
