//! Nearest-neighbour sample-rate conversion.
use vstd::prelude::*;
use vstd::arithmetic::div_mod::lemma_div_by_multiple;

verus! {

/// The rate the transcription step expects.
pub const TARGET_SAMPLE_RATE: u32 = 16000;

/// Length of the converted sequence: `floor(len * target / source)`.
pub open spec fn resampled_len(len: nat, source_rate: nat, target_rate: nat) -> nat {
    (len * target_rate / source_rate) as nat
}

/// Nearest-neighbour conversion from `source_rate` to `target_rate`: output
/// sample `i` is input sample `floor(i * source / target)`.
pub open spec fn resampled(s: Seq<i16>, source_rate: nat, target_rate: nat) -> Seq<i16> {
    Seq::new(
        resampled_len(s.len(), source_rate, target_rate),
        |i: int| s[i * (source_rate as int) / (target_rate as int)],
    )
}

proof fn lemma_index_in_range(i: nat, len: nat, source_rate: nat, target_rate: nat)
    requires
        source_rate > 0,
        target_rate > 0,
        i < resampled_len(len, source_rate, target_rate),
    ensures
        0 <= i * source_rate / target_rate < len,
{
    let q = len * target_rate / source_rate;
    assert(i * source_rate < len * target_rate) by (nonlinear_arith)
        requires
            i + 1 <= q,
            q == len * target_rate / source_rate,
            source_rate > 0,
    ;
    assert(0 <= i * source_rate / target_rate < len) by (nonlinear_arith)
        requires
            i * source_rate < len * target_rate,
            target_rate > 0,
            source_rate > 0,
            i >= 0,
    ;
}

/// Converting to the rate the samples already have gives them back unchanged.
pub proof fn lemma_same_rate_identity(s: Seq<i16>, rate: nat)
    requires
        rate > 0,
    ensures
        resampled(s, rate, rate) == s,
{
    lemma_div_by_multiple(s.len() as int, rate as int);
    assert forall|i: int| 0 <= i < s.len() implies #[trigger] resampled(s, rate, rate)[i] == s[i] by {
        lemma_div_by_multiple(i, rate as int);
    }
    assert(resampled(s, rate, rate) =~= s);
}

/// Converting from 48 kHz to 16 kHz keeps at most a third of the samples.
pub proof fn lemma_decimation_length(s: Seq<i16>)
    ensures
        resampled(s, 48000, 16000).len() <= s.len() / 3,
{
    let n = s.len() as int;
    assert(n * 16000 / 48000 <= n / 3) by (nonlinear_arith)
        requires
            n >= 0,
    ;
}

/// Converts `samples` from `source_rate` to `target_rate` by picking, for
/// each output position, the nearest preceding input sample. No filtering is
/// applied. Every picked index lies inside the input, so the output has
/// exactly `floor(len * target / source)` samples.
pub fn convert(samples: &[i16], source_rate: u32, target_rate: u32) -> (r: Vec<i16>)
    requires
        source_rate > 0,
        target_rate > 0,
        resampled_len(samples@.len(), source_rate as nat, target_rate as nat) <= usize::MAX,
    ensures
        r@ == resampled(samples@, source_rate as nat, target_rate as nat),
{
    if source_rate == target_rate {
        proof {
            lemma_same_rate_identity(samples@, source_rate as nat);
        }
        return vstd::slice::slice_to_vec(samples);
    }
    let n = samples.len() as u128;
    let source = source_rate as u128;
    let target = target_rate as u128;
    assert(n * target <= 0xffff_ffff_ffff_ffff_u128 * 0xffff_ffff_u128) by (nonlinear_arith)
        requires
            n <= 0xffff_ffff_ffff_ffff,
            target <= 0xffff_ffff,
    ;
    let out_len = (n * target / source) as usize;
    let mut out: Vec<i16> = Vec::new();
    let mut i: usize = 0;
    while i < out_len
        invariant
            source == source_rate,
            target == target_rate,
            source > 0,
            target > 0,
            n == samples@.len(),
            out_len == resampled_len(samples@.len(), source_rate as nat, target_rate as nat),
            i <= out_len,
            out@ == resampled(samples@, source_rate as nat, target_rate as nat).take(i as int),
        decreases out_len - i,
    {
        proof {
            lemma_index_in_range(i as nat, samples@.len(), source_rate as nat, target_rate as nat);
        }
        assert((i as u128) * source <= 0xffff_ffff_ffff_ffff_u128 * 0xffff_ffff_u128)
            by (nonlinear_arith)
            requires
                i <= 0xffff_ffff_ffff_ffff,
                source <= 0xffff_ffff,
        ;
        let index = ((i as u128) * source / target) as usize;
        out.push(samples[index]);
        proof {
            assert(out@ =~= resampled(samples@, source_rate as nat, target_rate as nat).take(
                i + 1,
            ));
        }
        i = i + 1;
    }
    assert(out@ =~= resampled(samples@, source_rate as nat, target_rate as nat));
    out
}

} // verus!
