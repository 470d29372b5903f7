//! Oversampling of the temperature sensor's ADC readings.

use vstd::prelude::*;

verus! {

/// ADC readings summed for one temperature value.
pub const OVERSAMPLE_COUNT: u32 = 256;

/// Sum of the readings, as a mathematical integer.
pub open spec fn sum_of(samples: Seq<u16>) -> int
    decreases samples.len(),
{
    if samples.len() == 0 {
        0
    } else {
        sum_of(samples.drop_last()) + samples.last() as int
    }
}

/// The value handed on for conversion: the sum divided by 16, kept to
/// 16 bits as a cast to `u16` keeps it.
pub open spec fn oversampled_value(sum: int) -> int {
    (sum / 16) % 0x1_0000
}

proof fn lemma_sum_bound(samples: Seq<u16>)
    ensures
        0 <= sum_of(samples) <= samples.len() * 0xffff,
    decreases samples.len(),
{
    if samples.len() > 0 {
        lemma_sum_bound(samples.drop_last());
    }
}

/// With readings of at most 12 bits, as the ADC of the STM32F1 gives, a
/// full measurement keeps all of its bits: the value is the sum divided
/// by 16, with nothing cut off.
pub proof fn lemma_twelve_bit_readings_fit(samples: Seq<u16>)
    requires
        samples.len() == OVERSAMPLE_COUNT,
        forall|i: int| 0 <= i < samples.len() ==> samples[i] <= 0xfff,
    ensures
        oversampled_value(sum_of(samples)) == sum_of(samples) / 16,
        sum_of(samples) / 16 <= 0xfff0,
{
    lemma_sum_twelve_bit(samples);
    let s = sum_of(samples);
    assert(0 <= s / 16 < 0x1_0000);
}

proof fn lemma_sum_twelve_bit(samples: Seq<u16>)
    requires
        forall|i: int| 0 <= i < samples.len() ==> samples[i] <= 0xfff,
    ensures
        0 <= sum_of(samples) <= samples.len() * 0xfff,
    decreases samples.len(),
{
    if samples.len() > 0 {
        let rest = samples.drop_last();
        assert forall|i: int| 0 <= i < rest.len() implies rest[i] <= 0xfff by {
            assert(rest[i] == samples[i]);
        }
        lemma_sum_twelve_bit(rest);
    }
}

/// Collects the readings of one oversampled temperature measurement.
pub struct Oversampler {
    acc: u32,
    count: u32,
    samples: Ghost<Seq<u16>>,
}

impl Oversampler {
    #[verifier::type_invariant]
    spec fn inv(self) -> bool {
        &&& self.samples@.len() == self.count
        &&& self.count <= OVERSAMPLE_COUNT
        &&& self.acc == sum_of(self.samples@)
    }

    /// The readings collected so far, oldest first.
    pub closed spec fn samples(self) -> Seq<u16> {
        self.samples@
    }

    /// No readings yet.
    pub fn new() -> (s: Self)
        ensures
            s.samples() == Seq::<u16>::empty(),
    {
        Oversampler { acc: 0, count: 0, samples: Ghost(Seq::empty()) }
    }

    /// Whether all readings of the measurement have been collected.
    pub fn is_complete(&self) -> (done: bool)
        ensures
            done == (self.samples().len() == OVERSAMPLE_COUNT),
            self.samples().len() <= OVERSAMPLE_COUNT,
    {
        proof {
            use_type_invariant(self);
        }
        self.count == OVERSAMPLE_COUNT
    }

    /// Adds one ADC reading.
    pub fn add_sample(&mut self, sample: u16)
        requires
            old(self).samples().len() < OVERSAMPLE_COUNT,
        ensures
            final(self).samples() == old(self).samples().push(sample),
    {
        proof {
            use_type_invariant(&*self);
            lemma_sum_bound(self.samples@);
            assert(self.samples@.push(sample).drop_last() =~= self.samples@);
        }
        let ghost samples = self.samples@.push(sample);
        *self = Oversampler { acc: self.acc + sample as u32, count: self.count + 1, samples: Ghost(samples) };
    }

    /// The sum of the readings shifted right by four bits, cut to 16 bits.
    pub fn value(&self) -> (v: u16)
        ensures
            v == oversampled_value(sum_of(self.samples())),
    {
        proof {
            use_type_invariant(self);
        }
        let acc = self.acc;
        assert(((acc >> 4u32) as u16) as int == (acc / 16) % 0x1_0000) by (bit_vector);
        (acc >> 4) as u16
    }
}

} // verus!
