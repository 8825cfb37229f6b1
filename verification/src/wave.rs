//! Waveform generators and their clocks.
//!
//! A generator stands for the infinite sample sequence of one sine tone.
//! The amplitude of a sample is a real number and is evaluated by the
//! caller; what a generator owns is the place on the time axis that each
//! sample belongs to. A frequency is carried as the bit pattern of a binary64
//! number, so that it passes through unchanged.

use vstd::prelude::*;

verus! {

/// The number of samples in one second of output.
pub const SAMPLE_RATE: u64 = 44000;

/// The pattern of positive infinity, which lies just above those of the
/// finite positive numbers.
pub const INFINITY_BITS: u64 = 0x7ff0_0000_0000_0000;

/// The sign bit of a binary64 bit pattern.
pub open spec fn sign_field(bits: u64) -> u64 {
    bits >> 63
}

/// The eleven exponent bits of a binary64 bit pattern.
pub open spec fn exponent_field(bits: u64) -> u64 {
    (bits >> 52) & 0x7ff
}

/// The fifty-two fraction bits of a binary64 bit pattern.
pub open spec fn fraction_field(bits: u64) -> u64 {
    bits & 0xf_ffff_ffff_ffff
}

/// Whether `bits` is the pattern of a frequency: a number above zero that is
/// neither infinite nor a NaN. The patterns of the positive finite numbers
/// are ordered as the numbers are, from the smallest subnormal up to the
/// last one below infinity.
pub open spec fn is_frequency(bits: u64) -> bool {
    0 < bits < INFINITY_BITS
}

/// Read by its fields, a frequency is a pattern whose sign is clear, whose
/// exponent is not all ones, and whose exponent and fraction are not both
/// zero.
pub proof fn lemma_frequency_fields(bits: u64)
    ensures
        is_frequency(bits) <==> {
            &&& sign_field(bits) == 0
            &&& exponent_field(bits) != 0x7ff
            &&& (exponent_field(bits) != 0 || fraction_field(bits) != 0)
        },
{
    assert((0 < bits && bits < 0x7ff0_0000_0000_0000) <==> ((bits >> 63) == 0 && ((bits >> 52)
        & 0x7ff) != 0x7ff && (((bits >> 52) & 0x7ff) != 0 || (bits & 0xf_ffff_ffff_ffff) != 0)))
        by (bit_vector);
}

/// Decides whether `bits` is the pattern of a frequency.
pub fn check_frequency(bits: u64) -> (valid: bool)
    ensures
        valid == is_frequency(bits),
{
    0 < bits && bits < INFINITY_BITS
}

/// Why a waveform could not be built.
#[derive(Clone, Copy, Debug, PartialEq, Eq, Structural)]
pub enum WaveError {
    /// The frequency is zero, negative, infinite or not a number.
    InvalidFrequency,
    /// A combination was given no generator at all.
    MalformedCombination,
}

/// One sample's place on the time axis of a tone: the amplitude there is the
/// sine of 2π · frequency · `t` / `SAMPLE_RATE`.
#[derive(Clone, Copy, Debug, PartialEq, Eq, Structural)]
pub struct SamplePoint {
    /// The frequency in hertz, as a binary64 bit pattern.
    pub hz_bits: u64,
    /// The index of the sample, counted from zero.
    pub t: u64,
}

impl SamplePoint {
    /// Whether a sample follows this one: the index can still grow.
    pub open spec fn has_next(self) -> bool {
        self.t < u64::MAX
    }

    /// The place of the sample that follows.
    pub open spec fn succ(self) -> SamplePoint {
        SamplePoint { hz_bits: self.hz_bits, t: (self.t + 1) as u64 }
    }

    /// The place reached after `count` samples were produced.
    pub open spec fn after(self, count: nat) -> SamplePoint
        decreases count,
    {
        if count == 0 {
            self
        } else {
            self.succ().after((count - 1) as nat)
        }
    }
}

/// The generator of one sine tone. It only moves forward: to hear the tone
/// from the start again, build a new one.
#[derive(Debug)]
pub struct SinWave {
    hz_bits: u64,
    t: u64,
}

impl View for SinWave {
    type V = SamplePoint;

    /// The place of the sample that the generator produces next.
    closed spec fn view(&self) -> SamplePoint {
        SamplePoint { hz_bits: self.hz_bits, t: self.t }
    }
}

impl SinWave {
    #[verifier::type_invariant]
    spec fn valid(self) -> bool {
        is_frequency(self.hz_bits)
    }

    /// Builds the generator of a tone of the given frequency, at time zero.
    /// A pattern that is no frequency is refused.
    pub fn new(hz_bits: u64) -> (built: Result<SinWave, WaveError>)
        ensures
            built.is_ok() <==> is_frequency(hz_bits),
            built.is_ok() ==> built.unwrap()@ == (SamplePoint { hz_bits, t: 0 }),
            built.is_err() ==> built.unwrap_err() == WaveError::InvalidFrequency,
    {
        SinWave::starting_at(hz_bits, 0)
    }

    /// Builds the generator of a tone whose first sample is the one with
    /// index `t`: the same tone, entered later. A pattern that is no
    /// frequency is refused.
    pub fn starting_at(hz_bits: u64, t: u64) -> (built: Result<SinWave, WaveError>)
        ensures
            built.is_ok() <==> is_frequency(hz_bits),
            built.is_ok() ==> built.unwrap()@ == (SamplePoint { hz_bits, t }),
            built.is_err() ==> built.unwrap_err() == WaveError::InvalidFrequency,
    {
        if check_frequency(hz_bits) {
            Ok(SinWave { hz_bits, t })
        } else {
            Err(WaveError::InvalidFrequency)
        }
    }

    /// Produces the next sample's place and moves one sample on. Once the
    /// index cannot grow any more the generator is spent: it returns `None`
    /// and stays as it is, rather than wrap around.
    pub fn next(&mut self) -> (point: Option<SamplePoint>)
        ensures
            point.is_some() <==> old(self)@.has_next(),
            point.is_some() ==> point == Some(old(self)@) && final(self)@ == old(self)@.succ(),
            point.is_none() ==> final(self)@ == old(self)@,
    {
        proof {
            use_type_invariant(&*self);
        }
        if self.t < u64::MAX {
            let point = SamplePoint { hz_bits: self.hz_bits, t: self.t };
            self.t = self.t + 1;
            Some(point)
        } else {
            None
        }
    }

    /// Produces the places of the next `count` samples, or none of them:
    /// where the index cannot grow by `count`, the generator returns `None`
    /// and stays as it is.
    pub fn take(&mut self, count: usize) -> (points: Option<Vec<SamplePoint>>)
        ensures
            points.is_some() <==> old(self)@.t + count <= u64::MAX,
            points.is_some() ==> {
                &&& points.unwrap()@.len() == count
                &&& forall|i: int|
                    0 <= i < count ==> points.unwrap()@[i] == old(self)@.after(i as nat)
                &&& final(self)@ == old(self)@.after(count as nat)
            },
            points.is_none() ==> final(self)@ == old(self)@,
    {
        let wanted: u64 = count as u64;
        if wanted > u64::MAX - self.t {
            return None;
        }
        let mut points: Vec<SamplePoint> = Vec::new();
        let mut done: usize = 0;
        while done < count
            invariant
                done <= count,
                old(self)@.t + count <= u64::MAX,
                self@ == old(self)@.after(done as nat),
                points@.len() == done,
                forall|i: int| 0 <= i < done ==> points@[i] == old(self)@.after(i as nat),
            decreases count - done,
        {
            proof {
                lemma_after_adds(old(self)@, done as nat);
                lemma_after_adds(old(self)@, (done + 1) as nat);
            }
            if let Some(point) = self.next() {
                points.push(point);
            }
            done = done + 1;
        }
        Some(points)
    }

    /// The frequency in hertz, as a binary64 bit pattern.
    pub fn frequency_bits(&self) -> (bits: u64)
        ensures
            bits == self@.hz_bits,
            is_frequency(bits),
    {
        proof {
            use_type_invariant(self);
        }
        self.hz_bits
    }

    /// The index of the sample that comes next, which is also the number of
    /// samples produced so far.
    pub fn sample_index(&self) -> (index: u64)
        ensures
            index == self@.t,
    {
        self.t
    }
}

/// The places that each of `waves` produces next, in their order.
pub open spec fn points_of(waves: Seq<SinWave>) -> Seq<SamplePoint> {
    Seq::new(waves.len(), |i: int| waves[i]@)
}

/// Whether every one of `points` has a sample after it.
pub open spec fn all_have_next(points: Seq<SamplePoint>) -> bool {
    forall|i: int| 0 <= i < points.len() ==> (#[trigger] points[i]).has_next()
}

/// Every one of `points` moved on by one sample.
pub open spec fn all_succ(points: Seq<SamplePoint>) -> Seq<SamplePoint> {
    Seq::new(points.len(), |i: int| points[i].succ())
}

/// Every one of `points` moved on by `count` samples, one step at a time.
pub open spec fn all_after(points: Seq<SamplePoint>, count: nat) -> Seq<SamplePoint>
    decreases count,
{
    if count == 0 {
        points
    } else {
        all_after(all_succ(points), (count - 1) as nat)
    }
}

/// Several generators that sound together on one time axis. Every pull
/// moves all of them, so they never drift apart. The amplitude of the
/// combination is the mean of theirs, never the sum.
#[derive(Debug)]
pub struct CombinedWave {
    waves: Vec<SinWave>,
}

impl View for CombinedWave {
    type V = Seq<SamplePoint>;

    /// The places that the generators produce next, in their order.
    closed spec fn view(&self) -> Seq<SamplePoint> {
        points_of(self.waves@)
    }
}

impl CombinedWave {
    #[verifier::type_invariant]
    spec fn valid(self) -> bool {
        self.waves@.len() > 0
    }

    /// Combines `waves`, which it takes over. An empty combination has no
    /// mean and is refused here, before any sample is asked of it.
    pub fn new(waves: Vec<SinWave>) -> (built: Result<CombinedWave, WaveError>)
        ensures
            built.is_ok() <==> waves@.len() > 0,
            built.is_ok() ==> built.unwrap()@ == points_of(waves@),
            built.is_err() ==> built.unwrap_err() == WaveError::MalformedCombination,
    {
        if waves.len() > 0 {
            Ok(CombinedWave { waves })
        } else {
            Err(WaveError::MalformedCombination)
        }
    }

    /// The number of generators, which is never zero.
    pub fn len(&self) -> (count: usize)
        ensures
            count == self@.len(),
            count > 0,
    {
        proof {
            use_type_invariant(self);
        }
        self.waves.len()
    }

    /// Moves every generator on by one sample and returns the places whose
    /// amplitudes are to be averaged, one for each generator and in their
    /// order. Where any generator is spent, none moves and `None` comes
    /// back.
    pub fn next(&mut self) -> (points: Option<Vec<SamplePoint>>)
        ensures
            points.is_some() <==> all_have_next(old(self)@),
            points.is_some() ==> points.unwrap()@ == old(self)@ && final(self)@ == all_succ(
                old(self)@,
            ),
            points.is_none() ==> final(self)@ == old(self)@,
            final(self)@.len() == old(self)@.len(),
            old(self)@.len() > 0,
    {
        proof {
            use_type_invariant(&*self);
        }
        let count = self.waves.len();
        let mut seen: usize = 0;
        while seen < count
            invariant
                seen <= count,
                count == self.waves@.len(),
                *self == *old(self),
                forall|i: int| 0 <= i < seen ==> (#[trigger] self@[i]).has_next(),
            decreases count - seen,
        {
            if self.waves[seen].sample_index() == u64::MAX {
                assert(!self@[seen as int].has_next());
                return None;
            }
            seen = seen + 1;
        }
        let mut points: Vec<SamplePoint> = Vec::new();
        let mut moved: usize = 0;
        while moved < count
            invariant
                moved <= count,
                count == self.waves@.len(),
                count == old(self).waves@.len(),
                all_have_next(old(self)@),
                points@.len() == moved,
                forall|i: int| 0 <= i < moved ==> points@[i] == old(self).waves@[i]@,
                forall|i: int|
                    0 <= i < moved ==> (#[trigger] self.waves@[i])@ == old(self).waves@[i]@.succ(),
                forall|i: int|
                    moved <= i < count ==> (#[trigger] self.waves@[i])@ == old(self).waves@[i]@,
            decreases count - moved,
        {
            assert(old(self)@[moved as int].has_next());
            if let Some(point) = self.waves[moved].next() {
                points.push(point);
            }
            moved = moved + 1;
        }
        assert(points@ =~= old(self)@);
        assert(self@ =~= all_succ(old(self)@));
        Some(points)
    }
}

/// Producing `count` samples moves a generator on by exactly `count`: the
/// index grows by that much and the frequency stays.
pub proof fn lemma_after_adds(point: SamplePoint, count: nat)
    requires
        point.t + count <= u64::MAX,
    ensures
        point.after(count) == (SamplePoint {
            hz_bits: point.hz_bits,
            t: (point.t + count) as u64,
        }),
    decreases count,
{
    if count > 0 {
        lemma_after_adds(point.succ(), (count - 1) as nat);
    }
}

/// The sample index strictly grows with every sample produced.
pub proof fn lemma_index_strictly_grows(point: SamplePoint, earlier: nat, later: nat)
    requires
        earlier < later,
        point.t + later <= u64::MAX,
    ensures
        point.after(earlier).t < point.after(later).t,
{
    lemma_after_adds(point, earlier);
    lemma_after_adds(point, later);
}

/// The generators of a combination share one time axis: after any number
/// of pulls each of them has moved by exactly that number, so that no two
/// of them ever drift apart.
pub proof fn lemma_lock_step(points: Seq<SamplePoint>, count: nat)
    ensures
        all_after(points, count).len() == points.len(),
        forall|i: int|
            0 <= i < points.len() ==> (#[trigger] all_after(points, count)[i]) == points[i].after(
                count,
            ),
    decreases count,
{
    if count > 0 {
        lemma_lock_step(all_succ(points), (count - 1) as nat);
        assert forall|i: int| 0 <= i < points.len() implies (#[trigger] all_after(
            points,
            count,
        )[i]) == points[i].after(count) by {
            assert(all_succ(points)[i] == points[i].succ());
        }
    }
}

/// Generators of one frequency that start at one place stay in unison: at
/// every step each of them stands exactly where a single such generator
/// stands, so the amplitudes that are averaged are all the same one.
pub proof fn lemma_unison(points: Seq<SamplePoint>, single: SamplePoint, count: nat)
    requires
        forall|i: int| 0 <= i < points.len() ==> points[i] == single,
    ensures
        forall|i: int|
            0 <= i < points.len() ==> (#[trigger] all_after(points, count)[i]) == single.after(
                count,
            ),
{
    lemma_lock_step(points, count);
}

} // verus!
