//! The console's pseudo-random number generator: a 16-bit overlapped
//! linear feedback shift register, stepped one round per call.

use vstd::prelude::*;

verus! {

/// Ghost model of the generator: the two seed bytes, the two working
/// registers, and the configured iteration count.
pub struct PrngModel {
    pub seed0: u8,
    pub seed1: u8,
    pub y: u8,
    pub a: u8,
    pub it: Option<u16>,
}

/// One round of the overlapped linear feedback shift register, as the
/// 6502 routine computes it register by register.
pub open spec fn prng_step(s: PrngModel) -> PrngModel {
    let s1 = s.seed1;
    let s0 = s.seed0;
    let x1 = (s1 >> 4) ^ (s1 >> 3);
    let x2 = x1 ^ s0;
    let a4 = (((s1 << 1) ^ s1) << 1) ^ s1;
    let a8 = (a4 << 3) ^ s1;
    PrngModel { seed0: a8, seed1: x2, y: s1, a: a8, it: s.it }
}

/// The generator state after `n` rounds.
pub open spec fn prng_iter(s: PrngModel, n: nat) -> PrngModel
    decreases n,
{
    if n == 0 {
        s
    } else {
        prng_step(prng_iter(s, (n - 1) as nat))
    }
}

/// The state `random` leaves behind: one round when no iteration count
/// is configured, else as many rounds as the count says.
pub open spec fn prng_after_random(s: PrngModel) -> PrngModel {
    match s.it {
        Some(n) => prng_iter(s, n as nat),
        None => prng_step(s),
    }
}

/// The console's pseudo-random number generator.
pub struct NesPrng {
    seed: [u8; 2],
    y: u8,
    a: u8,
    it: Option<u16>,
}

impl View for NesPrng {
    type V = PrngModel;

    closed spec fn view(&self) -> PrngModel {
        PrngModel { seed0: self.seed[0], seed1: self.seed[1], y: self.y, a: self.a, it: self.it }
    }
}

impl NesPrng {
    /// A generator over a 16-bit seed, stepping `it` rounds per draw
    /// when a count is given, one round otherwise.
    pub fn new(seed: u16, it: Option<u16>) -> (r: Self)
        ensures
            r@.seed0 == seed >> 8,
            r@.seed1 == seed & 0xff,
            r@.y == 0,
            r@.a == 0,
            r@.it == it,
    {
        proof {
            assert(seed >> 8 < 256 && seed & 0xff < 256) by (bit_vector);
        }
        Self { seed: [(seed >> 8) as u8, (seed & 0xff) as u8], y: 0, a: 0, it }
    }

    /// The last drawn number.
    pub fn get_number(&self) -> (r: u8)
        ensures
            r == self@.a,
    {
        self.a
    }

    /// Configure the number of rounds per draw.
    pub fn set_it(&mut self, it: u16)
        ensures
            final(self)@ == (PrngModel { it: Some(it), ..old(self)@ }),
    {
        self.it = Some(it);
    }

    /// The seed as one 16-bit value.
    fn seed_u16(&self) -> (r: u16)
        ensures
            r == self@.seed0 * 256 + self@.seed1,
    {
        let high = self.seed[0];
        let low = self.seed[1];
        let r = (high as u16) << 8 | low as u16;
        proof {
            assert((high as u16) << 8 | (low as u16) == (high as u16) * 256 + (low as u16))
                by (bit_vector);
        }
        r
    }

    fn lsr(&mut self)
        ensures
            final(self)@ == (PrngModel { a: old(self)@.a >> 1, ..old(self)@ }),
    {
        self.a >>= 1;
    }

    fn eor(&mut self, value: u8)
        ensures
            final(self)@ == (PrngModel { a: old(self)@.a ^ value, ..old(self)@ }),
    {
        self.a ^= value;
    }

    fn lda(&mut self, value: u8)
        ensures
            final(self)@ == (PrngModel { a: value, ..old(self)@ }),
    {
        self.a = value;
    }

    fn tay(&mut self)
        ensures
            final(self)@ == (PrngModel { y: old(self)@.a, ..old(self)@ }),
    {
        self.y = self.a;
    }

    fn tya(&mut self)
        ensures
            final(self)@ == (PrngModel { a: old(self)@.y, ..old(self)@ }),
    {
        self.a = self.y;
    }

    fn asl(&mut self)
        ensures
            final(self)@ == (PrngModel { a: old(self)@.a << 1, ..old(self)@ }),
    {
        self.a <<= 1;
    }

    /// One round of the linear feedback shift register.
    fn overlapped(&mut self)
        ensures
            final(self)@ == prng_step(old(self)@),
    {
        let s1 = self.seed[1];

        self.lda(s1);
        self.tay();

        self.lsr();
        self.lsr();
        self.lsr();

        // sta seed+1
        self.seed = [self.seed[0], self.a];
        proof {
            assert(s1 >> 1 >> 1 >> 1 == s1 >> 3) by (bit_vector);
            assert(s1 >> 3 >> 1 == s1 >> 4) by (bit_vector);
        }

        self.lsr();

        let s1_shifted = self.seed[1];
        self.eor(s1_shifted);
        let s0 = self.seed[0];
        self.eor(s0);

        // sta seed+1
        self.seed = [self.seed[0], self.a];

        self.tya();

        // sta seed+0
        self.seed = [self.a, self.seed[1]];

        self.asl();
        let s0b = self.seed[0];
        self.eor(s0b);
        self.asl();
        let s0c = self.seed[0];
        self.eor(s0c);
        self.asl();
        self.asl();
        self.asl();
        let s0d = self.seed[0];
        self.eor(s0d);
        proof {
            assert(forall|v: u8| #[trigger] (v << 1 << 1 << 1) == v << 3) by (bit_vector);
        }

        // sta seed+0
        self.seed = [self.a, self.seed[1]];
    }

    /// Draw a pseudo-random number: the configured number of rounds, or
    /// one round when no count is set.
    pub fn random(&mut self) -> (r: u8)
        ensures
            final(self)@ == prng_after_random(old(self)@),
            r == final(self)@.a,
    {
        match self.it {
            Some(it) => {
                let mut k: u16 = 0;
                while k < it
                    invariant
                        k <= it,
                        old(self)@.it == Some(it),
                        self@ == prng_iter(old(self)@, k as nat),
                    decreases it - k,
                {
                    self.overlapped();
                    k = k + 1;
                }
            },
            None => self.overlapped(),
        };

        self.a
    }
}

impl crate::models::Util for NesPrng {
    /// Draw one number, as `random` does.
    fn run(&mut self) {
        self.random();
    }
}

/// Draw one number from a fresh generator over `seed`, stepping `it`
/// rounds if a count is given, one round otherwise.
pub fn random(seed: u16, it: Option<u16>) -> (r: u8)
    ensures
        r == prng_after_random(
            (PrngModel { seed0: (seed >> 8) as u8, seed1: (seed & 0xff) as u8, y: 0, a: 0, it }),
        ).a,
{
    let mut prng = NesPrng::new(seed, it);

    prng.random();

    prng.get_number()
}

} // verus!
