//! Pluggable per-scalar-type value producers.
//!
//! Each scalar field of a schema carries a generator: either the built-in
//! default (a uniform pseudo-random draw for numbers, a fixed placeholder for
//! text) or a caller-supplied fixed value. Generators are plain values:
//! cloning a schema clones them without sharing any mutable generation state.
//!
//! Floating-point values are carried everywhere in this library as IEEE-754
//! double-precision bit patterns (`u64`), never as a native float type. The
//! default float generator draws an integer number of `2^-20` units below 100
//! and encodes that dyadic rational into its bit pattern with integer
//! arithmetic alone.

use vstd::prelude::*;

verus! {

use vstd::arithmetic::power2::{pow2, lemma_pow2_adds, lemma_pow2_strictly_increases, lemma2_to64, lemma2_to64_rest};
use vstd::bits::lemma_u64_shl_is_mul;

/// Relies on rand::Rng::gen_range over `0..n`: the draw is taken from a
/// thread-local source and is uniformly distributed in `[0, n)`; in
/// particular it is always below `n`. Nothing more is promised of it.
#[verifier::external_body]
fn draw_below(n: u64) -> (r: u64)
    requires
        n >= 1,
    ensures
        r < n,
{
    rand::Rng::gen_range(&mut rand::thread_rng(), 0..n)
}

/// Index of the most significant set bit of `m` (0 for `m < 2`).
pub open spec fn spec_msb(m: u64) -> nat
    decreases m,
{
    if m < 2 {
        0
    } else {
        spec_msb(m / 2) + 1
    }
}

pub proof fn lemma_msb_bounds(m: u64)
    requires
        m >= 1,
    ensures
        pow2(spec_msb(m)) <= m < pow2(spec_msb(m) + 1),
        spec_msb(m) <= 63,
    decreases m,
{
    if m < 2 {
        lemma2_to64();
    } else {
        lemma_msb_bounds(m / 2);
        let p = spec_msb(m / 2);
        lemma_pow2_adds(p, 1);
        lemma_pow2_adds(p + 1, 1);
        lemma2_to64();
        assert(pow2(p + 1) == pow2(p) * 2);
        assert(pow2(p + 2) == pow2(p + 1) * 2);
        if p + 1 > 63 {
            lemma_pow2_strictly_increases(64, p + 1);
            assert(false);
        }
    }
}

/// The number of `2^-20` units a default float draw is taken over: `100 << 20`.
pub open spec fn float_unit_count() -> u64 {
    104857600
}

/// The IEEE-754 double bit pattern of the dyadic rational `m * 2^-20`,
/// written out with integer arithmetic: a biased exponent of
/// `1023 + msb(m) - 20` and the bits of `m` below its leading one as the
/// fraction. Meaningful for `0 < m < 2^27`; `m == 0` encodes as all zeros.
pub open spec fn float_bits_of_units(m: u64) -> u64 {
    if m == 0 {
        0u64
    } else {
        (((1003 + spec_msb(m)) * pow2(52) + (m - pow2(spec_msb(m))) * pow2(
            (52 - spec_msb(m)) as nat,
        )) as u64)
    }
}

/// Holds of every bit pattern the default float generator can produce.
pub open spec fn is_default_float_draw(r: u64) -> bool {
    exists|m: u64| m < float_unit_count() && r == float_bits_of_units(m)
}

fn pow2_u64(e: u64) -> (r: u64)
    requires
        e <= 63,
    ensures
        r == pow2(e as nat),
{
    proof {
        lemma2_to64();
        lemma2_to64_rest();
        if (e as nat) < 63 {
            lemma_pow2_strictly_increases(e as nat, 63);
        }
        assert(pow2(e as nat) <= pow2(63));
        lemma_u64_shl_is_mul(1u64, e);
    }
    1u64 << e
}

fn msb_index(m: u64) -> (p: u64)
    requires
        m >= 1,
    ensures
        p == spec_msb(m),
{
    proof {
        lemma_msb_bounds(m);
    }
    let mut x: u64 = m;
    let mut p: u64 = 0;
    while x >= 2
        invariant
            x >= 1,
            spec_msb(m) <= 63,
            spec_msb(m) == spec_msb(x) + p,
        decreases x,
    {
        proof {
            assert(spec_msb(x) == spec_msb(x / 2) + 1);
        }
        x = x / 2;
        p = p + 1;
    }
    p
}

/// Encode `m * 2^-20` as an IEEE-754 double bit pattern.
fn units_to_float_bits(m: u64) -> (r: u64)
    requires
        m < float_unit_count(),
    ensures
        r == float_bits_of_units(m),
{
    if m == 0 {
        return 0u64;
    }
    let p = msb_index(m);
    proof {
        lemma_msb_bounds(m);
        lemma2_to64();
        lemma2_to64_rest();
        if spec_msb(m) >= 27 {
            if spec_msb(m) > 27 {
                lemma_pow2_strictly_increases(27, spec_msb(m));
            }
            assert(pow2(27) <= pow2(spec_msb(m)));
            assert(false);
        }
    }
    let pw = pow2_u64(p);
    let scale = pow2_u64(52 - p);
    proof {
        let msb = spec_msb(m);
        lemma_pow2_adds(msb, (52 - msb) as nat);
        assert(pow2(msb) * pow2((52 - msb) as nat) == pow2(52));
        vstd::arithmetic::power2::lemma_pow2_pos((52 - msb) as nat);
        vstd::arithmetic::mul::lemma_mul_strict_inequality(
            (m - pw) as int,
            pow2(msb) as int,
            pow2((52 - msb) as nat) as int,
        );
        assert((m - pw) * pow2((52 - msb) as nat) < pow2(52));
        vstd::arithmetic::mul::lemma_mul_inequality(
            (1003 + msb) as int,
            1029int,
            pow2(52) as int,
        );
        assert(1029int * pow2(52) < 0x8000000000000000int);
    }
    let frac = (m - pw) * scale;
    let high = (1003 + p) * pow2_u64(52);
    high + frac
}

/// One uniform pseudo-random draw of the default float generator, as bits.
fn default_float_bits() -> (r: u64)
    ensures
        is_default_float_draw(r),
{
    let m = draw_below(104857600);
    let r = units_to_float_bits(m);
    proof {
        assert(m < float_unit_count() && r == float_bits_of_units(m));
    }
    r
}

/// Producer of `i64` field values.
#[derive(Clone, Copy, Debug, PartialEq, Eq, Structural)]
pub enum IntegerGenerator {
    /// The built-in default: a uniform pseudo-random integer in `[0, 100)`.
    Uniform,
    /// A caller-supplied fixed value.
    Fixed(i64),
}

impl IntegerGenerator {
    pub fn generate(&self) -> (r: i64)
        ensures
            self is Fixed ==> r == self->Fixed_0,
            self is Uniform ==> 0 <= r < 100,
    {
        match self {
            IntegerGenerator::Uniform => draw_below(100) as i64,
            IntegerGenerator::Fixed(v) => *v,
        }
    }
}

impl Default for IntegerGenerator {
    fn default() -> (r: Self)
        ensures
            r == IntegerGenerator::Uniform,
    {
        IntegerGenerator::Uniform
    }
}

/// Producer of float field values, as IEEE-754 double bit patterns.
#[derive(Clone, Copy, Debug, PartialEq, Eq, Structural)]
pub enum FloatGenerator {
    /// The built-in default: a uniform pseudo-random dyadic rational in
    /// `[0, 100)`, drawn in steps of `2^-20`.
    Uniform,
    /// A caller-supplied fixed value, given as its bit pattern.
    FixedBits(u64),
}

impl FloatGenerator {
    pub fn generate(&self) -> (r: u64)
        ensures
            self is FixedBits ==> r == self->FixedBits_0,
            self is Uniform ==> is_default_float_draw(r),
    {
        match self {
            FloatGenerator::Uniform => default_float_bits(),
            FloatGenerator::FixedBits(v) => *v,
        }
    }
}

impl Default for FloatGenerator {
    fn default() -> (r: Self)
        ensures
            r == FloatGenerator::Uniform,
    {
        FloatGenerator::Uniform
    }
}

/// Producer of text field values.
#[derive(Debug)]
pub enum StringGenerator {
    /// The built-in default: a fixed placeholder text.
    Placeholder,
    /// A caller-supplied fixed value.
    Fixed(String),
}

/// The ghost shape of a [`StringGenerator`].
pub enum StringGeneratorV {
    Placeholder,
    Fixed(Seq<char>),
}

impl View for StringGenerator {
    type V = StringGeneratorV;

    open spec fn view(&self) -> StringGeneratorV {
        match self {
            StringGenerator::Placeholder => StringGeneratorV::Placeholder,
            StringGenerator::Fixed(s) => StringGeneratorV::Fixed(s@),
        }
    }
}

impl StringGenerator {
    pub fn generate(&self) -> (r: String)
        ensures
            self@ is Fixed ==> r@ == self@->Fixed_0,
            self@ is Placeholder ==> r@ == "placeholder"@,
    {
        match self {
            StringGenerator::Placeholder => "placeholder".to_owned(),
            StringGenerator::Fixed(s) => s.clone(),
        }
    }
}

impl Clone for StringGenerator {
    /// Cloning a generator never shares mutable generation state: the clone
    /// is an equal plain value.
    fn clone(&self) -> (r: Self)
        ensures
            r@ == self@,
    {
        match self {
            StringGenerator::Placeholder => StringGenerator::Placeholder,
            StringGenerator::Fixed(s) => StringGenerator::Fixed(s.clone()),
        }
    }
}

impl Default for StringGenerator {
    fn default() -> (r: Self)
        ensures
            r@ == StringGeneratorV::Placeholder,
    {
        StringGenerator::Placeholder
    }
}

} // verus!
