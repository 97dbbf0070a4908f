use vstd::prelude::*;
use vstd::slice::slice_to_vec;
use vstd::utf8::encode_utf8;

use rand::distributions::{Alphanumeric, DistString};
use rand::{thread_rng, Rng};

verus! {

/// What a record field holds, and where its content comes from.
#[derive(Debug, Clone, PartialEq, Eq)]
pub enum ValueGenerator {
    /// A user provided string.
    Fixed(String),
    /// The content of a file, at the given path.
    File(String),
    /// A random alphanumeric string of the given length.
    RandAlphaNum(usize),
    /// Random bytes, as many as given.
    RandBytes(usize),
    /// A random signed integer of the inclusive range.
    RandInt(i64, i64),
    /// A random float of the inclusive range; each bound is held as the bit pattern
    /// of an IEEE-754 double.
    RandFloat(u64, u64),
}

/// Why a field could not be set.
#[derive(Debug, Clone, Copy, PartialEq, Eq, Structural)]
pub enum FieldError {
    /// A `File` field was given without the content read from its file.
    MissingFileContent,
    /// A `RandInt` field whose minimum is above its maximum.
    EmptyRange,
}

/// An ASCII digit (48 to 57) or letter (65 to 90, 97 to 122).
pub open spec fn is_ascii_alphanumeric(b: u8) -> bool {
    (48 <= b <= 57) || (65 <= b <= 90) || (97 <= b <= 122)
}

/// The eight bytes of `v`, most significant first.
pub open spec fn be_bytes(v: u64) -> Seq<u8> {
    seq![
        (v / 0x100_0000_0000_0000) as u8,
        (v / 0x1_0000_0000_0000 % 0x100) as u8,
        (v / 0x100_0000_0000 % 0x100) as u8,
        (v / 0x1_0000_0000 % 0x100) as u8,
        (v / 0x100_0000 % 0x100) as u8,
        (v / 0x1_0000 % 0x100) as u8,
        (v / 0x100 % 0x100) as u8,
        (v % 0x100) as u8,
    ]
}

/// The eight bytes of `v` in two's complement, most significant first.
pub open spec fn i64_be_bytes(v: i64) -> Seq<u8> {
    be_bytes(v as u64)
}

impl ValueGenerator {
    /// Whether the content is the same at every generation, and so is kept once made.
    pub open spec fn is_memoized(self) -> bool {
        self is Fixed || self is File
    }

    pub open spec fn wf(self) -> bool {
        self matches ValueGenerator::RandInt(min, max) ==> min <= max
    }

    /// Whether `out` is content that a generation of `self` may give, where
    /// `draw_float` draws a float of a range given by bit patterns.
    pub open spec fn may_give<F: Fn(u64, u64) -> Vec<u8>>(
        self,
        out: Seq<u8>,
        draw_float: F,
    ) -> bool {
        match self {
            ValueGenerator::Fixed(s) => out == encode_utf8(s@),
            ValueGenerator::File(_) => false,
            ValueGenerator::RandAlphaNum(n) => out.len() == n && forall|i: int|
                0 <= i < out.len() ==> is_ascii_alphanumeric(#[trigger] out[i]),
            ValueGenerator::RandBytes(n) => out.len() == n,
            ValueGenerator::RandInt(min, max) => exists|v: i64|
                min <= v <= max && out == #[trigger] i64_be_bytes(v),
            ValueGenerator::RandFloat(lo, hi) => exists|b: Vec<u8>|
                b@ == out && #[trigger] draw_float.ensures((lo, hi), b),
        }
    }

    /// Generates the content of a field. A `File` field has no content of its own
    /// here: its content is read once, ahead, and kept by the [`RecordGenerator`].
    pub fn generate<F: Fn(u64, u64) -> Vec<u8>>(&self, draw_float: &F) -> (r: Vec<u8>)
        requires
            self.wf(),
            !(self is File),
            forall|lo: u64, hi: u64| draw_float.requires((lo, hi)),
        ensures
            self.may_give(r@, *draw_float),
    {
        match self {
            ValueGenerator::Fixed(s) => slice_to_vec(s.as_str().as_bytes()),
            ValueGenerator::File(_) => Vec::new(),
            ValueGenerator::RandAlphaNum(l) => random_alphanumeric(*l),
            ValueGenerator::RandBytes(l) => {
                let mut random_bytes: Vec<u8> = Vec::new();
                while random_bytes.len() < *l
                    invariant
                        random_bytes@.len() <= *l,
                    decreases *l - random_bytes@.len(),
                {
                    random_bytes.push(random_byte());
                }
                random_bytes
            },
            ValueGenerator::RandInt(min, max) => {
                let v = random_int_in(*min, *max);
                let r = to_be_bytes(v as u64);
                assert(r@ == i64_be_bytes(v));
                r
            },
            ValueGenerator::RandFloat(lo, hi) => draw_float(*lo, *hi),
        }
    }
}

/// The eight bytes of `v`, most significant first.
pub fn to_be_bytes(v: u64) -> (r: Vec<u8>)
    ensures
        r@ == be_bytes(v),
{
    let r = vec![
        (v / 0x100_0000_0000_0000) as u8,
        (v / 0x1_0000_0000_0000 % 0x100) as u8,
        (v / 0x100_0000_0000 % 0x100) as u8,
        (v / 0x1_0000_0000 % 0x100) as u8,
        (v / 0x100_0000 % 0x100) as u8,
        (v / 0x1_0000 % 0x100) as u8,
        (v / 0x100 % 0x100) as u8,
        (v % 0x100) as u8,
    ];
    assert(r@ =~= be_bytes(v));
    r
}

/// Relies on rand's `Alphanumeric` string sampling: `len` characters, each drawn
/// from `A-Z`, `a-z` and `0-9`, so `len` ASCII bytes.
#[verifier::external_body]
fn random_alphanumeric(len: usize) -> (r: Vec<u8>)
    ensures
        r@.len() == len,
        forall|i: int| 0 <= i < r@.len() ==> is_ascii_alphanumeric(#[trigger] r@[i]),
{
    Alphanumeric.sample_string(&mut thread_rng(), len).into_bytes()
}

/// Relies on rand's `Rng::gen` for `u8`: any byte.
#[verifier::external_body]
fn random_byte() -> u8 {
    thread_rng().gen::<u8>()
}

/// Relies on rand's `Rng::gen_range` over an inclusive range, which panics on an
/// empty one and otherwise returns a value within it.
#[verifier::external_body]
fn random_int_in(min: i64, max: i64) -> (r: i64)
    requires
        min <= max,
    ensures
        min <= r <= max,
{
    thread_rng().gen_range(min..=max)
}

} // verus!
