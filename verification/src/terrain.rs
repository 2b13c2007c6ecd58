//! The map sizes a match can be played on, and the small deterministic
//! generator from which a seed reproduces terrain and round winds.
use vstd::prelude::*;
use vstd::string::StringSliceAdditionalSpecFns;

verus! {

#[derive(Clone, Copy, Debug, PartialEq, Eq, Hash)]
pub enum MapSize {
    Small,
    Medium,
    Large,
}

/// The name a map size is shown and typed as, in lower-case ASCII.
pub open spec fn size_name(size: MapSize) -> Seq<u8> {
    match size {
        MapSize::Small => seq![115u8, 109, 97, 108, 108],
        MapSize::Medium => seq![109u8, 101, 100, 105, 117, 109],
        MapSize::Large => seq![108u8, 97, 114, 103, 101],
    }
}

pub open spec fn size_label(size: MapSize) -> Seq<char> {
    match size {
        MapSize::Small => "Small"@,
        MapSize::Medium => "Medium"@,
        MapSize::Large => "Large"@,
    }
}

/// `u8::to_ascii_lowercase`: capital ASCII letters become lower case.
pub open spec fn ascii_lower(b: u8) -> u8 {
    if 65 <= b <= 90 {
        (b + 32) as u8
    } else {
        b
    }
}

pub open spec fn lowered(s: Seq<u8>) -> Seq<u8> {
    s.map_values(|b: u8| ascii_lower(b))
}

/// Whether `bytes`, with capitals made lower case, are `name`.
fn same_ignoring_case(bytes: &[u8], name: &[u8]) -> (r: bool)
    ensures
        r == (lowered(bytes@) == name@),
{
    if bytes.len() != name.len() {
        assert(lowered(bytes@).len() != name@.len());
        return false;
    }
    let mut i: usize = 0;
    while i < bytes.len()
        invariant
            bytes@.len() == name@.len(),
            i <= bytes@.len(),
            forall|j: int| 0 <= j < i ==> ascii_lower(#[trigger] bytes@[j]) == name@[j],
        decreases bytes@.len() - i,
    {
        let b = bytes[i];
        let lower = if 65 <= b && b <= 90 {
            b + 32
        } else {
            b
        };
        if lower != name[i] {
            assert(lowered(bytes@)[i as int] != name@[i as int]);
            return false;
        }
        i += 1;
    }
    assert(lowered(bytes@) =~= name@);
    true
}

impl MapSize {
    /// The name shown on the size buttons and in the HUD.
    pub fn label(self) -> (r: &'static str)
        ensures
            r@ == size_label(self),
    {
        match self {
            MapSize::Small => "Small",
            MapSize::Medium => "Medium",
            MapSize::Large => "Large",
        }
    }

    /// Reads a size given on the command line (`small`, `medium` or
    /// `large`, in any mix of upper and lower case).
    pub fn parse(text: &str) -> (r: Option<MapSize>)
        ensures
            r matches Some(size) ==> lowered(text.spec_bytes()) == size_name(size),
            r is None ==> lowered(text.spec_bytes()) != size_name(MapSize::Small) && lowered(
                text.spec_bytes(),
            ) != size_name(MapSize::Medium) && lowered(text.spec_bytes()) != size_name(
                MapSize::Large,
            ),
    {
        let bytes = text.as_bytes();
        let small = [115u8, 109, 97, 108, 108];
        let medium = [109u8, 101, 100, 105, 117, 109];
        let large = [108u8, 97, 114, 103, 101];
        assert(small@ =~= size_name(MapSize::Small));
        assert(medium@ =~= size_name(MapSize::Medium));
        assert(large@ =~= size_name(MapSize::Large));
        if same_ignoring_case(bytes, &small) {
            Some(MapSize::Small)
        } else if same_ignoring_case(bytes, &medium) {
            Some(MapSize::Medium)
        } else if same_ignoring_case(bytes, &large) {
            Some(MapSize::Large)
        } else {
            None
        }
    }
}

pub const GOLDEN_GAMMA: u64 = 0x9e3779b97f4a7c15;

/// The output mixing of the generator (SplitMix64's finaliser).
pub open spec fn mix(s: u64) -> u64 {
    let z1 = vstd::wrapping::u64_specs::wrapping_mul(s ^ (s >> 30u64), 0xbf58476d1ce4e5b9);
    let z2 = vstd::wrapping::u64_specs::wrapping_mul(z1 ^ (z1 >> 27u64), 0x94d049bb133111eb);
    z2 ^ (z2 >> 31u64)
}

/// The generator's state after one draw from state `s`.
pub open spec fn advance(s: u64) -> u64 {
    vstd::wrapping::u64_specs::wrapping_add(s, GOLDEN_GAMMA)
}

/// The 24 random bits that a draw from state `s` yields.
pub open spec fn draw(s: u64) -> u32 {
    (mix(advance(s)) >> 40u64) as u32
}

/// Small deterministic generator: a seed reproduces terrain and round winds.
#[derive(Clone)]
pub struct Rng(u64);

impl Rng {
    pub closed spec fn state(&self) -> u64 {
        self.0
    }

    pub fn new(seed: u64) -> (r: Self)
        ensures
            r.state() == seed,
    {
        Rng(seed)
    }

    /// The next 24 random bits; `unit` divides them by 2^24 for a number in [0, 1).
    pub fn next_bits(&mut self) -> (r: u32)
        ensures
            final(self).state() == advance(old(self).state()),
            r == draw(old(self).state()),
            r < 0x100_0000,
    {
        self.0 = self.0.wrapping_add(GOLDEN_GAMMA);
        let mut z = self.0;
        z = (z ^ (z >> 30)).wrapping_mul(0xbf58476d1ce4e5b9);
        z = (z ^ (z >> 27)).wrapping_mul(0x94d049bb133111eb);
        let out = (z ^ (z >> 31)) >> 40;
        assert((z ^ (z >> 31)) >> 40u64 < 0x100_0000) by (bit_vector);
        out as u32
    }
}

} // verus!
