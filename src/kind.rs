use vstd::prelude::*;

verus! {

/// A hardware variant of the Stream Deck family.
#[derive(Clone, Copy, Debug, PartialEq, Eq, Structural)]
pub enum Kind {
    Original,
    OriginalV2,
    Mini,
    Xl,
    XlV2,
    Mk2,
    MiniMk2,
    Pedal,
    Plus,
}

impl Kind {
    pub open spec fn spec_key_count(self) -> u8 {
        match self {
            Kind::Original | Kind::OriginalV2 | Kind::Mk2 => 15,
            Kind::Mini | Kind::MiniMk2 => 6,
            Kind::Xl | Kind::XlV2 => 32,
            Kind::Pedal => 3,
            Kind::Plus => 8,
        }
    }

    pub open spec fn spec_column_count(self) -> u8 {
        match self {
            Kind::Original | Kind::OriginalV2 | Kind::Mk2 => 5,
            Kind::Mini | Kind::MiniMk2 => 3,
            Kind::Xl | Kind::XlV2 => 8,
            Kind::Pedal => 3,
            Kind::Plus => 4,
        }
    }

    pub open spec fn spec_encoder_count(self) -> u8 {
        match self {
            Kind::Plus => 4,
            _ => 0,
        }
    }

    pub open spec fn spec_has_touch_surface(self) -> bool {
        self == Kind::Plus
    }

    /// Number of keys on the device.
    pub fn key_count(&self) -> (r: u8)
        ensures
            r == self.spec_key_count(),
    {
        match self {
            Kind::Original | Kind::OriginalV2 | Kind::Mk2 => 15,
            Kind::Mini | Kind::MiniMk2 => 6,
            Kind::Xl | Kind::XlV2 => 32,
            Kind::Pedal => 3,
            Kind::Plus => 8,
        }
    }

    /// Number of columns of the key matrix.
    pub fn column_count(&self) -> (r: u8)
        ensures
            r == self.spec_column_count(),
    {
        match self {
            Kind::Original | Kind::OriginalV2 | Kind::Mk2 => 5,
            Kind::Mini | Kind::MiniMk2 => 3,
            Kind::Xl | Kind::XlV2 => 8,
            Kind::Pedal => 3,
            Kind::Plus => 4,
        }
    }

    /// Number of rotary encoders; zero where the device has none.
    pub fn encoder_count(&self) -> (r: u8)
        ensures
            r == self.spec_encoder_count(),
    {
        match self {
            Kind::Plus => 4,
            _ => 0,
        }
    }

    /// Whether the device has a touch-sensitive display strip.
    pub fn has_touch_surface(&self) -> (r: bool)
        ensures
            r == self.spec_has_touch_surface(),
    {
        match self {
            Kind::Plus => true,
            _ => false,
        }
    }

    /// The key matrix of the device is wired mirrored left to right.
    pub open spec fn spec_is_mirrored(self) -> bool {
        self == Kind::Original
    }
}

/// Every kind has a positive column count that divides its key count, fewer
/// than forty keys and at most four encoders.
pub proof fn lemma_kind_geometry(kind: Kind)
    ensures
        kind.spec_column_count() > 0,
        kind.spec_key_count() % kind.spec_column_count() == 0,
        kind.spec_key_count() + 1 <= 40,
        kind.spec_encoder_count() <= 4,
{
}

/// Mirrors index `k` within its row of `c` columns.
pub open spec fn flip_spec(c: int, k: int) -> int {
    (k - k % c) + (c - 1 - k % c)
}

/// Mirrors a key index horizontally within its row, as the wiring of the
/// original Stream Deck requires.
pub fn flip_key_index(kind: &Kind, key: u8) -> (r: u8)
    requires
        (key as int) - (key as int) % (kind.spec_column_count() as int)
            + kind.spec_column_count() - 1 <= u8::MAX,
    ensures
        r as int == flip_spec(kind.spec_column_count() as int, key as int),
{
    proof {
        lemma_kind_geometry(*kind);
    }
    let col = key % kind.column_count();
    (key - col) + ((kind.column_count() - 1) - col)
}

proof fn lemma_flip_row(c: int, k: int)
    requires
        c > 0,
        k >= 0,
    ensures
        flip_spec(c, k) == (k / c) * c + (c - 1 - k % c),
        0 <= c - 1 - k % c < c,
        flip_spec(c, k) % c == c - 1 - k % c,
        flip_spec(c, k) / c == k / c,
{
    vstd::arithmetic::div_mod::lemma_fundamental_div_mod(k, c);
    vstd::arithmetic::div_mod::lemma_mod_bound(k, c);
    let q = k / c;
    let j = c - 1 - k % c;
    assert(q * c == c * q) by (nonlinear_arith);
    vstd::arithmetic::div_mod::lemma_fundamental_div_mod_converse(flip_spec(c, k), c, q, j);
}

/// Mirroring a key index is an involution and a bijection of the key range:
/// applying it twice gives the index back, and it never leaves the range.
pub proof fn lemma_flip_key_index_involution(kind: Kind, k: int)
    requires
        0 <= k < kind.spec_key_count(),
    ensures
        0 <= flip_spec(kind.spec_column_count() as int, k) < kind.spec_key_count(),
        flip_spec(
            kind.spec_column_count() as int,
            flip_spec(kind.spec_column_count() as int, k),
        ) == k,
{
    let c = kind.spec_column_count() as int;
    let n = kind.spec_key_count() as int;
    lemma_kind_geometry(kind);
    lemma_flip_row(c, k);
    let f = flip_spec(c, k);
    lemma_flip_row(c, f);
    vstd::arithmetic::div_mod::lemma_fundamental_div_mod(k, c);
    vstd::arithmetic::div_mod::lemma_fundamental_div_mod(n, c);
    let q = k / c;
    assert(q < n / c) by {
        if q >= n / c {
            vstd::arithmetic::mul::lemma_mul_inequality(n / c, q, c);
        }
    }
    assert(q * c + c <= n) by {
        vstd::arithmetic::mul::lemma_mul_inequality(q + 1, n / c, c);
        assert((q + 1) * c == q * c + c) by (nonlinear_arith);
    }
}

} // verus!
