use vstd::prelude::*;

verus! {

/// A positive rational HiDPI scale factor, `numerator / denominator`
/// physical pixels per logical point.
pub struct ScaleFactor {
    numerator: u32,
    denominator: u32,
}

impl ScaleFactor {
    #[verifier::type_invariant]
    spec fn positive(&self) -> bool {
        self.numerator > 0 && self.denominator > 0
    }

    pub closed spec fn num(&self) -> int {
        self.numerator as int
    }

    pub closed spec fn den(&self) -> int {
        self.denominator as int
    }

    /// The factor `numerator / denominator`; `None` when either part is zero.
    pub fn new(numerator: u32, denominator: u32) -> (r: Option<ScaleFactor>)
        ensures
            r is Some <==> numerator > 0 && denominator > 0,
            r matches Some(s) ==> s.num() == numerator && s.den() == denominator,
    {
        if numerator > 0 && denominator > 0 {
            Some(ScaleFactor { numerator, denominator })
        } else {
            None
        }
    }

    pub fn numerator(&self) -> (r: u32)
        ensures
            r == self.num(),
            r > 0,
    {
        proof {
            use_type_invariant(self);
        }
        self.numerator
    }

    pub fn denominator(&self) -> (r: u32)
        ensures
            r == self.den(),
            r > 0,
    {
        proof {
            use_type_invariant(self);
        }
        self.denominator
    }

    /// Both parts are positive, as every value of this type has them.
    pub open spec fn valid(&self) -> bool {
        self.num() > 0 && self.den() > 0
    }
}

/// The size of the target surface and its scale factor for one frame.
pub struct ScreenDescriptor {
    /// Width of the window in physical pixels.
    pub physical_width: u32,
    /// Height of the window in physical pixels.
    pub physical_height: u32,
    /// HiDPI scale factor.
    pub scale_factor: ScaleFactor,
}

/// A physical extent in logical points, truncated toward zero and
/// saturated at the largest `u32`.
pub open spec fn logical_extent(physical: int, scale: ScaleFactor) -> int {
    let q = physical * scale.den() / scale.num();
    if q > u32::MAX {
        u32::MAX as int
    } else {
        q
    }
}

/// Two non-negative fractions that are equal as rationals have equal floors.
proof fn lemma_equal_ratios_equal_floors(a: int, b: int, c: int, d: int)
    requires
        a >= 0,
        c >= 0,
        b > 0,
        d > 0,
        a * d == c * b,
    ensures
        a / b == c / d,
{
    let q = c / d;
    let r = c % d;
    vstd::arithmetic::div_mod::lemma_fundamental_div_mod(c, d);
    let t = a - q * b;
    assert(t * d == r * b) by (nonlinear_arith)
        requires
            a * d == c * b,
            c == d * q + r,
            t == a - q * b,
    ;
    assert(0 <= t < b) by (nonlinear_arith)
        requires
            t * d == r * b,
            0 <= r < d,
            b > 0,
            d > 0,
    ;
    vstd::arithmetic::div_mod::lemma_fundamental_div_mod_converse(a, b, q, t);
}

impl ScreenDescriptor {
    pub open spec fn spec_logical_size(&self) -> (int, int) {
        (
            logical_extent(self.physical_width as int, self.scale_factor),
            logical_extent(self.physical_height as int, self.scale_factor),
        )
    }

    /// The surface size in logical points.
    pub fn logical_size(&self) -> (r: (u32, u32))
        ensures
            (r.0 as int, r.1 as int) == self.spec_logical_size(),
    {
        (
            scale_to_logical(self.physical_width, &self.scale_factor),
            scale_to_logical(self.physical_height, &self.scale_factor),
        )
    }

    /// The logical size does not change when the physical width, the physical
    /// height and the scale factor are all multiplied by the same positive
    /// factor `p / q`.
    pub proof fn lemma_logical_size_scale_invariant(
        a: &ScreenDescriptor,
        b: &ScreenDescriptor,
        p: int,
        q: int,
    )
        requires
            a.scale_factor.valid(),
            b.scale_factor.valid(),
            p > 0,
            q > 0,
            b.physical_width * q == a.physical_width * p,
            b.physical_height * q == a.physical_height * p,
            b.scale_factor.num() * a.scale_factor.den() * q == a.scale_factor.num()
                * b.scale_factor.den() * p,
        ensures
            a.spec_logical_size() == b.spec_logical_size(),
    {
        lemma_scaled_extent(a.physical_width as int, b.physical_width as int, a.scale_factor, b.scale_factor, p, q);
        lemma_scaled_extent(a.physical_height as int, b.physical_height as int, a.scale_factor, b.scale_factor, p, q);
    }
}

proof fn lemma_scaled_extent(wa: int, wb: int, sa: ScaleFactor, sb: ScaleFactor, p: int, q: int)
    requires
        p > 0,
        q > 0,
        wa >= 0,
        wb >= 0,
        sa.num() > 0,
        sa.den() > 0,
        sb.num() > 0,
        sb.den() > 0,
        wb * q == wa * p,
        sb.num() * sa.den() * q == sa.num() * sb.den() * p,
    ensures
        logical_extent(wa, sa) == logical_extent(wb, sb),
{
    let (na, da, nb, db) = (sa.num(), sa.den(), sb.num(), sb.den());
    assert((wb * db) * na * q == (wb * q) * (db * na)) by (nonlinear_arith);
    assert((wa * p) * (db * na) == wa * (na * db * p)) by (nonlinear_arith);
    assert(wa * (nb * da * q) == (wa * da) * nb * q) by (nonlinear_arith);
    assert((wb * db) * na * q == (wa * da) * nb * q);
    assert((wb * db) * na == (wa * da) * nb) by (nonlinear_arith)
        requires
            (wb * db) * na * q == (wa * da) * nb * q,
            q > 0,
    ;
    assert(wb * db >= 0 && wa * da >= 0) by (nonlinear_arith)
        requires
            wa >= 0,
            wb >= 0,
            da > 0,
            db > 0,
    ;
    lemma_equal_ratios_equal_floors(wb * db, nb, wa * da, na);
}

fn scale_to_logical(physical: u32, scale: &ScaleFactor) -> (r: u32)
    ensures
        r == logical_extent(physical as int, *scale),
{
    let num = scale.numerator();
    let den = scale.denominator();
    assert(physical as int * den as int <= u32::MAX as int * u32::MAX as int) by (nonlinear_arith)
        requires
            physical <= u32::MAX,
            den <= u32::MAX,
    ;
    let scaled: u64 = physical as u64 * den as u64;
    let q: u64 = scaled / num as u64;
    if q > u32::MAX as u64 {
        u32::MAX
    } else {
        q as u32
    }
}

} // verus!
