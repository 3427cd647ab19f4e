//! Angles, held in radians and in degrees at once.
//!
//! Positive angles are counter-clockwise.
use vstd::prelude::*;
use crate::elementary::{sin_cos, sin_cos_spec, PI_RAW, HALF_PI_RAW, TAU_RAW};
use crate::scalar::{
    Scalar, floor_div, lemma_mul_bound, round_div, trunc_div, trunc_rem, wide_round_div, MAX_RAW,
    NAN_RAW, ONE_RAW,
};

verus! {

/// pi with 48 fractional bits.
pub const PI_WIDE: i128 = 884279719003555;

/// 180 with 48 fractional bits.
pub const HALF_TURN_WIDE: i128 = 0xb4_0000_0000_0000;

/// Raw value of 360.
pub const FULL_TURN_DEG_RAW: i64 = 0x1_6800_0000;

/// Raw value of 180.
pub const HALF_TURN_DEG_RAW: i64 = 0xb400_0000;

/// Raw value of 90.
pub const QUARTER_TURN_DEG_RAW: i64 = 0x5a00_0000;

/// An angle, held in radians and in degrees at once.  The two measures
/// are private: they are set together and change together, so that they
/// agree in every angle that this module makes (see [`Angle::agrees`]).
#[derive(Clone, Copy, Debug, PartialEq, Eq, Structural)]
pub struct Angle {
    rad: Scalar,
    deg: Scalar,
}

/// The scalar 360.
pub open spec fn full_turn_deg() -> Scalar {
    Scalar { raw: FULL_TURN_DEG_RAW }
}

/// Radians from degrees: `deg * pi / 180` with `pi` to 48 fractional bits,
/// rounded once, to the nearest raw value.
pub open spec fn deg_to_rad(deg: Scalar) -> Scalar {
    if deg.is_finite() {
        Scalar::of(round_div(deg.raw * PI_WIDE, HALF_TURN_WIDE as int))
    } else {
        Scalar::nan()
    }
}

/// Degrees from radians: `rad * 180 / pi` with `pi` to 48 fractional bits,
/// rounded once, to the nearest raw value.
pub open spec fn rad_to_deg(rad: Scalar) -> Scalar {
    if rad.is_finite() {
        Scalar::of(round_div(rad.raw * HALF_TURN_WIDE, PI_WIDE as int))
    } else {
        Scalar::nan()
    }
}

impl View for Angle {
    type V = (int, int);

    /// The raw values of the two measures: radians, then degrees.
    closed spec fn view(&self) -> (int, int) {
        (self.rad.raw as int, self.deg.raw as int)
    }
}

impl Angle {
    /// The measure in radians.
    pub closed spec fn radians(self) -> Scalar {
        self.rad
    }

    /// The measure in degrees.
    pub closed spec fn degrees(self) -> Scalar {
        self.deg
    }

    /// The angle with the two measures `rad` and `deg`.
    pub closed spec fn of(rad: Scalar, deg: Scalar) -> Angle {
        Angle { rad, deg }
    }

    /// An angle is its two measures.
    pub proof fn lemma_of_measures(self)
        ensures
            self == Angle::of(self.radians(), self.degrees()),
            self@ == (self.radians()@, self.degrees()@),
            forall|r: Scalar, d: Scalar|
                #![trigger Angle::of(r, d)]
                Angle::of(r, d).radians() == r && Angle::of(r, d).degrees() == d,
    {
    }

    /// The two measures stay together.  The radians of an angle made from
    /// finite degrees are finite and within half a raw unit of the degrees
    /// times pi / 180; every operation that changes an angle makes its
    /// result from the degrees.
    pub proof fn law_radians_follow_degrees(deg: Scalar)
        requires
            deg.is_finite(),
        ensures
            Angle::from_deg_spec(deg).degrees() == deg,
            Angle::from_deg_spec(deg).radians().is_finite(),
            -(HALF_TURN_WIDE as int) <= 2 * (Angle::from_deg_spec(deg).radians().raw
                * HALF_TURN_WIDE - deg.raw * PI_WIDE) <= HALF_TURN_WIDE as int,
    {
        let n = deg.raw * 884279719003555;
        let d = 0xb4_0000_0000_0000int;
        assert(PI_WIDE == 884279719003555 && HALF_TURN_WIDE == 0xb4_0000_0000_0000);
        let q = round_div(n, d);
        assert(-d <= 2 * (q * d - n) <= d);
        assert(MAX_RAW == 0x100_0000_0000);
        assert(-0x100_0000_0000 <= q <= 0x100_0000_0000);
        assert(q * d == q * HALF_TURN_WIDE);
    }

    /// Whether the two measures agree: the radians are the degrees times
    /// pi / 180, or the degrees the radians times 180 / pi, rounded once.
    /// Degrees are the finer measure, so that where the degrees are finite
    /// the first holds (see [`Angle::law_measures_agree`]).
    pub open spec fn agrees(self) -> bool {
        self.radians() == deg_to_rad(self.degrees()) || self.degrees() == rad_to_deg(
            self.radians(),
        )
    }

    /// Radians that give finite degrees come back from them unchanged.
    pub proof fn law_radians_return(rad: Scalar)
        requires
            rad_to_deg(rad).is_finite(),
        ensures
            rad.is_finite(),
            deg_to_rad(rad_to_deg(rad)) == rad,
    {
        let h = 0xb4_0000_0000_0000int;
        let p = 884279719003555int;
        assert(PI_WIDE == 884279719003555 && HALF_TURN_WIDE == 0xb4_0000_0000_0000);
        assert(MAX_RAW == 0x100_0000_0000);
        let r = rad.raw as int;
        let d = round_div(r * h, p);
        assert(-p <= 2 * (d * p - r * h) <= p);
        assert(rad_to_deg(rad).raw == d);
        let q = round_div(d * p, h);
        assert(-h <= 2 * (q * h - d * p) <= h);
        assert(q == r) by (nonlinear_arith)
            requires
                -h <= 2 * (q * h - d * p) <= h,
                -p <= 2 * (d * p - r * h) <= p,
                0 < p < h,
        ;
    }

    /// In an angle whose measures agree and whose degrees are finite, the
    /// radians are those derived from the degrees.
    pub proof fn law_measures_agree(self)
        requires
            self.agrees(),
            self.degrees().is_finite(),
        ensures
            self.radians() == deg_to_rad(self.degrees()),
    {
        if self.degrees() == rad_to_deg(self.radians()) {
            Angle::law_radians_return(self.radians());
        }
    }

    /// The angle of `deg` degrees, with the radians derived from them.
    pub open spec fn from_deg_spec(deg: Scalar) -> Angle {
        Angle::of(deg_to_rad(deg), deg)
    }

    /// The angle of `rad` radians, with the degrees derived from them.
    pub open spec fn from_rad_spec(rad: Scalar) -> Angle {
        Angle::of(rad, rad_to_deg(rad))
    }

    /// The angle of `s` times the degrees, with the radians derived from
    /// them, so that the two measures stay together whatever the factor.
    pub open spec fn scale_spec(self, s: Scalar) -> Angle {
        Angle::from_deg_spec(self.degrees().mul_spec(s))
    }

    /// The angle of the degrees divided by `s`, with the radians derived
    /// from them.
    pub open spec fn div_spec(self, s: Scalar) -> Angle {
        Angle::from_deg_spec(self.degrees().div_spec(s))
    }

    /// The angle of the sum of the degrees, with the radians derived from
    /// them.
    pub open spec fn add_spec(self, other: Angle) -> Angle {
        Angle::from_deg_spec(self.degrees().add_spec(other.degrees()))
    }

    /// The angle of the difference of the degrees, with the radians derived
    /// from them.
    pub open spec fn sub_spec(self, other: Angle) -> Angle {
        Angle::from_deg_spec(self.degrees().sub_spec(other.degrees()))
    }

    /// The angle of the negated degrees, with the radians derived from
    /// them.
    pub open spec fn neg_spec(self) -> Angle {
        Angle::from_deg_spec(self.degrees().neg_spec())
    }

    /// The angle of half the degrees, rounded toward zero, with the radians
    /// derived from them.
    pub open spec fn halved_spec(self) -> Angle {
        Angle::from_deg_spec(self.degrees().div_int_spec(2))
    }

    /// The angle of the degrees without their sign, with the radians
    /// derived from them.
    pub open spec fn abs_spec(self) -> Angle {
        Angle::from_deg_spec(self.degrees().abs_spec())
    }

    /// The angle of the remainder of the degrees by `s`, with the radians
    /// derived from them.
    pub open spec fn rem_spec(self, s: Scalar) -> Angle {
        Angle::from_deg_spec(self.degrees().rem_spec(s))
    }

    /// The multiple of `step` whose factor is the exact quotient of the two
    /// measures in degrees, rounded toward zero.
    pub open spec fn floor_spec(self, step: Angle) -> Angle {
        step.scale_spec(self.degrees().quotient_trunc_spec(step.degrees()))
    }

    /// The multiple of `step` whose factor is the exact quotient of the two
    /// measures in degrees, rounded away from zero.
    pub open spec fn ceil_spec(self, step: Angle) -> Angle {
        step.scale_spec(self.degrees().quotient_away_spec(step.degrees()))
    }

    /// The multiple of `step` whose factor is the exact quotient of the two
    /// measures in degrees, rounded to the nearest integer.
    pub open spec fn round_spec(self, step: Angle) -> Angle {
        step.scale_spec(self.degrees().quotient_round_spec(step.degrees()))
    }

    /// The measure in degrees brought into `(-360, 360)`, with the sign of the angle.
    pub open spec fn turn_remainder(self) -> Scalar {
        self.degrees().rem_spec(full_turn_deg())
    }

    /// The angle brought into `[0, 360]` degrees: the remainder of a turn,
    /// and for a negative angle a full turn more.  A negative whole number
    /// of turns gives 360 degrees, every other angle less.
    pub open spec fn corrected_spec(self) -> Angle {
        let m = self.turn_remainder();
        Angle::from_deg_spec(
            if self.degrees().lt_spec(Scalar { raw: 0 }) {
                full_turn_deg().add_spec(m)
            } else {
                m
            },
        )
    }

    /// A negative angle moved up by whole turns, any other angle
    /// unchanged.  For a negative `d`, with `k` the exact quotient `d / 360`
    /// rounded down, the result is `-360 k` plus the remainder of `d`.
    pub open spec fn sign_corrected_spec(self) -> Angle {
        let d = self.degrees();
        Angle::from_deg_spec(
            if d.lt_spec(Scalar { raw: 0 }) {
                d.quotient_floor_spec(full_turn_deg()).mul_spec(
                    full_turn_deg().neg_spec(),
                ).add_spec(self.turn_remainder())
            } else {
                d
            },
        )
    }

    /// The angle of `deg` degrees.
    pub fn from_deg(deg: Scalar) -> (a: Angle)
        ensures
            a == Angle::from_deg_spec(deg),
            a.agrees(),
    {
        let rad = if deg.finite() {
            proof {
                lemma_mul_bound(deg.raw as int, PI_WIDE as int, MAX_RAW as int, PI_WIDE as int);
            }
            Scalar::from_wide(wide_round_div((deg.raw as i128) * PI_WIDE, HALF_TURN_WIDE))
        } else {
            Scalar { raw: NAN_RAW }
        };
        Angle { rad, deg }
    }

    /// The angle of `rad` radians.
    pub fn from_rad(rad: Scalar) -> (a: Angle)
        ensures
            a == Angle::from_rad_spec(rad),
            a.agrees(),
    {
        let deg = if rad.finite() {
            proof {
                lemma_mul_bound(
                    rad.raw as int,
                    HALF_TURN_WIDE as int,
                    MAX_RAW as int,
                    HALF_TURN_WIDE as int,
                );
            }
            Scalar::from_wide(wide_round_div((rad.raw as i128) * HALF_TURN_WIDE, PI_WIDE))
        } else {
            Scalar { raw: NAN_RAW }
        };
        Angle { rad, deg }
    }

    /// The full turn: 2 pi radians, 360 degrees.
    pub fn full() -> (a: Angle)
        ensures
            a == Angle::of(Scalar { raw: TAU_RAW }, Scalar { raw: FULL_TURN_DEG_RAW }),
            a.agrees(),
    {
        Angle { rad: Scalar { raw: TAU_RAW }, deg: Scalar { raw: FULL_TURN_DEG_RAW } }
    }

    /// The half turn: pi radians, 180 degrees.
    pub fn half() -> (a: Angle)
        ensures
            a == Angle::of(Scalar { raw: PI_RAW }, Scalar { raw: HALF_TURN_DEG_RAW }),
            a.agrees(),
    {
        Angle { rad: Scalar { raw: PI_RAW }, deg: Scalar { raw: HALF_TURN_DEG_RAW } }
    }

    /// The quarter turn: pi / 2 radians, 90 degrees.
    pub fn quarter() -> (a: Angle)
        ensures
            a == Angle::of(Scalar { raw: HALF_PI_RAW }, Scalar { raw: QUARTER_TURN_DEG_RAW }),
            a.agrees(),
    {
        Angle { rad: Scalar { raw: HALF_PI_RAW }, deg: Scalar { raw: QUARTER_TURN_DEG_RAW } }
    }

    /// The zero angle.
    pub fn zero() -> (a: Angle)
        ensures
            a == Angle::of(Scalar { raw: 0 }, Scalar { raw: 0 }),
            a.agrees(),
    {
        Angle { rad: Scalar { raw: 0 }, deg: Scalar { raw: 0 } }
    }

    /// The measure in radians.
    pub fn rad(&self) -> (r: Scalar)
        ensures
            r == self.radians(),
    {
        self.rad
    }

    /// The measure in degrees.
    pub fn deg(&self) -> (r: Scalar)
        ensures
            r == self.degrees(),
    {
        self.deg
    }

    /// The angle of `s` times the degrees, with the radians derived from
    /// them, so that the two measures stay together whatever the factor.
    pub fn scale(&self, s: &Scalar) -> (r: Angle)
        ensures
            r == self.scale_spec(*s),
            r.agrees(),
    {
        Angle::from_deg(self.deg.mul(*s))
    }

    /// The angle of the degrees divided by `s`, with the radians derived
    /// from them.
    pub fn div(self, s: Scalar) -> (r: Angle)
        ensures
            r == self.div_spec(s),
            r.agrees(),
    {
        Angle::from_deg(self.deg.div(s))
    }

    /// Half of the angle.
    pub fn halved(&self) -> (r: Angle)
        ensures
            r == self.halved_spec(),
            r.agrees(),
    {
        Angle::from_deg(self.deg.div_int(2))
    }

    /// Sum of two angles.
    pub fn add(self, other: Angle) -> (r: Angle)
        ensures
            r == self.add_spec(other),
            r.agrees(),
    {
        Angle::from_deg(self.deg.add(other.deg))
    }

    /// Difference of two angles.
    pub fn sub(self, other: Angle) -> (r: Angle)
        ensures
            r == self.sub_spec(other),
            r.agrees(),
    {
        Angle::from_deg(self.deg.sub(other.deg))
    }

    /// The angle turned the other way.
    pub fn neg(self) -> (r: Angle)
        ensures
            r == self.neg_spec(),
            r.agrees(),
    {
        Angle::from_deg(self.deg.neg())
    }

    /// The angle of the remainder of the degrees by `s`, with the sign of
    /// this angle and the radians derived from the degrees.
    pub fn rem(self, s: Scalar) -> (r: Angle)
        ensures
            r == self.rem_spec(s),
            r.agrees(),
    {
        Angle::from_deg(self.deg.rem(s))
    }

    /// Minimum of two angles: this one when it is strictly smaller, else `angle`.
    pub fn min(&self, angle: Angle) -> (r: Angle)
        ensures
            r == (if self.degrees().lt_spec(angle.degrees()) {
                *self
            } else {
                angle
            }),
            self.agrees() && angle.agrees() ==> r.agrees(),
    {
        if self.deg.lt(&angle.deg) {
            *self
        } else {
            angle
        }
    }

    /// Maximum of two angles: this one when it is strictly larger, else `angle`.
    pub fn max(&self, angle: Angle) -> (r: Angle)
        ensures
            r == (if angle.degrees().lt_spec(self.degrees()) {
                *self
            } else {
                angle
            }),
            self.agrees() && angle.agrees() ==> r.agrees(),
    {
        if angle.deg.lt(&self.deg) {
            *self
        } else {
            angle
        }
    }

    /// This angle held between `min` and `max`: `max` when it is above
    /// `max`, else `min` when it is below `min`, else itself.
    pub fn clamp(&self, min: Angle, max: Angle) -> (r: Angle)
        ensures
            r == (if max.degrees().lt_spec(self.degrees()) {
                max
            } else if self.degrees().lt_spec(min.degrees()) {
                min
            } else {
                *self
            }),
            self.agrees() && min.agrees() && max.agrees() ==> r.agrees(),
    {
        if max.deg.lt(&self.deg) {
            max
        } else if self.deg.lt(&min.deg) {
            min
        } else {
            *self
        }
    }

    /// The angle without its sign.
    pub fn abs(&self) -> (r: Angle)
        ensures
            r == self.abs_spec(),
            r.agrees(),
    {
        Angle::from_deg(self.deg.abs())
    }

    /// One for an angle of zero or more degrees, minus one for a negative one.
    pub fn signum(&self) -> (r: Scalar)
        ensures
            r == self.degrees().signum_spec(),
    {
        self.deg.signum()
    }

    /// Round toward zero to a multiple of `angle`.
    pub fn floor(&self, angle: Angle) -> (r: Angle)
        ensures
            r == self.floor_spec(angle),
            r.agrees(),
    {
        let n = self.deg.quotient_trunc(&angle.deg);
        angle.scale(&n)
    }

    /// Round away from zero to a multiple of `angle`.
    pub fn ceil(&self, angle: Angle) -> (r: Angle)
        ensures
            r == self.ceil_spec(angle),
            r.agrees(),
    {
        let n = self.deg.quotient_away(&angle.deg);
        angle.scale(&n)
    }

    /// Round to the nearest multiple of `angle`.
    pub fn round(&self, angle: Angle) -> (r: Angle)
        ensures
            r == self.round_spec(angle),
            r.agrees(),
    {
        let n = self.deg.quotient_round(&angle.deg);
        angle.scale(&n)
    }

    /// The same angle in `[0, 360]` degrees: -20 degrees becomes 340
    /// degrees.  A negative whole number of turns becomes 360 degrees; every
    /// other angle comes out below 360 degrees.
    pub fn corrected(&self) -> (r: Angle)
        ensures
            r == self.corrected_spec(),
            r.agrees(),
            self.degrees().is_finite() ==> r.degrees().is_finite() && 0 <= r.degrees().raw
                <= FULL_TURN_DEG_RAW,
            self.degrees().is_finite() && self.degrees().raw >= 0 ==> r.degrees().raw
                < FULL_TURN_DEG_RAW,
    {
        proof {
            let d = self.deg.raw as int;
            assert(FULL_TURN_DEG_RAW == 0x1_6800_0000);
            if self.deg.is_finite() {
                assert(-0x1_6800_0000 < trunc_rem(d, 0x1_6800_0000) < 0x1_6800_0000);
                assert(d >= 0 ==> trunc_rem(d, 0x1_6800_0000) >= 0);
                assert(d < 0 ==> trunc_rem(d, 0x1_6800_0000) <= 0);
            }
        }
        let full = Scalar { raw: FULL_TURN_DEG_RAW };
        let modulo = self.deg.rem(full);
        let angle = if self.deg.lt(&Scalar { raw: 0 }) {
            full.add(modulo)
        } else {
            modulo
        };
        Angle::from_deg(angle)
    }

    /// A negative angle moved up by whole turns until it is zero or more,
    /// any other angle unchanged: -380 degrees becomes 700 degrees.  The
    /// result is never negative; it is non-finite only for an angle that is
    /// non-finite or within a turn of -65536 degrees.
    pub fn sign_corrected(&self) -> (r: Angle)
        ensures
            r == self.sign_corrected_spec(),
            r.agrees(),
            r.degrees().is_finite() ==> r.degrees().raw >= 0,
            self.degrees().is_finite() && self.degrees().raw >= FULL_TURN_DEG_RAW - MAX_RAW
                ==> r.degrees().is_finite(),
    {
        proof {
            let d = self.deg.raw as int;
            assert(FULL_TURN_DEG_RAW == 0x1_6800_0000);
            if self.deg.is_finite() && d < 0 {
                let f = 0x1_6800_0000int;
                let k = (-d + f - 1) / f;
                assert(floor_div(d, f) == -k);
                assert(0 <= k <= 0x100_0000);
                assert(k * f >= -d && k * f < -d + f);
                assert((-k * ONE_RAW) * (-f) == (k * f) * 0x100_0000) by (nonlinear_arith)
                    requires
                        ONE_RAW == 0x100_0000,
                ;
                assert(-k * ONE_RAW == (-k) * 0x100_0000) by (nonlinear_arith)
                    requires
                        ONE_RAW == 0x100_0000,
                ;
                assert(trunc_div((k * f) * 0x100_0000, 0x100_0000) == k * f);
                assert(trunc_rem(d, f) == -((-d) % f));
            }
        }
        let full = Scalar { raw: FULL_TURN_DEG_RAW };
        let angle = if self.deg.lt(&Scalar { raw: 0 }) {
            let n_deg = self.deg.quotient_floor(&full).mul(full.neg());
            n_deg.add(self.deg.rem(full))
        } else {
            self.deg
        };
        Angle::from_deg(angle)
    }

    /// The same angle in `(-360, 360)` degrees, with its sign kept.
    pub fn range_corrected(&self) -> (r: Angle)
        ensures
            r == Angle::from_deg_spec(self.turn_remainder()),
            r.agrees(),
    {
        Angle::from_deg(self.deg.rem(Scalar { raw: FULL_TURN_DEG_RAW }))
    }

    /// Sine.
    pub fn sin(&self) -> (r: Scalar)
        ensures
            r == sin_cos_spec(self.radians()).0,
    {
        sin_cos(&self.rad).0
    }

    /// Cosine.
    pub fn cos(&self) -> (r: Scalar)
        ensures
            r == sin_cos_spec(self.radians()).1,
    {
        sin_cos(&self.rad).1
    }

    /// Sine and cosine, in that order.
    pub fn sin_cos(&self) -> (r: (Scalar, Scalar))
        ensures
            r == sin_cos_spec(self.radians()),
    {
        sin_cos(&self.rad)
    }

    /// Sine over cosine.
    pub fn tan(&self) -> (r: Scalar)
        ensures
            r == sin_cos_spec(self.radians()).0.div_spec(sin_cos_spec(self.radians()).1),
    {
        let sc = sin_cos(&self.rad);
        sc.0.div(sc.1)
    }
}

} // verus!
