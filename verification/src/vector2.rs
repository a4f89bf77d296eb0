//! Integer grid coordinates.

use vstd::prelude::*;

verus! {

/// A coordinate (or a displacement) on the tile grid.
#[derive(Debug, Copy, Clone, PartialEq, Eq, Hash, Structural)]
pub struct Vector2 {
    pub x: i32,
    pub y: i32,
}

impl Vector2 {
    pub fn new(x: i32, y: i32) -> (v: Self)
        ensures
            v.x == x,
            v.y == y,
    {
        Self { x, y }
    }

    pub fn zero() -> (v: Self)
        ensures
            v.x == 0,
            v.y == 0,
    {
        Self { x: 0, y: 0 }
    }

    /// The coordinate reached from `self` by the displacement `(dx, dy)`,
    /// or `None` where that coordinate does not fit the grid's integers.
    pub open spec fn offset(self, dx: int, dy: int) -> Option<Vector2> {
        if i32::MIN <= self.x + dx <= i32::MAX && i32::MIN <= self.y + dy <= i32::MAX {
            Some(Vector2 { x: (self.x + dx) as i32, y: (self.y + dy) as i32 })
        } else {
            None
        }
    }

    /// Computes [`Vector2::offset`].
    pub fn checked_offset(&self, dx: i32, dy: i32) -> (r: Option<Vector2>)
        ensures
            r == self.offset(dx as int, dy as int),
    {
        match (self.x.checked_add(dx), self.y.checked_add(dy)) {
            (Some(x), Some(y)) => Some(Vector2 { x, y }),
            _ => None,
        }
    }

    /// A number that stands for the coordinate where a single integer is
    /// wanted as a key: the two axes, shifted to be non-negative, side by side.
    pub open spec fn key(self) -> u64 {
        ((self.x + 0x8000_0000) * 0x1_0000_0000 + (self.y + 0x8000_0000)) as u64
    }

    /// Computes [`Vector2::key`].
    pub fn to_key(&self) -> (k: u64)
        ensures
            k == self.key(),
    {
        let hi: u64 = (self.x as i64 + 0x8000_0000) as u64;
        let lo: u64 = (self.y as i64 + 0x8000_0000) as u64;
        hi * 0x1_0000_0000 + lo
    }

    /// Distinct coordinates have distinct keys.
    pub proof fn lemma_key_injective(a: Vector2, b: Vector2)
        ensures
            a.key() == b.key() <==> a == b,
    {
    }
}

impl core::ops::Add for Vector2 {
    type Output = Vector2;

    fn add(self, other: Vector2) -> (sum: Vector2) {
        Vector2 { x: self.x + other.x, y: self.y + other.y }
    }
}

impl vstd::std_specs::ops::AddSpecImpl for Vector2 {
    open spec fn obeys_add_spec() -> bool {
        true
    }

    open spec fn add_req(self, other: Vector2) -> bool {
        &&& i32::MIN <= self.x + other.x <= i32::MAX
        &&& i32::MIN <= self.y + other.y <= i32::MAX
    }

    open spec fn add_spec(self, other: Vector2) -> Vector2 {
        Vector2 { x: (self.x + other.x) as i32, y: (self.y + other.y) as i32 }
    }
}

impl core::ops::Add for &Vector2 {
    type Output = Vector2;

    fn add(self, other: &Vector2) -> (sum: Vector2) {
        Vector2 { x: self.x + other.x, y: self.y + other.y }
    }
}

impl vstd::std_specs::ops::AddSpecImpl for &Vector2 {
    open spec fn obeys_add_spec() -> bool {
        true
    }

    open spec fn add_req(self, other: &Vector2) -> bool {
        &&& i32::MIN <= self.x + other.x <= i32::MAX
        &&& i32::MIN <= self.y + other.y <= i32::MAX
    }

    open spec fn add_spec(self, other: &Vector2) -> Vector2 {
        Vector2 { x: (self.x + other.x) as i32, y: (self.y + other.y) as i32 }
    }
}

/// What dividing `a` by `b` gives when the quotient is rounded toward zero.
pub open spec fn quotient_toward_zero(a: int, b: int) -> int {
    if a >= 0 && b > 0 {
        a / b
    } else if a >= 0 && b < 0 {
        -(a / (-b))
    } else if a < 0 && b > 0 {
        -((-a) / b)
    } else {
        (-a) / (-b)
    }
}

/// Divides `a` by `b`, rounding toward zero, for a divisor of either sign.
pub fn divide_toward_zero(a: i32, b: i32) -> (q: i32)
    requires
        b != 0,
        !(a == i32::MIN && b == -1),
    ensures
        q == quotient_toward_zero(a as int, b as int),
{
    if b > 0 {
        a / b
    } else if b == i32::MIN {
        if a == i32::MIN {
            1
        } else {
            0
        }
    } else {
        let positive: i32 = -b;
        proof {
            if a < 0 {
                let x: int = -(a as int);
                let p: int = positive as int;
                assert(x / p <= x) by (nonlinear_arith)
                    requires
                        x >= 0,
                        p >= 1,
                ;
                assert(p >= 2 ==> x / p <= x / 2) by (nonlinear_arith)
                    requires
                        x >= 0,
                        p >= 1,
                ;
            }
        }
        -(a / positive)
    }
}

impl core::ops::Div<i32> for &Vector2 {
    type Output = Vector2;

    fn div(self, other: i32) -> (quotient: Vector2) {
        Vector2 { x: divide_toward_zero(self.x, other), y: divide_toward_zero(self.y, other) }
    }
}

impl vstd::std_specs::ops::DivSpecImpl<i32> for &Vector2 {
    open spec fn obeys_div_spec() -> bool {
        true
    }

    open spec fn div_req(self, other: i32) -> bool {
        &&& other != 0
        &&& other == -1 ==> self.x != i32::MIN && self.y != i32::MIN
    }

    open spec fn div_spec(self, other: i32) -> Vector2 {
        Vector2 {
            x: quotient_toward_zero(self.x as int, other as int) as i32,
            y: quotient_toward_zero(self.y as int, other as int) as i32,
        }
    }
}

} // verus!
