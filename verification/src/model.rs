//! Mathematical model of the geometric value types: a triple of unbounded
//! integers, with the componentwise operations the executable types mirror.

use vstd::prelude::*;

verus! {

/// Model of a three-component value (vector, point or normal): one
/// mathematical integer per axis.
pub struct Triple {
    pub x: int,
    pub y: int,
    pub z: int,
}

/// True iff `v` fits in an `i64`.
pub open spec fn in_i64(v: int) -> bool {
    i64::MIN <= v <= i64::MAX
}

/// True iff every component of `a` fits in an `i64`.
pub open spec fn triple_in_i64(a: Triple) -> bool {
    in_i64(a.x) && in_i64(a.y) && in_i64(a.z)
}

/// Truncating division (rounds toward zero), the semantics of `/` on `i64`.
pub open spec fn div_trunc(a: int, b: int) -> int {
    if a >= 0 {
        a / b
    } else {
        -((-a) / b)
    }
}

pub open spec fn t_add(a: Triple, b: Triple) -> Triple {
    Triple { x: a.x + b.x, y: a.y + b.y, z: a.z + b.z }
}

pub open spec fn t_sub(a: Triple, b: Triple) -> Triple {
    Triple { x: a.x - b.x, y: a.y - b.y, z: a.z - b.z }
}

pub open spec fn t_neg(a: Triple) -> Triple {
    Triple { x: -a.x, y: -a.y, z: -a.z }
}

/// Componentwise scaling by a scalar.
pub open spec fn t_scale(a: Triple, k: int) -> Triple {
    Triple { x: a.x * k, y: a.y * k, z: a.z * k }
}

/// Componentwise (Hadamard) product.
pub open spec fn t_mul(a: Triple, b: Triple) -> Triple {
    Triple { x: a.x * b.x, y: a.y * b.y, z: a.z * b.z }
}

/// Componentwise truncating division by a scalar.
pub open spec fn t_div(a: Triple, k: int) -> Triple {
    Triple { x: div_trunc(a.x, k), y: div_trunc(a.y, k), z: div_trunc(a.z, k) }
}

pub open spec fn t_dot(a: Triple, b: Triple) -> int {
    a.x * b.x + a.y * b.y + a.z * b.z
}

/// Right-handed cross product.
pub open spec fn t_cross(a: Triple, b: Triple) -> Triple {
    Triple {
        x: a.y * b.z - a.z * b.y,
        y: a.z * b.x - a.x * b.z,
        z: a.x * b.y - a.y * b.x,
    }
}

pub open spec fn t_min(a: Triple, b: Triple) -> Triple {
    Triple {
        x: if a.x <= b.x { a.x } else { b.x },
        y: if a.y <= b.y { a.y } else { b.y },
        z: if a.z <= b.z { a.z } else { b.z },
    }
}

pub open spec fn t_max(a: Triple, b: Triple) -> Triple {
    Triple {
        x: if a.x >= b.x { a.x } else { b.x },
        y: if a.y >= b.y { a.y } else { b.y },
        z: if a.z >= b.z { a.z } else { b.z },
    }
}

pub open spec fn t_zero() -> Triple {
    Triple { x: 0, y: 0, z: 0 }
}

/// The sum of `a` and `b` stays within `i64` on every axis.
pub open spec fn add_fits(a: Triple, b: Triple) -> bool {
    triple_in_i64(t_add(a, b))
}

/// The difference of `a` and `b` stays within `i64` on every axis.
pub open spec fn sub_fits(a: Triple, b: Triple) -> bool {
    triple_in_i64(t_sub(a, b))
}

/// Scaling `a` by `k` stays within `i64` on every axis.
pub open spec fn scale_fits(a: Triple, k: int) -> bool {
    triple_in_i64(t_scale(a, k))
}

/// The componentwise product of `a` and `b` stays within `i64` on every axis.
pub open spec fn mul_fits(a: Triple, b: Triple) -> bool {
    triple_in_i64(t_mul(a, b))
}

/// Dividing `a` componentwise by `k` is defined and free of overflow.
pub open spec fn div_ok(a: Triple, k: int) -> bool {
    k != 0 && (k == -1 ==> a.x != i64::MIN && a.y != i64::MIN && a.z != i64::MIN)
}

/// Truncating division of an `i64` value by a nonzero scalar never leaves
/// the `i64` range (the one exception, `i64::MIN / -1`, is ruled out).
pub proof fn lemma_div_trunc_in_i64(a: int, b: int)
    requires
        in_i64(a),
        b != 0,
        a == i64::MIN ==> b != -1,
    ensures
        in_i64(div_trunc(a, b)),
{
    assert(in_i64(div_trunc(a, b))) by (nonlinear_arith)
        requires
            in_i64(a),
            b != 0,
            a == i64::MIN ==> b != -1,
    ;
}

/// Every intermediate value of the dot product stays within `i64`.
pub open spec fn dot_fits(a: Triple, b: Triple) -> bool {
    in_i64(a.x * b.x) && in_i64(a.y * b.y) && in_i64(a.z * b.z)
        && in_i64(a.x * b.x + a.y * b.y) && in_i64(t_dot(a, b))
}

/// Every intermediate value of the cross product stays within `i64`.
pub open spec fn cross_fits(a: Triple, b: Triple) -> bool {
    in_i64(a.y * b.z) && in_i64(a.z * b.y) && in_i64(a.z * b.x) && in_i64(a.x * b.z)
        && in_i64(a.x * b.y) && in_i64(a.y * b.x) && triple_in_i64(t_cross(a, b))
}

} // verus!
