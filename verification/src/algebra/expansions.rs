//! Products of the attitude matrix's entries, expanded into monomials.
//!
//! Each entry of the matrix is a sum of at most four signed products of two
//! quaternion components. A product of two entries is therefore a sum of at
//! most sixteen monomials of degree four. Every lemma here expands one such
//! product term by term and brings each term into one fixed order of its
//! factors; the identities between rows and minors then follow by adding up
//! coefficients.

use vstd::prelude::*;

verus! {

/// The product of two sums of four terms is the sum of the sixteen products
/// of a term of the first with a term of the second.
proof fn expand_4_4(x1: int, x2: int, x3: int, x4: int, y1: int, y2: int, y3: int, y4: int)
    ensures
        (x1 + x2 + x3 + x4) * (y1 + y2 + y3 + y4) == x1 * y1 + x1 * y2 + x1 * y3 + x1 * y4 + x2
            * y1 + x2 * y2 + x2 * y3 + x2 * y4 + x3 * y1 + x3 * y2 + x3 * y3 + x3 * y4 + x4 * y1
            + x4 * y2 + x4 * y3 + x4 * y4,
{
    let y = y1 + y2 + y3 + y4;
    assert((x1 + x2 + x3 + x4) * y == x1 * y + x2 * y + x3 * y + x4 * y) by (nonlinear_arith);
    assert(x1 * (y1 + y2 + y3 + y4) == x1 * y1 + x1 * y2 + x1 * y3 + x1 * y4)
        by (nonlinear_arith);
    assert(x2 * (y1 + y2 + y3 + y4) == x2 * y1 + x2 * y2 + x2 * y3 + x2 * y4)
        by (nonlinear_arith);
    assert(x3 * (y1 + y2 + y3 + y4) == x3 * y1 + x3 * y2 + x3 * y3 + x3 * y4)
        by (nonlinear_arith);
    assert(x4 * (y1 + y2 + y3 + y4) == x4 * y1 + x4 * y2 + x4 * y3 + x4 * y4)
        by (nonlinear_arith);
}

/// The square of the squared norm, as a sum of monomials.
proof fn norm_squared(a: int, b: int, c: int, d: int)
    ensures
        (a * a + b * b + c * c + d * d) * (a * a + b * b + c * c + d * d) == 1 * (a * a * a * a)
            + 2 * (a * a * b * b) + 2 * (a * a * c * c) + 2 * (a * a * d * d) + 1 * (b * b * b * b)
            + 2 * (b * b * c * c) + 2 * (b * b * d * d) + 1 * (c * c * c * c) + 2 * (c * c * d * d)
            + 1 * (d * d * d * d),
{
    let e1 = a * a + b * b + c * c + d * d;
    let e2 = a * a + b * b + c * c + d * d;
    let s1 = a * a + b * b + c * c + d * d;
    let s2 = a * a + b * b + c * c + d * d;
    assert(e1 * e2 == s1 * s2) by (nonlinear_arith)
        requires
            e1 == s1,
            e2 == s2,
    ;
    expand_4_4(a * a, b * b, c * c, d * d, a * a, b * b, c * c, d * d);
    assert(s1 * s2 == (a * a) * (a * a) + (a * a) * (b * b) + (a * a) * (c * c) + (a * a) * (d * d)
        + (b * b) * (a * a) + (b * b) * (b * b) + (b * b) * (c * c) + (b * b) * (d * d)
        + (c * c) * (a * a) + (c * c) * (b * b) + (c * c) * (c * c) + (c * c) * (d * d)
        + (d * d) * (a * a) + (d * d) * (b * b) + (d * d) * (c * c) + (d * d) * (d * d));
    assert((a * a) * (a * a) == 1 * (a * a * a * a)) by (nonlinear_arith);
    assert((a * a) * (b * b) == 1 * (a * a * b * b)) by (nonlinear_arith);
    assert((a * a) * (c * c) == 1 * (a * a * c * c)) by (nonlinear_arith);
    assert((a * a) * (d * d) == 1 * (a * a * d * d)) by (nonlinear_arith);
    assert((b * b) * (a * a) == 1 * (a * a * b * b)) by (nonlinear_arith);
    assert((b * b) * (b * b) == 1 * (b * b * b * b)) by (nonlinear_arith);
    assert((b * b) * (c * c) == 1 * (b * b * c * c)) by (nonlinear_arith);
    assert((b * b) * (d * d) == 1 * (b * b * d * d)) by (nonlinear_arith);
    assert((c * c) * (a * a) == 1 * (a * a * c * c)) by (nonlinear_arith);
    assert((c * c) * (b * b) == 1 * (b * b * c * c)) by (nonlinear_arith);
    assert((c * c) * (c * c) == 1 * (c * c * c * c)) by (nonlinear_arith);
    assert((c * c) * (d * d) == 1 * (c * c * d * d)) by (nonlinear_arith);
    assert((d * d) * (a * a) == 1 * (a * a * d * d)) by (nonlinear_arith);
    assert((d * d) * (b * b) == 1 * (b * b * d * d)) by (nonlinear_arith);
    assert((d * d) * (c * c) == 1 * (c * c * d * d)) by (nonlinear_arith);
    assert((d * d) * (d * d) == 1 * (d * d * d * d)) by (nonlinear_arith);
    assert(s1 * s2 == 1 * (a * a * a * a) + 2 * (a * a * b * b) + 2 * (a * a * c * c)
        + 2 * (a * a * d * d) + 1 * (b * b * b * b) + 2 * (b * b * c * c) + 2 * (b * b * d * d)
        + 1 * (c * c * c * c) + 2 * (c * c * d * d) + 1 * (d * d * d * d));
    assert(e1 * e2 == 1 * (a * a * a * a) + 2 * (a * a * b * b) + 2 * (a * a * c * c)
        + 2 * (a * a * d * d) + 1 * (b * b * b * b) + 2 * (b * b * c * c) + 2 * (b * b * d * d)
        + 1 * (c * c * c * c) + 2 * (c * c * d * d) + 1 * (d * d * d * d));
}

/// The product of the entries in column 0 of rows 0 and 0, as a sum of monomials.
proof fn entries_00_00(a: int, b: int, c: int, d: int)
    ensures
        (a * a - b * b - c * c + d * d) * (a * a - b * b - c * c + d * d) == 1 * (a * a * a * a)
            + (-2) * (a * a * b * b) + (-2) * (a * a * c * c) + 2 * (a * a * d * d)
            + 1 * (b * b * b * b) + 2 * (b * b * c * c) + (-2) * (b * b * d * d)
            + 1 * (c * c * c * c) + (-2) * (c * c * d * d) + 1 * (d * d * d * d),
{
    let e1 = a * a - b * b - c * c + d * d;
    let e2 = a * a - b * b - c * c + d * d;
    let s1 = a * a + -(b * b) + -(c * c) + d * d;
    let s2 = a * a + -(b * b) + -(c * c) + d * d;
    assert(e1 * e2 == s1 * s2) by (nonlinear_arith)
        requires
            e1 == s1,
            e2 == s2,
    ;
    expand_4_4(a * a, -(b * b), -(c * c), d * d, a * a, -(b * b), -(c * c), d * d);
    assert(s1 * s2 == (a * a) * (a * a) + (a * a) * (-(b * b)) + (a * a) * (-(c * c))
        + (a * a) * (d * d) + (-(b * b)) * (a * a) + (-(b * b)) * (-(b * b))
        + (-(b * b)) * (-(c * c)) + (-(b * b)) * (d * d) + (-(c * c)) * (a * a)
        + (-(c * c)) * (-(b * b)) + (-(c * c)) * (-(c * c)) + (-(c * c)) * (d * d)
        + (d * d) * (a * a) + (d * d) * (-(b * b)) + (d * d) * (-(c * c)) + (d * d) * (d * d));
    assert((a * a) * (a * a) == 1 * (a * a * a * a)) by (nonlinear_arith);
    assert((a * a) * (-(b * b)) == (-1) * (a * a * b * b)) by (nonlinear_arith);
    assert((a * a) * (-(c * c)) == (-1) * (a * a * c * c)) by (nonlinear_arith);
    assert((a * a) * (d * d) == 1 * (a * a * d * d)) by (nonlinear_arith);
    assert((-(b * b)) * (a * a) == (-1) * (a * a * b * b)) by (nonlinear_arith);
    assert((-(b * b)) * (-(b * b)) == 1 * (b * b * b * b)) by (nonlinear_arith);
    assert((-(b * b)) * (-(c * c)) == 1 * (b * b * c * c)) by (nonlinear_arith);
    assert((-(b * b)) * (d * d) == (-1) * (b * b * d * d)) by (nonlinear_arith);
    assert((-(c * c)) * (a * a) == (-1) * (a * a * c * c)) by (nonlinear_arith);
    assert((-(c * c)) * (-(b * b)) == 1 * (b * b * c * c)) by (nonlinear_arith);
    assert((-(c * c)) * (-(c * c)) == 1 * (c * c * c * c)) by (nonlinear_arith);
    assert((-(c * c)) * (d * d) == (-1) * (c * c * d * d)) by (nonlinear_arith);
    assert((d * d) * (a * a) == 1 * (a * a * d * d)) by (nonlinear_arith);
    assert((d * d) * (-(b * b)) == (-1) * (b * b * d * d)) by (nonlinear_arith);
    assert((d * d) * (-(c * c)) == (-1) * (c * c * d * d)) by (nonlinear_arith);
    assert((d * d) * (d * d) == 1 * (d * d * d * d)) by (nonlinear_arith);
    assert(s1 * s2 == 1 * (a * a * a * a) + (-2) * (a * a * b * b) + (-2) * (a * a * c * c)
        + 2 * (a * a * d * d) + 1 * (b * b * b * b) + 2 * (b * b * c * c) + (-2) * (b * b * d * d)
        + 1 * (c * c * c * c) + (-2) * (c * c * d * d) + 1 * (d * d * d * d));
    assert(e1 * e2 == 1 * (a * a * a * a) + (-2) * (a * a * b * b) + (-2) * (a * a * c * c)
        + 2 * (a * a * d * d) + 1 * (b * b * b * b) + 2 * (b * b * c * c) + (-2) * (b * b * d * d)
        + 1 * (c * c * c * c) + (-2) * (c * c * d * d) + 1 * (d * d * d * d));
}

/// The product of the entries in column 1 of rows 0 and 0, as a sum of monomials.
proof fn entries_01_01(a: int, b: int, c: int, d: int)
    ensures
        (2 * (a * b - c * d)) * (2 * (a * b - c * d)) == 4 * (a * a * b * b)
            + (-8) * (a * b * c * d) + 4 * (c * c * d * d),
{
    let e1 = 2 * (a * b - c * d);
    let e2 = 2 * (a * b - c * d);
    let s1 = 2 * (a * b) + (-2) * (c * d) + 0 + 0;
    let s2 = 2 * (a * b) + (-2) * (c * d) + 0 + 0;
    assert(e1 * e2 == s1 * s2) by (nonlinear_arith)
        requires
            e1 == s1,
            e2 == s2,
    ;
    expand_4_4(2 * (a * b), (-2) * (c * d), 0, 0, 2 * (a * b), (-2) * (c * d), 0, 0);
    assert(s1 * s2 == (2 * (a * b)) * (2 * (a * b)) + (2 * (a * b)) * ((-2) * (c * d))
        + ((-2) * (c * d)) * (2 * (a * b)) + ((-2) * (c * d)) * ((-2) * (c * d)));
    assert((2 * (a * b)) * (2 * (a * b)) == 4 * (a * a * b * b)) by (nonlinear_arith);
    assert((2 * (a * b)) * ((-2) * (c * d)) == (-4) * (a * b * c * d)) by (nonlinear_arith);
    assert(((-2) * (c * d)) * (2 * (a * b)) == (-4) * (a * b * c * d)) by (nonlinear_arith);
    assert(((-2) * (c * d)) * ((-2) * (c * d)) == 4 * (c * c * d * d)) by (nonlinear_arith);
    assert(s1 * s2 == 4 * (a * a * b * b) + (-8) * (a * b * c * d) + 4 * (c * c * d * d));
    assert(e1 * e2 == 4 * (a * a * b * b) + (-8) * (a * b * c * d) + 4 * (c * c * d * d));
}

/// The product of the entries in column 2 of rows 0 and 0, as a sum of monomials.
proof fn entries_02_02(a: int, b: int, c: int, d: int)
    ensures
        (2 * (a * c + b * d)) * (2 * (a * c + b * d)) == 4 * (a * a * c * c) + 8 * (a * b * c * d)
            + 4 * (b * b * d * d),
{
    let e1 = 2 * (a * c + b * d);
    let e2 = 2 * (a * c + b * d);
    let s1 = 2 * (a * c) + 2 * (b * d) + 0 + 0;
    let s2 = 2 * (a * c) + 2 * (b * d) + 0 + 0;
    assert(e1 * e2 == s1 * s2) by (nonlinear_arith)
        requires
            e1 == s1,
            e2 == s2,
    ;
    expand_4_4(2 * (a * c), 2 * (b * d), 0, 0, 2 * (a * c), 2 * (b * d), 0, 0);
    assert(s1 * s2 == (2 * (a * c)) * (2 * (a * c)) + (2 * (a * c)) * (2 * (b * d))
        + (2 * (b * d)) * (2 * (a * c)) + (2 * (b * d)) * (2 * (b * d)));
    assert((2 * (a * c)) * (2 * (a * c)) == 4 * (a * a * c * c)) by (nonlinear_arith);
    assert((2 * (a * c)) * (2 * (b * d)) == 4 * (a * b * c * d)) by (nonlinear_arith);
    assert((2 * (b * d)) * (2 * (a * c)) == 4 * (a * b * c * d)) by (nonlinear_arith);
    assert((2 * (b * d)) * (2 * (b * d)) == 4 * (b * b * d * d)) by (nonlinear_arith);
    assert(s1 * s2 == 4 * (a * a * c * c) + 8 * (a * b * c * d) + 4 * (b * b * d * d));
    assert(e1 * e2 == 4 * (a * a * c * c) + 8 * (a * b * c * d) + 4 * (b * b * d * d));
}

/// The first row of the attitude matrix has the squared norm of the quaternion as its length.
pub(super) proof fn first_row_norm(a: int, b: int, c: int, d: int)
    ensures
        (a * a - b * b - c * c + d * d) * (a * a - b * b - c * c + d * d)
            + (2 * (a * b - c * d)) * (2 * (a * b - c * d)) + (2 * (a * c + b * d)) * (2 * (a * c
            + b * d)) == (a * a + b * b + c * c + d * d) * (a * a + b * b + c * c + d * d),
{
    entries_00_00(a, b, c, d);
    entries_01_01(a, b, c, d);
    entries_02_02(a, b, c, d);
    norm_squared(a, b, c, d);
}

/// The product of the entries in column 0 of rows 1 and 1, as a sum of monomials.
proof fn entries_10_10(a: int, b: int, c: int, d: int)
    ensures
        (2 * (a * b + c * d)) * (2 * (a * b + c * d)) == 4 * (a * a * b * b) + 8 * (a * b * c * d)
            + 4 * (c * c * d * d),
{
    let e1 = 2 * (a * b + c * d);
    let e2 = 2 * (a * b + c * d);
    let s1 = 2 * (a * b) + 2 * (c * d) + 0 + 0;
    let s2 = 2 * (a * b) + 2 * (c * d) + 0 + 0;
    assert(e1 * e2 == s1 * s2) by (nonlinear_arith)
        requires
            e1 == s1,
            e2 == s2,
    ;
    expand_4_4(2 * (a * b), 2 * (c * d), 0, 0, 2 * (a * b), 2 * (c * d), 0, 0);
    assert(s1 * s2 == (2 * (a * b)) * (2 * (a * b)) + (2 * (a * b)) * (2 * (c * d))
        + (2 * (c * d)) * (2 * (a * b)) + (2 * (c * d)) * (2 * (c * d)));
    assert((2 * (a * b)) * (2 * (a * b)) == 4 * (a * a * b * b)) by (nonlinear_arith);
    assert((2 * (a * b)) * (2 * (c * d)) == 4 * (a * b * c * d)) by (nonlinear_arith);
    assert((2 * (c * d)) * (2 * (a * b)) == 4 * (a * b * c * d)) by (nonlinear_arith);
    assert((2 * (c * d)) * (2 * (c * d)) == 4 * (c * c * d * d)) by (nonlinear_arith);
    assert(s1 * s2 == 4 * (a * a * b * b) + 8 * (a * b * c * d) + 4 * (c * c * d * d));
    assert(e1 * e2 == 4 * (a * a * b * b) + 8 * (a * b * c * d) + 4 * (c * c * d * d));
}

/// The product of the entries in column 1 of rows 1 and 1, as a sum of monomials.
proof fn entries_11_11(a: int, b: int, c: int, d: int)
    ensures
        (b * b - a * a - c * c + d * d) * (b * b - a * a - c * c + d * d) == 1 * (b * b * b * b)
            + (-2) * (a * a * b * b) + (-2) * (b * b * c * c) + 2 * (b * b * d * d)
            + 1 * (a * a * a * a) + 2 * (a * a * c * c) + (-2) * (a * a * d * d)
            + 1 * (c * c * c * c) + (-2) * (c * c * d * d) + 1 * (d * d * d * d),
{
    let e1 = b * b - a * a - c * c + d * d;
    let e2 = b * b - a * a - c * c + d * d;
    let s1 = b * b + -(a * a) + -(c * c) + d * d;
    let s2 = b * b + -(a * a) + -(c * c) + d * d;
    assert(e1 * e2 == s1 * s2) by (nonlinear_arith)
        requires
            e1 == s1,
            e2 == s2,
    ;
    expand_4_4(b * b, -(a * a), -(c * c), d * d, b * b, -(a * a), -(c * c), d * d);
    assert(s1 * s2 == (b * b) * (b * b) + (b * b) * (-(a * a)) + (b * b) * (-(c * c))
        + (b * b) * (d * d) + (-(a * a)) * (b * b) + (-(a * a)) * (-(a * a))
        + (-(a * a)) * (-(c * c)) + (-(a * a)) * (d * d) + (-(c * c)) * (b * b)
        + (-(c * c)) * (-(a * a)) + (-(c * c)) * (-(c * c)) + (-(c * c)) * (d * d)
        + (d * d) * (b * b) + (d * d) * (-(a * a)) + (d * d) * (-(c * c)) + (d * d) * (d * d));
    assert((b * b) * (b * b) == 1 * (b * b * b * b)) by (nonlinear_arith);
    assert((b * b) * (-(a * a)) == (-1) * (a * a * b * b)) by (nonlinear_arith);
    assert((b * b) * (-(c * c)) == (-1) * (b * b * c * c)) by (nonlinear_arith);
    assert((b * b) * (d * d) == 1 * (b * b * d * d)) by (nonlinear_arith);
    assert((-(a * a)) * (b * b) == (-1) * (a * a * b * b)) by (nonlinear_arith);
    assert((-(a * a)) * (-(a * a)) == 1 * (a * a * a * a)) by (nonlinear_arith);
    assert((-(a * a)) * (-(c * c)) == 1 * (a * a * c * c)) by (nonlinear_arith);
    assert((-(a * a)) * (d * d) == (-1) * (a * a * d * d)) by (nonlinear_arith);
    assert((-(c * c)) * (b * b) == (-1) * (b * b * c * c)) by (nonlinear_arith);
    assert((-(c * c)) * (-(a * a)) == 1 * (a * a * c * c)) by (nonlinear_arith);
    assert((-(c * c)) * (-(c * c)) == 1 * (c * c * c * c)) by (nonlinear_arith);
    assert((-(c * c)) * (d * d) == (-1) * (c * c * d * d)) by (nonlinear_arith);
    assert((d * d) * (b * b) == 1 * (b * b * d * d)) by (nonlinear_arith);
    assert((d * d) * (-(a * a)) == (-1) * (a * a * d * d)) by (nonlinear_arith);
    assert((d * d) * (-(c * c)) == (-1) * (c * c * d * d)) by (nonlinear_arith);
    assert((d * d) * (d * d) == 1 * (d * d * d * d)) by (nonlinear_arith);
    assert(s1 * s2 == 1 * (b * b * b * b) + (-2) * (a * a * b * b) + (-2) * (b * b * c * c)
        + 2 * (b * b * d * d) + 1 * (a * a * a * a) + 2 * (a * a * c * c) + (-2) * (a * a * d * d)
        + 1 * (c * c * c * c) + (-2) * (c * c * d * d) + 1 * (d * d * d * d));
    assert(e1 * e2 == 1 * (b * b * b * b) + (-2) * (a * a * b * b) + (-2) * (b * b * c * c)
        + 2 * (b * b * d * d) + 1 * (a * a * a * a) + 2 * (a * a * c * c) + (-2) * (a * a * d * d)
        + 1 * (c * c * c * c) + (-2) * (c * c * d * d) + 1 * (d * d * d * d));
}

/// The product of the entries in column 2 of rows 1 and 1, as a sum of monomials.
proof fn entries_12_12(a: int, b: int, c: int, d: int)
    ensures
        (2 * (b * c - a * d)) * (2 * (b * c - a * d)) == 4 * (b * b * c * c)
            + (-8) * (a * b * c * d) + 4 * (a * a * d * d),
{
    let e1 = 2 * (b * c - a * d);
    let e2 = 2 * (b * c - a * d);
    let s1 = 2 * (b * c) + (-2) * (a * d) + 0 + 0;
    let s2 = 2 * (b * c) + (-2) * (a * d) + 0 + 0;
    assert(e1 * e2 == s1 * s2) by (nonlinear_arith)
        requires
            e1 == s1,
            e2 == s2,
    ;
    expand_4_4(2 * (b * c), (-2) * (a * d), 0, 0, 2 * (b * c), (-2) * (a * d), 0, 0);
    assert(s1 * s2 == (2 * (b * c)) * (2 * (b * c)) + (2 * (b * c)) * ((-2) * (a * d))
        + ((-2) * (a * d)) * (2 * (b * c)) + ((-2) * (a * d)) * ((-2) * (a * d)));
    assert((2 * (b * c)) * (2 * (b * c)) == 4 * (b * b * c * c)) by (nonlinear_arith);
    assert((2 * (b * c)) * ((-2) * (a * d)) == (-4) * (a * b * c * d)) by (nonlinear_arith);
    assert(((-2) * (a * d)) * (2 * (b * c)) == (-4) * (a * b * c * d)) by (nonlinear_arith);
    assert(((-2) * (a * d)) * ((-2) * (a * d)) == 4 * (a * a * d * d)) by (nonlinear_arith);
    assert(s1 * s2 == 4 * (b * b * c * c) + (-8) * (a * b * c * d) + 4 * (a * a * d * d));
    assert(e1 * e2 == 4 * (b * b * c * c) + (-8) * (a * b * c * d) + 4 * (a * a * d * d));
}

/// The second row of the attitude matrix has the squared norm of the quaternion as its length.
pub(super) proof fn second_row_norm(a: int, b: int, c: int, d: int)
    ensures
        (2 * (a * b + c * d)) * (2 * (a * b + c * d)) + (b * b - a * a - c * c
            + d * d) * (b * b - a * a - c * c + d * d)
            + (2 * (b * c - a * d)) * (2 * (b * c - a * d)) == (a * a + b * b + c * c
            + d * d) * (a * a + b * b + c * c + d * d),
{
    entries_10_10(a, b, c, d);
    entries_11_11(a, b, c, d);
    entries_12_12(a, b, c, d);
    norm_squared(a, b, c, d);
}

/// The product of the entries in column 0 of rows 2 and 2, as a sum of monomials.
proof fn entries_20_20(a: int, b: int, c: int, d: int)
    ensures
        (2 * (a * c - b * d)) * (2 * (a * c - b * d)) == 4 * (a * a * c * c)
            + (-8) * (a * b * c * d) + 4 * (b * b * d * d),
{
    let e1 = 2 * (a * c - b * d);
    let e2 = 2 * (a * c - b * d);
    let s1 = 2 * (a * c) + (-2) * (b * d) + 0 + 0;
    let s2 = 2 * (a * c) + (-2) * (b * d) + 0 + 0;
    assert(e1 * e2 == s1 * s2) by (nonlinear_arith)
        requires
            e1 == s1,
            e2 == s2,
    ;
    expand_4_4(2 * (a * c), (-2) * (b * d), 0, 0, 2 * (a * c), (-2) * (b * d), 0, 0);
    assert(s1 * s2 == (2 * (a * c)) * (2 * (a * c)) + (2 * (a * c)) * ((-2) * (b * d))
        + ((-2) * (b * d)) * (2 * (a * c)) + ((-2) * (b * d)) * ((-2) * (b * d)));
    assert((2 * (a * c)) * (2 * (a * c)) == 4 * (a * a * c * c)) by (nonlinear_arith);
    assert((2 * (a * c)) * ((-2) * (b * d)) == (-4) * (a * b * c * d)) by (nonlinear_arith);
    assert(((-2) * (b * d)) * (2 * (a * c)) == (-4) * (a * b * c * d)) by (nonlinear_arith);
    assert(((-2) * (b * d)) * ((-2) * (b * d)) == 4 * (b * b * d * d)) by (nonlinear_arith);
    assert(s1 * s2 == 4 * (a * a * c * c) + (-8) * (a * b * c * d) + 4 * (b * b * d * d));
    assert(e1 * e2 == 4 * (a * a * c * c) + (-8) * (a * b * c * d) + 4 * (b * b * d * d));
}

/// The product of the entries in column 1 of rows 2 and 2, as a sum of monomials.
proof fn entries_21_21(a: int, b: int, c: int, d: int)
    ensures
        (2 * (b * c + a * d)) * (2 * (b * c + a * d)) == 4 * (b * b * c * c) + 8 * (a * b * c * d)
            + 4 * (a * a * d * d),
{
    let e1 = 2 * (b * c + a * d);
    let e2 = 2 * (b * c + a * d);
    let s1 = 2 * (b * c) + 2 * (a * d) + 0 + 0;
    let s2 = 2 * (b * c) + 2 * (a * d) + 0 + 0;
    assert(e1 * e2 == s1 * s2) by (nonlinear_arith)
        requires
            e1 == s1,
            e2 == s2,
    ;
    expand_4_4(2 * (b * c), 2 * (a * d), 0, 0, 2 * (b * c), 2 * (a * d), 0, 0);
    assert(s1 * s2 == (2 * (b * c)) * (2 * (b * c)) + (2 * (b * c)) * (2 * (a * d))
        + (2 * (a * d)) * (2 * (b * c)) + (2 * (a * d)) * (2 * (a * d)));
    assert((2 * (b * c)) * (2 * (b * c)) == 4 * (b * b * c * c)) by (nonlinear_arith);
    assert((2 * (b * c)) * (2 * (a * d)) == 4 * (a * b * c * d)) by (nonlinear_arith);
    assert((2 * (a * d)) * (2 * (b * c)) == 4 * (a * b * c * d)) by (nonlinear_arith);
    assert((2 * (a * d)) * (2 * (a * d)) == 4 * (a * a * d * d)) by (nonlinear_arith);
    assert(s1 * s2 == 4 * (b * b * c * c) + 8 * (a * b * c * d) + 4 * (a * a * d * d));
    assert(e1 * e2 == 4 * (b * b * c * c) + 8 * (a * b * c * d) + 4 * (a * a * d * d));
}

/// The product of the entries in column 2 of rows 2 and 2, as a sum of monomials.
proof fn entries_22_22(a: int, b: int, c: int, d: int)
    ensures
        (c * c - a * a - b * b + d * d) * (c * c - a * a - b * b + d * d) == 1 * (c * c * c * c)
            + (-2) * (a * a * c * c) + (-2) * (b * b * c * c) + 2 * (c * c * d * d)
            + 1 * (a * a * a * a) + 2 * (a * a * b * b) + (-2) * (a * a * d * d)
            + 1 * (b * b * b * b) + (-2) * (b * b * d * d) + 1 * (d * d * d * d),
{
    let e1 = c * c - a * a - b * b + d * d;
    let e2 = c * c - a * a - b * b + d * d;
    let s1 = c * c + -(a * a) + -(b * b) + d * d;
    let s2 = c * c + -(a * a) + -(b * b) + d * d;
    assert(e1 * e2 == s1 * s2) by (nonlinear_arith)
        requires
            e1 == s1,
            e2 == s2,
    ;
    expand_4_4(c * c, -(a * a), -(b * b), d * d, c * c, -(a * a), -(b * b), d * d);
    assert(s1 * s2 == (c * c) * (c * c) + (c * c) * (-(a * a)) + (c * c) * (-(b * b))
        + (c * c) * (d * d) + (-(a * a)) * (c * c) + (-(a * a)) * (-(a * a))
        + (-(a * a)) * (-(b * b)) + (-(a * a)) * (d * d) + (-(b * b)) * (c * c)
        + (-(b * b)) * (-(a * a)) + (-(b * b)) * (-(b * b)) + (-(b * b)) * (d * d)
        + (d * d) * (c * c) + (d * d) * (-(a * a)) + (d * d) * (-(b * b)) + (d * d) * (d * d));
    assert((c * c) * (c * c) == 1 * (c * c * c * c)) by (nonlinear_arith);
    assert((c * c) * (-(a * a)) == (-1) * (a * a * c * c)) by (nonlinear_arith);
    assert((c * c) * (-(b * b)) == (-1) * (b * b * c * c)) by (nonlinear_arith);
    assert((c * c) * (d * d) == 1 * (c * c * d * d)) by (nonlinear_arith);
    assert((-(a * a)) * (c * c) == (-1) * (a * a * c * c)) by (nonlinear_arith);
    assert((-(a * a)) * (-(a * a)) == 1 * (a * a * a * a)) by (nonlinear_arith);
    assert((-(a * a)) * (-(b * b)) == 1 * (a * a * b * b)) by (nonlinear_arith);
    assert((-(a * a)) * (d * d) == (-1) * (a * a * d * d)) by (nonlinear_arith);
    assert((-(b * b)) * (c * c) == (-1) * (b * b * c * c)) by (nonlinear_arith);
    assert((-(b * b)) * (-(a * a)) == 1 * (a * a * b * b)) by (nonlinear_arith);
    assert((-(b * b)) * (-(b * b)) == 1 * (b * b * b * b)) by (nonlinear_arith);
    assert((-(b * b)) * (d * d) == (-1) * (b * b * d * d)) by (nonlinear_arith);
    assert((d * d) * (c * c) == 1 * (c * c * d * d)) by (nonlinear_arith);
    assert((d * d) * (-(a * a)) == (-1) * (a * a * d * d)) by (nonlinear_arith);
    assert((d * d) * (-(b * b)) == (-1) * (b * b * d * d)) by (nonlinear_arith);
    assert((d * d) * (d * d) == 1 * (d * d * d * d)) by (nonlinear_arith);
    assert(s1 * s2 == 1 * (c * c * c * c) + (-2) * (a * a * c * c) + (-2) * (b * b * c * c)
        + 2 * (c * c * d * d) + 1 * (a * a * a * a) + 2 * (a * a * b * b) + (-2) * (a * a * d * d)
        + 1 * (b * b * b * b) + (-2) * (b * b * d * d) + 1 * (d * d * d * d));
    assert(e1 * e2 == 1 * (c * c * c * c) + (-2) * (a * a * c * c) + (-2) * (b * b * c * c)
        + 2 * (c * c * d * d) + 1 * (a * a * a * a) + 2 * (a * a * b * b) + (-2) * (a * a * d * d)
        + 1 * (b * b * b * b) + (-2) * (b * b * d * d) + 1 * (d * d * d * d));
}

/// The third row of the attitude matrix has the squared norm of the quaternion as its length.
pub(super) proof fn third_row_norm(a: int, b: int, c: int, d: int)
    ensures
        (2 * (a * c - b * d)) * (2 * (a * c - b * d)) + (2 * (b * c + a * d)) * (2 * (b * c
            + a * d)) + (c * c - a * a - b * b + d * d) * (c * c - a * a - b * b + d * d) == (a * a
            + b * b + c * c + d * d) * (a * a + b * b + c * c + d * d),
{
    entries_20_20(a, b, c, d);
    entries_21_21(a, b, c, d);
    entries_22_22(a, b, c, d);
    norm_squared(a, b, c, d);
}

/// The product of the entries in column 0 of rows 0 and 1, as a sum of monomials.
proof fn entries_00_10(a: int, b: int, c: int, d: int)
    ensures
        (a * a - b * b - c * c + d * d) * (2 * (a * b + c * d)) == 2 * (a * a * a * b)
            + 2 * (a * a * c * d) + (-2) * (a * b * b * b) + (-2) * (b * b * c * d)
            + (-2) * (a * b * c * c) + (-2) * (c * c * c * d) + 2 * (a * b * d * d)
            + 2 * (c * d * d * d),
{
    let e1 = a * a - b * b - c * c + d * d;
    let e2 = 2 * (a * b + c * d);
    let s1 = a * a + -(b * b) + -(c * c) + d * d;
    let s2 = 2 * (a * b) + 2 * (c * d) + 0 + 0;
    assert(e1 * e2 == s1 * s2) by (nonlinear_arith)
        requires
            e1 == s1,
            e2 == s2,
    ;
    expand_4_4(a * a, -(b * b), -(c * c), d * d, 2 * (a * b), 2 * (c * d), 0, 0);
    assert(s1 * s2 == (a * a) * (2 * (a * b)) + (a * a) * (2 * (c * d)) + (-(b * b)) * (2 * (a * b))
        + (-(b * b)) * (2 * (c * d)) + (-(c * c)) * (2 * (a * b)) + (-(c * c)) * (2 * (c * d))
        + (d * d) * (2 * (a * b)) + (d * d) * (2 * (c * d)));
    assert((a * a) * (2 * (a * b)) == 2 * (a * a * a * b)) by (nonlinear_arith);
    assert((a * a) * (2 * (c * d)) == 2 * (a * a * c * d)) by (nonlinear_arith);
    assert((-(b * b)) * (2 * (a * b)) == (-2) * (a * b * b * b)) by (nonlinear_arith);
    assert((-(b * b)) * (2 * (c * d)) == (-2) * (b * b * c * d)) by (nonlinear_arith);
    assert((-(c * c)) * (2 * (a * b)) == (-2) * (a * b * c * c)) by (nonlinear_arith);
    assert((-(c * c)) * (2 * (c * d)) == (-2) * (c * c * c * d)) by (nonlinear_arith);
    assert((d * d) * (2 * (a * b)) == 2 * (a * b * d * d)) by (nonlinear_arith);
    assert((d * d) * (2 * (c * d)) == 2 * (c * d * d * d)) by (nonlinear_arith);
    assert(s1 * s2 == 2 * (a * a * a * b) + 2 * (a * a * c * d) + (-2) * (a * b * b * b)
        + (-2) * (b * b * c * d) + (-2) * (a * b * c * c) + (-2) * (c * c * c * d)
        + 2 * (a * b * d * d) + 2 * (c * d * d * d));
    assert(e1 * e2 == 2 * (a * a * a * b) + 2 * (a * a * c * d) + (-2) * (a * b * b * b)
        + (-2) * (b * b * c * d) + (-2) * (a * b * c * c) + (-2) * (c * c * c * d)
        + 2 * (a * b * d * d) + 2 * (c * d * d * d));
}

/// The product of the entries in column 1 of rows 0 and 1, as a sum of monomials.
proof fn entries_01_11(a: int, b: int, c: int, d: int)
    ensures
        (2 * (a * b - c * d)) * (b * b - a * a - c * c + d * d) == 2 * (a * b * b * b)
            + (-2) * (a * a * a * b) + (-2) * (a * b * c * c) + 2 * (a * b * d * d)
            + (-2) * (b * b * c * d) + 2 * (a * a * c * d) + 2 * (c * c * c * d)
            + (-2) * (c * d * d * d),
{
    let e1 = 2 * (a * b - c * d);
    let e2 = b * b - a * a - c * c + d * d;
    let s1 = 2 * (a * b) + (-2) * (c * d) + 0 + 0;
    let s2 = b * b + -(a * a) + -(c * c) + d * d;
    assert(e1 * e2 == s1 * s2) by (nonlinear_arith)
        requires
            e1 == s1,
            e2 == s2,
    ;
    expand_4_4(2 * (a * b), (-2) * (c * d), 0, 0, b * b, -(a * a), -(c * c), d * d);
    assert(s1 * s2 == (2 * (a * b)) * (b * b) + (2 * (a * b)) * (-(a * a))
        + (2 * (a * b)) * (-(c * c)) + (2 * (a * b)) * (d * d) + ((-2) * (c * d)) * (b * b)
        + ((-2) * (c * d)) * (-(a * a)) + ((-2) * (c * d)) * (-(c * c))
        + ((-2) * (c * d)) * (d * d));
    assert((2 * (a * b)) * (b * b) == 2 * (a * b * b * b)) by (nonlinear_arith);
    assert((2 * (a * b)) * (-(a * a)) == (-2) * (a * a * a * b)) by (nonlinear_arith);
    assert((2 * (a * b)) * (-(c * c)) == (-2) * (a * b * c * c)) by (nonlinear_arith);
    assert((2 * (a * b)) * (d * d) == 2 * (a * b * d * d)) by (nonlinear_arith);
    assert(((-2) * (c * d)) * (b * b) == (-2) * (b * b * c * d)) by (nonlinear_arith);
    assert(((-2) * (c * d)) * (-(a * a)) == 2 * (a * a * c * d)) by (nonlinear_arith);
    assert(((-2) * (c * d)) * (-(c * c)) == 2 * (c * c * c * d)) by (nonlinear_arith);
    assert(((-2) * (c * d)) * (d * d) == (-2) * (c * d * d * d)) by (nonlinear_arith);
    assert(s1 * s2 == 2 * (a * b * b * b) + (-2) * (a * a * a * b) + (-2) * (a * b * c * c)
        + 2 * (a * b * d * d) + (-2) * (b * b * c * d) + 2 * (a * a * c * d) + 2 * (c * c * c * d)
        + (-2) * (c * d * d * d));
    assert(e1 * e2 == 2 * (a * b * b * b) + (-2) * (a * a * a * b) + (-2) * (a * b * c * c)
        + 2 * (a * b * d * d) + (-2) * (b * b * c * d) + 2 * (a * a * c * d) + 2 * (c * c * c * d)
        + (-2) * (c * d * d * d));
}

/// The product of the entries in column 2 of rows 0 and 1, as a sum of monomials.
proof fn entries_02_12(a: int, b: int, c: int, d: int)
    ensures
        (2 * (a * c + b * d)) * (2 * (b * c - a * d)) == 4 * (a * b * c * c)
            + (-4) * (a * a * c * d) + 4 * (b * b * c * d) + (-4) * (a * b * d * d),
{
    let e1 = 2 * (a * c + b * d);
    let e2 = 2 * (b * c - a * d);
    let s1 = 2 * (a * c) + 2 * (b * d) + 0 + 0;
    let s2 = 2 * (b * c) + (-2) * (a * d) + 0 + 0;
    assert(e1 * e2 == s1 * s2) by (nonlinear_arith)
        requires
            e1 == s1,
            e2 == s2,
    ;
    expand_4_4(2 * (a * c), 2 * (b * d), 0, 0, 2 * (b * c), (-2) * (a * d), 0, 0);
    assert(s1 * s2 == (2 * (a * c)) * (2 * (b * c)) + (2 * (a * c)) * ((-2) * (a * d))
        + (2 * (b * d)) * (2 * (b * c)) + (2 * (b * d)) * ((-2) * (a * d)));
    assert((2 * (a * c)) * (2 * (b * c)) == 4 * (a * b * c * c)) by (nonlinear_arith);
    assert((2 * (a * c)) * ((-2) * (a * d)) == (-4) * (a * a * c * d)) by (nonlinear_arith);
    assert((2 * (b * d)) * (2 * (b * c)) == 4 * (b * b * c * d)) by (nonlinear_arith);
    assert((2 * (b * d)) * ((-2) * (a * d)) == (-4) * (a * b * d * d)) by (nonlinear_arith);
    assert(s1 * s2 == 4 * (a * b * c * c) + (-4) * (a * a * c * d) + 4 * (b * b * c * d)
        + (-4) * (a * b * d * d));
    assert(e1 * e2 == 4 * (a * b * c * c) + (-4) * (a * a * c * d) + 4 * (b * b * c * d)
        + (-4) * (a * b * d * d));
}

/// The first and second rows of the attitude matrix are orthogonal.
pub(super) proof fn first_second_rows(a: int, b: int, c: int, d: int)
    ensures
        (a * a - b * b - c * c + d * d) * (2 * (a * b + c * d))
            + (2 * (a * b - c * d)) * (b * b - a * a - c * c + d * d) + (2 * (a * c
            + b * d)) * (2 * (b * c - a * d)) == 0,
{
    entries_00_10(a, b, c, d);
    entries_01_11(a, b, c, d);
    entries_02_12(a, b, c, d);
}

/// The product of the entries in column 0 of rows 0 and 2, as a sum of monomials.
proof fn entries_00_20(a: int, b: int, c: int, d: int)
    ensures
        (a * a - b * b - c * c + d * d) * (2 * (a * c - b * d)) == 2 * (a * a * a * c)
            + (-2) * (a * a * b * d) + (-2) * (a * b * b * c) + 2 * (b * b * b * d)
            + (-2) * (a * c * c * c) + 2 * (b * c * c * d) + 2 * (a * c * d * d)
            + (-2) * (b * d * d * d),
{
    let e1 = a * a - b * b - c * c + d * d;
    let e2 = 2 * (a * c - b * d);
    let s1 = a * a + -(b * b) + -(c * c) + d * d;
    let s2 = 2 * (a * c) + (-2) * (b * d) + 0 + 0;
    assert(e1 * e2 == s1 * s2) by (nonlinear_arith)
        requires
            e1 == s1,
            e2 == s2,
    ;
    expand_4_4(a * a, -(b * b), -(c * c), d * d, 2 * (a * c), (-2) * (b * d), 0, 0);
    assert(s1 * s2 == (a * a) * (2 * (a * c)) + (a * a) * ((-2) * (b * d))
        + (-(b * b)) * (2 * (a * c)) + (-(b * b)) * ((-2) * (b * d)) + (-(c * c)) * (2 * (a * c))
        + (-(c * c)) * ((-2) * (b * d)) + (d * d) * (2 * (a * c)) + (d * d) * ((-2) * (b * d)));
    assert((a * a) * (2 * (a * c)) == 2 * (a * a * a * c)) by (nonlinear_arith);
    assert((a * a) * ((-2) * (b * d)) == (-2) * (a * a * b * d)) by (nonlinear_arith);
    assert((-(b * b)) * (2 * (a * c)) == (-2) * (a * b * b * c)) by (nonlinear_arith);
    assert((-(b * b)) * ((-2) * (b * d)) == 2 * (b * b * b * d)) by (nonlinear_arith);
    assert((-(c * c)) * (2 * (a * c)) == (-2) * (a * c * c * c)) by (nonlinear_arith);
    assert((-(c * c)) * ((-2) * (b * d)) == 2 * (b * c * c * d)) by (nonlinear_arith);
    assert((d * d) * (2 * (a * c)) == 2 * (a * c * d * d)) by (nonlinear_arith);
    assert((d * d) * ((-2) * (b * d)) == (-2) * (b * d * d * d)) by (nonlinear_arith);
    assert(s1 * s2 == 2 * (a * a * a * c) + (-2) * (a * a * b * d) + (-2) * (a * b * b * c)
        + 2 * (b * b * b * d) + (-2) * (a * c * c * c) + 2 * (b * c * c * d) + 2 * (a * c * d * d)
        + (-2) * (b * d * d * d));
    assert(e1 * e2 == 2 * (a * a * a * c) + (-2) * (a * a * b * d) + (-2) * (a * b * b * c)
        + 2 * (b * b * b * d) + (-2) * (a * c * c * c) + 2 * (b * c * c * d) + 2 * (a * c * d * d)
        + (-2) * (b * d * d * d));
}

/// The product of the entries in column 1 of rows 0 and 2, as a sum of monomials.
proof fn entries_01_21(a: int, b: int, c: int, d: int)
    ensures
        (2 * (a * b - c * d)) * (2 * (b * c + a * d)) == 4 * (a * b * b * c) + 4 * (a * a * b * d)
            + (-4) * (b * c * c * d) + (-4) * (a * c * d * d),
{
    let e1 = 2 * (a * b - c * d);
    let e2 = 2 * (b * c + a * d);
    let s1 = 2 * (a * b) + (-2) * (c * d) + 0 + 0;
    let s2 = 2 * (b * c) + 2 * (a * d) + 0 + 0;
    assert(e1 * e2 == s1 * s2) by (nonlinear_arith)
        requires
            e1 == s1,
            e2 == s2,
    ;
    expand_4_4(2 * (a * b), (-2) * (c * d), 0, 0, 2 * (b * c), 2 * (a * d), 0, 0);
    assert(s1 * s2 == (2 * (a * b)) * (2 * (b * c)) + (2 * (a * b)) * (2 * (a * d))
        + ((-2) * (c * d)) * (2 * (b * c)) + ((-2) * (c * d)) * (2 * (a * d)));
    assert((2 * (a * b)) * (2 * (b * c)) == 4 * (a * b * b * c)) by (nonlinear_arith);
    assert((2 * (a * b)) * (2 * (a * d)) == 4 * (a * a * b * d)) by (nonlinear_arith);
    assert(((-2) * (c * d)) * (2 * (b * c)) == (-4) * (b * c * c * d)) by (nonlinear_arith);
    assert(((-2) * (c * d)) * (2 * (a * d)) == (-4) * (a * c * d * d)) by (nonlinear_arith);
    assert(s1 * s2 == 4 * (a * b * b * c) + 4 * (a * a * b * d) + (-4) * (b * c * c * d)
        + (-4) * (a * c * d * d));
    assert(e1 * e2 == 4 * (a * b * b * c) + 4 * (a * a * b * d) + (-4) * (b * c * c * d)
        + (-4) * (a * c * d * d));
}

/// The product of the entries in column 2 of rows 0 and 2, as a sum of monomials.
proof fn entries_02_22(a: int, b: int, c: int, d: int)
    ensures
        (2 * (a * c + b * d)) * (c * c - a * a - b * b + d * d) == 2 * (a * c * c * c)
            + (-2) * (a * a * a * c) + (-2) * (a * b * b * c) + 2 * (a * c * d * d)
            + 2 * (b * c * c * d) + (-2) * (a * a * b * d) + (-2) * (b * b * b * d)
            + 2 * (b * d * d * d),
{
    let e1 = 2 * (a * c + b * d);
    let e2 = c * c - a * a - b * b + d * d;
    let s1 = 2 * (a * c) + 2 * (b * d) + 0 + 0;
    let s2 = c * c + -(a * a) + -(b * b) + d * d;
    assert(e1 * e2 == s1 * s2) by (nonlinear_arith)
        requires
            e1 == s1,
            e2 == s2,
    ;
    expand_4_4(2 * (a * c), 2 * (b * d), 0, 0, c * c, -(a * a), -(b * b), d * d);
    assert(s1 * s2 == (2 * (a * c)) * (c * c) + (2 * (a * c)) * (-(a * a))
        + (2 * (a * c)) * (-(b * b)) + (2 * (a * c)) * (d * d) + (2 * (b * d)) * (c * c)
        + (2 * (b * d)) * (-(a * a)) + (2 * (b * d)) * (-(b * b)) + (2 * (b * d)) * (d * d));
    assert((2 * (a * c)) * (c * c) == 2 * (a * c * c * c)) by (nonlinear_arith);
    assert((2 * (a * c)) * (-(a * a)) == (-2) * (a * a * a * c)) by (nonlinear_arith);
    assert((2 * (a * c)) * (-(b * b)) == (-2) * (a * b * b * c)) by (nonlinear_arith);
    assert((2 * (a * c)) * (d * d) == 2 * (a * c * d * d)) by (nonlinear_arith);
    assert((2 * (b * d)) * (c * c) == 2 * (b * c * c * d)) by (nonlinear_arith);
    assert((2 * (b * d)) * (-(a * a)) == (-2) * (a * a * b * d)) by (nonlinear_arith);
    assert((2 * (b * d)) * (-(b * b)) == (-2) * (b * b * b * d)) by (nonlinear_arith);
    assert((2 * (b * d)) * (d * d) == 2 * (b * d * d * d)) by (nonlinear_arith);
    assert(s1 * s2 == 2 * (a * c * c * c) + (-2) * (a * a * a * c) + (-2) * (a * b * b * c)
        + 2 * (a * c * d * d) + 2 * (b * c * c * d) + (-2) * (a * a * b * d)
        + (-2) * (b * b * b * d) + 2 * (b * d * d * d));
    assert(e1 * e2 == 2 * (a * c * c * c) + (-2) * (a * a * a * c) + (-2) * (a * b * b * c)
        + 2 * (a * c * d * d) + 2 * (b * c * c * d) + (-2) * (a * a * b * d)
        + (-2) * (b * b * b * d) + 2 * (b * d * d * d));
}

/// The first and third rows of the attitude matrix are orthogonal.
pub(super) proof fn first_third_rows(a: int, b: int, c: int, d: int)
    ensures
        (a * a - b * b - c * c + d * d) * (2 * (a * c - b * d))
            + (2 * (a * b - c * d)) * (2 * (b * c + a * d)) + (2 * (a * c
            + b * d)) * (c * c - a * a - b * b + d * d) == 0,
{
    entries_00_20(a, b, c, d);
    entries_01_21(a, b, c, d);
    entries_02_22(a, b, c, d);
}

/// The product of the entries in column 0 of rows 1 and 2, as a sum of monomials.
proof fn entries_10_20(a: int, b: int, c: int, d: int)
    ensures
        (2 * (a * b + c * d)) * (2 * (a * c - b * d)) == 4 * (a * a * b * c)
            + (-4) * (a * b * b * d) + 4 * (a * c * c * d) + (-4) * (b * c * d * d),
{
    let e1 = 2 * (a * b + c * d);
    let e2 = 2 * (a * c - b * d);
    let s1 = 2 * (a * b) + 2 * (c * d) + 0 + 0;
    let s2 = 2 * (a * c) + (-2) * (b * d) + 0 + 0;
    assert(e1 * e2 == s1 * s2) by (nonlinear_arith)
        requires
            e1 == s1,
            e2 == s2,
    ;
    expand_4_4(2 * (a * b), 2 * (c * d), 0, 0, 2 * (a * c), (-2) * (b * d), 0, 0);
    assert(s1 * s2 == (2 * (a * b)) * (2 * (a * c)) + (2 * (a * b)) * ((-2) * (b * d))
        + (2 * (c * d)) * (2 * (a * c)) + (2 * (c * d)) * ((-2) * (b * d)));
    assert((2 * (a * b)) * (2 * (a * c)) == 4 * (a * a * b * c)) by (nonlinear_arith);
    assert((2 * (a * b)) * ((-2) * (b * d)) == (-4) * (a * b * b * d)) by (nonlinear_arith);
    assert((2 * (c * d)) * (2 * (a * c)) == 4 * (a * c * c * d)) by (nonlinear_arith);
    assert((2 * (c * d)) * ((-2) * (b * d)) == (-4) * (b * c * d * d)) by (nonlinear_arith);
    assert(s1 * s2 == 4 * (a * a * b * c) + (-4) * (a * b * b * d) + 4 * (a * c * c * d)
        + (-4) * (b * c * d * d));
    assert(e1 * e2 == 4 * (a * a * b * c) + (-4) * (a * b * b * d) + 4 * (a * c * c * d)
        + (-4) * (b * c * d * d));
}

/// The product of the entries in column 1 of rows 1 and 2, as a sum of monomials.
proof fn entries_11_21(a: int, b: int, c: int, d: int)
    ensures
        (b * b - a * a - c * c + d * d) * (2 * (b * c + a * d)) == 2 * (b * b * b * c)
            + 2 * (a * b * b * d) + (-2) * (a * a * b * c) + (-2) * (a * a * a * d)
            + (-2) * (b * c * c * c) + (-2) * (a * c * c * d) + 2 * (b * c * d * d)
            + 2 * (a * d * d * d),
{
    let e1 = b * b - a * a - c * c + d * d;
    let e2 = 2 * (b * c + a * d);
    let s1 = b * b + -(a * a) + -(c * c) + d * d;
    let s2 = 2 * (b * c) + 2 * (a * d) + 0 + 0;
    assert(e1 * e2 == s1 * s2) by (nonlinear_arith)
        requires
            e1 == s1,
            e2 == s2,
    ;
    expand_4_4(b * b, -(a * a), -(c * c), d * d, 2 * (b * c), 2 * (a * d), 0, 0);
    assert(s1 * s2 == (b * b) * (2 * (b * c)) + (b * b) * (2 * (a * d)) + (-(a * a)) * (2 * (b * c))
        + (-(a * a)) * (2 * (a * d)) + (-(c * c)) * (2 * (b * c)) + (-(c * c)) * (2 * (a * d))
        + (d * d) * (2 * (b * c)) + (d * d) * (2 * (a * d)));
    assert((b * b) * (2 * (b * c)) == 2 * (b * b * b * c)) by (nonlinear_arith);
    assert((b * b) * (2 * (a * d)) == 2 * (a * b * b * d)) by (nonlinear_arith);
    assert((-(a * a)) * (2 * (b * c)) == (-2) * (a * a * b * c)) by (nonlinear_arith);
    assert((-(a * a)) * (2 * (a * d)) == (-2) * (a * a * a * d)) by (nonlinear_arith);
    assert((-(c * c)) * (2 * (b * c)) == (-2) * (b * c * c * c)) by (nonlinear_arith);
    assert((-(c * c)) * (2 * (a * d)) == (-2) * (a * c * c * d)) by (nonlinear_arith);
    assert((d * d) * (2 * (b * c)) == 2 * (b * c * d * d)) by (nonlinear_arith);
    assert((d * d) * (2 * (a * d)) == 2 * (a * d * d * d)) by (nonlinear_arith);
    assert(s1 * s2 == 2 * (b * b * b * c) + 2 * (a * b * b * d) + (-2) * (a * a * b * c)
        + (-2) * (a * a * a * d) + (-2) * (b * c * c * c) + (-2) * (a * c * c * d)
        + 2 * (b * c * d * d) + 2 * (a * d * d * d));
    assert(e1 * e2 == 2 * (b * b * b * c) + 2 * (a * b * b * d) + (-2) * (a * a * b * c)
        + (-2) * (a * a * a * d) + (-2) * (b * c * c * c) + (-2) * (a * c * c * d)
        + 2 * (b * c * d * d) + 2 * (a * d * d * d));
}

/// The product of the entries in column 2 of rows 1 and 2, as a sum of monomials.
proof fn entries_12_22(a: int, b: int, c: int, d: int)
    ensures
        (2 * (b * c - a * d)) * (c * c - a * a - b * b + d * d) == 2 * (b * c * c * c)
            + (-2) * (a * a * b * c) + (-2) * (b * b * b * c) + 2 * (b * c * d * d)
            + (-2) * (a * c * c * d) + 2 * (a * a * a * d) + 2 * (a * b * b * d)
            + (-2) * (a * d * d * d),
{
    let e1 = 2 * (b * c - a * d);
    let e2 = c * c - a * a - b * b + d * d;
    let s1 = 2 * (b * c) + (-2) * (a * d) + 0 + 0;
    let s2 = c * c + -(a * a) + -(b * b) + d * d;
    assert(e1 * e2 == s1 * s2) by (nonlinear_arith)
        requires
            e1 == s1,
            e2 == s2,
    ;
    expand_4_4(2 * (b * c), (-2) * (a * d), 0, 0, c * c, -(a * a), -(b * b), d * d);
    assert(s1 * s2 == (2 * (b * c)) * (c * c) + (2 * (b * c)) * (-(a * a))
        + (2 * (b * c)) * (-(b * b)) + (2 * (b * c)) * (d * d) + ((-2) * (a * d)) * (c * c)
        + ((-2) * (a * d)) * (-(a * a)) + ((-2) * (a * d)) * (-(b * b))
        + ((-2) * (a * d)) * (d * d));
    assert((2 * (b * c)) * (c * c) == 2 * (b * c * c * c)) by (nonlinear_arith);
    assert((2 * (b * c)) * (-(a * a)) == (-2) * (a * a * b * c)) by (nonlinear_arith);
    assert((2 * (b * c)) * (-(b * b)) == (-2) * (b * b * b * c)) by (nonlinear_arith);
    assert((2 * (b * c)) * (d * d) == 2 * (b * c * d * d)) by (nonlinear_arith);
    assert(((-2) * (a * d)) * (c * c) == (-2) * (a * c * c * d)) by (nonlinear_arith);
    assert(((-2) * (a * d)) * (-(a * a)) == 2 * (a * a * a * d)) by (nonlinear_arith);
    assert(((-2) * (a * d)) * (-(b * b)) == 2 * (a * b * b * d)) by (nonlinear_arith);
    assert(((-2) * (a * d)) * (d * d) == (-2) * (a * d * d * d)) by (nonlinear_arith);
    assert(s1 * s2 == 2 * (b * c * c * c) + (-2) * (a * a * b * c) + (-2) * (b * b * b * c)
        + 2 * (b * c * d * d) + (-2) * (a * c * c * d) + 2 * (a * a * a * d) + 2 * (a * b * b * d)
        + (-2) * (a * d * d * d));
    assert(e1 * e2 == 2 * (b * c * c * c) + (-2) * (a * a * b * c) + (-2) * (b * b * b * c)
        + 2 * (b * c * d * d) + (-2) * (a * c * c * d) + 2 * (a * a * a * d) + 2 * (a * b * b * d)
        + (-2) * (a * d * d * d));
}

/// The second and third rows of the attitude matrix are orthogonal.
pub(super) proof fn second_third_rows(a: int, b: int, c: int, d: int)
    ensures
        (2 * (a * b + c * d)) * (2 * (a * c - b * d)) + (b * b - a * a - c * c
            + d * d) * (2 * (b * c + a * d)) + (2 * (b * c - a * d)) * (c * c - a * a - b * b
            + d * d) == 0,
{
    entries_10_20(a, b, c, d);
    entries_11_21(a, b, c, d);
    entries_12_22(a, b, c, d);
}

/// The first product of a two-by-two minor, as a sum of monomials.
proof fn minor_of_first_first(a: int, b: int, c: int, d: int)
    ensures
        (b * b - a * a - c * c + d * d) * (c * c - a * a - b * b + d * d) == 2 * (b * b * c * c)
            + (-1) * (b * b * b * b) + 1 * (a * a * a * a) + (-2) * (a * a * d * d)
            + (-1) * (c * c * c * c) + 1 * (d * d * d * d),
{
    let e1 = b * b - a * a - c * c + d * d;
    let e2 = c * c - a * a - b * b + d * d;
    let s1 = b * b + -(a * a) + -(c * c) + d * d;
    let s2 = c * c + -(a * a) + -(b * b) + d * d;
    assert(e1 * e2 == s1 * s2) by (nonlinear_arith)
        requires
            e1 == s1,
            e2 == s2,
    ;
    expand_4_4(b * b, -(a * a), -(c * c), d * d, c * c, -(a * a), -(b * b), d * d);
    assert(s1 * s2 == (b * b) * (c * c) + (b * b) * (-(a * a)) + (b * b) * (-(b * b))
        + (b * b) * (d * d) + (-(a * a)) * (c * c) + (-(a * a)) * (-(a * a))
        + (-(a * a)) * (-(b * b)) + (-(a * a)) * (d * d) + (-(c * c)) * (c * c)
        + (-(c * c)) * (-(a * a)) + (-(c * c)) * (-(b * b)) + (-(c * c)) * (d * d)
        + (d * d) * (c * c) + (d * d) * (-(a * a)) + (d * d) * (-(b * b)) + (d * d) * (d * d));
    assert((b * b) * (c * c) == 1 * (b * b * c * c)) by (nonlinear_arith);
    assert((b * b) * (-(a * a)) == (-1) * (a * a * b * b)) by (nonlinear_arith);
    assert((b * b) * (-(b * b)) == (-1) * (b * b * b * b)) by (nonlinear_arith);
    assert((b * b) * (d * d) == 1 * (b * b * d * d)) by (nonlinear_arith);
    assert((-(a * a)) * (c * c) == (-1) * (a * a * c * c)) by (nonlinear_arith);
    assert((-(a * a)) * (-(a * a)) == 1 * (a * a * a * a)) by (nonlinear_arith);
    assert((-(a * a)) * (-(b * b)) == 1 * (a * a * b * b)) by (nonlinear_arith);
    assert((-(a * a)) * (d * d) == (-1) * (a * a * d * d)) by (nonlinear_arith);
    assert((-(c * c)) * (c * c) == (-1) * (c * c * c * c)) by (nonlinear_arith);
    assert((-(c * c)) * (-(a * a)) == 1 * (a * a * c * c)) by (nonlinear_arith);
    assert((-(c * c)) * (-(b * b)) == 1 * (b * b * c * c)) by (nonlinear_arith);
    assert((-(c * c)) * (d * d) == (-1) * (c * c * d * d)) by (nonlinear_arith);
    assert((d * d) * (c * c) == 1 * (c * c * d * d)) by (nonlinear_arith);
    assert((d * d) * (-(a * a)) == (-1) * (a * a * d * d)) by (nonlinear_arith);
    assert((d * d) * (-(b * b)) == (-1) * (b * b * d * d)) by (nonlinear_arith);
    assert((d * d) * (d * d) == 1 * (d * d * d * d)) by (nonlinear_arith);
    assert(s1 * s2 == 2 * (b * b * c * c) + (-1) * (b * b * b * b) + 1 * (a * a * a * a)
        + (-2) * (a * a * d * d) + (-1) * (c * c * c * c) + 1 * (d * d * d * d));
    assert(e1 * e2 == 2 * (b * b * c * c) + (-1) * (b * b * b * b) + 1 * (a * a * a * a)
        + (-2) * (a * a * d * d) + (-1) * (c * c * c * c) + 1 * (d * d * d * d));
}

/// The second product of a two-by-two minor, as a sum of monomials.
proof fn minor_of_first_second(a: int, b: int, c: int, d: int)
    ensures
        (2 * (b * c - a * d)) * (2 * (b * c + a * d)) == 4 * (b * b * c * c)
            + (-4) * (a * a * d * d),
{
    let e1 = 2 * (b * c - a * d);
    let e2 = 2 * (b * c + a * d);
    let s1 = 2 * (b * c) + (-2) * (a * d) + 0 + 0;
    let s2 = 2 * (b * c) + 2 * (a * d) + 0 + 0;
    assert(e1 * e2 == s1 * s2) by (nonlinear_arith)
        requires
            e1 == s1,
            e2 == s2,
    ;
    expand_4_4(2 * (b * c), (-2) * (a * d), 0, 0, 2 * (b * c), 2 * (a * d), 0, 0);
    assert(s1 * s2 == (2 * (b * c)) * (2 * (b * c)) + (2 * (b * c)) * (2 * (a * d))
        + ((-2) * (a * d)) * (2 * (b * c)) + ((-2) * (a * d)) * (2 * (a * d)));
    assert((2 * (b * c)) * (2 * (b * c)) == 4 * (b * b * c * c)) by (nonlinear_arith);
    assert((2 * (b * c)) * (2 * (a * d)) == 4 * (a * b * c * d)) by (nonlinear_arith);
    assert(((-2) * (a * d)) * (2 * (b * c)) == (-4) * (a * b * c * d)) by (nonlinear_arith);
    assert(((-2) * (a * d)) * (2 * (a * d)) == (-4) * (a * a * d * d)) by (nonlinear_arith);
    assert(s1 * s2 == 4 * (b * b * c * c) + (-4) * (a * a * d * d));
    assert(e1 * e2 == 4 * (b * b * c * c) + (-4) * (a * a * d * d));
}

/// The squared norm times an entry of the first row, as a sum of monomials.
proof fn minor_of_first_scaled(a: int, b: int, c: int, d: int)
    ensures
        (a * a + b * b + c * c + d * d) * (a * a - b * b - c * c + d * d) == 1 * (a * a * a * a)
            + 2 * (a * a * d * d) + (-1) * (b * b * b * b) + (-2) * (b * b * c * c)
            + (-1) * (c * c * c * c) + 1 * (d * d * d * d),
{
    let e1 = a * a + b * b + c * c + d * d;
    let e2 = a * a - b * b - c * c + d * d;
    let s1 = a * a + b * b + c * c + d * d;
    let s2 = a * a + -(b * b) + -(c * c) + d * d;
    assert(e1 * e2 == s1 * s2) by (nonlinear_arith)
        requires
            e1 == s1,
            e2 == s2,
    ;
    expand_4_4(a * a, b * b, c * c, d * d, a * a, -(b * b), -(c * c), d * d);
    assert(s1 * s2 == (a * a) * (a * a) + (a * a) * (-(b * b)) + (a * a) * (-(c * c))
        + (a * a) * (d * d) + (b * b) * (a * a) + (b * b) * (-(b * b)) + (b * b) * (-(c * c))
        + (b * b) * (d * d) + (c * c) * (a * a) + (c * c) * (-(b * b)) + (c * c) * (-(c * c))
        + (c * c) * (d * d) + (d * d) * (a * a) + (d * d) * (-(b * b)) + (d * d) * (-(c * c))
        + (d * d) * (d * d));
    assert((a * a) * (a * a) == 1 * (a * a * a * a)) by (nonlinear_arith);
    assert((a * a) * (-(b * b)) == (-1) * (a * a * b * b)) by (nonlinear_arith);
    assert((a * a) * (-(c * c)) == (-1) * (a * a * c * c)) by (nonlinear_arith);
    assert((a * a) * (d * d) == 1 * (a * a * d * d)) by (nonlinear_arith);
    assert((b * b) * (a * a) == 1 * (a * a * b * b)) by (nonlinear_arith);
    assert((b * b) * (-(b * b)) == (-1) * (b * b * b * b)) by (nonlinear_arith);
    assert((b * b) * (-(c * c)) == (-1) * (b * b * c * c)) by (nonlinear_arith);
    assert((b * b) * (d * d) == 1 * (b * b * d * d)) by (nonlinear_arith);
    assert((c * c) * (a * a) == 1 * (a * a * c * c)) by (nonlinear_arith);
    assert((c * c) * (-(b * b)) == (-1) * (b * b * c * c)) by (nonlinear_arith);
    assert((c * c) * (-(c * c)) == (-1) * (c * c * c * c)) by (nonlinear_arith);
    assert((c * c) * (d * d) == 1 * (c * c * d * d)) by (nonlinear_arith);
    assert((d * d) * (a * a) == 1 * (a * a * d * d)) by (nonlinear_arith);
    assert((d * d) * (-(b * b)) == (-1) * (b * b * d * d)) by (nonlinear_arith);
    assert((d * d) * (-(c * c)) == (-1) * (c * c * d * d)) by (nonlinear_arith);
    assert((d * d) * (d * d) == 1 * (d * d * d * d)) by (nonlinear_arith);
    assert(s1 * s2 == 1 * (a * a * a * a) + 2 * (a * a * d * d) + (-1) * (b * b * b * b)
        + (-2) * (b * b * c * c) + (-1) * (c * c * c * c) + 1 * (d * d * d * d));
    assert(e1 * e2 == 1 * (a * a * a * a) + 2 * (a * a * d * d) + (-1) * (b * b * b * b)
        + (-2) * (b * b * c * c) + (-1) * (c * c * c * c) + 1 * (d * d * d * d));
}

/// The minor of the first entry of the first row is the squared norm times that entry.
pub(super) proof fn minor_of_first(a: int, b: int, c: int, d: int)
    ensures
        (b * b - a * a - c * c + d * d) * (c * c - a * a - b * b
            + d * d) - (2 * (b * c - a * d)) * (2 * (b * c + a * d)) == (a * a + b * b + c * c
            + d * d) * (a * a - b * b - c * c + d * d),
{
    minor_of_first_first(a, b, c, d);
    minor_of_first_second(a, b, c, d);
    minor_of_first_scaled(a, b, c, d);
}

/// The first product of a two-by-two minor, as a sum of monomials.
proof fn minor_of_second_first(a: int, b: int, c: int, d: int)
    ensures
        (2 * (a * b + c * d)) * (c * c - a * a - b * b + d * d) == 2 * (a * b * c * c)
            + (-2) * (a * a * a * b) + (-2) * (a * b * b * b) + 2 * (a * b * d * d)
            + 2 * (c * c * c * d) + (-2) * (a * a * c * d) + (-2) * (b * b * c * d)
            + 2 * (c * d * d * d),
{
    let e1 = 2 * (a * b + c * d);
    let e2 = c * c - a * a - b * b + d * d;
    let s1 = 2 * (a * b) + 2 * (c * d) + 0 + 0;
    let s2 = c * c + -(a * a) + -(b * b) + d * d;
    assert(e1 * e2 == s1 * s2) by (nonlinear_arith)
        requires
            e1 == s1,
            e2 == s2,
    ;
    expand_4_4(2 * (a * b), 2 * (c * d), 0, 0, c * c, -(a * a), -(b * b), d * d);
    assert(s1 * s2 == (2 * (a * b)) * (c * c) + (2 * (a * b)) * (-(a * a))
        + (2 * (a * b)) * (-(b * b)) + (2 * (a * b)) * (d * d) + (2 * (c * d)) * (c * c)
        + (2 * (c * d)) * (-(a * a)) + (2 * (c * d)) * (-(b * b)) + (2 * (c * d)) * (d * d));
    assert((2 * (a * b)) * (c * c) == 2 * (a * b * c * c)) by (nonlinear_arith);
    assert((2 * (a * b)) * (-(a * a)) == (-2) * (a * a * a * b)) by (nonlinear_arith);
    assert((2 * (a * b)) * (-(b * b)) == (-2) * (a * b * b * b)) by (nonlinear_arith);
    assert((2 * (a * b)) * (d * d) == 2 * (a * b * d * d)) by (nonlinear_arith);
    assert((2 * (c * d)) * (c * c) == 2 * (c * c * c * d)) by (nonlinear_arith);
    assert((2 * (c * d)) * (-(a * a)) == (-2) * (a * a * c * d)) by (nonlinear_arith);
    assert((2 * (c * d)) * (-(b * b)) == (-2) * (b * b * c * d)) by (nonlinear_arith);
    assert((2 * (c * d)) * (d * d) == 2 * (c * d * d * d)) by (nonlinear_arith);
    assert(s1 * s2 == 2 * (a * b * c * c) + (-2) * (a * a * a * b) + (-2) * (a * b * b * b)
        + 2 * (a * b * d * d) + 2 * (c * c * c * d) + (-2) * (a * a * c * d)
        + (-2) * (b * b * c * d) + 2 * (c * d * d * d));
    assert(e1 * e2 == 2 * (a * b * c * c) + (-2) * (a * a * a * b) + (-2) * (a * b * b * b)
        + 2 * (a * b * d * d) + 2 * (c * c * c * d) + (-2) * (a * a * c * d)
        + (-2) * (b * b * c * d) + 2 * (c * d * d * d));
}

/// The second product of a two-by-two minor, as a sum of monomials.
proof fn minor_of_second_second(a: int, b: int, c: int, d: int)
    ensures
        (2 * (b * c - a * d)) * (2 * (a * c - b * d)) == 4 * (a * b * c * c)
            + (-4) * (b * b * c * d) + (-4) * (a * a * c * d) + 4 * (a * b * d * d),
{
    let e1 = 2 * (b * c - a * d);
    let e2 = 2 * (a * c - b * d);
    let s1 = 2 * (b * c) + (-2) * (a * d) + 0 + 0;
    let s2 = 2 * (a * c) + (-2) * (b * d) + 0 + 0;
    assert(e1 * e2 == s1 * s2) by (nonlinear_arith)
        requires
            e1 == s1,
            e2 == s2,
    ;
    expand_4_4(2 * (b * c), (-2) * (a * d), 0, 0, 2 * (a * c), (-2) * (b * d), 0, 0);
    assert(s1 * s2 == (2 * (b * c)) * (2 * (a * c)) + (2 * (b * c)) * ((-2) * (b * d))
        + ((-2) * (a * d)) * (2 * (a * c)) + ((-2) * (a * d)) * ((-2) * (b * d)));
    assert((2 * (b * c)) * (2 * (a * c)) == 4 * (a * b * c * c)) by (nonlinear_arith);
    assert((2 * (b * c)) * ((-2) * (b * d)) == (-4) * (b * b * c * d)) by (nonlinear_arith);
    assert(((-2) * (a * d)) * (2 * (a * c)) == (-4) * (a * a * c * d)) by (nonlinear_arith);
    assert(((-2) * (a * d)) * ((-2) * (b * d)) == 4 * (a * b * d * d)) by (nonlinear_arith);
    assert(s1 * s2 == 4 * (a * b * c * c) + (-4) * (b * b * c * d) + (-4) * (a * a * c * d)
        + 4 * (a * b * d * d));
    assert(e1 * e2 == 4 * (a * b * c * c) + (-4) * (b * b * c * d) + (-4) * (a * a * c * d)
        + 4 * (a * b * d * d));
}

/// The squared norm times an entry of the first row, as a sum of monomials.
proof fn minor_of_second_scaled(a: int, b: int, c: int, d: int)
    ensures
        (a * a + b * b + c * c + d * d) * (2 * (a * b - c * d)) == 2 * (a * a * a * b)
            + (-2) * (a * a * c * d) + 2 * (a * b * b * b) + (-2) * (b * b * c * d)
            + 2 * (a * b * c * c) + (-2) * (c * c * c * d) + 2 * (a * b * d * d)
            + (-2) * (c * d * d * d),
{
    let e1 = a * a + b * b + c * c + d * d;
    let e2 = 2 * (a * b - c * d);
    let s1 = a * a + b * b + c * c + d * d;
    let s2 = 2 * (a * b) + (-2) * (c * d) + 0 + 0;
    assert(e1 * e2 == s1 * s2) by (nonlinear_arith)
        requires
            e1 == s1,
            e2 == s2,
    ;
    expand_4_4(a * a, b * b, c * c, d * d, 2 * (a * b), (-2) * (c * d), 0, 0);
    assert(s1 * s2 == (a * a) * (2 * (a * b)) + (a * a) * ((-2) * (c * d)) + (b * b) * (2 * (a * b))
        + (b * b) * ((-2) * (c * d)) + (c * c) * (2 * (a * b)) + (c * c) * ((-2) * (c * d))
        + (d * d) * (2 * (a * b)) + (d * d) * ((-2) * (c * d)));
    assert((a * a) * (2 * (a * b)) == 2 * (a * a * a * b)) by (nonlinear_arith);
    assert((a * a) * ((-2) * (c * d)) == (-2) * (a * a * c * d)) by (nonlinear_arith);
    assert((b * b) * (2 * (a * b)) == 2 * (a * b * b * b)) by (nonlinear_arith);
    assert((b * b) * ((-2) * (c * d)) == (-2) * (b * b * c * d)) by (nonlinear_arith);
    assert((c * c) * (2 * (a * b)) == 2 * (a * b * c * c)) by (nonlinear_arith);
    assert((c * c) * ((-2) * (c * d)) == (-2) * (c * c * c * d)) by (nonlinear_arith);
    assert((d * d) * (2 * (a * b)) == 2 * (a * b * d * d)) by (nonlinear_arith);
    assert((d * d) * ((-2) * (c * d)) == (-2) * (c * d * d * d)) by (nonlinear_arith);
    assert(s1 * s2 == 2 * (a * a * a * b) + (-2) * (a * a * c * d) + 2 * (a * b * b * b)
        + (-2) * (b * b * c * d) + 2 * (a * b * c * c) + (-2) * (c * c * c * d)
        + 2 * (a * b * d * d) + (-2) * (c * d * d * d));
    assert(e1 * e2 == 2 * (a * a * a * b) + (-2) * (a * a * c * d) + 2 * (a * b * b * b)
        + (-2) * (b * b * c * d) + 2 * (a * b * c * c) + (-2) * (c * c * c * d)
        + 2 * (a * b * d * d) + (-2) * (c * d * d * d));
}

/// The minor of the second entry of the first row is the squared norm times that entry, negated.
pub(super) proof fn minor_of_second(a: int, b: int, c: int, d: int)
    ensures
        (2 * (a * b + c * d)) * (c * c - a * a - b * b
            + d * d) - (2 * (b * c - a * d)) * (2 * (a * c - b * d)) == -((a * a + b * b + c * c
            + d * d) * (2 * (a * b - c * d))),
{
    minor_of_second_first(a, b, c, d);
    minor_of_second_second(a, b, c, d);
    minor_of_second_scaled(a, b, c, d);
}

/// The first product of a two-by-two minor, as a sum of monomials.
proof fn minor_of_third_first(a: int, b: int, c: int, d: int)
    ensures
        (2 * (a * b + c * d)) * (2 * (b * c + a * d)) == 4 * (a * b * b * c) + 4 * (a * a * b * d)
            + 4 * (b * c * c * d) + 4 * (a * c * d * d),
{
    let e1 = 2 * (a * b + c * d);
    let e2 = 2 * (b * c + a * d);
    let s1 = 2 * (a * b) + 2 * (c * d) + 0 + 0;
    let s2 = 2 * (b * c) + 2 * (a * d) + 0 + 0;
    assert(e1 * e2 == s1 * s2) by (nonlinear_arith)
        requires
            e1 == s1,
            e2 == s2,
    ;
    expand_4_4(2 * (a * b), 2 * (c * d), 0, 0, 2 * (b * c), 2 * (a * d), 0, 0);
    assert(s1 * s2 == (2 * (a * b)) * (2 * (b * c)) + (2 * (a * b)) * (2 * (a * d))
        + (2 * (c * d)) * (2 * (b * c)) + (2 * (c * d)) * (2 * (a * d)));
    assert((2 * (a * b)) * (2 * (b * c)) == 4 * (a * b * b * c)) by (nonlinear_arith);
    assert((2 * (a * b)) * (2 * (a * d)) == 4 * (a * a * b * d)) by (nonlinear_arith);
    assert((2 * (c * d)) * (2 * (b * c)) == 4 * (b * c * c * d)) by (nonlinear_arith);
    assert((2 * (c * d)) * (2 * (a * d)) == 4 * (a * c * d * d)) by (nonlinear_arith);
    assert(s1 * s2 == 4 * (a * b * b * c) + 4 * (a * a * b * d) + 4 * (b * c * c * d)
        + 4 * (a * c * d * d));
    assert(e1 * e2 == 4 * (a * b * b * c) + 4 * (a * a * b * d) + 4 * (b * c * c * d)
        + 4 * (a * c * d * d));
}

/// The second product of a two-by-two minor, as a sum of monomials.
proof fn minor_of_third_second(a: int, b: int, c: int, d: int)
    ensures
        (b * b - a * a - c * c + d * d) * (2 * (a * c - b * d)) == 2 * (a * b * b * c)
            + (-2) * (b * b * b * d) + (-2) * (a * a * a * c) + 2 * (a * a * b * d)
            + (-2) * (a * c * c * c) + 2 * (b * c * c * d) + 2 * (a * c * d * d)
            + (-2) * (b * d * d * d),
{
    let e1 = b * b - a * a - c * c + d * d;
    let e2 = 2 * (a * c - b * d);
    let s1 = b * b + -(a * a) + -(c * c) + d * d;
    let s2 = 2 * (a * c) + (-2) * (b * d) + 0 + 0;
    assert(e1 * e2 == s1 * s2) by (nonlinear_arith)
        requires
            e1 == s1,
            e2 == s2,
    ;
    expand_4_4(b * b, -(a * a), -(c * c), d * d, 2 * (a * c), (-2) * (b * d), 0, 0);
    assert(s1 * s2 == (b * b) * (2 * (a * c)) + (b * b) * ((-2) * (b * d))
        + (-(a * a)) * (2 * (a * c)) + (-(a * a)) * ((-2) * (b * d)) + (-(c * c)) * (2 * (a * c))
        + (-(c * c)) * ((-2) * (b * d)) + (d * d) * (2 * (a * c)) + (d * d) * ((-2) * (b * d)));
    assert((b * b) * (2 * (a * c)) == 2 * (a * b * b * c)) by (nonlinear_arith);
    assert((b * b) * ((-2) * (b * d)) == (-2) * (b * b * b * d)) by (nonlinear_arith);
    assert((-(a * a)) * (2 * (a * c)) == (-2) * (a * a * a * c)) by (nonlinear_arith);
    assert((-(a * a)) * ((-2) * (b * d)) == 2 * (a * a * b * d)) by (nonlinear_arith);
    assert((-(c * c)) * (2 * (a * c)) == (-2) * (a * c * c * c)) by (nonlinear_arith);
    assert((-(c * c)) * ((-2) * (b * d)) == 2 * (b * c * c * d)) by (nonlinear_arith);
    assert((d * d) * (2 * (a * c)) == 2 * (a * c * d * d)) by (nonlinear_arith);
    assert((d * d) * ((-2) * (b * d)) == (-2) * (b * d * d * d)) by (nonlinear_arith);
    assert(s1 * s2 == 2 * (a * b * b * c) + (-2) * (b * b * b * d) + (-2) * (a * a * a * c)
        + 2 * (a * a * b * d) + (-2) * (a * c * c * c) + 2 * (b * c * c * d) + 2 * (a * c * d * d)
        + (-2) * (b * d * d * d));
    assert(e1 * e2 == 2 * (a * b * b * c) + (-2) * (b * b * b * d) + (-2) * (a * a * a * c)
        + 2 * (a * a * b * d) + (-2) * (a * c * c * c) + 2 * (b * c * c * d) + 2 * (a * c * d * d)
        + (-2) * (b * d * d * d));
}

/// The squared norm times an entry of the first row, as a sum of monomials.
proof fn minor_of_third_scaled(a: int, b: int, c: int, d: int)
    ensures
        (a * a + b * b + c * c + d * d) * (2 * (a * c + b * d)) == 2 * (a * a * a * c)
            + 2 * (a * a * b * d) + 2 * (a * b * b * c) + 2 * (b * b * b * d) + 2 * (a * c * c * c)
            + 2 * (b * c * c * d) + 2 * (a * c * d * d) + 2 * (b * d * d * d),
{
    let e1 = a * a + b * b + c * c + d * d;
    let e2 = 2 * (a * c + b * d);
    let s1 = a * a + b * b + c * c + d * d;
    let s2 = 2 * (a * c) + 2 * (b * d) + 0 + 0;
    assert(e1 * e2 == s1 * s2) by (nonlinear_arith)
        requires
            e1 == s1,
            e2 == s2,
    ;
    expand_4_4(a * a, b * b, c * c, d * d, 2 * (a * c), 2 * (b * d), 0, 0);
    assert(s1 * s2 == (a * a) * (2 * (a * c)) + (a * a) * (2 * (b * d)) + (b * b) * (2 * (a * c))
        + (b * b) * (2 * (b * d)) + (c * c) * (2 * (a * c)) + (c * c) * (2 * (b * d))
        + (d * d) * (2 * (a * c)) + (d * d) * (2 * (b * d)));
    assert((a * a) * (2 * (a * c)) == 2 * (a * a * a * c)) by (nonlinear_arith);
    assert((a * a) * (2 * (b * d)) == 2 * (a * a * b * d)) by (nonlinear_arith);
    assert((b * b) * (2 * (a * c)) == 2 * (a * b * b * c)) by (nonlinear_arith);
    assert((b * b) * (2 * (b * d)) == 2 * (b * b * b * d)) by (nonlinear_arith);
    assert((c * c) * (2 * (a * c)) == 2 * (a * c * c * c)) by (nonlinear_arith);
    assert((c * c) * (2 * (b * d)) == 2 * (b * c * c * d)) by (nonlinear_arith);
    assert((d * d) * (2 * (a * c)) == 2 * (a * c * d * d)) by (nonlinear_arith);
    assert((d * d) * (2 * (b * d)) == 2 * (b * d * d * d)) by (nonlinear_arith);
    assert(s1 * s2 == 2 * (a * a * a * c) + 2 * (a * a * b * d) + 2 * (a * b * b * c)
        + 2 * (b * b * b * d) + 2 * (a * c * c * c) + 2 * (b * c * c * d) + 2 * (a * c * d * d)
        + 2 * (b * d * d * d));
    assert(e1 * e2 == 2 * (a * a * a * c) + 2 * (a * a * b * d) + 2 * (a * b * b * c)
        + 2 * (b * b * b * d) + 2 * (a * c * c * c) + 2 * (b * c * c * d) + 2 * (a * c * d * d)
        + 2 * (b * d * d * d));
}

/// The minor of the third entry of the first row is the squared norm times that entry.
pub(super) proof fn minor_of_third(a: int, b: int, c: int, d: int)
    ensures
        (2 * (a * b + c * d)) * (2 * (b * c + a * d)) - (b * b - a * a - c * c
            + d * d) * (2 * (a * c - b * d)) == (a * a + b * b + c * c + d * d) * (2 * (a * c
            + b * d)),
{
    minor_of_third_first(a, b, c, d);
    minor_of_third_second(a, b, c, d);
    minor_of_third_scaled(a, b, c, d);
}

} // verus!
