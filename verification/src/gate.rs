//! The mathematical meaning of the multiplication gate.
//!
//! The circuit enforces the polynomial identity `selector * (a*b - c) == 0`
//! on each row, over the base field of the Pallas curve, and binds the `c`
//! cell of the active row to the public value at instance row 0. This module
//! states that identity on canonical representatives (naturals below the
//! field order) and proves what it means for a row to satisfy it.

use vstd::prelude::*;
use vstd::arithmetic::div_mod::{lemma_mod_bound, lemma_mod_multiples_vanish, lemma_small_mod};

verus! {

/// The order of the base field of the Pallas curve, the field the circuit
/// is instantiated at. Written from its four little-endian 64-bit limbs.
pub open spec fn fp_modulus() -> nat {
    0x992d30ed00000001 + 0x224698fc094cf91b * 0x10000000000000000
        + 0x4000000000000000 * 0x10000000000000000 * 0x10000000000000000 * 0x10000000000000000
}

/// A canonical field-element representative: a natural below the field order.
pub open spec fn is_canonical(x: nat) -> bool {
    x < fp_modulus()
}

/// The field product of two elements, on canonical representatives.
pub open spec fn mul_mod(a: nat, b: nat) -> nat {
    (a * b) % fp_modulus()
}

/// The value of the multiplication gate's polynomial `s * (a*b - c)` on one row, evaluated in
/// the field and read back as its canonical representative.
pub open spec fn gate_value(s: nat, a: nat, b: nat, c: nat) -> int {
    (s * (mul_mod(a, b) - c)) % (fp_modulus() as int)
}

/// The verifier's view of the one row this circuit uses: the multiplication gate's polynomial
/// vanishes, and the `c` cell equals the public value bound to it.
pub open spec fn row_accepted(s: nat, a: nat, b: nat, c: nat, public_value: nat) -> bool {
    &&& gate_value(s, a, b, c) == 0
    &&& c == public_value
}

/// A field product is itself a canonical representative.
pub proof fn lemma_mul_mod_canonical(a: nat, b: nat)
    ensures
        is_canonical(mul_mod(a, b)),
{
    lemma_mod_bound((a * b) as int, fp_modulus() as int);
}

/// With the selector enabled, the multiplication gate's polynomial vanishes on a row exactly
/// when its `c` cell holds the field product of its `a` and `b` cells.
pub proof fn lemma_gate_zero_iff_product(a: nat, b: nat, c: nat)
    requires
        is_canonical(c),
    ensures
        gate_value(1, a, b, c) == 0 <==> c == mul_mod(a, b),
{
    let p = fp_modulus() as int;
    let m = mul_mod(a, b) as int;
    lemma_mod_bound((a * b) as int, p);
    assert(1 * (m - c) == m - c) by (nonlinear_arith);
    if m >= c {
        lemma_small_mod((m - c) as nat, p as nat);
    } else {
        lemma_mod_multiples_vanish(1, m - c, p);
        assert(p * 1 + (m - c) == m - c + p) by (nonlinear_arith);
        lemma_small_mod((m - c + p) as nat, p as nat);
    }
}

/// With the selector off, the multiplication gate's polynomial vanishes whatever the row holds:
/// the constraint is only active where the selector is enabled.
pub proof fn lemma_selector_off_vanishes(a: nat, b: nat, c: nat)
    ensures
        gate_value(0, a, b, c) == 0,
{
    let p = fp_modulus() as int;
    assert(0 * (mul_mod(a, b) - c) == 0) by (nonlinear_arith);
    lemma_small_mod(0, p as nat);
}

/// Assigning any witnesses (a, b) and exposing their product satisfies the
/// row: the multiplication gate vanishes and the exposed cell equals the public value a*b.
pub proof fn lemma_honest_row_accepted(a: nat, b: nat)
    ensures
        row_accepted(1, a, b, mul_mod(a, b), mul_mod(a, b)),
{
    lemma_mul_mod_canonical(a, b);
    lemma_gate_zero_iff_product(a, b, mul_mod(a, b));
}

/// Against a public value other than the product, no row with the selector
/// enabled is accepted: either the multiplication gate or the instance binding fails.
pub proof fn lemma_wrong_public_rejected(a: nat, b: nat, c: nat, public_value: nat)
    requires
        is_canonical(c),
        public_value != mul_mod(a, b),
    ensures
        !row_accepted(1, a, b, c, public_value),
{
    lemma_gate_zero_iff_product(a, b, c);
}

/// A zero factor gives a zero product, so the row is satisfied against the
/// public value 0.
pub proof fn lemma_zero_factor_accepted(a: nat, b: nat)
    requires
        a == 0 || b == 0,
    ensures
        mul_mod(a, b) == 0,
        row_accepted(1, a, b, 0, 0),
{
    assert(a * b == 0) by (nonlinear_arith)
        requires a == 0 || b == 0;
    lemma_small_mod(0, fp_modulus());
    lemma_honest_row_accepted(a, b);
}

/// With a zero factor, a product cell that carries a value at all carries
/// zero: the premise on `v` is exactly what the assignment step promises of
/// the cell it returns, with `None` for the framework's witness-independent
/// pass.
pub proof fn lemma_zero_factor_cell(a: nat, b: nat, v: Option<nat>)
    requires
        a == 0 || b == 0,
        v is None || v == Some(mul_mod(a, b)),
    ensures
        v is None || v == Some(0nat),
{
    lemma_zero_factor_accepted(a, b);
}

} // verus!
