//! Trusted view of the proving framework (halo2).
//!
//! The framework's monomorphic types are declared opaque. Its generic types
//! carry framework trait bounds that the verifier cannot restate, so each is
//! held, at the one instantiation this circuit uses, inside an opaque
//! newtype. Uninterpreted spec functions name what the contracts need of
//! their values: the canonical value of a field element, the index a column
//! or selector carries, the allocation counts and registered-gate set of a
//! constraint-system builder, and the value an assigned cell holds. Each
//! wrapper's contract states, over those names, what the framework's source
//! shows of the one call it makes.

use vstd::prelude::*;
use halo2_proofs::circuit::{AssignedCell, Region, Value};
use halo2_proofs::pasta::Fp;
use halo2_proofs::plonk::{Advice, Column, ConstraintSystem, Error, Instance, Selector};
use halo2_proofs::poly::Rotation;
use crate::gate::{fp_modulus, mul_mod};

verus! {

#[verifier::external_type_specification]
#[verifier::external_body]
pub struct ExFp(Fp);

#[verifier::external_type_specification]
#[verifier::external_body]
pub struct ExSelector(Selector);

#[verifier::external_type_specification]
#[verifier::external_body]
pub struct ExError(Error);

/// An advice (private-value) column of the constraint table.
#[verifier::external_body]
pub struct AdviceCol {
    pub inner: Column<Advice>,
}

/// The instance (public-value) column of the constraint table.
#[verifier::external_body]
pub struct InstanceCol {
    pub inner: Column<Instance>,
}

/// The framework's constraint-system builder, borrowed for configuration.
#[verifier::external_body]
pub struct CsBuilder<'a> {
    pub inner: &'a mut ConstraintSystem<Fp>,
}

/// One region of the constraint table, borrowed for witness assignment.
#[verifier::external_body]
pub struct RegionCtx<'r> {
    pub inner: Region<'r, Fp>,
}

/// The cell holding the product, as the framework returned it.
#[verifier::external_body]
pub struct ProductCell {
    pub inner: AssignedCell<Fp, Fp>,
}

/// The canonical value of a field element: its residue below the field order.
pub uninterp spec fn fp_val(x: Fp) -> nat;

/// The index an advice column carries.
pub uninterp spec fn advice_index(c: AdviceCol) -> nat;

/// The index an instance column carries.
pub uninterp spec fn instance_index(c: InstanceCol) -> nat;

/// The index a selector carries.
pub uninterp spec fn selector_index(s: Selector) -> nat;

/// How many advice columns a builder has allocated.
pub uninterp spec fn cs_advice_count(cs: CsBuilder<'_>) -> nat;

/// How many instance columns a builder has allocated.
pub uninterp spec fn cs_instance_count(cs: CsBuilder<'_>) -> nat;

/// How many selectors a builder has allocated.
pub uninterp spec fn cs_selector_count(cs: CsBuilder<'_>) -> nat;

/// The advice-column indices a builder has enabled equality constraints on.
pub uninterp spec fn cs_equality_advice(cs: CsBuilder<'_>) -> Set<nat>;

/// The instance-column indices a builder has enabled equality constraints on.
pub uninterp spec fn cs_equality_instance(cs: CsBuilder<'_>) -> Set<nat>;

/// The multiplication gates a builder has registered, each as the indices
/// (selector, a, b, c) its polynomial `selector * (a*b - c)` queries.
pub uninterp spec fn cs_mul_gates(cs: CsBuilder<'_>) -> Set<(nat, nat, nat, nat)>;

/// The value an assigned cell holds, `None` on the framework's
/// witness-independent pass.
pub uninterp spec fn cell_value(c: ProductCell) -> Option<nat>;

/// How many selectors the constraint system underlying the region has: the
/// bound the framework indexes within when a selector is enabled there.
pub uninterp spec fn region_selector_count(r: RegionCtx<'_>) -> nat;

/// The selectors enabled in the region, as (selector index, row) pairs.
pub uninterp spec fn region_selectors(r: RegionCtx<'_>) -> Set<(nat, nat)>;

/// The advice cells assigned in the region, keyed by (column index, row);
/// an entry is `None` where the framework's witness-independent pass
/// recorded the cell without a value.
pub uninterp spec fn region_advice(r: RegionCtx<'_>) -> Map<(nat, nat), Option<nat>>;

/// Relies on Fp::from(u64): the canonical value of the result is the
/// argument itself, which lies below the 255-bit field order.
#[verifier::external_body]
pub(crate) fn fp_from_u64(x: u64) -> (r: Fp)
    ensures
        fp_val(r) == x as nat,
        fp_val(r) < fp_modulus(),
{
    Fp::from(x)
}

/// Relies on Fp::zero: the additive identity, of canonical value 0.
#[verifier::external_body]
pub(crate) fn fp_zero() -> (r: Fp)
    ensures
        fp_val(r) == 0,
{
    Fp::zero()
}

/// Relies on Fp's multiplication: the field product of the operands.
#[verifier::external_body]
pub(crate) fn fp_mul(a: Fp, b: Fp) -> (r: Fp)
    ensures
        fp_val(r) == mul_mod(fp_val(a), fp_val(b)),
{
    a * b
}

/// Relies on ConstraintSystem::advice_column: returns a column carrying the
/// current advice count as its index and increments that count; nothing else
/// this crate tracks of the builder changes.
#[verifier::external_body]
pub(crate) fn new_advice_column(cs: &mut CsBuilder<'_>) -> (r: AdviceCol)
    ensures
        advice_index(r) == cs_advice_count(*old(cs)),
        cs_advice_count(*final(cs)) == cs_advice_count(*old(cs)) + 1,
        cs_instance_count(*final(cs)) == cs_instance_count(*old(cs)),
        cs_selector_count(*final(cs)) == cs_selector_count(*old(cs)),
        cs_equality_advice(*final(cs)) == cs_equality_advice(*old(cs)),
        cs_equality_instance(*final(cs)) == cs_equality_instance(*old(cs)),
        cs_mul_gates(*final(cs)) == cs_mul_gates(*old(cs)),
{
    AdviceCol { inner: cs.inner.advice_column() }
}

/// Relies on ConstraintSystem::instance_column: returns a column carrying
/// the current instance count as its index and increments that count;
/// nothing else this crate tracks of the builder changes.
#[verifier::external_body]
pub(crate) fn new_instance_column(cs: &mut CsBuilder<'_>) -> (r: InstanceCol)
    ensures
        instance_index(r) == cs_instance_count(*old(cs)),
        cs_instance_count(*final(cs)) == cs_instance_count(*old(cs)) + 1,
        cs_advice_count(*final(cs)) == cs_advice_count(*old(cs)),
        cs_selector_count(*final(cs)) == cs_selector_count(*old(cs)),
        cs_equality_advice(*final(cs)) == cs_equality_advice(*old(cs)),
        cs_equality_instance(*final(cs)) == cs_equality_instance(*old(cs)),
        cs_mul_gates(*final(cs)) == cs_mul_gates(*old(cs)),
{
    InstanceCol { inner: cs.inner.instance_column() }
}

/// Relies on ConstraintSystem::selector: returns a selector carrying the
/// current selector count as its index and increments that count; nothing
/// else this crate tracks of the builder changes.
#[verifier::external_body]
pub(crate) fn new_selector(cs: &mut CsBuilder<'_>) -> (r: Selector)
    ensures
        selector_index(r) == cs_selector_count(*old(cs)),
        cs_selector_count(*final(cs)) == cs_selector_count(*old(cs)) + 1,
        cs_advice_count(*final(cs)) == cs_advice_count(*old(cs)),
        cs_instance_count(*final(cs)) == cs_instance_count(*old(cs)),
        cs_equality_advice(*final(cs)) == cs_equality_advice(*old(cs)),
        cs_equality_instance(*final(cs)) == cs_equality_instance(*old(cs)),
        cs_mul_gates(*final(cs)) == cs_mul_gates(*old(cs)),
{
    cs.inner.selector()
}

/// Relies on ConstraintSystem::enable_equality: adds the column's index to
/// the set the permutation argument covers (an already-covered column is
/// kept, not duplicated); nothing else this crate tracks of the builder
/// changes. The column must have been allocated by this builder: recording
/// its query indexes the builder's per-column table, and on a foreign index
/// the framework aborts, which the precondition rules out.
#[verifier::external_body]
pub(crate) fn enable_equality_advice(cs: &mut CsBuilder<'_>, col: &AdviceCol)
    requires
        advice_index(*col) < cs_advice_count(*old(cs)),
    ensures
        cs_equality_advice(*final(cs)) == cs_equality_advice(*old(cs)).insert(advice_index(*col)),
        cs_equality_instance(*final(cs)) == cs_equality_instance(*old(cs)),
        cs_advice_count(*final(cs)) == cs_advice_count(*old(cs)),
        cs_instance_count(*final(cs)) == cs_instance_count(*old(cs)),
        cs_selector_count(*final(cs)) == cs_selector_count(*old(cs)),
        cs_mul_gates(*final(cs)) == cs_mul_gates(*old(cs)),
{
    cs.inner.enable_equality(col.inner)
}

/// Relies on ConstraintSystem::enable_equality: adds the column's index to
/// the set the permutation argument covers (an already-covered column is
/// kept, not duplicated); nothing else this crate tracks of the builder
/// changes.
#[verifier::external_body]
pub(crate) fn enable_equality_instance(cs: &mut CsBuilder<'_>, col: &InstanceCol)
    ensures
        cs_equality_instance(*final(cs)) == cs_equality_instance(*old(cs)).insert(instance_index(*col)),
        cs_equality_advice(*final(cs)) == cs_equality_advice(*old(cs)),
        cs_advice_count(*final(cs)) == cs_advice_count(*old(cs)),
        cs_instance_count(*final(cs)) == cs_instance_count(*old(cs)),
        cs_selector_count(*final(cs)) == cs_selector_count(*old(cs)),
        cs_mul_gates(*final(cs)) == cs_mul_gates(*old(cs)),
{
    cs.inner.enable_equality(col.inner)
}

/// Relies on ConstraintSystem::create_gate: registers one gate whose single
/// polynomial is `sel * (a*b - c)`, each factor queried on the current row;
/// nothing else this crate tracks of the builder changes. The constraint
/// list handed over is non-empty, so that assertion cannot abort; the three
/// columns must have been allocated by this builder, since querying them
/// indexes the builder's per-column table, and on a foreign index the
/// framework aborts, which the preconditions rule out.
#[verifier::external_body]
pub(crate) fn create_mul_gate(
    cs: &mut CsBuilder<'_>,
    sel: Selector,
    a: &AdviceCol,
    b: &AdviceCol,
    c: &AdviceCol,
)
    requires
        advice_index(*a) < cs_advice_count(*old(cs)),
        advice_index(*b) < cs_advice_count(*old(cs)),
        advice_index(*c) < cs_advice_count(*old(cs)),
    ensures
        cs_mul_gates(*final(cs)) == cs_mul_gates(*old(cs)).insert(
            (selector_index(sel), advice_index(*a), advice_index(*b), advice_index(*c)),
        ),
        cs_equality_advice(*final(cs)) == cs_equality_advice(*old(cs)),
        cs_equality_instance(*final(cs)) == cs_equality_instance(*old(cs)),
        cs_advice_count(*final(cs)) == cs_advice_count(*old(cs)),
        cs_instance_count(*final(cs)) == cs_instance_count(*old(cs)),
        cs_selector_count(*final(cs)) == cs_selector_count(*old(cs)),
{
    cs.inner.create_gate("multiplication", |meta| {
        let s = meta.query_selector(sel);
        let a = meta.query_advice(a.inner, Rotation::cur());
        let b = meta.query_advice(b.inner, Rotation::cur());
        let c = meta.query_advice(c.inner, Rotation::cur());
        let poly = s * (a * b - c);
        vec![poly]
    })
}

/// Relies on Selector::enable: records the selector as enabled at the given
/// row of the region, or reports the layouter's failure without recording
/// anything. The advice cells are untouched either way. The selector must
/// lie within the underlying system's selectors: on a foreign one the
/// framework indexes out of bounds and aborts instead of returning an error,
/// which the precondition rules out.
#[verifier::external_body]
pub(crate) fn enable_selector_at(
    region: &mut RegionCtx<'_>,
    sel: &Selector,
    offset: usize,
) -> (r: Result<(), Error>)
    requires
        selector_index(*sel) < region_selector_count(*old(region)),
    ensures
        (r is Ok ==> region_selectors(*final(region))
            == region_selectors(*old(region)).insert((selector_index(*sel), offset as nat))),
        (r is Err ==> region_selectors(*final(region)) == region_selectors(*old(region))),
        region_advice(*final(region)) == region_advice(*old(region)),
        region_selector_count(*final(region)) == region_selector_count(*old(region)),
{
    sel.enable(&mut region.inner, offset)
}

/// Relies on Region::assign_advice: places the given value into the given
/// column at the given row of the region and returns the new cell, which
/// records exactly what the region now holds there; on failure nothing is
/// recorded. On the framework's witness-independent pass the cell's value is
/// unknown; where it is known, it is the value handed in. The enabled
/// selectors are untouched either way.
#[verifier::external_body]
pub(crate) fn assign_advice_value(
    region: &mut RegionCtx<'_>,
    col: &AdviceCol,
    offset: usize,
    v: Fp,
) -> (r: Result<ProductCell, Error>)
    ensures
        (r matches Ok(cell) ==> cell_value(cell) is None || cell_value(cell) == Some(fp_val(v))),
        (r matches Ok(cell) ==> region_advice(*final(region)) == region_advice(*old(region))
            .insert((advice_index(*col), offset as nat), cell_value(cell))),
        (r is Err ==> region_advice(*final(region)) == region_advice(*old(region))),
        region_selectors(*final(region)) == region_selectors(*old(region)),
        region_selector_count(*final(region)) == region_selector_count(*old(region)),
{
    let cell = region.inner.assign_advice(|| "", col.inner, offset, || Value::known(v))?;
    Ok(ProductCell { inner: cell })
}

} // verus!
