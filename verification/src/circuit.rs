//! The top-level proof specification: two private witnesses whose product
//! is exposed as the single public value.

use vstd::prelude::*;
use halo2_proofs::circuit::Layouter;
use halo2_proofs::pasta::Fp;
use crate::chip::{MultiplicationChip, MultiplicationConfig};
use crate::error::SynthError;
use crate::gate::mul_mod;
use crate::plonk::{
    CsBuilder, ProductCell, RegionCtx, cell_value, cs_advice_count, cs_equality_advice,
    cs_equality_instance, cs_instance_count, cs_mul_gates, cs_selector_count, fp_from_u64, fp_mul,
    fp_val, fp_zero,
};

verus! {

/// One proof instance: the pair of private witnesses. Their product is the
/// one public value the proof exposes, at instance row 0.
pub struct MultiplicationCircuit {
    pub a: Fp,
    pub b: Fp,
}

impl MultiplicationCircuit {
    /// A circuit over the given witnesses.
    pub fn new(a: Fp, b: Fp) -> (r: Self)
        ensures
            r.a == a,
            r.b == b,
    {
        MultiplicationCircuit { a, b }
    }

    /// A circuit over the small integers `a` and `b`, read into the field.
    pub fn from_u64(a: u64, b: u64) -> (r: Self)
        ensures
            fp_val(r.a) == a as nat,
            fp_val(r.b) == b as nat,
    {
        MultiplicationCircuit { a: fp_from_u64(a), b: fp_from_u64(b) }
    }

    /// The circuit with both witnesses zeroed, used by the framework for its
    /// witness-independent shape pass so the real inputs never leak into it.
    pub fn without_witnesses(&self) -> (r: Self)
        ensures
            fp_val(r.a) == 0,
            fp_val(r.b) == 0,
    {
        MultiplicationCircuit { a: fp_zero(), b: fp_zero() }
    }

    /// The public value this instance owes the verifier: the field product
    /// of its witnesses.
    pub fn expected_product(&self) -> (r: Fp)
        ensures
            fp_val(r) == mul_mod(fp_val(self.a), fp_val(self.b)),
    {
        fp_mul(self.a, self.b)
    }

    /// Declares the circuit's layout; delegates entirely to the chip.
    pub fn configure(cs: &mut CsBuilder<'_>) -> (cfg: MultiplicationConfig)
        ensures
            cfg.wf(),
            crate::chip::configured_from(
                cfg.layout(),
                cs_advice_count(*old(cs)),
                cs_selector_count(*old(cs)),
                cs_instance_count(*old(cs)),
            ),
            cs_advice_count(*final(cs)) == cs_advice_count(*old(cs)) + 3,
            cs_selector_count(*final(cs)) == cs_selector_count(*old(cs)) + 1,
            cs_instance_count(*final(cs)) == cs_instance_count(*old(cs)) + 1,
            cs_equality_advice(*final(cs)) == cs_equality_advice(*old(cs))
                .insert(cfg.layout().a).insert(cfg.layout().b).insert(cfg.layout().c),
            cs_equality_instance(*final(cs))
                == cs_equality_instance(*old(cs)).insert(cfg.layout().instance),
            cs_mul_gates(*final(cs)) == cs_mul_gates(*old(cs)).insert(
                (cfg.layout().selector, cfg.layout().a, cfg.layout().b, cfg.layout().c),
            ),
    {
        MultiplicationChip::configure(cs)
    }

    /// Runs one proof instance against the layout: constructs the chip,
    /// assigns the witnesses and their product into a fresh region, and
    /// binds the product cell to instance row 0. Aborts on the first
    /// failure; every failure is a layout or an equality-constraint error
    /// of the framework. The configuration must be the one `configure` made
    /// on the constraint system this layouter lays out, as it is whenever
    /// the framework drives the circuit through its own protocol; the
    /// layouter is an opaque trait parameter here, so that consistency
    /// cannot be stated as a precondition, and a foreign configuration
    /// would abort inside the framework.
    pub fn synthesize<L: Layouter<Fp>>(
        &self,
        config: MultiplicationConfig,
        layouter: &mut L,
    ) -> (r: Result<(), SynthError>)
        ensures
            (r matches Err(e) ==> e is Layout || e is Equality),
    {
        let chip = MultiplicationChip::construct(config);
        let cell = match layout_mul_region(layouter, &chip, self.a, self.b) {
            Ok(cell) => cell,
            Err(e) => {
                return Err(e);
            },
        };
        chip.expose_public(layouter, cell, 0)
    }
}

impl Default for MultiplicationCircuit {
    /// The circuit with both witnesses zeroed.
    fn default() -> (r: Self)
        ensures
            fp_val(r.a) == 0,
            fp_val(r.b) == 0,
    {
        MultiplicationCircuit { a: fp_zero(), b: fp_zero() }
    }
}

/// Relies on Layouter::assign_region: opens one region under a namespace of
/// its own, hands it to the chip's row assignment — the region belongs to
/// the system this layouter lays out, which discharges the assignment's
/// preconditions whenever the chip was configured on that system — and
/// returns that assignment's result (the framework may run the assignment
/// once per pass; the last pass's result is returned). Every error it adds
/// of its own is a layout error. The result clause restates what the
/// assignment's verified contract gives of the cell it returns, and holds
/// for any configuration.
#[verifier::external_body]
fn layout_mul_region<L: Layouter<Fp>>(
    layouter: &mut L,
    chip: &MultiplicationChip,
    a: Fp,
    b: Fp,
) -> (r: Result<ProductCell, SynthError>)
    ensures
        (r matches Ok(cell) ==> cell_value(cell) is None
            || cell_value(cell) == Some(mul_mod(fp_val(a), fp_val(b)))),
        (r matches Err(e) ==> e is Layout),
{
    layouter
        .namespace(|| "assign multiplication")
        .assign_region(
            || "multiplication",
            |region| {
                let mut ctx = RegionCtx { inner: region };
                chip.assign(&mut ctx, a, b).map_err(SynthError::into_error)
            },
        )
        .map_err(SynthError::Layout)
}

} // verus!
