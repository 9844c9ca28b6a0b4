//! The multiplication chip: a fixed column and gate layout, and the
//! operations that populate one row of it and publish the product.

use vstd::prelude::*;
use halo2_proofs::circuit::Layouter;
use halo2_proofs::pasta::Fp;
use halo2_proofs::plonk::{Error, Selector};
use crate::error::SynthError;
use crate::gate::mul_mod;
use crate::plonk::{
    AdviceCol, CsBuilder, InstanceCol, ProductCell, RegionCtx, advice_index, assign_advice_value,
    cell_value, create_mul_gate, cs_advice_count, cs_equality_advice, cs_equality_instance,
    cs_instance_count, cs_mul_gates, cs_selector_count, enable_equality_advice,
    enable_equality_instance, enable_selector_at, fp_mul, fp_val, instance_index,
    new_advice_column, new_instance_column, new_selector, region_advice, region_selector_count,
    region_selectors, selector_index,
};

verus! {

/// Where the circuit lives in the constraint table: three advice columns
/// holding the two witnesses and their product, the selector that activates
/// the multiplication gate, and the instance column the product is exposed
/// in. Allocated once per circuit type; immutable afterwards.
pub struct MultiplicationConfig {
    pub a: AdviceCol,
    pub b: AdviceCol,
    pub c: AdviceCol,
    pub selector: Selector,
    pub instance: InstanceCol,
}

/// The positions a configuration occupies, as plain indices.
#[verifier::ext_equal]
pub struct ConfigLayout {
    pub a: nat,
    pub b: nat,
    pub c: nat,
    pub selector: nat,
    pub instance: nat,
}

impl MultiplicationConfig {
    /// The positions this configuration occupies.
    pub open spec fn layout(self) -> ConfigLayout {
        ConfigLayout {
            a: advice_index(self.a),
            b: advice_index(self.b),
            c: advice_index(self.c),
            selector: selector_index(self.selector),
            instance: instance_index(self.instance),
        }
    }

    /// The three advice columns are pairwise distinct, so each witness and
    /// the product get a cell of their own on the active row.
    pub open spec fn wf(self) -> bool {
        &&& advice_index(self.a) != advice_index(self.b)
        &&& advice_index(self.a) != advice_index(self.c)
        &&& advice_index(self.b) != advice_index(self.c)
    }
}

/// Where a configuration made from a builder with the given allocation
/// counts lies: its advice columns are the next three, its selector and its
/// instance column the next of their kinds.
pub open spec fn configured_from(
    l: ConfigLayout,
    advice0: nat,
    selector0: nat,
    instance0: nat,
) -> bool {
    &&& l.a == advice0
    &&& l.b == advice0 + 1
    &&& l.c == advice0 + 2
    &&& l.selector == selector0
    &&& l.instance == instance0
}

/// Configuring is idempotent in structure: two configurations made from
/// builders in the same state occupy identical positions, because the
/// layout is a function of the builder's allocation counts alone.
pub proof fn lemma_configure_deterministic(
    l1: ConfigLayout,
    l2: ConfigLayout,
    advice0: nat,
    selector0: nat,
    instance0: nat,
)
    requires
        configured_from(l1, advice0, selector0, instance0),
        configured_from(l2, advice0, selector0, instance0),
    ensures
        l1 == l2,
{
    assert(l1 =~= l2);
}

/// Binds the fixed layout to the operations that populate a circuit row and
/// publish its product.
pub struct MultiplicationChip {
    pub config: MultiplicationConfig,
}

impl MultiplicationChip {
    /// Pure binding of a configuration to a chip; never fails.
    pub fn construct(config: MultiplicationConfig) -> (r: Self)
        ensures
            r.config == config,
    {
        MultiplicationChip { config }
    }

    /// Allocates three advice columns, a selector and an instance column,
    /// enables equality constraints on all four columns, and registers the
    /// multiplication gate `selector * (a*b - c)` over them. Never fails;
    /// the builder changes in nothing else this crate tracks.
    pub fn configure(cs: &mut CsBuilder<'_>) -> (cfg: MultiplicationConfig)
        ensures
            cfg.wf(),
            configured_from(
                cfg.layout(),
                cs_advice_count(*old(cs)),
                cs_selector_count(*old(cs)),
                cs_instance_count(*old(cs)),
            ),
            cs_advice_count(*final(cs)) == cs_advice_count(*old(cs)) + 3,
            cs_selector_count(*final(cs)) == cs_selector_count(*old(cs)) + 1,
            cs_instance_count(*final(cs)) == cs_instance_count(*old(cs)) + 1,
            cs_equality_advice(*final(cs)) == cs_equality_advice(*old(cs))
                .insert(cfg.layout().a).insert(cfg.layout().b).insert(cfg.layout().c),
            cs_equality_instance(*final(cs))
                == cs_equality_instance(*old(cs)).insert(cfg.layout().instance),
            cs_mul_gates(*final(cs)) == cs_mul_gates(*old(cs)).insert(
                (cfg.layout().selector, cfg.layout().a, cfg.layout().b, cfg.layout().c),
            ),
    {
        let a = new_advice_column(cs);
        let b = new_advice_column(cs);
        let c = new_advice_column(cs);
        let selector = new_selector(cs);
        let instance = new_instance_column(cs);

        enable_equality_advice(cs, &a);
        enable_equality_advice(cs, &b);
        enable_equality_advice(cs, &c);
        enable_equality_instance(cs, &instance);

        create_mul_gate(cs, selector, &a, &b, &c);

        MultiplicationConfig { a, b, c, selector, instance }
    }

    /// Enables the selector on row 0 of the region, places the witnesses
    /// `a` and `b` in their columns there, computes their field product and
    /// places it in the product column, returning its cell. On success the
    /// region has gained exactly those four entries: the selector at row 0,
    /// and the three advice cells of row 0 holding `a`, `b` and `a*b` (each
    /// valueless on the framework's witness-independent pass). Fails only
    /// with a layout error propagated from the framework. The configuration
    /// must be well formed and its selector must belong to the system the
    /// region lays out, as any configuration made by `configure` on that
    /// system is.
    pub fn assign(&self, region: &mut RegionCtx<'_>, a: Fp, b: Fp) -> (r: Result<
        ProductCell,
        SynthError,
    >)
        requires
            self.config.wf(),
            selector_index(self.config.selector) < region_selector_count(*old(region)),
        ensures
            (r matches Ok(cell) ==> cell_value(cell) is None
                || cell_value(cell) == Some(mul_mod(fp_val(a), fp_val(b)))),
            (r matches Ok(cell) ==> region_selectors(*final(region))
                == region_selectors(*old(region))
                    .insert((selector_index(self.config.selector), 0 as nat))),
            (r matches Ok(cell) ==> region_advice(*final(region))
                == region_advice(*old(region))
                    .insert(
                        (self.config.layout().a, 0 as nat),
                        region_advice(*final(region))[(self.config.layout().a, 0 as nat)],
                    )
                    .insert(
                        (self.config.layout().b, 0 as nat),
                        region_advice(*final(region))[(self.config.layout().b, 0 as nat)],
                    )
                    .insert((self.config.layout().c, 0 as nat), cell_value(cell))),
            (r is Ok ==> region_advice(*final(region))[(self.config.layout().a, 0 as nat)] is None
                || region_advice(*final(region))[(self.config.layout().a, 0 as nat)]
                    == Some(fp_val(a))),
            (r is Ok ==> region_advice(*final(region))[(self.config.layout().b, 0 as nat)] is None
                || region_advice(*final(region))[(self.config.layout().b, 0 as nat)]
                    == Some(fp_val(b))),
            (r matches Err(e) ==> e is Layout),
    {
        match enable_selector_at(region, &self.config.selector, 0) {
            Ok(()) => {},
            Err(e) => {
                return Err(SynthError::Layout(e));
            },
        }
        match assign_advice_value(region, &self.config.a, 0, a) {
            Ok(_) => {},
            Err(e) => {
                return Err(SynthError::Layout(e));
            },
        }
        match assign_advice_value(region, &self.config.b, 0, b) {
            Ok(_) => {},
            Err(e) => {
                return Err(SynthError::Layout(e));
            },
        }
        let c = fp_mul(a, b);
        match assign_advice_value(region, &self.config.c, 0, c) {
            Ok(cell) => Ok(cell),
            Err(e) => Err(SynthError::Layout(e)),
        }
    }

    /// Binds the given product cell to the given row of the instance column,
    /// so the proof system enforces that its value equals the public input
    /// supplied there at verification time. Fails only with an
    /// equality-constraint error propagated from the framework. The cell and
    /// the configuration must have been minted by this same layouter's
    /// constraint system, as they are whenever the framework drives the
    /// circuit through its own protocol; the layouter is an opaque trait
    /// parameter here, so that consistency cannot be stated as a
    /// precondition, and a foreign cell or column would abort inside the
    /// framework.
    pub fn expose_public<L: Layouter<Fp>>(
        &self,
        layouter: &mut L,
        cell: ProductCell,
        row: usize,
    ) -> (r: Result<(), SynthError>)
        ensures
            (r matches Err(e) ==> e is Equality),
    {
        match constrain_to_instance(layouter, cell, &self.config.instance, row) {
            Ok(()) => Ok(()),
            Err(e) => Err(SynthError::Equality(e)),
        }
    }
}

/// Relies on Layouter::constrain_instance: binds the given cell to the given
/// row of the given instance column, under a namespace of its own. The
/// framework looks the cell's region up in this layouter's own table and
/// aborts on a cell minted by another layouter; the layouter being an opaque
/// trait parameter, that consistency is owed by the caller and cannot be
/// stated here.
#[verifier::external_body]
fn constrain_to_instance<L: Layouter<Fp>>(
    layouter: &mut L,
    cell: ProductCell,
    column: &InstanceCol,
    row: usize,
) -> (r: Result<(), Error>)
{
    layouter.namespace(|| "expose c").constrain_instance(cell.inner.cell(), column.inner, row)
}

} // verus!
