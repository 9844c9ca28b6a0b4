use halo2_proofs::circuit::{Layouter, SimpleFloorPlanner};
use halo2_proofs::dev::MockProver;
use halo2_proofs::pasta::Fp;
use halo2_proofs::plonk::{Advice, Circuit, Column, ConstraintSystem, Error, Instance, Selector};

use multiplication::chip::MultiplicationConfig;
use multiplication::circuit::MultiplicationCircuit;
use multiplication::error::SynthError;
use multiplication::plonk::{AdviceCol, CsBuilder, InstanceCol};

/// The library's configuration, copied into framework types so it can carry
/// the `Clone` impl the `Circuit` trait asks of its `Config`.
#[derive(Clone)]
struct ProverConfig {
    a: Column<Advice>,
    b: Column<Advice>,
    c: Column<Advice>,
    selector: Selector,
    instance: Column<Instance>,
}

impl ProverConfig {
    fn from_lib(cfg: MultiplicationConfig) -> Self {
        ProverConfig {
            a: cfg.a.inner,
            b: cfg.b.inner,
            c: cfg.c.inner,
            selector: cfg.selector,
            instance: cfg.instance.inner,
        }
    }

    fn to_lib(&self) -> MultiplicationConfig {
        MultiplicationConfig {
            a: AdviceCol { inner: self.a },
            b: AdviceCol { inner: self.b },
            c: AdviceCol { inner: self.c },
            selector: self.selector,
            instance: InstanceCol { inner: self.instance },
        }
    }
}

/// Adapter implementing the framework's `Circuit` trait over the library's
/// circuit; every decision is delegated to the library.
struct ProverCircuit(MultiplicationCircuit);

impl Circuit<Fp> for ProverCircuit {
    type Config = ProverConfig;
    type FloorPlanner = SimpleFloorPlanner;

    fn without_witnesses(&self) -> Self {
        ProverCircuit(self.0.without_witnesses())
    }

    fn configure(meta: &mut ConstraintSystem<Fp>) -> Self::Config {
        let mut builder = CsBuilder { inner: meta };
        ProverConfig::from_lib(MultiplicationCircuit::configure(&mut builder))
    }

    fn synthesize(
        &self,
        config: Self::Config,
        mut layouter: impl Layouter<Fp>,
    ) -> Result<(), Error> {
        self.0
            .synthesize(config.to_lib(), &mut layouter)
            .map_err(SynthError::into_error)
    }
}

fn test_multiplication_circuit() -> Result<(), Box<dyn std::error::Error>> {
    let a = Fp::from(3);
    let b = Fp::from(4);
    let c = a * b;

    let circuit = ProverCircuit(MultiplicationCircuit::new(a, b));
    let public_inputs = vec![c];

    let prover = MockProver::run(4, &circuit, vec![public_inputs])?;
    prover.assert_satisfied();

    Ok(())
}

#[test]
fn test_multiplication() {
    assert!(test_multiplication_circuit().is_ok());
}

#[test]
fn mul_3_4_satisfies_public_12() {
    let circuit = ProverCircuit(MultiplicationCircuit::from_u64(3, 4));
    let prover = MockProver::run(4, &circuit, vec![vec![Fp::from(12)]]).unwrap();
    assert!(prover.verify().is_ok());
}

#[test]
fn mul_3_4_rejects_public_11() {
    let circuit = ProverCircuit(MultiplicationCircuit::from_u64(3, 4));
    let prover = MockProver::run(4, &circuit, vec![vec![Fp::from(11)]]).unwrap();
    assert!(prover.verify().is_err());
}

#[test]
fn mul_3_4_rejects_public_0() {
    let circuit = ProverCircuit(MultiplicationCircuit::from_u64(3, 4));
    let prover = MockProver::run(4, &circuit, vec![vec![Fp::from(0)]]).unwrap();
    assert!(prover.verify().is_err());
}

#[test]
fn zero_witness_a_satisfies_public_0() {
    let circuit = ProverCircuit(MultiplicationCircuit::from_u64(0, 7));
    let prover = MockProver::run(4, &circuit, vec![vec![Fp::from(0)]]).unwrap();
    assert!(prover.verify().is_ok());
}

#[test]
fn zero_witness_b_satisfies_public_0() {
    let circuit = ProverCircuit(MultiplicationCircuit::from_u64(5, 0));
    let prover = MockProver::run(4, &circuit, vec![vec![Fp::from(0)]]).unwrap();
    assert!(prover.verify().is_ok());
}

#[test]
fn larger_witnesses_satisfy_their_product() {
    let circuit = ProverCircuit(MultiplicationCircuit::from_u64(7, 9));
    let prover = MockProver::run(4, &circuit, vec![vec![Fp::from(63)]]).unwrap();
    assert!(prover.verify().is_ok());

    let prover = MockProver::run(4, &circuit, vec![vec![Fp::from(64)]]).unwrap();
    assert!(prover.verify().is_err());
}

#[test]
fn configure_twice_gives_identical_layout() {
    let mut cs1 = ConstraintSystem::<Fp>::default();
    let mut cs2 = ConstraintSystem::<Fp>::default();

    let cfg1 = ProverCircuit::configure(&mut cs1);
    let cfg2 = ProverCircuit::configure(&mut cs2);

    assert_eq!(cfg1.a, cfg2.a);
    assert_eq!(cfg1.b, cfg2.b);
    assert_eq!(cfg1.c, cfg2.c);
    assert_eq!(cfg1.selector, cfg2.selector);
    assert_eq!(cfg1.instance, cfg2.instance);

    // The three advice columns are pairwise distinct.
    assert_ne!(cfg1.a, cfg1.b);
    assert_ne!(cfg1.a, cfg1.c);
    assert_ne!(cfg1.b, cfg1.c);
}

#[test]
fn too_small_row_count_fails_to_construct() {
    let circuit = ProverCircuit(MultiplicationCircuit::from_u64(3, 4));
    // With 2^1 = 2 rows the framework cannot even hold the circuit.
    assert!(MockProver::run(1, &circuit, vec![vec![Fp::from(12)]]).is_err());
}

#[test]
fn expected_product_is_the_field_product() {
    let circuit = MultiplicationCircuit::from_u64(3, 4);
    assert_eq!(circuit.expected_product(), Fp::from(12));
    assert_ne!(circuit.expected_product(), circuit.a);

    let by_zero = MultiplicationCircuit::from_u64(0, 9);
    assert_eq!(by_zero.expected_product(), Fp::from(0));
}

#[test]
fn from_u64_reads_values_into_the_field() {
    let circuit = MultiplicationCircuit::from_u64(3, 4);
    assert_eq!(circuit.a, Fp::from(3));
    assert_eq!(circuit.b, Fp::from(4));
}

#[test]
fn without_witnesses_zeroes_both_inputs() {
    let circuit = MultiplicationCircuit::from_u64(3, 4);
    let blank = circuit.without_witnesses();
    assert_eq!(blank.a, Fp::zero());
    assert_eq!(blank.b, Fp::zero());
    let blank2 = MultiplicationCircuit::default();
    assert_eq!(blank2.a, Fp::zero());
    assert_eq!(blank2.b, Fp::zero());
}

#[test]
fn synth_error_unwraps_to_the_framework_error() {
    let layout = SynthError::Layout(Error::Synthesis);
    assert!(matches!(layout.into_error(), Error::Synthesis));

    let equality = SynthError::Equality(Error::Synthesis);
    assert!(matches!(equality.into_error(), Error::Synthesis));
}

#[test]
fn product_beyond_u64_satisfies_expected_public() {
    let circuit = MultiplicationCircuit::from_u64(1 << 32, (1 << 32) + 1);
    let public = circuit.expected_product();
    let prover = MockProver::run(4, &ProverCircuit(circuit), vec![vec![public]]).unwrap();
    assert!(prover.verify().is_ok());
}
