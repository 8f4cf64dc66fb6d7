use vstd::prelude::*;

use crate::aoa::{admission, describes, lay_out, Aoa, Circuit, RxMethod};
use crate::driver::{Driver, LbfgsParameters, Phase};
use crate::error::AoaError;
use crate::handle::Handle;
use crate::polynomial::Polynomial;

verus! {

/// How many random numbers the sampler consumes for `num_shots` shots: one
/// for each of the engine's `num_shots + 1` shot slots.
pub open spec fn required_minimum(num_shots: nat) -> nat {
    num_shots + 1
}

/// The outcome of the checks made before sampling: those of every operation,
/// then a positive shot count and enough random numbers.
pub open spec fn sample_admission(
    live: bool,
    depth: nat,
    num_betas: nat,
    num_gammas: nat,
    num_shots: nat,
    num_randnums: nat,
) -> Result<(), AoaError> {
    match admission(live, depth, num_betas, num_gammas) {
        Err(e) => Err(e),
        Ok(_) => if num_shots == 0 || num_randnums < required_minimum(num_shots) {
            Err(AoaError::Sample)
        } else {
            Ok(())
        },
    }
}

/// A sampling request: the circuit, the engine's shot slots, the shot count
/// reported back, and the randomness the sampler consumes.
pub struct SampleRequest<'a, C, P> {
    pub circuit: Circuit<'a, C, P>,
    pub shot_slots: u32,
    pub num_shots: u32,
    pub randnums: &'a [P],
}

/// An optimization request: the circuit at the starting point, the
/// parameters in force, and the driver that decides the loop.
pub struct OptimizeRequest<'a, C, P> {
    pub circuit: Circuit<'a, C, P>,
    pub parameters: LbfgsParameters,
    pub driver: Driver,
}

/// Access to the circuit specification that a variant holds.
pub trait AoaInterface<C, P>: Sized {
    spec fn held(&self) -> Aoa<C, P>;

    fn create(aoa: Aoa<C, P>) -> (r: Self)
        ensures
            r.held() == aoa,
    ;

    fn aoa(&self) -> (r: &Aoa<C, P>)
        ensures
            *r == self.held(),
    ;

    fn set_aoa(&mut self, aoa: Aoa<C, P>)
        ensures
            final(self).held() == aoa,
    ;

    fn mutable_aoa(&mut self) -> (r: &mut Aoa<C, P>)
        ensures
            *r == old(self).held(),
            final(self).held() == *final(r),
    ;
}

/// The circuit-construction variant that hands each operation to the
/// simulation engine after checking the handle and the shapes.
pub struct AqAOA<C, P> {
    aoa: Aoa<C, P>,
}

impl<C, P> AoaInterface<C, P> for AqAOA<C, P> {
    closed spec fn held(&self) -> Aoa<C, P> {
        self.aoa
    }

    fn create(aoa: Aoa<C, P>) -> (r: Self) {
        AqAOA { aoa }
    }

    fn aoa(&self) -> (r: &Aoa<C, P>) {
        &self.aoa
    }

    fn set_aoa(&mut self, aoa: Aoa<C, P>) {
        self.aoa = aoa;
    }

    fn mutable_aoa(&mut self) -> (r: &mut Aoa<C, P>) {
        &mut self.aoa
    }
}

/// The operations every circuit-construction variant offers, with one
/// contract shared by all variants: each checks the handle and the shapes
/// and lays out the request that the simulation engine receives.
pub trait AoaAssociatedFunctions<C, P> {
    /// Lays out the request for the full statevector.
    fn statevector<'a>(
        handle: &Handle,
        num_qubits: usize,
        depth: usize,
        polynomial: &'a Polynomial<C>,
        betas: &'a [P],
        gammas: &'a [P],
        block_size: Option<usize>,
        rxmethod: Option<RxMethod>,
    ) -> (r: Result<Circuit<'a, C, P>, AoaError>)
        ensures
            r is Ok <==> admission(handle.spec_live(), depth as nat, betas@.len(), gammas@.len()) is Ok,
            r matches Err(e) ==> admission(handle.spec_live(), depth as nat, betas@.len(), gammas@.len())
                == Err::<(), AoaError>(e),
            r matches Ok(c) ==> describes(c, *handle, num_qubits, depth, *polynomial, betas@, gammas@, block_size, rxmethod),
    ;

    /// Lays out the request for the gradients with respect to every beta and gamma.
    fn gradients<'a>(
        handle: &Handle,
        num_qubits: usize,
        depth: usize,
        polynomial: &'a Polynomial<C>,
        betas: &'a [P],
        gammas: &'a [P],
        block_size: Option<usize>,
        rxmethod: Option<RxMethod>,
    ) -> (r: Result<Circuit<'a, C, P>, AoaError>)
        ensures
            r is Ok <==> admission(handle.spec_live(), depth as nat, betas@.len(), gammas@.len()) is Ok,
            r matches Err(e) ==> admission(handle.spec_live(), depth as nat, betas@.len(), gammas@.len())
                == Err::<(), AoaError>(e),
            r matches Ok(c) ==> describes(c, *handle, num_qubits, depth, *polynomial, betas@, gammas@, block_size, rxmethod),
    ;

    /// Lays out the request for the expectation value of the cost operator.
    fn expectation_value<'a>(
        handle: &Handle,
        num_qubits: usize,
        depth: usize,
        polynomial: &'a Polynomial<C>,
        betas: &'a [P],
        gammas: &'a [P],
        block_size: Option<usize>,
        rxmethod: Option<RxMethod>,
    ) -> (r: Result<Circuit<'a, C, P>, AoaError>)
        ensures
            r is Ok <==> admission(handle.spec_live(), depth as nat, betas@.len(), gammas@.len()) is Ok,
            r matches Err(e) ==> admission(handle.spec_live(), depth as nat, betas@.len(), gammas@.len())
                == Err::<(), AoaError>(e),
            r matches Ok(c) ==> describes(c, *handle, num_qubits, depth, *polynomial, betas@, gammas@, block_size, rxmethod),
    ;

    /// Lays out a sampling request: the engine is given one shot slot more
    /// than the `num_shots` it reports back.
    fn sample<'a>(
        handle: &Handle,
        num_qubits: usize,
        depth: usize,
        polynomial: &'a Polynomial<C>,
        betas: &'a [P],
        gammas: &'a [P],
        num_shots: u32,
        randnums: &'a [P],
        block_size: Option<usize>,
        rxmethod: Option<RxMethod>,
    ) -> (r: Result<SampleRequest<'a, C, P>, AoaError>)
        requires
            num_shots < u32::MAX,
        ensures
            r is Ok <==> sample_admission(handle.spec_live(), depth as nat, betas@.len(), gammas@.len(),
                num_shots as nat, randnums@.len()) is Ok,
            r matches Err(e) ==> sample_admission(handle.spec_live(), depth as nat, betas@.len(),
                gammas@.len(), num_shots as nat, randnums@.len()) == Err::<(), AoaError>(e),
            r matches Ok(s) ==> describes(s.circuit, *handle, num_qubits, depth, *polynomial, betas@, gammas@,
                block_size, rxmethod) && s.shot_slots == num_shots + 1 && s.num_shots == num_shots
                && s.randnums@ == randnums@,
    ;

    /// Lays out an optimization request with a fresh driver, under
    /// `lbfgs_parameters` or the defaults when none are given.
    fn optimize<'a>(
        handle: &Handle,
        num_qubits: usize,
        depth: usize,
        polynomial: &'a Polynomial<C>,
        betas: &'a [P],
        gammas: &'a [P],
        lbfgs_parameters: Option<&LbfgsParameters>,
        block_size: Option<usize>,
        rxmethod: Option<RxMethod>,
    ) -> (r: Result<OptimizeRequest<'a, C, P>, AoaError>)
        ensures
            r is Ok <==> admission(handle.spec_live(), depth as nat, betas@.len(), gammas@.len()) is Ok,
            r matches Err(e) ==> admission(handle.spec_live(), depth as nat, betas@.len(), gammas@.len())
                == Err::<(), AoaError>(e),
            r matches Ok(o) ==> {
                &&& describes(o.circuit, *handle, num_qubits, depth, *polynomial, betas@, gammas@, block_size, rxmethod)
                &&& lbfgs_parameters matches Some(p) ==> o.parameters == *p
                &&& lbfgs_parameters is None ==> o.parameters == (LbfgsParameters {
                    linesearch: crate::driver::LineSearch::MoreThuente,
                    max_iterations: crate::driver::DEFAULT_MAX_ITERATIONS,
                })
                &&& o.driver.phase == Phase::Initialized
                &&& o.driver.iterations == 0
                &&& o.driver.max_iterations == o.parameters.max_iterations
            },
    ;
}

impl<C, P> AoaAssociatedFunctions<C, P> for AqAOA<C, P> {
    fn statevector<'a>(
        handle: &Handle,
        num_qubits: usize,
        depth: usize,
        polynomial: &'a Polynomial<C>,
        betas: &'a [P],
        gammas: &'a [P],
        block_size: Option<usize>,
        rxmethod: Option<RxMethod>,
    ) -> (r: Result<Circuit<'a, C, P>, AoaError>) {
        lay_out(handle, num_qubits, depth, polynomial, betas, gammas, block_size, rxmethod)
    }

    fn gradients<'a>(
        handle: &Handle,
        num_qubits: usize,
        depth: usize,
        polynomial: &'a Polynomial<C>,
        betas: &'a [P],
        gammas: &'a [P],
        block_size: Option<usize>,
        rxmethod: Option<RxMethod>,
    ) -> (r: Result<Circuit<'a, C, P>, AoaError>) {
        lay_out(handle, num_qubits, depth, polynomial, betas, gammas, block_size, rxmethod)
    }

    fn expectation_value<'a>(
        handle: &Handle,
        num_qubits: usize,
        depth: usize,
        polynomial: &'a Polynomial<C>,
        betas: &'a [P],
        gammas: &'a [P],
        block_size: Option<usize>,
        rxmethod: Option<RxMethod>,
    ) -> (r: Result<Circuit<'a, C, P>, AoaError>) {
        lay_out(handle, num_qubits, depth, polynomial, betas, gammas, block_size, rxmethod)
    }

    fn sample<'a>(
        handle: &Handle,
        num_qubits: usize,
        depth: usize,
        polynomial: &'a Polynomial<C>,
        betas: &'a [P],
        gammas: &'a [P],
        num_shots: u32,
        randnums: &'a [P],
        block_size: Option<usize>,
        rxmethod: Option<RxMethod>,
    ) -> (r: Result<SampleRequest<'a, C, P>, AoaError>) {
        let circuit = lay_out(handle, num_qubits, depth, polynomial, betas, gammas, block_size, rxmethod)?;
        if num_shots == 0 || randnums.len() <= num_shots as usize {
            return Err(AoaError::Sample);
        }
        Ok(SampleRequest { circuit, shot_slots: num_shots + 1, num_shots, randnums })
    }

    fn optimize<'a>(
        handle: &Handle,
        num_qubits: usize,
        depth: usize,
        polynomial: &'a Polynomial<C>,
        betas: &'a [P],
        gammas: &'a [P],
        lbfgs_parameters: Option<&LbfgsParameters>,
        block_size: Option<usize>,
        rxmethod: Option<RxMethod>,
    ) -> (r: Result<OptimizeRequest<'a, C, P>, AoaError>) {
        let circuit = lay_out(handle, num_qubits, depth, polynomial, betas, gammas, block_size, rxmethod)?;
        let parameters = match lbfgs_parameters {
            Some(p) => *p,
            None => LbfgsParameters::default(),
        };
        let driver = Driver::new(&parameters);
        Ok(OptimizeRequest { circuit, parameters, driver })
    }
}

/// Parameters whose lengths disagree with each other or with the depth are
/// refused with a shape error by every operation on a live handle, before any
/// engine request is made.
pub proof fn lemma_shape_mismatch_refused(depth: nat, num_betas: nat, num_gammas: nat, num_shots: nat, num_randnums: nat)
    requires
        num_betas != num_gammas || num_betas != depth || num_gammas != depth,
    ensures
        admission(true, depth, num_betas, num_gammas) == Err::<(), AoaError>(AoaError::Shape),
        sample_admission(true, depth, num_betas, num_gammas, num_shots, num_randnums)
            == Err::<(), AoaError>(AoaError::Shape),
{
}

/// Sampling with one random number fewer than the required minimum fails with
/// a sample error; with exactly the minimum it is admitted.
pub proof fn lemma_sample_minimum(depth: nat, num_shots: nat)
    requires
        num_shots > 0,
    ensures
        sample_admission(true, depth, depth, depth, num_shots, (required_minimum(num_shots) - 1) as nat)
            == Err::<(), AoaError>(AoaError::Sample),
        sample_admission(true, depth, depth, depth, num_shots, required_minimum(num_shots)) is Ok,
{
}

/// Once a handle is released, every operation on it fails with an invalid
/// handle error, whatever the other arguments.
pub proof fn lemma_released_handle_refused(depth: nat, num_betas: nat, num_gammas: nat, num_shots: nat, num_randnums: nat)
    ensures
        admission(false, depth, num_betas, num_gammas) == Err::<(), AoaError>(AoaError::InvalidHandle),
        sample_admission(false, depth, num_betas, num_gammas, num_shots, num_randnums)
            == Err::<(), AoaError>(AoaError::InvalidHandle),
{
}

} // verus!
