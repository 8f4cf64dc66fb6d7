use vstd::prelude::*;

use crate::error::AoaError;
use crate::handle::Handle;
use crate::polynomial::Polynomial;

verus! {

/// How the engine realizes the mixing rotations.
#[derive(Debug, Clone, Copy, PartialEq, Eq)]
pub enum RxMethod {
    Custatevec,
    Qokit,
}

/// A fully specified variational circuit: qubit count, depth, cost
/// polynomial, one beta and one gamma per layer, and the engine's tuning hints.
pub struct Aoa<C, P> {
    pub num_qubits: usize,
    pub depth: usize,
    pub polynomial: Polynomial<C>,
    pub betas: Vec<P>,
    pub gammas: Vec<P>,
    pub block_size: Option<usize>,
    pub rxmethod: Option<RxMethod>,
}

/// The request handed to the simulation engine: the polynomial unpacked into
/// its raw keys and coefficients, next to the parameters and hints.
pub struct Circuit<'a, C, P> {
    pub handle_id: u64,
    pub num_qubits: usize,
    pub depth: usize,
    pub keys: &'a [Vec<usize>],
    pub values: &'a [C],
    pub betas: &'a [P],
    pub gammas: &'a [P],
    pub block_size: Option<usize>,
    pub rxmethod: Option<RxMethod>,
}

/// What the engine answered to one request.
pub enum EngineOutcome<T> {
    /// The call succeeded with this value.
    Done(T),
    /// The call failed; the text describes why.
    Failed(String),
    /// The device context behind the handle was lost during the call.
    ContextLost,
}

/// The outcome of the checks that every operation makes before the engine is
/// called: the handle first, then the lengths of betas and gammas.
pub open spec fn admission(live: bool, depth: nat, num_betas: nat, num_gammas: nat) -> Result<(), AoaError> {
    if !live {
        Err(AoaError::InvalidHandle)
    } else if num_betas != depth || num_gammas != depth {
        Err(AoaError::Shape)
    } else {
        Ok(())
    }
}

/// Whether `c` is `handle`, `polynomial` and the given values laid out for the engine.
pub open spec fn describes<C, P>(
    c: Circuit<C, P>,
    handle: Handle,
    num_qubits: usize,
    depth: usize,
    polynomial: Polynomial<C>,
    betas: Seq<P>,
    gammas: Seq<P>,
    block_size: Option<usize>,
    rxmethod: Option<RxMethod>,
) -> bool {
    &&& c.handle_id == handle.spec_id()
    &&& c.num_qubits == num_qubits
    &&& c.depth == depth
    &&& c.keys@ == polynomial.keys_view()
    &&& c.values@ == polynomial.values_view()
    &&& c.betas@ == betas
    &&& c.gammas@ == gammas
    &&& c.block_size == block_size
    &&& c.rxmethod == rxmethod
}

/// Checks the handle and the parameter shapes, and lays the circuit out for
/// the engine.
pub fn lay_out<'a, C, P>(
    handle: &Handle,
    num_qubits: usize,
    depth: usize,
    polynomial: &'a Polynomial<C>,
    betas: &'a [P],
    gammas: &'a [P],
    block_size: Option<usize>,
    rxmethod: Option<RxMethod>,
) -> (r: Result<Circuit<'a, C, P>, AoaError>)
    ensures
        r is Ok <==> admission(handle.spec_live(), depth as nat, betas@.len(), gammas@.len()) is Ok,
        r matches Err(e) ==> admission(handle.spec_live(), depth as nat, betas@.len(), gammas@.len())
            == Err::<(), AoaError>(e),
        r matches Ok(c) ==> describes(c, *handle, num_qubits, depth, *polynomial, betas@, gammas@, block_size, rxmethod),
{
    handle.check()?;
    if betas.len() != depth || gammas.len() != depth {
        return Err(AoaError::Shape);
    }
    Ok(Circuit {
        handle_id: handle.id(),
        num_qubits,
        depth,
        keys: polynomial.keys(),
        values: polynomial.values(),
        betas,
        gammas,
        block_size,
        rxmethod,
    })
}

/// Turns the engine's answer into the operation's result: a failure text
/// becomes a simulation error, and a lost context invalidates the handle.
pub fn conclude<T>(handle: &mut Handle, outcome: EngineOutcome<T>) -> (r: Result<T, AoaError>)
    ensures
        outcome matches EngineOutcome::Done(v) ==> r == Ok::<T, AoaError>(v),
        outcome matches EngineOutcome::Failed(t) ==> r == Err::<T, AoaError>(AoaError::Simulation(t)),
        outcome is ContextLost ==> r == Err::<T, AoaError>(AoaError::InvalidHandle)
            && !final(handle).spec_live(),
        !(outcome is ContextLost) ==> *final(handle) == *old(handle),
        final(handle).spec_id() == old(handle).spec_id(),
{
    match outcome {
        EngineOutcome::Done(v) => Ok(v),
        EngineOutcome::Failed(t) => Err(AoaError::from_engine(t)),
        EngineOutcome::ContextLost => {
            handle.release();
            Err(AoaError::InvalidHandle)
        },
    }
}

} // verus!
