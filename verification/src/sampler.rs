use vstd::prelude::*;
use crate::nuts::{init_state, randomize_momentum, Collector, NutsError, NutsOptions, Potential,
    SampleInfo};
use crate::state::{zeroed, State, StatePool};
use crate::scalar::Scalar;

verus! {

/// A sampler bound to one Hamiltonian: it owns the chain's current state,
/// the buffer pool, the PRNG, and the fixed options of every draw.
pub struct Sampler<P: Potential> {
    pub potential: P,
    pub state: State,
    pub pool: StatePool,
    pub options: NutsOptions,
    pub rng: rand::rngs::StdRng,
}

impl<P: Potential> Sampler<P> {
    /// The pool is sound, the chain's state has the pool's dimension, and
    /// the depth cap is in range.
    pub open spec fn wf(&self) -> bool {
        &&& self.pool.wf()
        &&& self.state.dim_ok(self.pool.dim as nat)
        &&& self.options.maxdepth <= 63
    }

    /// A sampler over a fresh pool of the given dimension, with the chain
    /// parked at the origin until `set_position` moves it.
    pub fn new(potential: P, dim: usize, options: NutsOptions, rng: rand::rngs::StdRng) -> (r:
        Sampler<P>)
        requires
            options.maxdepth <= 63,
        ensures
            r.wf(),
            r.pool.dim == dim,
            r.options == options,
            r.pool.free@.len() == 0,
            zeroed(&r.state, dim as nat),
    {
        let mut pool = StatePool::new(dim);
        let state = pool.new_state();
        Sampler { potential, state, pool, options, rng }
    }

    /// Moves the chain to a position, evaluating the log-density there. On
    /// a fatal log-density failure the chain keeps its previous state.
    pub fn set_position(&mut self, position: &Vec<Scalar>) -> (r: Result<(), NutsError>)
        requires
            old(self).wf(),
            position@.len() == old(self).pool.dim,
        ensures
            final(self).wf(),
            final(self).pool.dim == old(self).pool.dim,
            match r {
                Ok(()) => final(self).state.q@ == position@,
                Err(_) => final(self).state == old(self).state,
            },
    {
        match init_state(&mut self.potential, &mut self.pool, position) {
            Ok(state) => {
                self.state = state;
                Ok(())
            },
            Err(e) => Err(e),
        }
    }

    /// One draw: resamples the momentum of the chain's state, runs the
    /// tree, adopts the selection as the new chain state, and returns a
    /// deep copy of it with the draw's diagnostics.
    pub fn draw<C: Collector>(&mut self, collector: &mut C) -> (r: Result<
        (State, SampleInfo),
        NutsError,
    >)
        requires
            old(self).wf(),
        ensures
            final(self).wf(),
            final(self).pool.dim == old(self).pool.dim,
            match r {
                Ok((state, info)) => {
                    &&& state.dim_ok(old(self).pool.dim as nat)
                    &&& state.same_state(&final(self).state)
                    &&& info.depth <= old(self).options.maxdepth
                    &&& (info.maxdepth ==> info.depth == old(self).options.maxdepth
                        && info.divergence_info is None)
                    &&& (match info.divergence_info {
                        Some(div) => div.wf(),
                        None => true,
                    })
                },
                Err(_) => true,
            },
            old(self).options.maxdepth == 0 ==> r is Ok,
    {
        randomize_momentum(&mut self.potential, &mut self.state, &mut self.rng);
        let state = self.state.clone_state();
        match crate::nuts::draw(
            &mut self.pool,
            state,
            &mut self.rng,
            &mut self.potential,
            &self.options,
            collector,
        ) {
            Ok((state, info)) => {
                let result = state.clone_state();
                self.state = state;
                Ok((result, info))
            },
            Err(e) => Err(e),
        }
    }
}

} // verus!
