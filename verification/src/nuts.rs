use vstd::prelude::*;
use vstd::arithmetic::power2::{pow2, lemma_pow2_unfold, lemma_pow2_strictly_increases, lemma2_to64, lemma2_to64_rest, lemma_pow2_pos};
use crate::scalar::Scalar;
use crate::state::{copy_vec, keeps_shape, State, StatePool};
use crate::rng::gen_coin;

verus! {

/// Per-step integrator report. The leapfrog step itself carries no extra
/// data; the struct marks a step that completed without divergence.
pub struct LeapfrogInfo {}

/// The side of the trajectory on which the tree grows next.
#[derive(Clone, Copy, PartialEq, Eq, Structural, Debug)]
pub enum Direction {
    Forward,
    Backward,
}

impl Direction {
    /// `+1` for a forward step, `-1` for a backward one.
    pub open spec fn sign_spec(self) -> int {
        match self {
            Direction::Forward => 1,
            Direction::Backward => -1,
        }
    }

    pub fn sign(self) -> (s: i64)
        ensures
            s == self.sign_spec(),
    {
        match self {
            Direction::Forward => 1,
            Direction::Backward => -1,
        }
    }
}

/// What is known about a trajectory step whose energy error exceeded the
/// threshold or whose log-density evaluation failed recoverably.
#[derive(Clone, Debug)]
pub struct DivergenceInfo {
    pub start_location: Option<Vec<Scalar>>,
    pub end_location: Option<Vec<Scalar>>,
    pub energy_error: Option<Scalar>,
    pub start_idx_in_trajectory: Option<i64>,
    pub end_idx_in_trajectory: Option<i64>,
    pub logp_function_error: Option<String>,
}

impl DivergenceInfo {
    /// A populated divergence record: the start of the failing step is
    /// always named, and the record carries either an energy error with
    /// the reached endpoint, or the log-density failure, never both.
    pub open spec fn wf(&self) -> bool {
        &&& self.start_location is Some
        &&& self.start_idx_in_trajectory is Some
        &&& (self.energy_error is None <==> self.logp_function_error is Some)
        &&& (self.end_location is Some <==> self.energy_error is Some)
        &&& (self.end_idx_in_trajectory is Some <==> self.energy_error is Some)
    }

    /// The position of the last state before the divergent step.
    pub fn start_location(&self) -> (r: Option<&Vec<Scalar>>)
        ensures
            match r {
                Some(q) => self.start_location == Some(*q),
                None => self.start_location is None,
            },
    {
        self.start_location.as_ref()
    }

    /// The position the divergent step reached, if it reached one.
    pub fn end_location(&self) -> (r: Option<&Vec<Scalar>>)
        ensures
            match r {
                Some(q) => self.end_location == Some(*q),
                None => self.end_location is None,
            },
    {
        self.end_location.as_ref()
    }

    /// The energy error of the divergent step, if energy was computable.
    pub fn energy_error(&self) -> (r: Option<Scalar>)
        ensures
            r == self.energy_error,
    {
        self.energy_error
    }

    /// The trajectory index at which the divergent step started.
    pub fn start_idx_in_trajectory(&self) -> (r: Option<i64>)
        ensures
            r == self.start_idx_in_trajectory,
    {
        self.start_idx_in_trajectory
    }

    /// The trajectory index the divergent step was about to occupy.
    pub fn end_idx_in_trajectory(&self) -> (r: Option<i64>)
        ensures
            r == self.end_idx_in_trajectory,
    {
        self.end_idx_in_trajectory
    }

    /// The description of the recoverable log-density failure, if that is
    /// what ended the trajectory.
    pub fn logp_function_error(&self) -> (r: Option<&String>)
        ensures
            match r {
                Some(e) => self.logp_function_error == Some(*e),
                None => self.logp_function_error is None,
            },
    {
        self.logp_function_error.as_ref()
    }
}

/// A fatal sampler failure: the log-density raised a non-recoverable error.
/// No sample is returned for the draw in which it happened.
#[derive(Debug)]
pub enum NutsError {
    LogpFailure(String),
}

/// Fixed inputs of one draw: the depth cap, the leapfrog step size, and the
/// largest energy error tolerated before a step counts as divergent.
pub struct NutsOptions {
    pub maxdepth: u64,
    pub step_size: Scalar,
    pub max_energy_error: Scalar,
}

/// Per-draw diagnostics: tree depth reached, whether termination was by the
/// depth cap, and the divergence that ended the draw, if one did.
pub struct SampleInfo {
    pub depth: u64,
    pub divergence_info: Option<DivergenceInfo>,
    pub maxdepth: bool,
}

/// An error raised by a user log-density. A recoverable one ends the current
/// trajectory in a divergence; any other aborts the draw.
pub trait LogpError {
    fn is_recoverable(&self) -> bool;

    fn description(&self) -> String;
}

/// The user's log-density capability: the dimension of the space, and the
/// log-density with its gradient at a position. The gradient buffer keeps
/// its length across the call.
pub trait CpuLogpFunc {
    type Err: LogpError;

    fn dim(&self) -> usize;

    fn logp(&mut self, position: &Vec<Scalar>, grad: &mut Vec<Scalar>) -> (r: Result<
        Scalar,
        Self::Err,
    >)
        requires
            old(grad)@.len() == position@.len(),
        ensures
            final(grad)@.len() == position@.len(),
    ;
}

/// An observer of one draw. Hooks default to no-ops; they are called in the
/// order `register_init`, then one `register_leapfrog` per integrator step
/// (divergent steps included), then `register_draw` once with the selection.
pub trait Collector {
    fn register_init(&mut self, state: &State, options: &NutsOptions) {
    }

    fn register_leapfrog(
        &mut self,
        start: &State,
        end: &State,
        divergence_info: Option<&DivergenceInfo>,
    ) {
    }

    fn register_draw(&mut self, state: &State, info: &SampleInfo) {
    }
}

/// A collector that ignores every callback.
pub struct NullCollector {}

impl Collector for NullCollector {
}

/// The Hamiltonian capability: it binds the log-density and the mass matrix
/// and supplies the floating-point kernels that the verified integrator and
/// tree cannot compute themselves. The core relies only on the structural
/// clauses below: every kernel keeps the vectors' lengths and leaves the
/// trajectory index alone, and the log-density evaluation leaves the
/// position as it found it.
pub trait Potential {
    type Err: LogpError;

    fn dim(&self) -> usize;

    /// Draws a fresh momentum from the mass matrix's covariance. Only the
    /// momentum changes.
    fn randomize_momentum(&mut self, state: &mut State, rng: &mut rand::rngs::StdRng)
        ensures
            keeps_shape(old(state), final(state)),
            final(state).q@ == old(state).q@,
            final(state).v@ == old(state).v@,
            final(state).grad@ == old(state).grad@,
            final(state).p_sum@ == old(state).p_sum@,
            final(state).potential_energy == old(state).potential_energy,
            final(state).kinetic_energy == old(state).kinetic_energy,
    ;

    /// Evaluates the log-density at the state's position, writing the
    /// gradient and the potential energy. Nothing else changes.
    fn update_potential_gradient(&mut self, state: &mut State) -> (r: Result<(), Self::Err>)
        ensures
            keeps_shape(old(state), final(state)),
            final(state).q@ == old(state).q@,
            final(state).p@ == old(state).p@,
            final(state).v@ == old(state).v@,
            final(state).p_sum@ == old(state).p_sum@,
            final(state).kinetic_energy == old(state).kinetic_energy,
    ;

    /// Refreshes the velocity from the momentum through the mass matrix.
    /// Only the velocity changes.
    fn update_velocity(&mut self, state: &mut State)
        ensures
            keeps_shape(old(state), final(state)),
            final(state).q@ == old(state).q@,
            final(state).p@ == old(state).p@,
            final(state).grad@ == old(state).grad@,
            final(state).p_sum@ == old(state).p_sum@,
            final(state).potential_energy == old(state).potential_energy,
            final(state).kinetic_energy == old(state).kinetic_energy,
    ;

    /// Sets the kinetic energy to half the inner product of momentum and
    /// velocity. Nothing else changes.
    fn update_kinetic_energy(&mut self, state: &mut State)
        ensures
            keeps_shape(old(state), final(state)),
            final(state).q@ == old(state).q@,
            final(state).p@ == old(state).p@,
            final(state).v@ == old(state).v@,
            final(state).grad@ == old(state).grad@,
            final(state).p_sum@ == old(state).p_sum@,
            final(state).potential_energy == old(state).potential_energy,
    ;

    /// The first momentum half-kick: `out.p = start.p + (eps/2) * start.grad`
    /// with `eps = step_size * sign(dir)`. Only the momentum changes.
    fn first_momentum_halfstep(
        &self,
        start: &State,
        out: &mut State,
        dir: Direction,
        options: &NutsOptions,
    )
        requires
            old(out).p@.len() == start.p@.len(),
            old(out).p@.len() == start.grad@.len(),
        ensures
            keeps_shape(old(out), final(out)),
            final(out).q@ == old(out).q@,
            final(out).v@ == old(out).v@,
            final(out).grad@ == old(out).grad@,
            final(out).p_sum@ == old(out).p_sum@,
    ;

    /// The position drift: `out.q = start.q + eps * out.v`. Only the
    /// position changes.
    fn position_step(&self, start: &State, out: &mut State, dir: Direction, options: &NutsOptions)
        requires
            old(out).q@.len() == start.q@.len(),
            old(out).q@.len() == old(out).v@.len(),
        ensures
            keeps_shape(old(out), final(out)),
            final(out).p@ == old(out).p@,
            final(out).v@ == old(out).v@,
            final(out).grad@ == old(out).grad@,
            final(out).p_sum@ == old(out).p_sum@,
    ;

    /// The second momentum half-kick: `out.p += (eps/2) * out.grad`. Only
    /// the momentum changes.
    fn second_momentum_halfstep(&self, out: &mut State, dir: Direction, options: &NutsOptions)
        requires
            old(out).p@.len() == old(out).grad@.len(),
        ensures
            keeps_shape(old(out), final(out)),
            final(out).q@ == old(out).q@,
            final(out).v@ == old(out).v@,
            final(out).grad@ == old(out).grad@,
            final(out).p_sum@ == old(out).p_sum@,
    ;

    /// The directed momentum sum: `target.p_sum = start.p_sum + target.p`
    /// going forward, `start.p_sum - target.p` going backward. Only the
    /// momentum sum changes.
    fn set_psum(&self, start: &State, target: &mut State, dir: Direction)
        requires
            old(target).p_sum@.len() == start.p_sum@.len(),
            old(target).p_sum@.len() == old(target).p@.len(),
        ensures
            keeps_shape(old(target), final(target)),
            final(target).q@ == old(target).q@,
            final(target).p@ == old(target).p@,
            final(target).v@ == old(target).v@,
            final(target).grad@ == old(target).grad@,
    ;

    /// The total energy of a state: potential plus kinetic energy.
    fn energy(&self, state: &State) -> Scalar;

    /// The difference `energy - initial_energy`.
    fn energy_error(&self, energy: Scalar, initial_energy: Scalar) -> Scalar;

    /// Whether an energy error ends the trajectory: its magnitude exceeds
    /// `options.max_energy_error`, or it is not finite.
    fn is_diverging(&self, energy_error: Scalar, options: &NutsOptions) -> bool;

    /// The generalized U-turn test between the two outermost states of a
    /// subtree, `a` the earlier one in trajectory order.
    fn is_turning(&self, a: &State, b: &State) -> bool
        requires
            a.p@.len() == b.p@.len(),
            a.v@.len() == a.p@.len(),
            a.v@.len() == b.v@.len(),
            a.p_sum@.len() == a.p@.len(),
            a.p_sum@.len() == b.p_sum@.len(),
    ;

    /// `min(0, initial_energy - energy)`, the log of the acceptance weight
    /// of a trajectory state against the energy at the start of the draw.
    fn log_acceptance_probability(&self, energy: Scalar, initial_energy: Scalar) -> Scalar;

    /// `log(exp(a) + exp(b))`, the merge rule for subtree weights.
    fn logaddexp(&self, a: Scalar, b: Scalar) -> Scalar;

    /// The biased progressive-sampling coin: true with probability
    /// `min(1, exp(other_log_size - self_log_size))`.
    fn swap_draw_decision(
        &self,
        rng: &mut rand::rngs::StdRng,
        self_log_size: Scalar,
        other_log_size: Scalar,
    ) -> bool;
}

/// Allocates a state at the given position, with momentum sum zero, and
/// evaluates the log-density and its gradient there. Any log-density error
/// at the initial position is fatal.
pub fn init_state<P: Potential>(
    potential: &mut P,
    pool: &mut StatePool,
    init: &Vec<Scalar>,
) -> (r: Result<State, NutsError>)
    requires
        old(pool).wf(),
        init@.len() == old(pool).dim,
    ensures
        final(pool).wf(),
        final(pool).dim == old(pool).dim,
        match r {
            Ok(s) => {
                &&& s.dim_ok(old(pool).dim as nat)
                &&& s.idx_in_trajectory == 0
                &&& s.q@ == init@
                &&& s.p_sum@.len() == old(pool).dim
                &&& (forall|k: int|
                    0 <= k < old(pool).dim ==> s.p_sum@[k] == (Scalar { bits: 0 }))
            },
            Err(_) => true,
        },
{
    let mut state = pool.new_state();
    state.q = copy_vec(init);
    match potential.update_potential_gradient(&mut state) {
        Ok(()) => Ok(state),
        Err(err) => Err(NutsError::LogpFailure(err.description())),
    }
}

/// Begins a draw from a state: resamples the momentum, refreshes velocity
/// and kinetic energy, restarts the trajectory index at `0`, and seeds the
/// momentum sum with the fresh momentum.
pub fn randomize_momentum<P: Potential>(
    potential: &mut P,
    state: &mut State,
    rng: &mut rand::rngs::StdRng,
)
    ensures
        final(state).q@ == old(state).q@,
        final(state).grad@ == old(state).grad@,
        final(state).potential_energy == old(state).potential_energy,
        final(state).p@.len() == old(state).p@.len(),
        final(state).v@.len() == old(state).v@.len(),
        final(state).p_sum@ == final(state).p@,
        final(state).idx_in_trajectory == 0,
{
    potential.randomize_momentum(state, rng);
    potential.update_velocity(state);
    potential.update_kinetic_energy(state);
    state.idx_in_trajectory = 0;
    let n: usize = state.p.len();
    let mut psum: Vec<Scalar> = Vec::new();
    let mut i: usize = 0;
    while i < n
        invariant
            i <= n,
            n == state.p@.len(),
            psum@.len() == i,
            forall|k: int| 0 <= k < i ==> psum@[k] == state.p@[k],
        decreases n - i,
    {
        psum.push(state.p[i]);
        i = i + 1;
    }
    assert(psum@ =~= state.p@);
    state.p_sum = psum;
}

/// One symplectic leapfrog step of size `step_size * sign(dir)` away from
/// `start`: half-kick in momentum, drift in position, log-density at the
/// new position, half-kick, then velocity, kinetic energy, trajectory index
/// and directed momentum sum. A recoverable log-density failure or an
/// energy error beyond the threshold comes back as a divergence that names
/// the endpoints it knows; a non-recoverable failure is fatal. The
/// collector hears of the step in every outcome but the fatal one.
pub fn leapfrog<P: Potential, C: Collector>(
    pool: &mut StatePool,
    potential: &mut P,
    start: &State,
    dir: Direction,
    initial_energy: Scalar,
    options: &NutsOptions,
    collector: &mut C,
) -> (r: Result<Result<(State, LeapfrogInfo), DivergenceInfo>, NutsError>)
    requires
        old(pool).wf(),
        start.dim_ok(old(pool).dim as nat),
        i64::MIN < start.idx_in_trajectory < i64::MAX,
    ensures
        final(pool).wf(),
        final(pool).dim == old(pool).dim,
        match r {
            Ok(Ok((out, _info))) => {
                &&& out.dim_ok(old(pool).dim as nat)
                &&& out.idx_in_trajectory == start.idx_in_trajectory + dir.sign_spec()
                &&& final(pool).free@.len() == if old(pool).free@.len() > 0 {
                    old(pool).free@.len() - 1
                } else {
                    0int
                }
            },
            Ok(Err(div)) => {
                &&& final(pool).free@.len() == if old(pool).free@.len() > 0 {
                    old(pool).free@.len() as int
                } else {
                    1int
                }
                &&& div.wf()
                &&& div.start_idx_in_trajectory == Some(start.idx_in_trajectory)
                &&& (match div.start_location {
                    Some(q) => q@ == start.q@,
                    None => false,
                })
                &&& (div.energy_error is Some ==> div.end_idx_in_trajectory == Some(
                    (start.idx_in_trajectory + dir.sign_spec()) as i64,
                ))
            },
            Err(_) => final(pool).free@.len() == if old(pool).free@.len() > 0 {
                old(pool).free@.len() as int
            } else {
                1int
            },
        },
{
    let mut out = pool.new_state();

    potential.first_momentum_halfstep(start, &mut out, dir, options);
    potential.update_velocity(&mut out);

    potential.position_step(start, &mut out, dir, options);
    match potential.update_potential_gradient(&mut out) {
        Ok(()) => {},
        Err(err) => {
            if !err.is_recoverable() {
                let description = err.description();
                pool.recycle(out);
                return Err(NutsError::LogpFailure(description));
            }
            let divergence_info = DivergenceInfo {
                start_location: Some(copy_vec(&start.q)),
                end_location: None,
                energy_error: None,
                start_idx_in_trajectory: Some(start.index_in_trajectory()),
                end_idx_in_trajectory: None,
                logp_function_error: Some(err.description()),
            };
            collector.register_leapfrog(start, &out, Some(&divergence_info));
            pool.recycle(out);
            return Ok(Err(divergence_info));
        },
    }

    potential.second_momentum_halfstep(&mut out, dir, options);

    potential.update_velocity(&mut out);
    potential.update_kinetic_energy(&mut out);

    out.idx_in_trajectory = start.index_in_trajectory() + dir.sign();

    potential.set_psum(start, &mut out, dir);

    let out_energy = potential.energy(&out);
    let energy_error = potential.energy_error(out_energy, initial_energy);
    if potential.is_diverging(energy_error, options) {
        let divergence_info = DivergenceInfo {
            start_location: Some(copy_vec(&start.q)),
            end_location: Some(copy_vec(&out.q)),
            energy_error: Some(energy_error),
            start_idx_in_trajectory: Some(start.index_in_trajectory()),
            end_idx_in_trajectory: Some(out.index_in_trajectory()),
            logp_function_error: None,
        };
        collector.register_leapfrog(start, &out, Some(&divergence_info));
        pool.recycle(out);
        return Ok(Err(divergence_info));
    }

    collector.register_leapfrog(start, &out, None);

    Ok(Ok((out, LeapfrogInfo {})))
}

/// A balanced binary subtree of contiguous trajectory states: its leftmost
/// and rightmost states, the current candidate draw, the log of the summed
/// acceptance weights of its leaves, its depth, and the energy of the root
/// state of the draw, the baseline of every energy-error computation.
pub struct NutsTree {
    pub left: State,
    pub right: State,
    pub draw: State,
    pub log_size: Scalar,
    pub depth: u64,
    pub initial_energy: Scalar,
}

/// The outcome of doubling a tree: it grew, it met the U-turn criterion, or
/// a leapfrog step diverged. The last two end the draw.
pub enum ExtendResult {
    Extended(NutsTree),
    Turning(NutsTree),
    Diverging(NutsTree, DivergenceInfo),
}

impl NutsTree {
    /// A tree of depth `D` spans exactly `2^D` contiguous trajectory
    /// indices, its candidate draw lies among them, and all three held
    /// states have the dimension of the space.
    pub open spec fn wf(&self, d: nat) -> bool {
        &&& self.left.dim_ok(d)
        &&& self.right.dim_ok(d)
        &&& self.draw.dim_ok(d)
        &&& self.depth <= 63
        &&& self.right.idx_in_trajectory - self.left.idx_in_trajectory == pow2(
            self.depth as nat,
        ) - 1
        &&& self.left.idx_in_trajectory <= self.draw.idx_in_trajectory
        &&& self.draw.idx_in_trajectory <= self.right.idx_in_trajectory
    }

    /// Bounds that hold of whatever tree an extension hands back, grown or
    /// not: it reaches at most one doubling beyond `s`, and its boundary
    /// indices moved outward from `s`'s by at most one further span.
    pub open spec fn extended_from(&self, s: &NutsTree, d: nat) -> bool {
        &&& self.wf(d)
        &&& s.depth <= self.depth
        &&& self.depth <= s.depth + 1
        &&& self.initial_energy == s.initial_energy
        &&& self.left.idx_in_trajectory <= s.left.idx_in_trajectory
        &&& s.right.idx_in_trajectory <= self.right.idx_in_trajectory
        &&& s.left.idx_in_trajectory - pow2(s.depth as nat) <= self.left.idx_in_trajectory
        &&& self.right.idx_in_trajectory <= s.right.idx_in_trajectory + pow2(s.depth as nat)
    }

    /// A fresh tree rooted at one leaf: all three states are that leaf, the
    /// depth is zero, and the log-size is zero, the weight of the root
    /// normalized against itself.
    pub fn new(state: State, initial_energy: Scalar) -> (t: NutsTree)
        ensures
            t.depth == 0,
            t.log_size == (Scalar { bits: 0 }),
            t.initial_energy == initial_energy,
            t.left.same_state(&state),
            t.right.same_state(&state),
            t.draw.same_state(&state),
    {
        let left = state.clone_state();
        let right = state.clone_state();
        NutsTree { left, right, draw: state, depth: 0, log_size: Scalar::zero(), initial_energy }
    }

    /// The diagnostics of a finished draw built from this tree.
    pub fn info(&self, maxdepth: bool, divergence_info: Option<DivergenceInfo>) -> (r: SampleInfo)
        ensures
            r.depth == self.depth,
            r.maxdepth == maxdepth,
            r.divergence_info == divergence_info,
    {
        SampleInfo { depth: self.depth, divergence_info, maxdepth }
    }

    /// One leapfrog step away from the boundary on the given side, packed
    /// as a new depth-zero tree whose log-size is the acceptance weight of
    /// the new state.
    fn single_step<P: Potential, C: Collector>(
        &self,
        pool: &mut StatePool,
        potential: &mut P,
        direction: Direction,
        options: &NutsOptions,
        collector: &mut C,
    ) -> (r: Result<Result<NutsTree, DivergenceInfo>, NutsError>)
        requires
            old(pool).wf(),
            self.wf(old(pool).dim as nat),
            self.right.idx_in_trajectory < i64::MAX,
            self.left.idx_in_trajectory > i64::MIN,
        ensures
            final(pool).wf(),
            final(pool).dim == old(pool).dim,
            match r {
                Ok(Ok(t)) => {
                    &&& t.wf(old(pool).dim as nat)
                    &&& t.depth == 0
                    &&& t.initial_energy == self.initial_energy
                    &&& t.left.same_state(&t.right)
                    &&& t.draw.same_state(&t.left)
                    &&& t.left.idx_in_trajectory == t.right.idx_in_trajectory
                    &&& match direction {
                        Direction::Forward => t.left.idx_in_trajectory
                            == self.right.idx_in_trajectory + 1,
                        Direction::Backward => t.right.idx_in_trajectory
                            == self.left.idx_in_trajectory - 1,
                    }
                },
                Ok(Err(div)) => {
                    &&& div.wf()
                    &&& match direction {
                        Direction::Forward => div.start_idx_in_trajectory == Some(
                            self.right.idx_in_trajectory,
                        ) && (match div.start_location {
                            Some(q) => q@ == self.right.q@,
                            None => false,
                        }),
                        Direction::Backward => div.start_idx_in_trajectory == Some(
                            self.left.idx_in_trajectory,
                        ) && (match div.start_location {
                            Some(q) => q@ == self.left.q@,
                            None => false,
                        }),
                    }
                },
                Err(_) => true,
            },
    {
        let start: &State = match direction {
            Direction::Forward => &self.right,
            Direction::Backward => &self.left,
        };
        match leapfrog(pool, potential, start, direction, self.initial_energy, options, collector) {
            Err(e) => Err(e),
            Ok(Err(divergence_info)) => Ok(Err(divergence_info)),
            Ok(Ok((end, _info))) => {
                let end_energy = potential.energy(&end);
                let log_size = potential.log_acceptance_probability(
                    end_energy,
                    self.initial_energy,
                );
                proof {
                    lemma2_to64();
                }
                let left = end.clone_state();
                let right = end.clone_state();
                Ok(
                    Ok(
                        NutsTree {
                            left,
                            right,
                            draw: end,
                            depth: 0,
                            log_size,
                            initial_energy: self.initial_energy,
                        },
                    ),
                )
            },
        }
    }

    /// Absorbs an adjacent tree of equal depth on the doubling side: the
    /// boundary on that side is replaced by the far boundary of `other`,
    /// the draw is swapped when the progressive-sampling coin says so, the
    /// depth grows by one, and the log-size becomes the merged weight the
    /// caller computed with `logaddexp`.
    fn merge_into(
        &mut self,
        other: NutsTree,
        direction: Direction,
        new_log_size: Scalar,
        swap_draw: bool,
        Ghost(d): Ghost<nat>,
    )
        requires
            old(self).wf(d),
            other.wf(d),
            old(self).depth == other.depth,
            old(self).depth < 63,
            match direction {
                Direction::Forward => other.left.idx_in_trajectory == old(
                    self,
                ).right.idx_in_trajectory + 1,
                Direction::Backward => other.right.idx_in_trajectory == old(
                    self,
                ).left.idx_in_trajectory - 1,
            },
        ensures
            final(self).wf(d),
            final(self).depth == old(self).depth + 1,
            final(self).log_size == new_log_size,
            final(self).initial_energy == old(self).initial_energy,
            swap_draw ==> final(self).draw == other.draw,
            !swap_draw ==> final(self).draw == old(self).draw,
            match direction {
                Direction::Forward => final(self).left == old(self).left && final(self).right
                    == other.right,
                Direction::Backward => final(self).left == other.left && final(self).right == old(
                    self,
                ).right,
            },
    {
        proof {
            lemma_pow2_unfold((old(self).depth + 1) as nat);
            lemma_pow2_pos(old(self).depth as nat);
        }
        match direction {
            Direction::Forward => {
                self.right = other.right;
            },
            Direction::Backward => {
                self.left = other.left;
            },
        }
        if swap_draw {
            self.draw = other.draw;
        }
        self.depth = self.depth + 1;
        self.log_size = new_log_size;
    }

    /// Doubles the tree on the given side: a single step opens a fresh
    /// subtree, which is extended on the same side until it matches this
    /// tree's depth, then the U-turn criterion is evaluated across the
    /// merged boundary (and across both boundary pairs once the tree is
    /// deep enough), the two trees merge, and the result reports whether
    /// the trajectory turned. A divergence or U-turn inside the nested
    /// subtree stops the doubling and reports on the outer tree unmerged.
    #[verifier::loop_isolation(false)]
    pub fn extend<P: Potential, C: Collector>(
        self,
        pool: &mut StatePool,
        rng: &mut rand::rngs::StdRng,
        potential: &mut P,
        direction: Direction,
        options: &NutsOptions,
        collector: &mut C,
    ) -> (r: Result<ExtendResult, NutsError>)
        requires
            old(pool).wf(),
            self.wf(old(pool).dim as nat),
            self.depth < 63,
            self.right.idx_in_trajectory + pow2(self.depth as nat) <= i64::MAX,
            self.left.idx_in_trajectory - pow2(self.depth as nat) >= i64::MIN,
        ensures
            final(pool).wf(),
            final(pool).dim == old(pool).dim,
            match r {
                Ok(res) => match res {
                    ExtendResult::Extended(t) => {
                        &&& t.extended_from(&self, old(pool).dim as nat)
                        &&& t.depth == self.depth + 1
                        &&& match direction {
                            Direction::Forward => t.left.idx_in_trajectory
                                == self.left.idx_in_trajectory && t.right.idx_in_trajectory
                                == self.right.idx_in_trajectory + pow2(self.depth as nat),
                            Direction::Backward => t.right.idx_in_trajectory
                                == self.right.idx_in_trajectory && t.left.idx_in_trajectory
                                == self.left.idx_in_trajectory - pow2(self.depth as nat),
                        }
                    },
                    ExtendResult::Turning(t) => {
                        &&& t.extended_from(&self, old(pool).dim as nat)
                        &&& (t == self || (t.depth == self.depth + 1 && match direction {
                            Direction::Forward => t.left.idx_in_trajectory
                                == self.left.idx_in_trajectory && t.right.idx_in_trajectory
                                == self.right.idx_in_trajectory + pow2(self.depth as nat),
                            Direction::Backward => t.right.idx_in_trajectory
                                == self.right.idx_in_trajectory && t.left.idx_in_trajectory
                                == self.left.idx_in_trajectory - pow2(self.depth as nat),
                        }))
                    },
                    ExtendResult::Diverging(t, div) => t == self && div.wf(),
                },
                Err(_) => true,
            },
        decreases self.depth,
    {
        let ghost d: nat = old(pool).dim as nat;
        let mut this = self;
        proof {
            lemma_pow2_pos(this.depth as nat);
        }
        let step = this.single_step(pool, potential, direction, options, collector);
        let mut other: NutsTree = match step {
            Err(e) => {
                return Err(e);
            },
            Ok(Err(divergence_info)) => {
                return Ok(ExtendResult::Diverging(this, divergence_info));
            },
            Ok(Ok(t)) => t,
        };
        proof {
            lemma2_to64();
        }
        while other.depth < this.depth
            invariant
                pool.wf(),
                pool.dim == old(pool).dim,
                other.wf(d),
                other.depth <= this.depth,
                other.initial_energy == this.initial_energy,
                match direction {
                    Direction::Forward => other.left.idx_in_trajectory
                        == this.right.idx_in_trajectory + 1 && other.right.idx_in_trajectory
                        == this.right.idx_in_trajectory + pow2(other.depth as nat),
                    Direction::Backward => other.right.idx_in_trajectory
                        == this.left.idx_in_trajectory - 1 && other.left.idx_in_trajectory
                        == this.left.idx_in_trajectory - pow2(other.depth as nat),
                },
            decreases this.depth - other.depth,
        {
            proof {
                lemma_pow2_unfold((other.depth + 1) as nat);
                lemma_pow2_le((other.depth + 1) as nat, this.depth as nat);
                lemma_pow2_pos(other.depth as nat);
            }
            let next = other.extend(pool, rng, potential, direction, options, collector);
            other = match next {
                Err(e) => {
                    return Err(e);
                },
                Ok(ExtendResult::Extended(t)) => t,
                Ok(ExtendResult::Turning(t)) => {
                    recycle_tree(pool, t, Ghost(d));
                    return Ok(ExtendResult::Turning(this));
                },
                Ok(ExtendResult::Diverging(t, divergence_info)) => {
                    recycle_tree(pool, t, Ghost(d));
                    return Ok(ExtendResult::Diverging(this, divergence_info));
                },
            };
        }
        let first: &State;
        let last: &State;
        match direction {
            Direction::Forward => {
                first = &this.left;
                last = &other.right;
            },
            Direction::Backward => {
                first = &other.left;
                last = &this.right;
            },
        }
        let mut turning: bool = potential.is_turning(first, last);
        if !turning && this.depth > 1 {
            turning = potential.is_turning(&this.right, &other.right);
        }
        if !turning && this.depth > 1 {
            turning = potential.is_turning(&this.left, &other.left);
        }
        let new_log_size = potential.logaddexp(this.log_size, other.log_size);
        let swap_draw = potential.swap_draw_decision(rng, this.log_size, other.log_size);
        proof {
            lemma_pow2_unfold((this.depth + 1) as nat);
        }
        this.merge_into(other, direction, new_log_size, swap_draw, Ghost(d));
        if turning {
            Ok(ExtendResult::Turning(this))
        } else {
            Ok(ExtendResult::Extended(this))
        }
    }
}

/// Returns the buffers of a discarded subtree to the pool.
fn recycle_tree(pool: &mut StatePool, tree: NutsTree, Ghost(d): Ghost<nat>)
    requires
        old(pool).wf(),
        d == old(pool).dim,
        tree.wf(d),
    ensures
        final(pool).wf(),
        final(pool).dim == old(pool).dim,
{
    let NutsTree { left, right, draw: selected, .. } = tree;
    pool.recycle(left);
    pool.recycle(right);
    pool.recycle(selected);
}

/// One NUTS draw. Starting from a depth-zero tree at `init` (whose energy
/// becomes the baseline of the draw), the tree is doubled on a uniformly
/// random side until it meets a U-turn, a divergence, or the depth cap.
/// The candidate draw of the final tree is the sample; the diagnostics say
/// how deep the tree grew, whether the cap ended the draw, and carry the
/// divergence if one ended it. The collector hears of the initial state,
/// of every leapfrog step, and of the selection, in that order. A fatal
/// log-density failure aborts the draw with no sample.
#[verifier::loop_isolation(false)]
pub fn draw<P: Potential, C: Collector>(
    pool: &mut StatePool,
    init: State,
    rng: &mut rand::rngs::StdRng,
    potential: &mut P,
    options: &NutsOptions,
    collector: &mut C,
) -> (r: Result<(State, SampleInfo), NutsError>)
    requires
        old(pool).wf(),
        init.dim_ok(old(pool).dim as nat),
        init.idx_in_trajectory == 0,
        options.maxdepth <= 63,
    ensures
        final(pool).wf(),
        final(pool).dim == old(pool).dim,
        match r {
            Ok((state, info)) => {
                &&& state.dim_ok(old(pool).dim as nat)
                &&& info.depth <= options.maxdepth
                &&& -(pow2(options.maxdepth as nat) as int) < state.idx_in_trajectory
                &&& state.idx_in_trajectory < pow2(options.maxdepth as nat)
                &&& (info.maxdepth ==> info.depth == options.maxdepth && info.divergence_info
                    is None)
                &&& (match info.divergence_info {
                    Some(div) => div.wf(),
                    None => true,
                })
                &&& (info.divergence_info is Some && info.depth == 0 ==> state.same_state(&init))
            },
            Err(_) => true,
        },
        options.maxdepth == 0 ==> match r {
            Ok((state, info)) => {
                &&& state.same_state(&init)
                &&& info.depth == 0
                &&& info.maxdepth
                &&& info.divergence_info is None
            },
            Err(_) => false,
        },
{
    let ghost d: nat = old(pool).dim as nat;
    let ghost init0: State = init;
    collector.register_init(&init, options);
    let initial_energy = potential.energy(&init);
    proof {
        lemma2_to64();
    }
    let mut tree = NutsTree::new(init, initial_energy);
    while tree.depth < options.maxdepth
        invariant
            pool.wf(),
            pool.dim == old(pool).dim,
            tree.wf(d),
            tree.depth <= options.maxdepth,
            tree.left.idx_in_trajectory <= 0,
            tree.right.idx_in_trajectory >= 0,
            -(pow2(tree.depth as nat) as int) < tree.left.idx_in_trajectory,
            tree.right.idx_in_trajectory < pow2(tree.depth as nat),
            tree.depth == 0 ==> tree.draw.same_state(&init0),
        decreases options.maxdepth - tree.depth,
    {
        let direction: Direction = if gen_coin(rng) {
            Direction::Forward
        } else {
            Direction::Backward
        };
        proof {
            lemma_pow2_unfold((tree.depth + 1) as nat);
            lemma_pow2_le((tree.depth + 1) as nat, options.maxdepth as nat);
            lemma_pow2_le(options.maxdepth as nat, 63);
            lemma2_to64_rest();
        }
        match tree.extend(pool, rng, potential, direction, options, collector) {
            Err(e) => {
                return Err(e);
            },
            Ok(ExtendResult::Extended(t)) => {
                tree = t;
            },
            Ok(ExtendResult::Turning(t)) => {
                let info = t.info(false, None);
                collector.register_draw(&t.draw, &info);
                let NutsTree { draw: selected, left, right, .. } = t;
                pool.recycle(left);
                pool.recycle(right);
                return Ok((selected, info));
            },
            Ok(ExtendResult::Diverging(t, divergence_info)) => {
                let info = t.info(false, Some(divergence_info));
                collector.register_draw(&t.draw, &info);
                let NutsTree { draw: selected, left, right, .. } = t;
                pool.recycle(left);
                pool.recycle(right);
                return Ok((selected, info));
            },
        }
    }
    let info = tree.info(true, None);
    collector.register_draw(&tree.draw, &info);
    let NutsTree { draw: selected, left, right, .. } = tree;
    pool.recycle(left);
    pool.recycle(right);
    Ok((selected, info))
}

/// Helper for the displacement law: stepping always by `s`, the index at
/// position `j` of the trajectory is the starting index moved `j` times.
proof fn lemma_trajectory_index_at(idxs: Seq<int>, s: int, j: int)
    requires
        0 <= j < idxs.len(),
        s == 1 || s == -1,
        forall|k: int| 0 <= k < idxs.len() - 1 ==> #[trigger] idxs[k + 1] == idxs[k] + s,
    ensures
        s == 1 ==> idxs[j] == idxs[0] + j,
        s == -1 ==> idxs[j] == idxs[0] - j,
    decreases j,
{
    if j > 0 {
        lemma_trajectory_index_at(idxs, s, j - 1);
        assert(idxs[(j - 1) + 1] == idxs[j - 1] + s);
    }
}

/// Along a sequence of trajectory indices produced by leapfrog steps that
/// all go the same way (each index one step of sign `s` from the one
/// before, as the integrator guarantees), the distance between the last
/// and the first index equals the number of steps taken.
pub proof fn lemma_trajectory_index_displacement(idxs: Seq<int>, s: int)
    requires
        idxs.len() >= 1,
        s == 1 || s == -1,
        forall|k: int| 0 <= k < idxs.len() - 1 ==> #[trigger] idxs[k + 1] == idxs[k] + s,
    ensures
        s == 1 ==> idxs[idxs.len() - 1] - idxs[0] == idxs.len() - 1,
        s == -1 ==> idxs[0] - idxs[idxs.len() - 1] == idxs.len() - 1,
{
    lemma_trajectory_index_at(idxs, s, idxs.len() - 1);
}

/// `pow2` does not shrink as the exponent grows.
pub proof fn lemma_pow2_le(e1: nat, e2: nat)
    requires
        e1 <= e2,
    ensures
        pow2(e1) <= pow2(e2),
{
    if e1 < e2 {
        lemma_pow2_strictly_increases(e1, e2);
    }
}

} // verus!
