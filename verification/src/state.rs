use vstd::prelude::*;
use crate::scalar::Scalar;

verus! {

/// A trajectory point: position, momentum, velocity, gradient of the
/// log-density, the running momentum sum of the subtree rooted here, the two
/// energies, and the signed position of this point along the trajectory
/// (`0` at the initial state, `+-1, +-2, ...` as leapfrog steps accrue).
#[derive(Clone, Debug)]
pub struct State {
    pub q: Vec<Scalar>,
    pub p: Vec<Scalar>,
    pub v: Vec<Scalar>,
    pub grad: Vec<Scalar>,
    pub p_sum: Vec<Scalar>,
    pub potential_energy: Scalar,
    pub kinetic_energy: Scalar,
    pub idx_in_trajectory: i64,
}

impl State {
    /// All five vectors have the dimension of the sampled space.
    pub open spec fn dim_ok(&self, d: nat) -> bool {
        &&& self.q@.len() == d
        &&& self.p@.len() == d
        &&& self.v@.len() == d
        &&& self.grad@.len() == d
        &&& self.p_sum@.len() == d
    }

    /// Field-for-field equality of two trajectory points.
    pub open spec fn same_state(&self, other: &State) -> bool {
        &&& self.q@ == other.q@
        &&& self.p@ == other.p@
        &&& self.v@ == other.v@
        &&& self.grad@ == other.grad@
        &&& self.p_sum@ == other.p_sum@
        &&& self.potential_energy == other.potential_energy
        &&& self.kinetic_energy == other.kinetic_energy
        &&& self.idx_in_trajectory == other.idx_in_trajectory
    }

    pub fn index_in_trajectory(&self) -> (r: i64)
        ensures
            r == self.idx_in_trajectory,
    {
        self.idx_in_trajectory
    }

    /// An independent deep copy with identical field values.
    pub fn clone_state(&self) -> (r: State)
        ensures
            r.same_state(self),
    {
        State {
            q: copy_vec(&self.q),
            p: copy_vec(&self.p),
            v: copy_vec(&self.v),
            grad: copy_vec(&self.grad),
            p_sum: copy_vec(&self.p_sum),
            potential_energy: self.potential_energy,
            kinetic_energy: self.kinetic_energy,
            idx_in_trajectory: self.idx_in_trajectory,
        }
    }

    /// Copies the position into a caller-supplied buffer of the same length.
    pub fn write_position(&self, out: &mut Vec<Scalar>)
        requires
            old(out)@.len() == self.q@.len(),
        ensures
            final(out)@ == self.q@,
    {
        let n: usize = self.q.len();
        let mut i: usize = 0;
        while i < n
            invariant
                n == self.q@.len(),
                out@.len() == n,
                i <= n,
                forall|k: int| 0 <= k < i ==> out@[k] == self.q@[k],
            decreases n - i,
        {
            let val: Scalar = self.q[i];
            out.set(i, val);
            i = i + 1;
        }
        assert(out@ =~= self.q@);
    }
}

/// An element-for-element copy of a scalar vector.
pub fn copy_vec(src: &Vec<Scalar>) -> (r: Vec<Scalar>)
    ensures
        r@ == src@,
{
    let n: usize = src.len();
    let mut r: Vec<Scalar> = Vec::new();
    let mut i: usize = 0;
    while i < n
        invariant
            n == src@.len(),
            i <= n,
            r@.len() == i,
            forall|k: int| 0 <= k < i ==> r@[k] == src@[k],
        decreases n - i,
    {
        r.push(src[i]);
        i = i + 1;
    }
    assert(r@ =~= src@);
    r
}

/// A vector of a given length whose entries are all the scalar zero.
pub fn zero_vec(n: usize) -> (r: Vec<Scalar>)
    ensures
        r@.len() == n,
        forall|k: int| 0 <= k < n ==> r@[k] == (Scalar { bits: 0 }),
{
    let mut r: Vec<Scalar> = Vec::new();
    let mut i: usize = 0;
    while i < n
        invariant
            i <= n,
            r@.len() == i,
            forall|k: int| 0 <= k < i ==> r@[k] == (Scalar { bits: 0 }),
        decreases n - i,
    {
        r.push(Scalar::zero());
        i = i + 1;
    }
    r
}

/// A fresh state is zero everywhere: every vector entry is the scalar zero,
/// both energies are zero, and the trajectory index is `0`.
pub open spec fn zeroed(s: &State, d: nat) -> bool {
    &&& s.dim_ok(d)
    &&& (forall|k: int| 0 <= k < d ==> s.q@[k] == (Scalar { bits: 0 }))
    &&& (forall|k: int| 0 <= k < d ==> s.p@[k] == (Scalar { bits: 0 }))
    &&& (forall|k: int| 0 <= k < d ==> s.v@[k] == (Scalar { bits: 0 }))
    &&& (forall|k: int| 0 <= k < d ==> s.grad@[k] == (Scalar { bits: 0 }))
    &&& (forall|k: int| 0 <= k < d ==> s.p_sum@[k] == (Scalar { bits: 0 }))
    &&& s.potential_energy == (Scalar { bits: 0 })
    &&& s.kinetic_energy == (Scalar { bits: 0 })
    &&& s.idx_in_trajectory == 0
}

/// The update kept every vector's length and left the trajectory index
/// untouched.
pub open spec fn keeps_shape(before: &State, after: &State) -> bool {
    &&& after.q@.len() == before.q@.len()
    &&& after.p@.len() == before.p@.len()
    &&& after.v@.len() == before.v@.len()
    &&& after.grad@.len() == before.grad@.len()
    &&& after.p_sum@.len() == before.p_sum@.len()
    &&& after.idx_in_trajectory == before.idx_in_trajectory
}

/// A free list of state buffers for one dimension. Allocating prefers a
/// recycled buffer; a buffer handed back joins the list.
pub struct StatePool {
    pub dim: usize,
    pub free: Vec<State>,
}

impl StatePool {
    /// Every buffer on the free list has the pool's dimension.
    pub open spec fn wf(&self) -> bool {
        forall|k: int| 0 <= k < self.free@.len() ==> (#[trigger] self.free@[k]).dim_ok(self.dim as nat)
    }

    pub fn new(dim: usize) -> (r: StatePool)
        ensures
            r.wf(),
            r.dim == dim,
            r.free@.len() == 0,
    {
        StatePool { dim, free: Vec::new() }
    }

    /// How many buffers currently sit on the free list.
    pub fn free_count(&self) -> (r: usize)
        ensures
            r == self.free@.len(),
    {
        self.free.len()
    }

    /// A zeroed state of the pool's dimension, reusing a free buffer if one
    /// is available and allocating otherwise.
    pub fn new_state(&mut self) -> (r: State)
        requires
            old(self).wf(),
        ensures
            final(self).wf(),
            final(self).dim == old(self).dim,
            zeroed(&r, old(self).dim as nat),
            final(self).free@.len() == if old(self).free@.len() > 0 {
                old(self).free@.len() - 1
            } else {
                0int
            },
    {
        let d: usize = self.dim;
        match self.free.pop() {
            Some(mut s) => {
                zero_fill(&mut s.q);
                zero_fill(&mut s.p);
                zero_fill(&mut s.v);
                zero_fill(&mut s.grad);
                zero_fill(&mut s.p_sum);
                s.potential_energy = Scalar::zero();
                s.kinetic_energy = Scalar::zero();
                s.idx_in_trajectory = 0;
                s
            }
            None => State {
                q: zero_vec(d),
                p: zero_vec(d),
                v: zero_vec(d),
                grad: zero_vec(d),
                p_sum: zero_vec(d),
                potential_energy: Scalar::zero(),
                kinetic_energy: Scalar::zero(),
                idx_in_trajectory: 0,
            },
        }
    }

    /// Returns a buffer to the free list for later reuse.
    pub fn recycle(&mut self, s: State)
        requires
            old(self).wf(),
            s.dim_ok(old(self).dim as nat),
        ensures
            final(self).wf(),
            final(self).dim == old(self).dim,
            final(self).free@.len() == old(self).free@.len() + 1,
    {
        self.free.push(s);
    }
}

/// Overwrites every entry of a vector with the scalar zero.
pub fn zero_fill(v: &mut Vec<Scalar>)
    ensures
        final(v)@.len() == old(v)@.len(),
        forall|k: int| 0 <= k < final(v)@.len() ==> final(v)@[k] == (Scalar { bits: 0 }),
{
    let n: usize = v.len();
    let mut i: usize = 0;
    while i < n
        invariant
            v@.len() == n,
            i <= n,
            forall|k: int| 0 <= k < i ==> v@[k] == (Scalar { bits: 0 }),
        decreases n - i,
    {
        v.set(i, Scalar::zero());
        i = i + 1;
    }
}

} // verus!
