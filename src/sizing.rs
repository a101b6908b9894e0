use vstd::prelude::*;

verus! {

/// `n` is a power of two (1, 2, 4, ...).
pub open spec fn is_power_of_two(n: nat) -> bool
    decreases n,
{
    if n == 1 {
        true
    } else if n == 0 || n % 2 == 1 {
        false
    } else {
        is_power_of_two((n / 2) as nat)
    }
}

/// The structural counts that a counting-only pass over a circuit reports.
#[derive(Clone, Copy, Debug, PartialEq, Eq, Structural)]
pub struct ConstraintCounts {
    pub num_public_variables: usize,
    pub num_private_variables: usize,
    pub num_constraints: usize,
}

impl ConstraintCounts {
    /// `max(constraints, public + private + 1)`: the number of powers the
    /// circuit needs before rounding.
    pub open spec fn required(&self) -> nat {
        let vars = self.num_public_variables + self.num_private_variables + 1;
        if self.num_constraints > vars {
            self.num_constraints as nat
        } else {
            vars as nat
        }
    }

    /// `s` is the ceremony size of these counts: the smallest power of two
    /// that is at least the required count.
    pub open spec fn is_ceremony_size(&self, s: nat) -> bool {
        &&& is_power_of_two(s)
        &&& s >= self.required()
        &&& forall|n: nat| is_power_of_two(n) && n >= self.required() ==> s <= n
    }

    /// The required count is small enough that the power of two above it
    /// fits in a `usize`.
    pub open spec fn fits(&self) -> bool {
        self.required() <= usize::MAX as nat / 2 + 1
    }
}

/// If `a` and `b` are powers of two and half of `a` lies below `b`, then `a`
/// does not exceed `b`.
pub proof fn lemma_power_of_two_least(a: nat, b: nat)
    requires
        is_power_of_two(a),
        is_power_of_two(b),
        a / 2 < b,
    ensures
        a <= b,
    decreases a,
{
    if a != 1 && a / 2 != 1 {
        assert(b != 1);
        lemma_power_of_two_least((a / 2) as nat, (b / 2) as nat);
    }
}

/// The ceremony size of a circuit: the smallest power of two that is at least
/// `max(constraints, public + private + 1)`.
pub fn ceremony_size(counts: &ConstraintCounts) -> (r: usize)
    requires
        counts.fits(),
    ensures
        counts.is_ceremony_size(r as nat),
{
    let vars = counts.num_public_variables + counts.num_private_variables + 1;
    let required = if counts.num_constraints > vars {
        counts.num_constraints
    } else {
        vars
    };
    let mut size: usize = 1;
    while size < required
        invariant
            required as nat == counts.required(),
            counts.fits(),
            is_power_of_two(size as nat),
            size >= 1,
            size == 1 || size / 2 < required,
        decreases usize::MAX - size,
    {
        assert(is_power_of_two((size * 2) as nat) && (size * 2) / 2 == size);
        size = size * 2;
    }
    assert forall|n: nat| is_power_of_two(n) && n >= counts.required() implies size as nat <= n by {
        lemma_power_of_two_least(size as nat, n);
    }
    size
}

} // verus!
