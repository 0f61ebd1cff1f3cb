//! How many replicas a Byzantine-fault-tolerant cluster needs, how many faulty ones it
//! survives, and how many matching replies settle a result.

use vstd::prelude::*;

verus! {

/// The Byzantine quorum system: `n = 3f + 1` replicas tolerate `f` faulty ones, and
/// `2f + 1` matching replies make a quorum.
pub struct BFT;

/// A cluster size that is not the one the tolerated number of failures asks for.
#[derive(Clone, Copy, Debug, PartialEq, Eq, Structural)]
pub struct ConfigurationMismatch {
    /// The number of replicas that was declared.
    pub replicas: usize,
    /// The number of faulty replicas that was declared as tolerated.
    pub tolerated: usize,
}

impl BFT {
    /// The cluster size that tolerates `f` faulty replicas.
    pub open spec fn n_for_f(f: nat) -> nat {
        3 * f + 1
    }

    /// The number of faulty replicas that a cluster of `n >= 1` replicas tolerates:
    /// `(n - 1) / 3`, rounded down.
    pub open spec fn f_for_n(n: nat) -> nat
        recommends
            n >= 1,
    {
        ((n - 1) / 3) as nat
    }

    /// The number of matching replies that settles a result in a cluster of `n >= 1`
    /// replicas.
    pub open spec fn quorum_for_n(n: nat) -> nat
        recommends
            n >= 1,
    {
        2 * Self::f_for_n(n) + 1
    }

    /// Whether `n` replicas are exactly what tolerating `f` faulty ones takes.
    pub open spec fn consistent(n: nat, f: nat) -> bool {
        n == Self::n_for_f(f)
    }

    /// Computes the cluster size for `f` tolerated failures. The size has to fit in a
    /// `usize`.
    pub fn get_n_for_f(f: usize) -> (n: usize)
        requires
            Self::n_for_f(f as nat) <= usize::MAX,
        ensures
            n == Self::n_for_f(f as nat),
    {
        3 * f + 1
    }

    /// Computes the quorum size of a cluster of `n` replicas. An empty cluster has none.
    pub fn get_quorum_for_n(n: usize) -> (quorum: usize)
        requires
            n >= 1,
        ensures
            quorum == Self::quorum_for_n(n as nat),
    {
        Self::get_f_for_n(n) * 2 + 1
    }

    /// Computes how many faulty replicas a cluster of `n` replicas tolerates. An empty
    /// cluster tolerates none and is left out.
    pub fn get_f_for_n(n: usize) -> (f: usize)
        requires
            n >= 1,
        ensures
            f == Self::f_for_n(n as nat),
    {
        (n - 1) / 3
    }

    /// Accepts a declared pair of cluster size and tolerated failures exactly when the
    /// two fit together, and hands the pair back otherwise.
    pub fn check_configuration(n: usize, f: usize) -> (r: Result<(), ConfigurationMismatch>)
        ensures
            Self::consistent(n as nat, f as nat) ==> r == Ok::<(), ConfigurationMismatch>(()),
            !Self::consistent(n as nat, f as nat) ==> r == Err::<(), ConfigurationMismatch>(
                ConfigurationMismatch { replicas: n, tolerated: f },
            ),
    {
        if n >= 1 && (n - 1) % 3 == 0 && (n - 1) / 3 == f {
            Ok(())
        } else {
            Err(ConfigurationMismatch { replicas: n, tolerated: f })
        }
    }
}

/// A cluster sized for `f` failures tolerates exactly `f` of them, and its quorum is
/// `2f + 1`.
pub proof fn lemma_sizes_agree(f: nat)
    ensures
        BFT::f_for_n(BFT::n_for_f(f)) == f,
        BFT::quorum_for_n(BFT::n_for_f(f)) == 2 * f + 1,
{
}

/// Any two quorums of a cluster sized for `f` failures share more than `f` replicas, so
/// at least one correct replica is in both.
pub proof fn lemma_quorums_intersect(f: nat)
    ensures
        2 * BFT::quorum_for_n(BFT::n_for_f(f)) - BFT::n_for_f(f) == f + 1,
{
}

} // verus!
