//! The booster actor's state and its grade transformation.
//!
//! `Booster` holds no roster of its own: it is a pure transformer over the
//! registry's grade list. Its boost operation reads the registry's grades,
//! overwrites every entry to the maximum of the scale, and writes the list
//! back — two separate round-trips through the peer handle, performed by the
//! surrounding plumbing. The transformation itself is [`boost_all`].

use vstd::prelude::*;

use crate::grades::{Grade, MAX_GRADE};

verus! {

/// The booster actor's private state: only an optional handle to the
/// registry actor whose grades it rewrites.
pub struct Booster<H> {
    admin: Option<H>,
}

impl<H> Booster<H> {
    /// The registry handle, if one has been injected.
    pub closed spec fn peer(&self) -> Option<H> {
        self.admin
    }

    /// A fresh booster holds no registry handle, so boosting is a no-op.
    pub fn new() -> (b: Booster<H>)
        ensures
            b.peer() is None,
    {
        Booster { admin: None }
    }

    /// Sets or replaces the registry handle; a later set overwrites silently.
    pub fn set_admin(&mut self, admin_handle: H)
        ensures
            final(self).peer() == Some(admin_handle),
    {
        self.admin = Some(admin_handle);
    }

    /// The stored registry handle, for the plumbing that sends through it.
    pub fn peer_handle(&self) -> (h: &Option<H>)
        ensures
            *h == self.peer(),
    {
        &self.admin
    }
}

/// A grade list with every entry overwritten to the maximum of the scale.
pub open spec fn boosted(grades: Seq<Grade>) -> Seq<Grade> {
    Seq::new(grades.len(), |i: int| MAX_GRADE)
}

/// The boost transformation: a new list of the same length as `grades` in
/// which every entry is overwritten to the maximum grade.
pub fn boost_all(grades: &Vec<Grade>) -> (r: Vec<Grade>)
    ensures
        r@ == boosted(grades@),
{
    let len = grades.len();
    let mut r = grades.clone();
    proof {
        assert(r@ =~= grades@);
    }
    let mut i: usize = 0;
    while i < len
        invariant
            i <= len,
            len == r@.len(),
            forall|k: int| 0 <= k < i ==> r@[k] == MAX_GRADE,
        decreases len - i,
    {
        r[i] = MAX_GRADE;
        i = i + 1;
    }
    proof {
        assert(r@ =~= boosted(grades@));
    }
    r
}

/// Law: boosting is idempotent — boosting an already boosted grade list
/// changes nothing, so running the boost operation twice in a row leaves
/// the same final state as running it once.
pub proof fn lemma_boost_idempotent(grades: Seq<Grade>)
    ensures
        boosted(boosted(grades)) == boosted(grades),
{
    assert(boosted(boosted(grades)) =~= boosted(grades));
}

} // verus!
