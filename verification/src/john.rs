//! The roster coordinator actor's state and message handlers.
//!
//! `John` tracks the VIP subset of the roster: students are registered one
//! at a time, each with the default grade, and a named student's grade is
//! overwritten at the position of the first matching name — a silent no-op
//! when the name is absent. The whole roster can be forwarded to the
//! gradebook actor behind the peer handle.

use vstd::prelude::*;

use crate::grades::{Grade, DEFAULT_GRADE};

verus! {

/// `i` is the position of the first entry of `names` equal to `name`.
pub open spec fn is_first_match(names: Seq<Seq<char>>, name: Seq<char>, i: int) -> bool {
    &&& 0 <= i < names.len()
    &&& names[i] == name
    &&& forall|j: int| 0 <= j < i ==> names[j] != name
}

/// At most one position is the first match for a name.
pub proof fn lemma_first_match_unique(names: Seq<Seq<char>>, name: Seq<char>, i: int, j: int)
    requires
        is_first_match(names, name, i),
        is_first_match(names, name, j),
    ensures
        i == j,
{
    if i < j {
        assert(names[i] != name);
    }
    if j < i {
        assert(names[j] != name);
    }
}

/// The roster coordinator's private state: the VIP name list, the parallel
/// grade list, and an optional handle to the gradebook actor.
pub struct John<H> {
    underlings: Vec<String>,
    underling_grades: Vec<Grade>,
    brightspace: Option<H>,
}

impl<H> John<H> {
    /// The name list, as a sequence of character sequences.
    pub closed spec fn names(&self) -> Seq<Seq<char>> {
        self.underlings.deep_view()
    }

    /// The grade list, index-aligned with the name list.
    pub closed spec fn grades(&self) -> Seq<Grade> {
        self.underling_grades@
    }

    /// The gradebook handle, if one has been injected.
    pub closed spec fn peer(&self) -> Option<H> {
        self.brightspace
    }

    /// The roster invariant: one grade per name.
    pub open spec fn wf(&self) -> bool {
        self.names().len() == self.grades().len()
    }

    /// A fresh roster holds no students and no gradebook handle.
    pub fn new() -> (j: John<H>)
        ensures
            j.wf(),
            j.names() == Seq::<Seq<char>>::empty(),
            j.grades() == Seq::<Grade>::empty(),
            j.peer() is None,
    {
        let j = John {
            underlings: Vec::new(),
            underling_grades: Vec::new(),
            brightspace: None,
        };
        proof {
            assert(j.names() =~= Seq::<Seq<char>>::empty());
        }
        j
    }

    /// Registers a new student: the name is appended together with the
    /// default grade, so the two lists stay aligned. Duplicate names are
    /// allowed and become separate entries.
    pub fn add_underling(&mut self, name: String)
        requires
            old(self).wf(),
        ensures
            final(self).wf(),
            final(self).names() == old(self).names().push(name@),
            final(self).grades() == old(self).grades().push(DEFAULT_GRADE),
            final(self).peer() == old(self).peer(),
    {
        self.underlings.push(name);
        self.underling_grades.push(DEFAULT_GRADE);
        proof {
            assert(self.names() =~= old(self).names().push(name@));
        }
    }

    /// Overwrites the grade at the position of the first entry equal to
    /// `name`. When no entry matches, the roster is left entirely unchanged:
    /// no entry is added and no grade moves.
    pub fn set_underling_grade(&mut self, name: String, grade: Grade)
        requires
            old(self).wf(),
        ensures
            final(self).wf(),
            final(self).names() == old(self).names(),
            final(self).peer() == old(self).peer(),
            !old(self).names().contains(name@) ==> final(self).grades() == old(self).grades(),
            old(self).names().contains(name@) ==> exists|i: int|
                is_first_match(old(self).names(), name@, i),
            forall|i: int|
                is_first_match(old(self).names(), name@, i) ==> final(self).grades() == old(
                    self,
                ).grades().update(i, grade),
    {
        let len = self.underlings.len();
        let mut i: usize = 0;
        while i < len
            invariant
                i <= len,
                *self == *old(self),
                old(self).wf(),
                len == self.underlings.len(),
                forall|j: int| 0 <= j < i ==> self.names()[j] != name@,
            decreases len - i,
        {
            if self.underlings[i] == name {
                proof {
                    assert(is_first_match(old(self).names(), name@, i as int));
                    assert forall|k: int|
                        is_first_match(old(self).names(), name@, k) implies k == i as int by {
                        lemma_first_match_unique(old(self).names(), name@, k, i as int);
                    }
                    assert(old(self).names().contains(name@));
                }
                self.underling_grades[i] = grade;
                return ;
            }
            i = i + 1;
        }
        proof {
            if old(self).names().contains(name@) {
                let w = choose|w: int|
                    0 <= w < old(self).names().len() && old(self).names()[w] == name@;
                assert(self.names()[w] != name@);
            }
        }
    }

    /// Whether the name and grade lists are aligned: exactly the invariant
    /// [`John::wf`], so that unverified callers can test it before a call.
    pub fn is_aligned(&self) -> (b: bool)
        ensures
            b == self.wf(),
    {
        self.underlings.len() == self.underling_grades.len()
    }

    /// Sets or replaces the gradebook handle; a later set overwrites
    /// silently.
    pub fn set_brightspace(&mut self, brightspace_handle: H)
        ensures
            final(self).peer() == Some(brightspace_handle),
            final(self).names() == old(self).names(),
            final(self).grades() == old(self).grades(),
    {
        self.brightspace = Some(brightspace_handle);
    }

    /// The stored gradebook handle, for the plumbing that sends through it.
    pub fn peer_handle(&self) -> (h: &Option<H>)
        ensures
            *h == self.peer(),
    {
        &self.brightspace
    }

    /// The forward-and-confirm payload: independent copies of the current
    /// name and grade lists when the gradebook handle is set; `None` — a
    /// safe no-op — when no handle has been injected yet.
    pub fn report_for_brightspace(&self) -> (r: Option<(Vec<String>, Vec<Grade>)>)
        ensures
            r is Some <==> self.peer() is Some,
            r matches Some(p) ==> p.0.deep_view() == self.names() && p.1@ == self.grades(),
    {
        match &self.brightspace {
            Some(_) => {
                let ns = self.underlings.clone();
                let gs = self.underling_grades.clone();
                proof {
                    assert(ns@ =~= self.underlings@);
                    assert(ns.deep_view() =~= self.names());
                    assert(gs@ =~= self.underling_grades@);
                }
                Some((ns, gs))
            },
            None => None,
        }
    }
}

/// Law: registering a new student appends exactly that name with the
/// default grade, and the name and grade lists stay the same length.
/// `after` is `before` after a registration of `name`; the hypotheses are
/// the handler's postconditions.
pub proof fn lemma_register_adds_student<H>(before: John<H>, after: John<H>, name: String)
    requires
        before.wf(),
        after.names() == before.names().push(name@),
        after.grades() == before.grades().push(DEFAULT_GRADE),
    ensures
        after.names().len() == after.grades().len(),
        after.names().contains(name@),
        after.names().last() == name@,
        after.grades().last() == DEFAULT_GRADE,
{
    assert(after.names()[after.names().len() - 1] == name@);
}

} // verus!
