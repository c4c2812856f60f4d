//! The gradebook actor's state and message handlers.
//!
//! `Brightspace` keeps its own name and grade lists, can append a derived
//! career identifier to every name, and forwards both lists to the registry
//! actor behind its peer handle. The handle type is a parameter: this crate
//! only stores and hands out the handle, the surrounding plumbing sends
//! through it.

use vstd::prelude::*;

use crate::admin::Admin;
use crate::career::{derive_career_id, has_split, with_career_id};
use crate::grades::Grade;

verus! {

/// Reported when the career-identifier derivation meets a name without an
/// interior space: `index` is the position of the first such name.
#[derive(Clone, Copy, Debug, PartialEq, Eq, Structural)]
pub struct CareerIdError {
    pub index: usize,
}

/// The gradebook actor's private state: its own name and grade lists, and
/// an optional handle to the registry actor it reports to.
pub struct Brightspace<H> {
    underlings: Vec<String>,
    underling_grades: Vec<Grade>,
    admin: Option<H>,
}

impl<H> Brightspace<H> {
    /// The name list, as a sequence of character sequences.
    pub closed spec fn names(&self) -> Seq<Seq<char>> {
        self.underlings.deep_view()
    }

    /// The grade list.
    pub closed spec fn grades(&self) -> Seq<Grade> {
        self.underling_grades@
    }

    /// The registry handle, if one has been injected.
    pub closed spec fn peer(&self) -> Option<H> {
        self.admin
    }

    /// A fresh gradebook holds no names, no grades and no registry handle.
    pub fn new() -> (b: Brightspace<H>)
        ensures
            b.names() == Seq::<Seq<char>>::empty(),
            b.grades() == Seq::<Grade>::empty(),
            b.peer() is None,
    {
        let b = Brightspace {
            underlings: Vec::new(),
            underling_grades: Vec::new(),
            admin: None,
        };
        proof {
            assert(b.names() =~= Seq::<Seq<char>>::empty());
        }
        b
    }

    /// Bulk overwrite: the incoming list replaces the name list entirely.
    pub fn process_student_dump(&mut self, students: Vec<String>)
        ensures
            final(self).names() == students.deep_view(),
            final(self).grades() == old(self).grades(),
            final(self).peer() == old(self).peer(),
    {
        self.underlings = students;
    }

    /// Bulk overwrite: the incoming list replaces the grade list entirely.
    pub fn process_grade_dump(&mut self, grades: Vec<Grade>)
        ensures
            final(self).grades() == grades@,
            final(self).names() == old(self).names(),
            final(self).peer() == old(self).peer(),
    {
        self.underling_grades = grades;
    }

    /// Sets or replaces the registry handle; a later set overwrites silently.
    pub fn set_admin(&mut self, admin_handle: H)
        ensures
            final(self).peer() == Some(admin_handle),
            final(self).names() == old(self).names(),
            final(self).grades() == old(self).grades(),
    {
        self.admin = Some(admin_handle);
    }

    /// The stored registry handle, for the plumbing that sends through it.
    pub fn peer_handle(&self) -> (h: &Option<H>)
        ensures
            *h == self.peer(),
    {
        &self.admin
    }

    /// Appends the derived career identifier to every name, in place and
    /// atomically: when every name has an interior space each becomes
    /// [`with_career_id`] of itself; when any name has none, the state is
    /// left entirely unchanged and the error names the first such position.
    pub fn append_student_career_ids(&mut self) -> (r: Result<(), CareerIdError>)
        ensures
            match r {
                Ok(()) => {
                    &&& forall|k: int|
                        0 <= k < old(self).names().len() ==> has_split(old(self).names()[k])
                    &&& final(self).names() == Seq::new(
                        old(self).names().len(),
                        |k: int| with_career_id(old(self).names()[k]),
                    )
                    &&& final(self).grades() == old(self).grades()
                    &&& final(self).peer() == old(self).peer()
                },
                Err(e) => {
                    &&& final(self).names() == old(self).names()
                    &&& final(self).grades() == old(self).grades()
                    &&& final(self).peer() == old(self).peer()
                    &&& e.index < old(self).names().len()
                    &&& !has_split(old(self).names()[e.index as int])
                    &&& forall|k: int| 0 <= k < e.index ==> has_split(old(self).names()[k])
                },
            },
    {
        let len = self.underlings.len();
        let mut updated: Vec<String> = Vec::new();
        let mut i: usize = 0;
        while i < len
            invariant
                i <= len,
                *self == *old(self),
                len == self.underlings.len(),
                updated@.len() == i,
                forall|k: int| 0 <= k < i ==> has_split(old(self).names()[k]),
                forall|k: int| 0 <= k < i ==> updated@[k]@ == with_career_id(old(self).names()[k]),
            decreases len - i,
        {
            match derive_career_id(self.underlings[i].as_str()) {
                Some(suffix) => {
                    let mut renamed = self.underlings[i].clone();
                    renamed.append(suffix.as_str());
                    updated.push(renamed);
                },
                None => {
                    return Err(CareerIdError { index: i });
                },
            }
            i = i + 1;
        }
        self.underlings = updated;
        proof {
            assert(self.names() =~= Seq::new(
                old(self).names().len(),
                |k: int| with_career_id(old(self).names()[k]),
            ));
        }
        Ok(())
    }

    /// The forward-and-confirm payload: independent copies of the current
    /// name and grade lists when the registry handle is set; `None` — a safe
    /// no-op — when no handle has been injected yet.
    pub fn report_for_admin(&self) -> (r: Option<(Vec<String>, Vec<Grade>)>)
        ensures
            r is Some <==> self.peer() is Some,
            r matches Some(p) ==> p.0.deep_view() == self.names() && p.1@ == self.grades(),
    {
        match &self.admin {
            Some(_) => {
                let ns = self.underlings.clone();
                let gs = self.underling_grades.clone();
                proof {
                    assert(ns@ =~= self.underlings@);
                    assert(ns.deep_view() =~= self.names());
                    assert(gs@ =~= self.underling_grades@);
                }
                Some((ns, gs))
            },
            None => None,
        }
    }
}

/// Law: forward-and-confirm is causal at the state level. Once the registry
/// has handled both halves of the gradebook's forwarded payload, a direct
/// read of the registry returns exactly the gradebook's lists. (That the
/// registry has handled them by the time the confirming reply resolves is
/// the event loop's single-message-at-a-time ordering, which lives in the
/// plumbing around this crate.) The hypotheses are the postconditions of
/// [`Brightspace::report_for_admin`], the registry's two dump handlers, and
/// its two read handlers.
pub proof fn lemma_forward_then_read_observes_report<H>(
    book: Brightspace<H>,
    payload_names: Vec<String>,
    payload_grades: Vec<Grade>,
    before: Admin,
    mid: Admin,
    after: Admin,
    read_names: Vec<String>,
    read_grades: Vec<Grade>,
)
    requires
        payload_names.deep_view() == book.names(),
        payload_grades@ == book.grades(),
        mid.names() == payload_names.deep_view(),
        mid.grades() == before.grades(),
        after.grades() == payload_grades@,
        after.names() == mid.names(),
        read_names.deep_view() == after.names(),
        read_grades@ == after.grades(),
    ensures
        read_names.deep_view() == book.names(),
        read_grades@ == book.grades(),
{
}

} // verus!
