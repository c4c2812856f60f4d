//! The registry actor's state and message handlers.
//!
//! `Admin` is the authoritative keeper of the combined name and grade lists.
//! Its peers replace the lists wholesale ("dump" operations) and query
//! aggregates; every read hands out an independent copy of the state, never
//! a reference into it.

use vstd::prelude::*;

use crate::grades::{count_below, Grade, PASSING_GRADE};

verus! {

/// The registry actor's private state: the authoritative name list and the
/// grade list. The two lists are overwritten independently by dumps, so no
/// length relation is maintained between them.
pub struct Admin {
    underlings: Vec<String>,
    underling_grades: Vec<Grade>,
}

impl Admin {
    /// The name list, as a sequence of character sequences.
    pub closed spec fn names(&self) -> Seq<Seq<char>> {
        self.underlings.deep_view()
    }

    /// The grade list.
    pub closed spec fn grades(&self) -> Seq<Grade> {
        self.underling_grades@
    }

    /// A fresh registry holds no names and no grades.
    pub fn new() -> (a: Admin)
        ensures
            a.names() == Seq::<Seq<char>>::empty(),
            a.grades() == Seq::<Grade>::empty(),
    {
        let a = Admin { underlings: Vec::new(), underling_grades: Vec::new() };
        proof {
            assert(a.names() =~= Seq::<Seq<char>>::empty());
        }
        a
    }

    /// Bulk overwrite: the incoming list replaces the name list entirely;
    /// the previous names are discarded, the grades are untouched.
    pub fn process_student_dump(&mut self, students: Vec<String>)
        ensures
            final(self).names() == students.deep_view(),
            final(self).grades() == old(self).grades(),
    {
        self.underlings = students;
    }

    /// Bulk overwrite: the incoming list replaces the grade list entirely;
    /// the previous grades are discarded, the names are untouched.
    pub fn process_grade_dump(&mut self, grades: Vec<Grade>)
        ensures
            final(self).grades() == grades@,
            final(self).names() == old(self).names(),
    {
        self.underling_grades = grades;
    }

    /// How many students fail: exactly the number of grades strictly below
    /// the passing threshold.
    pub fn count_number_of_failing_students(&self) -> (n: usize)
        ensures
            n as nat == count_below(self.grades(), PASSING_GRADE),
    {
        let len = self.underling_grades.len();
        let mut n: usize = 0;
        let mut i: usize = 0;
        while i < len
            invariant
                i <= len,
                len == self.underling_grades.len(),
                n <= i,
                n as nat == count_below(self.underling_grades@.take(i as int), PASSING_GRADE),
            decreases len - i,
        {
            if self.underling_grades[i] < PASSING_GRADE {
                n = n + 1;
            }
            proof {
                let pre = self.underling_grades@.take(i as int + 1);
                assert(pre.drop_last() =~= self.underling_grades@.take(i as int));
                assert(pre.last() == self.underling_grades@[i as int]);
            }
            i = i + 1;
        }
        proof {
            assert(self.underling_grades@.take(len as int) =~= self.grades());
        }
        n
    }

    /// An independent copy of the name list, equal to it entry for entry.
    pub fn get_all_student_names(&self) -> (r: Vec<String>)
        ensures
            r.deep_view() == self.names(),
    {
        let r = self.underlings.clone();
        proof {
            assert(r@ =~= self.underlings@);
            assert(r.deep_view() =~= self.names());
        }
        r
    }

    /// An independent copy of the grade list, equal to it entry for entry.
    pub fn get_all_student_grades(&self) -> (r: Vec<Grade>)
        ensures
            r@ == self.grades(),
    {
        let r = self.underling_grades.clone();
        proof {
            assert(r@ =~= self.underling_grades@);
        }
        r
    }
}

/// Law: a bulk overwrite of the name and grade lists, followed by reads of
/// both, returns exactly the overwritten values. `mid` is `before` after a
/// name dump of `students`, `after` is `mid` after a grade dump of `grades`,
/// and the reads returned `read_names` and `read_grades`; the hypotheses are
/// the corresponding handlers' postconditions.
pub proof fn lemma_dump_then_read_exact(
    before: Admin,
    mid: Admin,
    after: Admin,
    students: Vec<String>,
    grades: Vec<Grade>,
    read_names: Vec<String>,
    read_grades: Vec<Grade>,
)
    requires
        mid.names() == students.deep_view(),
        mid.grades() == before.grades(),
        after.grades() == grades@,
        after.names() == mid.names(),
        read_names.deep_view() == after.names(),
        read_grades@ == after.grades(),
    ensures
        read_names.deep_view() == students.deep_view(),
        read_grades@ == grades@,
{
}

} // verus!
