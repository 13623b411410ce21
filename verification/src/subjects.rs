//! Subject listing for the messaging tool: every distinct subject seen on the
//! wildcard subscription is printed once, and subjects in the client's
//! reserved inbox namespace can be filtered out.

use vstd::prelude::*;
use vstd::string::StrSliceExecFns;

verus! {

/// The reserved inbox prefix, as a character sequence.
pub open spec fn inbox_prefix() -> Seq<char> {
    seq!['_', 'I', 'N', 'B', 'O', 'X']
}

/// Whether a subject lies in the reserved inbox namespace: its name starts
/// with the inbox prefix.
pub open spec fn is_inbox(subject: Seq<char>) -> bool {
    subject.len() >= 6 && subject.subrange(0, 6) == inbox_prefix()
}

/// Whether a newly arrived subject is printed, given the subjects printed so
/// far: it is new, and it is not suppressed by the inbox filter.
pub open spec fn should_print(seen: Seq<Seq<char>>, subject: Seq<char>, filter: bool) -> bool {
    !(filter && is_inbox(subject)) && !seen.contains(subject)
}

/// The printed subjects after one arrival: extended by the subject exactly
/// when it is printed.
pub open spec fn next_seen(seen: Seq<Seq<char>>, subject: Seq<char>, filter: bool) -> Seq<
    Seq<char>,
> {
    if should_print(seen, subject, filter) {
        seen.push(subject)
    } else {
        seen
    }
}

/// The wildcard subject the listing command subscribes to: it matches all
/// traffic.
pub fn all_subjects_wildcard() -> (r: String)
    ensures
        r@ == ">"@,
{
    String::from_str(">")
}

/// Whether a subject name starts with the reserved inbox prefix.
pub fn is_inbox_subject(subject: &str) -> (r: bool)
    ensures
        r == is_inbox(subject@),
{
    if subject.unicode_len() < 6 {
        return false;
    }
    let r = subject.get_char(0) == '_' && subject.get_char(1) == 'I' && subject.get_char(2) == 'N'
        && subject.get_char(3) == 'B' && subject.get_char(4) == 'O' && subject.get_char(5) == 'X';
    proof {
        if r {
            assert(subject@.subrange(0, 6) =~= inbox_prefix());
        } else {
            assert(subject@.subrange(0, 6) != inbox_prefix());
        }
    }
    r
}

/// The subjects already printed by the listing command, each at most once,
/// in the order of first arrival.
pub struct SubjectTracker {
    printed: Vec<String>,
}

impl SubjectTracker {
    /// The printed subject names, in print order.
    pub closed spec fn view(&self) -> Seq<Seq<char>> {
        self.printed@.map_values(|s: String| s@)
    }

    /// No subject stands in the list twice.
    pub closed spec fn wf(&self) -> bool {
        forall|i: int, j: int| 0 <= i < j < self@.len() ==> self@[i] != self@[j]
    }

    /// An empty tracker: nothing has been printed yet.
    pub fn new() -> (r: SubjectTracker)
        ensures
            r@ == Seq::<Seq<char>>::empty(),
            r.wf(),
    {
        let r = SubjectTracker { printed: Vec::new() };
        proof {
            assert(r@ =~= Seq::<Seq<char>>::empty());
        }
        r
    }

    /// Takes one arrived subject and decides whether to print it: a subject
    /// suppressed by the inbox filter is never printed, and every other
    /// subject is printed exactly on its first arrival and recorded.
    pub fn observe(&mut self, subject: &String, filter: bool) -> (printed: bool)
        requires
            old(self).wf(),
        ensures
            final(self).wf(),
            printed == should_print(old(self)@, subject@, filter),
            final(self)@ == next_seen(old(self)@, subject@, filter),
    {
        if filter && is_inbox_subject(subject.as_str()) {
            return false;
        }
        let n: usize = self.printed.len();
        let mut i: usize = 0;
        while i < n
            invariant
                i <= n,
                n == self.printed@.len(),
                *self == *old(self),
                old(self).wf(),
                forall|j: int| 0 <= j < i ==> self.printed@[j]@ != subject@,
            decreases n - i,
        {
            if self.printed[i] == *subject {
                proof {
                    assert(self@[i as int] == subject@);
                    assert(self@.contains(subject@));
                }
                return false;
            }
            i = i + 1;
        }
        proof {
            assert(forall|j: int| 0 <= j < self@.len() ==> self@[j] == self.printed@[j]@);
            assert(!self@.contains(subject@));
        }
        let ghost before = self@;
        self.printed.push(subject.clone());
        proof {
            assert(self@ =~= before.push(subject@));
        }
        true
    }

    /// How many distinct subjects have been printed.
    pub fn printed_count(&self) -> (r: usize)
        ensures
            r == self@.len(),
    {
        self.printed.len()
    }
}

/// Once a subject has arrived, a later arrival of the same subject under the
/// same filter setting is never printed: over a run of the listing command,
/// each distinct subject is printed at most once.
pub proof fn lemma_subject_printed_at_most_once(
    seen: Seq<Seq<char>>,
    subject: Seq<char>,
    filter: bool,
)
    ensures
        !should_print(next_seen(seen, subject, filter), subject, filter),
{
    if should_print(seen, subject, filter) {
        let after = seen.push(subject);
        assert(after[seen.len() as int] == subject);
        assert(after.contains(subject));
    }
}

} // verus!
