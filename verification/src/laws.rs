use vstd::prelude::*;

use crate::mail_sender::without_pair;
use crate::person::PersonView;

verus! {

/// Removing a pair that no entry of the sequence equals changes
/// nothing: removal of something never added is a harmless no-op.
pub proof fn lemma_remove_never_added(s: Seq<PersonView>, p: PersonView)
    requires
        forall|i: int| 0 <= i < s.len() ==> s[i] != p,
    ensures
        without_pair(s, p) == s,
    decreases s.len(),
{
    if s.len() == 0 {
        assert(without_pair(s, p) =~= s);
    } else {
        assert(s[s.len() - 1] != p);
        assert forall|i: int| 0 <= i < s.drop_last().len() implies s.drop_last()[i] != p by {
            assert(s.drop_last()[i] == s[i]);
        }
        lemma_remove_never_added(s.drop_last(), p);
        assert(s.drop_last().push(s.last()) =~= s);
    }
}

/// Adding a pair and removing the identical pair right after returns
/// the recipient sequence to its prior state, provided the pair was not
/// already present (removal strips every matching entry, so an earlier
/// duplicate would leave with it).
pub proof fn lemma_add_then_remove_round_trip(s: Seq<PersonView>, p: PersonView)
    requires
        forall|i: int| 0 <= i < s.len() ==> s[i] != p,
    ensures
        without_pair(s.push(p), p) == s,
{
    let t = s.push(p);
    assert(t.drop_last() =~= s);
    assert(t.last() == p);
    lemma_remove_never_added(s, p);
}

} // verus!
