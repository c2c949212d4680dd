//! Choosing the monitor that the pet window moves to.
use vstd::prelude::*;

use crate::text::text_eq;

verus! {

/// The first position among `names` that holds `target` (a monitor without
/// a name never matches).
pub open spec fn first_named(names: Seq<Option<Seq<char>>>, target: Seq<char>) -> Option<int>
    decreases names.len(),
{
    if names.len() == 0 {
        None
    } else if names[0] == Some(target) {
        Some(0)
    } else {
        match first_named(names.drop_first(), target) {
            Some(k) => Some(k + 1),
            None => None,
        }
    }
}

/// `first_named` picks the first position that holds `target`: it is
/// `Some(k)` exactly when `names[k]` is `target` and no earlier name is, and
/// `None` exactly when no position holds `target`.
pub proof fn law_first_named_is_first_match(names: Seq<Option<Seq<char>>>, target: Seq<char>)
    ensures
        first_named(names, target) is Some ==> 0 <= first_named(names, target)->0 < names.len()
            && names[first_named(names, target)->0] == Some(target) && forall|j: int|
            0 <= j < first_named(names, target)->0 ==> #[trigger] names[j] != Some(target),
        first_named(names, target) is None <==> forall|j: int|
            0 <= j < names.len() ==> #[trigger] names[j] != Some(target),
    decreases names.len(),
{
    if names.len() > 0 && names[0] != Some(target) {
        let rest = names.drop_first();
        law_first_named_is_first_match(rest, target);
        if first_named(rest, target) is None {
            assert forall|j: int| 0 <= j < names.len() implies #[trigger] names[j] != Some(
                target,
            ) by {
                if j > 0 {
                    assert(names[j] == rest[j - 1]);
                }
            }
        } else {
            let k = first_named(rest, target)->0;
            assert(names[k + 1] == rest[k]);
            assert forall|j: int| 0 <= j < k + 1 implies #[trigger] names[j] != Some(target) by {
                if j > 0 {
                    assert(names[j] == rest[j - 1]);
                }
            }
        }
    }
}

/// The position of the first monitor named `target`, where `names[k]` is the
/// name of the `k`-th available monitor; `None` when no monitor has that name.
pub fn monitor_index_by_name(names: &Vec<Option<String>>, target: &str) -> (r: Option<usize>)
    ensures
        r is Some <==> first_named(crate::market::opt_texts_view(names@), target@) is Some,
        r is Some ==> r->0 == first_named(crate::market::opt_texts_view(names@), target@)->0,
        r is Some ==> r->0 < names@.len() && crate::pet::opt_view(names@[r->0 as int]) == Some(
            target@,
        ) && forall|j: int|
            0 <= j < r->0 ==> #[trigger] crate::pet::opt_view(names@[j]) != Some(target@),
        r is None ==> forall|j: int|
            0 <= j < names@.len() ==> #[trigger] crate::pet::opt_view(names@[j]) != Some(target@),
{
    let ghost all = crate::market::opt_texts_view(names@);
    let n = names.len();
    let mut k: usize = 0;
    assert(all.skip(0) == all);
    while k < n
        invariant
            n == names@.len(),
            all == crate::market::opt_texts_view(names@),
            k <= n,
            forall|j: int| 0 <= j < k ==> #[trigger] crate::pet::opt_view(names@[j]) != Some(target@),
            first_named(all, target@) == match first_named(all.skip(k as int), target@) {
                Some(j) => Some(j + k),
                None => None,
            },
        decreases n - k,
    {
        assert(all.skip(k as int)[0] == crate::pet::opt_view(names@[k as int]));
        assert(all.skip(k as int).drop_first() == all.skip(k + 1));
        if let Some(name) = &names[k] {
            if text_eq(name.as_str(), target) {
                assert(all.skip(k as int).len() > 0);
                return Some(k);
            }
        }
        k = k + 1;
    }
    None
}

} // verus!
