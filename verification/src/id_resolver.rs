//! Registry of source identifiers. Every source asks for the identifier it
//! would like; the registry hands out identifiers that are all different.

use vstd::prelude::*;
use vstd::string::*;
use crate::text::{contains_str, decimal, lemma_decimal_injective, push_decimal, views};

verus! {

/// `desired` followed by a dot and the decimal notation of `k`.
pub open spec fn candidate(desired: Seq<char>, k: nat) -> Seq<char> {
    desired + seq!['.'] + decimal(k)
}

/// `id` is neither reserved nor claimed.
pub open spec fn is_free(reserved: Seq<Seq<char>>, claimed: Seq<Seq<char>>, id: Seq<char>) -> bool {
    !reserved.contains(id) && !claimed.contains(id)
}

/// `k` is the least number from 1 up for which `desired` with the suffix
/// `.k` is unclaimed.
pub open spec fn is_least_free_suffix(claimed: Seq<Seq<char>>, desired: Seq<char>, k: nat) -> bool {
    &&& k >= 1
    &&& !claimed.contains(candidate(desired, k))
    &&& forall|j: nat| 1 <= j < k ==> claimed.contains(#[trigger] candidate(desired, j))
}

/// The least number from 1 up for which `desired` with that suffix is unclaimed.
pub open spec fn least_free_suffix(claimed: Seq<Seq<char>>, desired: Seq<char>) -> nat {
    choose|k: nat| is_least_free_suffix(claimed, desired, k)
}

/// The identifier handed out for `desired`: `desired` itself where it is
/// free, else `desired` with the least suffix that makes it unclaimed.
pub open spec fn spec_resolve(
    reserved: Seq<Seq<char>>,
    claimed: Seq<Seq<char>>,
    desired: Seq<char>,
) -> Seq<char> {
    if is_free(reserved, claimed, desired) {
        desired
    } else {
        candidate(desired, least_free_suffix(claimed, desired))
    }
}

/// The identifiers handed out for `requests`, resolved one after the other
/// by a registry that starts with `claimed`.
pub open spec fn spec_resolve_each(
    reserved: Seq<Seq<char>>,
    claimed: Seq<Seq<char>>,
    requests: Seq<Seq<char>>,
) -> Seq<Seq<char>>
    decreases requests.len(),
{
    if requests.len() == 0 {
        Seq::empty()
    } else {
        let id = spec_resolve(reserved, claimed, requests[0]);
        seq![id] + spec_resolve_each(reserved, claimed.push(id), requests.drop_first())
    }
}

/// Different suffixes give different identifiers.
pub proof fn lemma_candidate_injective(desired: Seq<char>, a: nat, b: nat)
    requires
        candidate(desired, a) == candidate(desired, b),
    ensures
        a == b,
{
    let ca = candidate(desired, a);
    let cb = candidate(desired, b);
    let start = desired.len() + 1;
    assert(ca.subrange(start as int, ca.len() as int) =~= decimal(a));
    assert(cb.subrange(start as int, cb.len() as int) =~= decimal(b));
    lemma_decimal_injective(a, b);
}

/// A set that holds `desired` with each of the suffixes `1` to `k - 1` has
/// at least `k - 1` members.
proof fn lemma_candidates_counted(s: Set<Seq<char>>, desired: Seq<char>, k: nat)
    requires
        s.finite(),
        k >= 1,
        forall|j: nat| 1 <= j < k ==> s.contains(#[trigger] candidate(desired, j)),
    ensures
        k - 1 <= s.len(),
    decreases k,
{
    if k > 1 {
        let last = candidate(desired, (k - 1) as nat);
        let rest = s.remove(last);
        assert forall|j: nat| 1 <= j < k - 1 implies rest.contains(
            #[trigger] candidate(desired, j),
        ) by {
            if candidate(desired, j) == last {
                lemma_candidate_injective(desired, j, (k - 1) as nat);
            }
        }
        lemma_candidates_counted(rest, desired, (k - 1) as nat);
    }
}

/// Where the suffixes `1` to `k - 1` are all claimed, `k - 1` is at most the
/// number of claimed identifiers.
pub proof fn lemma_claimed_suffixes_bounded(claimed: Seq<Seq<char>>, desired: Seq<char>, k: nat)
    requires
        k >= 1,
        forall|j: nat| 1 <= j < k ==> claimed.contains(#[trigger] candidate(desired, j)),
    ensures
        k - 1 <= claimed.len(),
{
    claimed.lemma_cardinality_of_set();
    assert forall|j: nat| 1 <= j < k implies claimed.to_set().contains(
        #[trigger] candidate(desired, j),
    ) by {
        assert(claimed.contains(candidate(desired, j)));
    }
    lemma_candidates_counted(claimed.to_set(), desired, k);
}

/// Searches the least free suffix from `k` up.
proof fn lemma_search_suffix(claimed: Seq<Seq<char>>, desired: Seq<char>, k: nat) -> (found: nat)
    requires
        k >= 1,
        forall|j: nat| 1 <= j < k ==> claimed.contains(#[trigger] candidate(desired, j)),
    ensures
        is_least_free_suffix(claimed, desired, found),
        found <= claimed.len() + 1,
    decreases claimed.len() + 1 - k,
{
    lemma_claimed_suffixes_bounded(claimed, desired, k);
    if !claimed.contains(candidate(desired, k)) {
        k
    } else {
        lemma_claimed_suffixes_bounded(claimed, desired, k + 1);
        lemma_search_suffix(claimed, desired, k + 1)
    }
}

/// Every name has a least free suffix, and it is at most one more than the
/// number of claimed identifiers.
pub proof fn lemma_least_free_suffix(claimed: Seq<Seq<char>>, desired: Seq<char>)
    ensures
        is_least_free_suffix(claimed, desired, least_free_suffix(claimed, desired)),
        least_free_suffix(claimed, desired) <= claimed.len() + 1,
{
    let found = lemma_search_suffix(claimed, desired, 1);
    let k = least_free_suffix(claimed, desired);
    assert(is_least_free_suffix(claimed, desired, k));
    lemma_least_free_suffix_unique(claimed, desired, found, k);
}

/// There is one least free suffix only.
pub proof fn lemma_least_free_suffix_unique(
    claimed: Seq<Seq<char>>,
    desired: Seq<char>,
    a: nat,
    b: nat,
)
    requires
        is_least_free_suffix(claimed, desired, a),
        is_least_free_suffix(claimed, desired, b),
    ensures
        a == b,
{
    if a < b {
        assert(claimed.contains(candidate(desired, a)));
    } else if b < a {
        assert(claimed.contains(candidate(desired, b)));
    }
}

/// The identifier handed out was not claimed before.
pub proof fn lemma_resolve_unclaimed(
    reserved: Seq<Seq<char>>,
    claimed: Seq<Seq<char>>,
    desired: Seq<char>,
)
    ensures
        !claimed.contains(spec_resolve(reserved, claimed, desired)),
{
    lemma_least_free_suffix(claimed, desired);
}

/// The registry is injective: whatever is asked for, and in whatever order,
/// no identifier is handed out twice, and none that was claimed before.
pub proof fn lemma_resolve_injective(
    reserved: Seq<Seq<char>>,
    claimed: Seq<Seq<char>>,
    requests: Seq<Seq<char>>,
)
    ensures
        spec_resolve_each(reserved, claimed, requests).len() == requests.len(),
        spec_resolve_each(reserved, claimed, requests).no_duplicates(),
        forall|i: int|
            0 <= i < requests.len() ==> !claimed.contains(
                #[trigger] spec_resolve_each(reserved, claimed, requests)[i],
            ),
    decreases requests.len(),
{
    if requests.len() > 0 {
        let id = spec_resolve(reserved, claimed, requests[0]);
        let later = spec_resolve_each(reserved, claimed.push(id), requests.drop_first());
        let all = spec_resolve_each(reserved, claimed, requests);
        lemma_resolve_unclaimed(reserved, claimed, requests[0]);
        lemma_resolve_injective(reserved, claimed.push(id), requests.drop_first());
        assert(all =~= seq![id] + later);
        assert forall|i: int| 0 <= i < requests.len() implies !claimed.contains(#[trigger] all[i]) by {
            if i > 0 {
                assert(all[i] == later[i - 1]);
                if claimed.contains(all[i]) {
                    let at = choose|at: int| 0 <= at < claimed.len() && claimed[at] == all[i];
                    assert(claimed.push(id)[at] == all[i]);
                }
            }
        }
        assert forall|i: int, j: int| 0 <= i < j < all.len() implies all[i] != all[j] by {
            assert(all[j] == later[j - 1]);
            if i == 0 {
                assert(claimed.push(id)[claimed.len() as int] == id);
                assert(claimed.push(id).contains(id));
            } else {
                assert(all[i] == later[i - 1]);
            }
        }
    }
}

/// Registry of claimed identifiers, with the identifiers that no source may
/// have.
#[derive(Debug)]
pub struct IdResolver {
    reserved: Vec<String>,
    claimed: Vec<String>,
}

impl IdResolver {
    /// The identifiers that no source may have.
    pub closed spec fn reserved_ids(&self) -> Seq<Seq<char>> {
        views(self.reserved@)
    }

    /// The identifiers handed out so far, oldest first.
    pub closed spec fn claimed_ids(&self) -> Seq<Seq<char>> {
        views(self.claimed@)
    }

    /// A registry without claimed identifiers.
    pub fn new(reserved: Vec<String>) -> (resolver: IdResolver)
        ensures
            resolver.reserved_ids() == views(reserved@),
            resolver.claimed_ids() == Seq::<Seq<char>>::empty(),
    {
        let resolver = IdResolver { reserved, claimed: Vec::new() };
        assert(resolver.claimed_ids() =~= Seq::<Seq<char>>::empty());
        resolver
    }

    /// Number of identifiers handed out so far.
    pub fn len(&self) -> (n: usize)
        ensures
            n == self.claimed_ids().len(),
    {
        self.claimed.len()
    }

    /// Tests whether `id` has been handed out.
    pub fn is_claimed(&self, id: &str) -> (claimed: bool)
        ensures
            claimed == self.claimed_ids().contains(id@),
    {
        contains_str(&self.claimed, id)
    }

    /// Tests whether `id` is one of the identifiers that no source may have.
    pub fn is_reserved(&self, id: &str) -> (reserved: bool)
        ensures
            reserved == self.reserved_ids().contains(id@),
    {
        contains_str(&self.reserved, id)
    }

    /// Claims an identifier for a source that would like `desired`, and
    /// returns it: `desired` itself where it is neither reserved nor claimed,
    /// else `desired.k` for the least `k` from 1 up that makes it unclaimed.
    pub fn resolve(&mut self, desired: &str) -> (id: String)
        ensures
            id@ == spec_resolve(old(self).reserved_ids(), old(self).claimed_ids(), desired@),
            !old(self).claimed_ids().contains(id@),
            final(self).claimed_ids() == old(self).claimed_ids().push(id@),
            final(self).reserved_ids() == old(self).reserved_ids(),
    {
        let ghost claimed = self.claimed_ids();
        proof {
            lemma_least_free_suffix(claimed, desired@);
        }
        if !contains_str(&self.reserved, desired) && !contains_str(&self.claimed, desired) {
            let id: String = desired.to_owned();
            self.claimed.push(id.clone());
            assert(self.claimed_ids() =~= claimed.push(id@));
            return id;
        }
        let ghost n: usize = self.claimed.len();
        assert(claimed.len() == n);
        let mut k: u128 = 1;
        loop
            invariant
                1 <= k <= claimed.len() + 1,
                claimed == self.claimed_ids(),
                claimed == old(self).claimed_ids(),
                claimed.len() <= usize::MAX,
                self.reserved == old(self).reserved,
                !is_free(old(self).reserved_ids(), claimed, desired@),
                forall|j: nat| 1 <= j < k ==> claimed.contains(#[trigger] candidate(desired@, j)),
            decreases claimed.len() + 1 - k,
        {
            let mut id: String = desired.to_owned();
            id.push('.');
            push_decimal(&mut id, k);
            assert(id@ =~= candidate(desired@, k as nat));
            if !contains_str(&self.claimed, id.as_str()) {
                proof {
                    lemma_least_free_suffix_unique(
                        claimed,
                        desired@,
                        k as nat,
                        least_free_suffix(claimed, desired@),
                    );
                }
                self.claimed.push(id.clone());
                assert(self.claimed_ids() =~= claimed.push(id@));
                return id;
            }
            proof {
                lemma_claimed_suffixes_bounded(claimed, desired@, (k + 1) as nat);
            }
            k += 1;
        }
    }
}

} // verus!
