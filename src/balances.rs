use vstd::prelude::*;
use vstd::string::*;

use crate::error::ApiError;
use crate::query::ValidatorBalanceQuery;
use crate::text::{decimal, hex_string, to_hex_string, u64_to_decimal};
use crate::types::{BeaconState, Validator};

verus! {

/// The most identifiers a balance filter may hold.
pub const MAX_VALIDATOR_IDS: usize = 1000;

/// One entry of a balance listing, both fields in decimal.
#[derive(Debug)]
pub struct ValidatorBalance {
    pub index: String,
    pub balance: String,
}

impl View for ValidatorBalance {
    type V = (Seq<char>, Seq<char>);

    open spec fn view(&self) -> (Seq<char>, Seq<char>) {
        (self.index@, self.balance@)
    }
}

/// The answer to a balance request.
#[derive(Debug)]
pub struct ValidatorBalancesResponse {
    pub execution_optimistic: bool,
    pub finalized: bool,
    pub data: Vec<ValidatorBalance>,
}

/// The characters of each string.
pub open spec fn ids_view(ids: Seq<String>) -> Seq<Seq<char>> {
    ids.map_values(|s: String| s@)
}

/// The identifiers a query names, if it names a list.
pub open spec fn query_ids(query: &ValidatorBalanceQuery) -> Option<Seq<Seq<char>>> {
    match query.id {
        Some(ids) => Some(ids_view(ids@)),
        None => None,
    }
}

/// The filter in force: none for an absent or empty list, else the set of
/// identifiers listed.
pub open spec fn active_filter(ids: Option<Seq<Seq<char>>>) -> Option<Set<Seq<char>>> {
    match ids {
        Some(s) => if s.len() == 0 { None } else { Some(s.to_set()) },
        None => None,
    }
}

/// Whether the filter holds more identifiers than allowed.
pub open spec fn too_many_ids(filter: Option<Set<Seq<char>>>) -> bool {
    match filter {
        Some(s) => s.len() > MAX_VALIDATOR_IDS,
        None => false,
    }
}

/// Whether validator `i` passes the filter: by its decimal index or its hex
/// public key.
pub open spec fn included(vs: Seq<Validator>, filter: Option<Set<Seq<char>>>, i: int) -> bool {
    match filter {
        None => true,
        Some(s) => s.contains(decimal(i as nat)) || s.contains(hex_string(vs[i].pubkey@)),
    }
}

/// The indices below `k` that pass the filter, ascending.
pub open spec fn listed_indices(vs: Seq<Validator>, filter: Option<Set<Seq<char>>>, k: nat) -> Seq<int>
    decreases k,
{
    if k == 0 {
        Seq::empty()
    } else {
        let prev = listed_indices(vs, filter, (k - 1) as nat);
        if included(vs, filter, k - 1) {
            prev.push(k - 1)
        } else {
            prev
        }
    }
}

/// The balance at `i`, zero where the balances end early.
pub open spec fn balance_or_zero(bs: Seq<u64>, i: int) -> u64 {
    if 0 <= i < bs.len() { bs[i] } else { 0 }
}

/// The listing entry of index `i`.
pub open spec fn balance_entry(bs: Seq<u64>, i: int) -> (Seq<char>, Seq<char>) {
    (decimal(i as nat), decimal(balance_or_zero(bs, i) as nat))
}

/// The entries of a balance listing under `filter`, in index order.
pub open spec fn balance_listing(state: &BeaconState, filter: Option<Set<Seq<char>>>) -> Seq<(Seq<char>, Seq<char>)> {
    listed_indices(state.validators@, filter, state.validators@.len()).map_values(
        |i: int| balance_entry(state.balances@, i),
    )
}

/// An absent filter and an empty one both keep every validator, in index
/// order.
pub proof fn lemma_empty_filter_lists_all(state: &BeaconState)
    ensures
        active_filter(Some(Seq::empty())) == active_filter(None),
        active_filter(None) is None,
        balance_listing(state, active_filter(Some(Seq::empty())))
            == balance_listing(state, active_filter(None)),
        listed_indices(state.validators@, None, state.validators@.len())
            == Seq::new(state.validators@.len(), |j: int| j),
{
    lemma_unfiltered_indices(state.validators@, state.validators@.len());
}

proof fn lemma_unfiltered_indices(vs: Seq<Validator>, k: nat)
    ensures
        listed_indices(vs, None, k) == Seq::new(k, |j: int| j),
    decreases k,
{
    if k > 0 {
        lemma_unfiltered_indices(vs, (k - 1) as nat);
        assert(listed_indices(vs, None, k) =~= Seq::new(k, |j: int| j));
    }
}

/// The listed indices ascend strictly, so no validator is listed twice even
/// when the filter names it both by index and by public key; an index below
/// `k` is listed exactly when it passes the filter.
pub proof fn lemma_listed_once(vs: Seq<Validator>, filter: Option<Set<Seq<char>>>, k: nat)
    ensures
        forall|a: int, b: int|
            0 <= a < b < listed_indices(vs, filter, k).len()
                ==> listed_indices(vs, filter, k)[a] < listed_indices(vs, filter, k)[b],
        listed_indices(vs, filter, k).no_duplicates(),
        forall|i: int| 0 <= i < k ==> (listed_indices(vs, filter, k).contains(i) <==> included(vs, filter, i)),
        forall|x: int| listed_indices(vs, filter, k).contains(x) ==> 0 <= x < k,
    decreases k,
{
    if k > 0 {
        lemma_listed_once(vs, filter, (k - 1) as nat);
        let prev = listed_indices(vs, filter, (k - 1) as nat);
        let cur = listed_indices(vs, filter, k);
        if included(vs, filter, k - 1) {
            assert(cur == prev.push(k - 1));
            assert forall|x: int| cur.contains(x) implies 0 <= x < k by {
                let t = choose|t: int| 0 <= t < cur.len() && cur[t] == x;
                if t < prev.len() {
                    assert(prev[t] == x);
                    assert(prev.contains(x));
                } else {
                    assert(x == k - 1);
                }
            }
            assert forall|a: int, b: int| 0 <= a < b < cur.len() implies cur[a] < cur[b] by {
                if b == prev.len() {
                    assert(prev.contains(prev[a]));
                }
            }
            assert forall|i: int| 0 <= i < k implies (cur.contains(i) <==> included(vs, filter, i)) by {
                if i < k - 1 {
                    if cur.contains(i) {
                        let t = choose|t: int| 0 <= t < cur.len() && cur[t] == i;
                        if t < prev.len() {
                            assert(prev[t] == i);
                        }
                    }
                    if prev.contains(i) {
                        let t = choose|t: int| 0 <= t < prev.len() && prev[t] == i;
                        assert(cur[t] == i);
                    }
                } else {
                    assert(cur[prev.len() as int] == i);
                }
            }
        }
        let cur = listed_indices(vs, filter, k);
        assert forall|a: int, b: int| 0 <= a < cur.len() && 0 <= b < cur.len() && a != b implies cur[a] != cur[b] by {
            if a < b {
                assert(cur[a] < cur[b]);
            } else {
                assert(cur[b] < cur[a]);
            }
        }
    }
}

fn contains_id(ids: &Vec<String>, s: &String) -> (r: bool)
    ensures
        r == ids_view(ids@).contains(s@),
{
    let mut i: usize = 0;
    while i < ids.len()
        invariant
            i <= ids@.len(),
            forall|j: int| 0 <= j < i ==> ids@[j]@ != s@,
        decreases ids@.len() - i,
    {
        if ids[i] == *s {
            assert(ids_view(ids@)[i as int] == s@);
            return true;
        }
        i = i + 1;
    }
    assert(!ids_view(ids@).contains(s@)) by {
        if ids_view(ids@).contains(s@) {
            let j = choose|j: int| 0 <= j < ids_view(ids@).len() && ids_view(ids@)[j] == s@;
            assert(ids@[j]@ == s@);
        }
    }
    false
}

fn distinct_count(ids: &Vec<String>) -> (r: usize)
    ensures
        r as nat == ids_view(ids@).to_set().len(),
{
    let mut uniq: Vec<String> = Vec::new();
    let mut i: usize = 0;
    while i < ids.len()
        invariant
            i <= ids@.len(),
            uniq@.len() <= i,
            ids_view(uniq@).no_duplicates(),
            ids_view(uniq@).to_set() == ids_view(ids@.subrange(0, i as int)).to_set(),
        decreases ids@.len() - i,
    {
        let ghost before = ids_view(uniq@);
        let s = ids[i].clone();
        assert(ids_view(ids@.subrange(0, i + 1)) =~= ids_view(ids@.subrange(0, i as int)).push(s@));
        proof {
            ids_view(ids@.subrange(0, i as int)).lemma_push_to_set_commute(s@);
            before.lemma_push_to_set_commute(s@);
        }
        if !contains_id(&uniq, &s) {
            uniq.push(s);
            assert(ids_view(uniq@) =~= before.push(s@));
            assert(ids_view(uniq@).to_set() =~= ids_view(ids@.subrange(0, i + 1)).to_set());
        } else {
            assert(ids_view(uniq@).to_set() =~= ids_view(ids@.subrange(0, i + 1)).to_set());
        }
        i = i + 1;
    }
    assert(ids@.subrange(0, ids@.len() as int) =~= ids@);
    proof {
        ids_view(uniq@).unique_seq_to_set();
    }
    uniq.len()
}

/// Lists `(index, balance)` of the validators of `state` that the query's
/// filter keeps, in index order; refuses a filter of more than
/// `MAX_VALIDATOR_IDS` distinct identifiers before looking at any validator.
pub fn get_validator_balances_from_state(
    state: &BeaconState,
    query: &ValidatorBalanceQuery,
) -> (r: Result<ValidatorBalancesResponse, ApiError>)
    ensures
        match r {
            Ok(resp) => !too_many_ids(active_filter(query_ids(query)))
                && !resp.execution_optimistic && !resp.finalized
                && resp.data@.map_values(|b: ValidatorBalance| b@)
                    == balance_listing(state, active_filter(query_ids(query))),
            Err(ApiError::TooManyValidatorIds(m)) => too_many_ids(active_filter(query_ids(query)))
                && m@ == "Too many validator IDs in request"@,
            Err(_) => false,
        },
{
    let ghost f = active_filter(query_ids(query));
    let filter: Option<&Vec<String>> = match &query.id {
        Some(ids) => if ids.len() == 0 { None } else { Some(ids) },
        None => None,
    };
    assert(query.id is Some ==> ids_view(query.id->Some_0@).len() == query.id->Some_0@.len());
    if let Some(ids) = filter {
        if distinct_count(ids) > MAX_VALIDATOR_IDS {
            return Err(ApiError::TooManyValidatorIds(
                String::from_str("Too many validator IDs in request"),
            ));
        }
    }
    let mut data: Vec<ValidatorBalance> = Vec::new();
    let mut i: usize = 0;
    while i < state.validators.len()
        invariant
            i <= state.validators@.len(),
            f == active_filter(query_ids(query)),
            filter is None <==> f is None,
            filter is Some ==> f == Some(ids_view(filter->Some_0@).to_set()),
            data@.map_values(|b: ValidatorBalance| b@)
                == listed_indices(state.validators@, f, i as nat).map_values(
                    |j: int| balance_entry(state.balances@, j),
                ),
        decreases state.validators@.len() - i,
    {
        let keep = match filter {
            None => true,
            Some(ids) => {
                contains_id(ids, &u64_to_decimal(i as u64))
                    || contains_id(ids, &to_hex_string(&state.validators[i].pubkey))
            },
        };
        assert(keep == included(state.validators@, f, i as int));
        let ghost before = data@;
        if keep {
            let bal: u64 = if i < state.balances.len() { state.balances[i] } else { 0 };
            data.push(ValidatorBalance { index: u64_to_decimal(i as u64), balance: u64_to_decimal(bal) });
            assert(data@.map_values(|b: ValidatorBalance| b@) =~= before.map_values(|b: ValidatorBalance| b@).push(
                balance_entry(state.balances@, i as int),
            ));
            assert(listed_indices(state.validators@, f, (i + 1) as nat).map_values(
                |j: int| balance_entry(state.balances@, j),
            ) =~= listed_indices(state.validators@, f, i as nat).map_values(
                |j: int| balance_entry(state.balances@, j),
            ).push(balance_entry(state.balances@, i as int)));
        }
        i = i + 1;
    }
    Ok(ValidatorBalancesResponse { execution_optimistic: false, finalized: false, data })
}

} // verus!
