use vstd::prelude::*;

use crate::state::GlobalPool;
use crate::state::RateModel;

verus! {

/// The first position in `names` whose text is `role`, or -1 when no
/// entry matches.
pub open spec fn name_index(names: Seq<String>, role: Seq<char>) -> int
    decreases names.len(),
{
    if names.len() == 0 {
        -1
    } else if names[0]@ == role {
        0
    } else {
        let rest = name_index(names.drop_first(), role);
        if rest < 0 {
            -1
        } else {
            rest + 1
        }
    }
}

/// The first position in `durations` holding `duration`, or -1 when no
/// entry matches.
pub open spec fn duration_index(durations: Seq<u8>, duration: u8) -> int
    decreases durations.len(),
{
    if durations.len() == 0 {
        -1
    } else if durations[0] == duration {
        0
    } else {
        let rest = duration_index(durations.drop_first(), duration);
        if rest < 0 {
            -1
        } else {
            rest + 1
        }
    }
}

pub proof fn lemma_name_index_range(names: Seq<String>, role: Seq<char>)
    ensures
        -1 <= name_index(names, role) < names.len(),
    decreases names.len(),
{
    if names.len() > 0 && names[0]@ != role {
        lemma_name_index_range(names.drop_first(), role);
    }
}

pub proof fn lemma_name_index_found(names: Seq<String>, role: Seq<char>, i: int)
    requires
        0 <= i < names.len(),
        names[i]@ == role,
        forall|k: int| 0 <= k < i ==> names[k]@ != role,
    ensures
        name_index(names, role) == i,
    decreases i,
{
    if i > 0 {
        lemma_name_index_found(names.drop_first(), role, i - 1);
    }
}

pub proof fn lemma_name_index_missing(names: Seq<String>, role: Seq<char>)
    requires
        forall|k: int| 0 <= k < names.len() ==> names[k]@ != role,
    ensures
        name_index(names, role) == -1,
    decreases names.len(),
{
    if names.len() > 0 {
        lemma_name_index_missing(names.drop_first(), role);
    }
}

pub proof fn lemma_duration_index_range(durations: Seq<u8>, duration: u8)
    ensures
        -1 <= duration_index(durations, duration) < durations.len(),
    decreases durations.len(),
{
    if durations.len() > 0 && durations[0] != duration {
        lemma_duration_index_range(durations.drop_first(), duration);
    }
}

pub proof fn lemma_duration_index_found(durations: Seq<u8>, duration: u8, i: int)
    requires
        0 <= i < durations.len(),
        durations[i] == duration,
        forall|k: int| 0 <= k < i ==> durations[k] != duration,
    ensures
        duration_index(durations, duration) == i,
    decreases i,
{
    if i > 0 {
        lemma_duration_index_found(durations.drop_first(), duration, i - 1);
    }
}

pub proof fn lemma_duration_index_missing(durations: Seq<u8>, duration: u8)
    requires
        forall|k: int| 0 <= k < durations.len() ==> durations[k] != duration,
    ensures
        duration_index(durations, duration) == -1,
    decreases durations.len(),
{
    if durations.len() > 0 {
        lemma_duration_index_missing(durations.drop_first(), duration);
    }
}

/// The rate-resolution policy, evaluated once at stake time and
/// snapshotted into the item:
/// - `Trait`: the rate paired with the first trait name equal to `role`,
///   or 0 when no name matches;
/// - `Normal`: the flat rate;
/// - `Lock`: the rate paired with the first lock duration equal to
///   `lock_period`, or 0 when no duration matches.
pub open spec fn spec_resolve_rate(
    global: GlobalPool,
    model: RateModel,
    role: Seq<char>,
    lock_period: u8,
) -> int {
    match model {
        RateModel::Trait => {
            let i = name_index(global.trait_names@, role);
            if i < 0 {
                0
            } else {
                global.trait_rates@[i] as int
            }
        },
        RateModel::Normal => global.normal_rate as int,
        RateModel::Lock => {
            let i = duration_index(global.lock_durations@, lock_period);
            if i < 0 {
                0
            } else {
                global.lock_rates@[i] as int
            }
        },
    }
}

/// A well-formed table never resolves to a rate outside what an item's
/// signed field can store.
pub proof fn lemma_resolve_rate_fits(
    global: GlobalPool,
    model: RateModel,
    role: Seq<char>,
    lock_period: u8,
)
    requires
        global.wf(),
    ensures
        0 <= spec_resolve_rate(global, model, role, lock_period) <= i64::MAX,
{
    match model {
        RateModel::Trait => {
            lemma_name_index_range(global.trait_names@, role);
        },
        RateModel::Normal => {
        },
        RateModel::Lock => {
            lemma_duration_index_range(global.lock_durations@, lock_period);
        },
    }
}

/// Evaluates the rate-resolution policy against the current table.
pub fn resolve_rate(global: &GlobalPool, model: RateModel, role: &String, lock_period: u8) -> (rate:
    i64)
    requires
        global.wf(),
    ensures
        rate == spec_resolve_rate(*global, model, role@, lock_period),
        0 <= rate,
{
    proof {
        lemma_resolve_rate_fits(*global, model, role@, lock_period);
    }
    match model {
        RateModel::Trait => {
            let n = global.trait_names.len();
            let mut i: usize = 0;
            while i < n && !(global.trait_names[i] == *role)
                invariant
                    n == global.trait_names@.len(),
                    0 <= i <= n,
                    forall|k: int| 0 <= k < i ==> global.trait_names@[k]@ != role@,
                decreases n - i,
            {
                i += 1;
            }
            if i == n {
                proof {
                    lemma_name_index_missing(global.trait_names@, role@);
                }
                0
            } else {
                proof {
                    lemma_name_index_found(global.trait_names@, role@, i as int);
                }
                global.trait_rates[i] as i64
            }
        },
        RateModel::Normal => global.normal_rate as i64,
        RateModel::Lock => {
            let n = global.lock_durations.len();
            let mut i: usize = 0;
            while i < n && global.lock_durations[i] != lock_period
                invariant
                    n == global.lock_durations@.len(),
                    0 <= i <= n,
                    forall|k: int| 0 <= k < i ==> global.lock_durations@[k] != lock_period,
                decreases n - i,
            {
                i += 1;
            }
            if i == n {
                proof {
                    lemma_duration_index_missing(global.lock_durations@, lock_period);
                }
                0
            } else {
                proof {
                    lemma_duration_index_found(global.lock_durations@, lock_period, i as int);
                }
                global.lock_rates[i] as i64
            }
        },
    }
}

} // verus!
