//! What holds of a registry over a run of calls.

use crate::clients::{set_outcome, state_after_set, AppClients};
use vstd::prelude::*;

verus! {

/// The registry's state after `set` is called with each of `bundles` in turn,
/// starting from state `s`.
pub open spec fn state_after_sets(s: Option<AppClients>, bundles: Seq<AppClients>) -> Option<
    AppClients,
>
    decreases bundles.len(),
{
    if bundles.len() == 0 {
        s
    } else {
        state_after_sets(state_after_set(s, bundles[0]), bundles.drop_first())
    }
}

/// What each of those `set` calls returns, in order.
pub open spec fn outcomes_of_sets(s: Option<AppClients>, bundles: Seq<AppClients>) -> Seq<
    Result<(), AppClients>,
>
    decreases bundles.len(),
{
    if bundles.len() == 0 {
        Seq::empty()
    } else {
        seq![set_outcome(s, bundles[0])] + outcomes_of_sets(
            state_after_set(s, bundles[0]),
            bundles.drop_first(),
        )
    }
}

/// Once a registry holds a bundle, every later `set` fails and hands back
/// exactly the bundle it was given, and the stored bundle stays as it was.
pub proof fn lemma_sets_on_full_registry(s: Option<AppClients>, bundles: Seq<AppClients>)
    requires
        s is Some,
    ensures
        state_after_sets(s, bundles) == s,
        outcomes_of_sets(s, bundles).len() == bundles.len(),
        forall|i: int|
            0 <= i < bundles.len() ==> #[trigger] outcomes_of_sets(s, bundles)[i] == Err::<
                (),
                AppClients,
            >(bundles[i]),
    decreases bundles.len(),
{
    if bundles.len() > 0 {
        let rest = bundles.drop_first();
        lemma_sets_on_full_registry(s, rest);
        assert forall|i: int| 0 <= i < bundles.len() implies #[trigger] outcomes_of_sets(
            s,
            bundles,
        )[i] == Err::<(), AppClients>(bundles[i]) by {
            if i > 0 {
                assert(bundles[i] == rest[i - 1]);
            }
        }
    }
}

/// Of any run of `set` calls on an empty registry, the first succeeds and
/// every other one fails with its own bundle handed back; the registry then
/// holds the first bundle. So exactly one call succeeds.
pub proof fn lemma_exactly_one_set_succeeds(bundles: Seq<AppClients>)
    requires
        bundles.len() > 0,
    ensures
        state_after_sets(None, bundles) == Some(bundles[0]),
        outcomes_of_sets(None, bundles).len() == bundles.len(),
        outcomes_of_sets(None, bundles)[0] == Ok::<(), AppClients>(()),
        forall|i: int|
            1 <= i < bundles.len() ==> #[trigger] outcomes_of_sets(None, bundles)[i] == Err::<
                (),
                AppClients,
            >(bundles[i]),
        forall|i: int, j: int|
            0 <= i < bundles.len() && 0 <= j < bundles.len() && (#[trigger] outcomes_of_sets(
                None,
                bundles,
            )[i]) is Ok && (#[trigger] outcomes_of_sets(None, bundles)[j]) is Ok ==> i == j,
{
    let rest = bundles.drop_first();
    let s = Some(bundles[0]);
    lemma_sets_on_full_registry(s, rest);
    assert forall|i: int| 1 <= i < bundles.len() implies #[trigger] outcomes_of_sets(
        None,
        bundles,
    )[i] == Err::<(), AppClients>(bundles[i]) by {
        assert(outcomes_of_sets(s, rest)[i - 1] == Err::<(), AppClients>(rest[i - 1]));
    }
}

/// After a successful `set(bundle)`, however many `set` calls follow, the
/// registry holds `bundle`: every `get` returns it.
pub proof fn lemma_get_after_set(bundle: AppClients, later: Seq<AppClients>)
    ensures
        state_after_sets(None, seq![bundle] + later) == Some(bundle),
{
    let bundles = seq![bundle] + later;
    assert(bundles.drop_first() =~= later);
    lemma_sets_on_full_registry(Some(bundle), later);
}

/// Two reads of one registry state give the same bundle: `get` changes
/// nothing and its result is fixed by the state alone.
pub proof fn lemma_get_repeatable(s: Option<AppClients>, first: AppClients, second: AppClients)
    requires
        s == Some(first),
        s == Some(second),
    ensures
        first == second,
{
}

} // verus!
