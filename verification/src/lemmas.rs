//! What holds of every lifecycle state, proved from the definitions in
//! `state`.

use crate::state::State;
use vstd::prelude::*;
use vstd::std_specs::convert::FromSpec;

verus! {

/// How many of the four phase predicates hold of a state.
pub open spec fn phases_held<N, P, R>(s: State<N, P, R>) -> nat {
    let new: nat = if s.is_new() { 1 } else { 0 };
    let pending: nat = if s.is_pending() { 1 } else { 0 };
    let ready: nat = if s.is_ready() { 1 } else { 0 };
    let error: nat = if s.is_error() { 1 } else { 0 };
    new + pending + ready + error
}

/// A state is in exactly one phase: of `is_new`, `is_pending`, `is_ready` and
/// `is_error`, one holds and the other three do not.
pub proof fn lemma_exactly_one_phase<N, P, R>(s: State<N, P, R>)
    ensures
        phases_held(s) == 1,
{
}

/// Draining an error shows it once. On `Error(e)`, `take_error(first)` gives
/// `e` and leaves `first`; as long as `first` is not itself an error, a second
/// call gives nothing, leaves `first` untouched and drops `second`.
pub proof fn lemma_error_is_taken_once<N, P, R>(
    s: State<N, P, R>,
    first: State<N, P, R>,
    second: State<N, P, R>,
)
    requires
        s.is_error(),
        !first.is_error(),
    ensures
        s.spec_take_error(first) == (Some(s->Error_0), first),
        first.spec_take_error(second) == (None::<std::io::Error>, first),
{
}

/// Outside the error phase `take_error` changes nothing, whatever the
/// replacement.
pub proof fn lemma_take_error_leaves_other_phases<N, P, R>(
    s: State<N, P, R>,
    replacement: State<N, P, R>,
)
    requires
        !s.is_error(),
    ensures
        s.spec_take_error(replacement) == (None::<std::io::Error>, s),
{
}

/// A state made from a plain outcome is terminal: `Ok(v)` gives `Ready(v)`,
/// `Err(e)` gives `Error(e)`, and neither `New` nor `Pending` ever comes of
/// it.
pub proof fn lemma_outcome_is_terminal<N, P, R>(res: Result<R, std::io::Error>)
    ensures
        <State<N, P, R> as FromSpec<Result<R, std::io::Error>>>::obeys_from_spec(),
        <State<N, P, R> as FromSpec<Result<R, std::io::Error>>>::from_spec(res) == State::<
            N,
            P,
            R,
        >::of_outcome(res),
        res matches Ok(v) ==> State::<N, P, R>::of_outcome(res) == State::<N, P, R>::Ready(v),
        res matches Err(e) ==> State::<N, P, R>::of_outcome(res) == State::<N, P, R>::Error(e),
        State::<N, P, R>::of_outcome(res).is_terminal(),
        !State::<N, P, R>::of_outcome(res).is_new(),
        !State::<N, P, R>::of_outcome(res).is_pending(),
{
}

/// The rendered name tells the phase and nothing else: it is `"new"`,
/// `"pending"`, `"ready"` or `"error"`, each for its own phase only.
pub proof fn lemma_phase_name_tells_phase<N, P, R>(s: State<N, P, R>)
    ensures
        s.spec_phase_name() == "new"@ <==> s.is_new(),
        s.spec_phase_name() == "pending"@ <==> s.is_pending(),
        s.spec_phase_name() == "ready"@ <==> s.is_ready(),
        s.spec_phase_name() == "error"@ <==> s.is_error(),
{
    reveal_strlit("new");
    reveal_strlit("pending");
    reveal_strlit("ready");
    reveal_strlit("error");
    // The names differ in length, and the two of equal length in their first
    // letter.
    assert("new"@.len() == 3 && "pending"@.len() == 7);
    assert("ready"@.len() == 5 && "error"@.len() == 5);
    assert("ready"@[0] != "error"@[0]);
}

/// Two states in the same phase render alike, whatever their payloads.
pub proof fn lemma_phase_name_ignores_payload<N, P, R>(a: State<N, P, R>, b: State<N, P, R>)
    requires
        a.is_new() == b.is_new(),
        a.is_pending() == b.is_pending(),
        a.is_ready() == b.is_ready(),
        a.is_error() == b.is_error(),
    ensures
        a.spec_phase_name() == b.spec_phase_name(),
{
}

} // verus!
