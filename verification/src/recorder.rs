//! The recorder that a mock keeps for each method: which result to give at which
//! call, and how often the method may or must be called.
//!
//! The generator emits the source text of such a recorder for every mocked
//! trait, static method and foreign function (`templates::mock_method_body_text`).
//! This type carries out the same rules as a type of the library, so that they
//! can be proved; nothing proves the emitted text to follow them. A `panic!` of
//! the emitted code is a [`CallError`] here.
use vstd::prelude::*;
use std::collections::HashMap;

verus! {

broadcast use vstd::std_specs::hash::group_hash_axioms;

/// Why a call, or the check made when a recorder is dropped, fails.
pub enum CallError {
    /// The method was marked as never to be called.
    NeverCalled,
    /// The call with this number goes past the most calls allowed.
    TooManyCalls { calls: usize },
    /// Fewer calls were made than the least required.
    TooFewCalls { calls: usize, min: usize },
}

/// The recorder of one method, with results of type `R`, a function of type `F`
/// that gives every result once it is set, and a condition of type `G` under
/// which calls are answered once it is set.
pub struct MethodRecorder<R, F, G> {
    call_num: usize,
    current_num: usize,
    retval: HashMap<usize, R>,
    lambda: Option<F>,
    condition: Option<G>,
    should_never_be_called: bool,
    max_calls: Option<usize>,
    min_calls: Option<usize>,
}

/// The value of a [`MethodRecorder`]: the call number that results are set for,
/// the number of the next call, the results set for each call number, the
/// function that gives results, the condition of answering, and the limits on
/// calls.
pub struct RecorderView<R, F, G> {
    pub call_num: usize,
    pub current_num: usize,
    pub results: Map<usize, R>,
    pub lambda: Option<F>,
    pub condition: Option<G>,
    pub never_called: bool,
    pub max_calls: Option<usize>,
    pub min_calls: Option<usize>,
}

impl<R, F, G> View for MethodRecorder<R, F, G> {
    type V = RecorderView<R, F, G>;

    closed spec fn view(&self) -> RecorderView<R, F, G> {
        RecorderView {
            call_num: self.call_num,
            current_num: self.current_num,
            results: self.retval@,
            lambda: self.lambda,
            condition: self.condition,
            never_called: self.should_never_be_called,
            max_calls: self.max_calls,
            min_calls: self.min_calls,
        }
    }
}

/// A fresh recorder: results are set for the first call, the next call is the
/// first, nothing is set and nothing is limited.
pub open spec fn recorder_new<R, F, G>() -> RecorderView<R, F, G> {
    RecorderView {
        call_num: 1,
        current_num: 1,
        results: Map::empty(),
        lambda: None,
        condition: None,
        never_called: false,
        max_calls: None,
        min_calls: None,
    }
}

/// Whether the call numbered `current_num` goes past the most calls allowed.
pub open spec fn exceeds_max_calls<R, F, G>(v: RecorderView<R, F, G>, current_num: usize) -> bool {
    match v.max_calls {
        Some(max) => current_num > max,
        None => false,
    }
}

/// The recorder after a call made while no function gives the results and no
/// condition is set, and the call's answer: the result set for this call (taken out), none when none was
/// set, or the refusal of a call the limits forbid.
pub open spec fn recorder_call<R, F, G>(v: RecorderView<R, F, G>) -> (RecorderView<R, F, G>, Result<
    Option<R>,
    CallError,
>) {
    if v.never_called {
        (v, Err(CallError::NeverCalled))
    } else {
        let cur = v.current_num;
        let next = RecorderView { current_num: (cur + 1) as usize, ..v };
        if exceeds_max_calls(v, cur) {
            (next, Err(CallError::TooManyCalls { calls: cur }))
        } else if v.results.contains_key(cur) {
            (RecorderView { results: v.results.remove(cur), ..next }, Ok(Some(v.results[cur])))
        } else {
            (next, Ok(None))
        }
    }
}

/// What a call does, given whether the condition holds (`holds`; true when no
/// condition is set): a method marked as never to be called refuses the call;
/// otherwise the call is counted, and refused when it goes past the most calls
/// allowed; a call whose condition does not hold gives none back; else the
/// function gives the result when one is set, and otherwise the result set for
/// this call is taken out and given back (none when none was set).
pub open spec fn call_outcome<R, F: Fn() -> R, G>(
    v: RecorderView<R, F, G>,
    fin: RecorderView<R, F, G>,
    res: Result<Option<R>, CallError>,
    holds: bool,
) -> bool {
    if v.never_called {
        fin == v && res == Err::<Option<R>, CallError>(CallError::NeverCalled)
    } else {
        let cur = v.current_num;
        let next = RecorderView { current_num: (cur + 1) as usize, ..v };
        if exceeds_max_calls(v, cur) {
            fin == next && res == Err::<Option<R>, CallError>(CallError::TooManyCalls { calls: cur })
        } else if !holds {
            fin == next && res == Ok::<Option<R>, CallError>(None)
        } else {
            match v.lambda {
                Some(f) => fin == next && (res matches Ok(Some(r)) && f.ensures((), r)),
                None => (fin, res) == recorder_call(v),
            }
        }
    }
}

/// Whether a call reaches the point where the condition is asked: the method
/// is not marked as never to be called and the call stays within the limit.
pub open spec fn condition_consulted<R, F, G>(v: RecorderView<R, F, G>) -> bool {
    !v.never_called && !exceeds_max_calls(v, v.current_num)
}

/// The check made when a recorder is dropped: fails when fewer calls were made
/// than the least required.
pub open spec fn recorder_check<R, F, G>(v: RecorderView<R, F, G>) -> Result<(), CallError> {
    match v.min_calls {
        Some(min) => if v.current_num - 1 < min {
            Err(CallError::TooFewCalls { calls: (v.current_num - 1) as usize, min })
        } else {
            Ok(())
        },
        None => Ok(()),
    }
}

impl<R, F: Fn() -> R, G: Fn() -> bool> MethodRecorder<R, F, G> {
    /// A fresh recorder.
    pub fn new() -> (res: Self)
        ensures
            res@ == recorder_new::<R, F, G>(),
    {
        MethodRecorder {
            call_num: 1,
            current_num: 1,
            retval: HashMap::new(),
            lambda: None,
            condition: None,
            should_never_be_called: false,
            max_calls: None,
            min_calls: None,
        }
    }

    /// Sets results for the call numbered `num` from now on.
    pub fn nth_call(self, num: usize) -> (res: Self)
        ensures
            res@ == (RecorderView { call_num: num, ..self@ }),
    {
        MethodRecorder { call_num: num, ..self }
    }

    /// Sets results for the first call from now on.
    pub fn first_call(self) -> (res: Self)
        ensures
            res@ == (RecorderView { call_num: 1, ..self@ }),
    {
        self.nth_call(1)
    }

    /// Sets results for the second call from now on.
    pub fn second_call(self) -> (res: Self)
        ensures
            res@ == (RecorderView { call_num: 2, ..self@ }),
    {
        self.nth_call(2)
    }

    /// Sets the result of the call that results are set for, in place of any
    /// result set for it before. Not allowed once a function gives the results.
    pub fn set_result(self, retval: R) -> (res: Self)
        requires
            self@.lambda is None,
        ensures
            res@ == (RecorderView { results: self@.results.insert(self@.call_num, retval), ..self@ }),
    {
        let mut map = self.retval;
        map.insert(self.call_num, retval);
        MethodRecorder { retval: map, ..self }
    }

    /// Marks the method as never to be called. Not allowed once a most number
    /// of calls is set.
    pub fn never_called(self) -> (res: Self)
        requires
            self@.max_calls is None,
        ensures
            res@ == (RecorderView { never_called: true, ..self@ }),
    {
        MethodRecorder { should_never_be_called: true, ..self }
    }

    /// Allows at most `calls` calls. Not allowed once the method is marked as
    /// never to be called.
    pub fn called_at_most(self, calls: usize) -> (res: Self)
        requires
            !self@.never_called,
        ensures
            res@ == (RecorderView { max_calls: Some(calls), ..self@ }),
    {
        MethodRecorder { max_calls: Some(calls), ..self }
    }

    /// Requires at least `calls` calls.
    pub fn called_at_least(self, calls: usize) -> (res: Self)
        ensures
            res@ == (RecorderView { min_calls: Some(calls), ..self@ }),
    {
        MethodRecorder { min_calls: Some(calls), ..self }
    }

    /// Requires exactly one call.
    pub fn called_once(self) -> (res: Self)
        requires
            !self@.never_called,
        ensures
            res@ == (RecorderView { max_calls: Some(1), min_calls: Some(1), ..self@ }),
    {
        self.called_at_most(1).called_at_least(1)
    }

    /// Requires exactly `calls` calls.
    pub fn called_ntimes(self, calls: usize) -> (res: Self)
        requires
            !self@.never_called,
        ensures
            res@ == (RecorderView { max_calls: Some(calls), min_calls: Some(calls), ..self@ }),
    {
        self.called_at_most(calls).called_at_least(calls)
    }

    /// Lets `lambda` give every result from now on.
    pub fn return_result_of(self, lambda: F) -> (res: Self)
        ensures
            res@ == (RecorderView { lambda: Some(lambda), ..self@ }),
    {
        MethodRecorder { lambda: Some(lambda), ..self }
    }

    /// Answers calls only when `condition` holds, from now on.
    pub fn when(self, condition: G) -> (res: Self)
        ensures
            res@ == (RecorderView { condition: Some(condition), ..self@ }),
    {
        MethodRecorder { condition: Some(condition), ..self }
    }

    /// Whether the call numbered `current_num` goes past the most calls allowed.
    fn exceedes_max_calls(&self, current_num: usize) -> (res: bool)
        ensures
            res == exceeds_max_calls(self@, current_num),
    {
        let mut retval = false;
        if let Some(max_calls) = self.max_calls {
            retval = current_num > max_calls;
        }
        retval
    }

    /// Answers a call of the method: the result set for this call, taken out
    /// (none when none was set, for the mock to fall back), or what the function
    /// gives when one is set; none when a condition is set and does not hold;
    /// refused when the limits forbid the call.
    pub fn call(&mut self) -> (res: Result<Option<R>, CallError>)
        requires
            old(self)@.current_num < usize::MAX,
            old(self)@.lambda matches Some(f) ==> f.requires(()),
            old(self)@.condition matches Some(g) ==> g.requires(()),
        ensures
            old(self)@.lambda is None && old(self)@.condition is None ==> (final(self)@, res)
                == recorder_call(old(self)@),
            old(self)@.condition is None ==> call_outcome(old(self)@, final(self)@, res, true),
            old(self)@.condition matches Some(g) ==> exists|holds: bool|
                (condition_consulted(old(self)@) ==> g.ensures((), holds)) && #[trigger] call_outcome(
                    old(self)@,
                    final(self)@,
                    res,
                    holds,
                ),
    {
        let ghost mut holds_seen = true;
        let res = if self.should_never_be_called {
            Err(CallError::NeverCalled)
        } else {
            let current_num = self.current_num;
            self.current_num = current_num + 1;
            if self.exceedes_max_calls(current_num) {
                Err(CallError::TooManyCalls { calls: current_num })
            } else {
                let holds = match &self.condition {
                    Some(cond) => cond(),
                    None => true,
                };
                proof {
                    holds_seen = holds;
                }
                if !holds {
                    Ok(None)
                } else {
                    match &self.lambda {
                        Some(lm) => Ok(Some(lm())),
                        None => {
                            let ghost before = self.retval@;
                            let r = self.retval.remove(&current_num);
                            proof {
                                if !before.contains_key(current_num) {
                                    assert(before.remove(current_num) =~= before);
                                }
                            }
                            Ok(r)
                        },
                    }
                }
            }
        };
        assert(call_outcome(old(self)@, self@, res, holds_seen));
        res
    }

    /// The check made when the recorder is dropped: fails when fewer calls were
    /// made than the least required.
    pub fn check_called_at_least(&self) -> (res: Result<(), CallError>)
        requires
            self@.current_num >= 1,
        ensures
            res == recorder_check(self@),
    {
        if let Some(min_calls) = self.min_calls {
            let calls = self.current_num - 1;
            if calls < min_calls {
                return Err(CallError::TooFewCalls { calls, min: min_calls });
            }
        }
        Ok(())
    }
}

/// A result set for the call that comes next is what that call gives back, when
/// the limits allow the call and no function gives the results.
pub proof fn law_set_result_then_call<R, F, G>(v: RecorderView<R, F, G>, r: R)
    requires
        v.lambda is None,
        !v.never_called,
        !exceeds_max_calls(v, v.current_num),
    ensures
        recorder_call(RecorderView { results: v.results.insert(v.current_num, r), ..v }).1 == Ok::<
            Option<R>,
            CallError,
        >(Some(r)),
{
}

/// Results set for different calls do not disturb each other: after the result
/// of one call is given back, the result set for another call is still there.
pub proof fn law_results_independent<R, F, G>(v: RecorderView<R, F, G>, r: R, later: usize)
    requires
        !v.never_called,
        !exceeds_max_calls(v, v.current_num),
        later != v.current_num,
        v.results.contains_key(later),
    ensures
        recorder_call(v).0.results.contains_key(later),
        recorder_call(v).0.results[later] == v.results[later],
{
}

/// A call for which no result was set gives none back, for the mock to fall
/// back.
pub proof fn law_unset_call_falls_back<R, F, G>(v: RecorderView<R, F, G>)
    requires
        !v.never_called,
        !exceeds_max_calls(v, v.current_num),
        !v.results.contains_key(v.current_num),
    ensures
        recorder_call(v).1 == Ok::<Option<R>, CallError>(None),
{
}

/// Every call of a method marked as never to be called is refused.
pub proof fn law_never_called_refuses<R, F, G>(v: RecorderView<R, F, G>)
    requires
        v.never_called,
    ensures
        recorder_call(v).1 == Err::<Option<R>, CallError>(CallError::NeverCalled),
{
}

/// With at most `max` calls allowed, the calls numbered up to `max` are
/// answered and the ones after are refused.
pub proof fn law_called_at_most<R, F, G>(v: RecorderView<R, F, G>, max: usize)
    requires
        !v.never_called,
        v.max_calls == Some(max),
        v.current_num < usize::MAX,
    ensures
        recorder_call(v).1 is Err <==> v.current_num > max,
        recorder_call(v).0.current_num == v.current_num + 1,
{
}

/// The check made when a recorder is dropped passes exactly when at least the
/// required number of calls was made.
pub proof fn law_called_at_least<R, F, G>(v: RecorderView<R, F, G>, min: usize)
    requires
        v.min_calls == Some(min),
        v.current_num >= 1,
    ensures
        recorder_check(v) is Ok <==> v.current_num - 1 >= min,
{
}

/// A call, within the limits, whose condition does not hold gives none back, for
/// the mock to fall back, and leaves the results set as they were.
pub proof fn law_condition_unmet_falls_back<R, F: Fn() -> R, G>(
    v: RecorderView<R, F, G>,
    fin: RecorderView<R, F, G>,
    res: Result<Option<R>, CallError>,
)
    requires
        condition_consulted(v),
        call_outcome(v, fin, res, false),
    ensures
        res == Ok::<Option<R>, CallError>(None),
        fin.results == v.results,
{
}

/// Every call of a method not marked as never to be called is counted,
/// whatever answers it: a result set for the call, the function set by
/// `return_result_of`, nothing when the condition does not hold, or the
/// refusal of a call past the most allowed. The number of the next call goes
/// up by one, and the limits and the function stay as they were.
pub proof fn law_every_call_counts<R, F: Fn() -> R, G>(
    v: RecorderView<R, F, G>,
    fin: RecorderView<R, F, G>,
    res: Result<Option<R>, CallError>,
    holds: bool,
)
    requires
        !v.never_called,
        v.current_num < usize::MAX,
        call_outcome(v, fin, res, holds),
    ensures
        fin.current_num == v.current_num + 1,
        fin.max_calls == v.max_calls,
        fin.min_calls == v.min_calls,
        fin.never_called == v.never_called,
        fin.lambda == v.lambda,
{
}

/// With at most `n` calls allowed, the call numbered `n` is answered and the
/// next one is refused as call `n + 1`, whatever answers the calls, a function
/// set by `return_result_of` and a condition included; once the call numbered
/// `n` was made, at least `n` calls were made.
pub proof fn law_call_after_last_allowed_refused<R, F: Fn() -> R, G>(
    v: RecorderView<R, F, G>,
    n: usize,
    fin1: RecorderView<R, F, G>,
    res1: Result<Option<R>, CallError>,
    holds1: bool,
    fin2: RecorderView<R, F, G>,
    res2: Result<Option<R>, CallError>,
    holds2: bool,
)
    requires
        !v.never_called,
        v.max_calls == Some(n),
        v.current_num == n,
        n < usize::MAX,
        call_outcome(v, fin1, res1, holds1),
        call_outcome(fin1, fin2, res2, holds2),
    ensures
        res1 is Ok,
        res2 == Err::<Option<R>, CallError>(CallError::TooManyCalls { calls: (n + 1) as usize }),
        v.min_calls matches Some(min) && min <= n ==> recorder_check(fin1) is Ok,
{
}

/// The refusals come first: a method marked as never to be called refuses
/// every call and is left as it was, and a call past the most allowed is
/// refused as the call with its number, whatever function or condition is set.
pub proof fn law_refusals_come_first<R, F: Fn() -> R, G>(
    v: RecorderView<R, F, G>,
    fin: RecorderView<R, F, G>,
    res: Result<Option<R>, CallError>,
    holds: bool,
)
    requires
        call_outcome(v, fin, res, holds),
    ensures
        v.never_called ==> fin == v && res == Err::<Option<R>, CallError>(CallError::NeverCalled),
        !v.never_called && exceeds_max_calls(v, v.current_num) ==> res == Err::<
            Option<R>,
            CallError,
        >(CallError::TooManyCalls { calls: v.current_num }) && fin.results == v.results,
{
}

/// Within the limits and with its condition holding, a call is answered by the
/// function set by `return_result_of` when there is one, which leaves the
/// results set for calls alone; otherwise by the result set for this call,
/// which is taken out, or by none.
pub proof fn law_answer_of_allowed_call<R, F: Fn() -> R, G>(
    v: RecorderView<R, F, G>,
    fin: RecorderView<R, F, G>,
    res: Result<Option<R>, CallError>,
)
    requires
        !v.never_called,
        !exceeds_max_calls(v, v.current_num),
        call_outcome(v, fin, res, true),
    ensures
        v.lambda matches Some(f) ==> (res matches Ok(Some(r)) && f.ensures((), r)) && fin.results
            == v.results,
        v.lambda is None && v.results.contains_key(v.current_num) ==> res == Ok::<
            Option<R>,
            CallError,
        >(Some(v.results[v.current_num])) && fin.results == v.results.remove(v.current_num),
        v.lambda is None && !v.results.contains_key(v.current_num) ==> res == Ok::<
            Option<R>,
            CallError,
        >(None) && fin.results == v.results,
{
}

} // verus!
