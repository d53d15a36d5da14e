//! Procedures that ask the outside world questions as they go.
//!
//! Such a procedure is described by a tree: it is done, or it asks for a step
//! to be taken, and the reply decides how it goes on. The executable side is
//! replayed: it is run over the replies received so far, and where they end it
//! names the step to be taken next.

use vstd::prelude::*;

use crate::git_step::{Reply, Step, StepModel};

verus! {

/// A procedure: what it asks, and what it comes to, for every way the replies
/// may go.
pub enum Procedure<T> {
    /// It is done, and this is the result.
    Done(T),
    /// It asks for the step, and goes on by the reply.
    Ask(StepModel, spec_fn(Reply) -> Procedure<T>),
}

/// What a procedure comes to on given replies.
pub enum Progress<T> {
    /// The replies are used up, and this step is asked for.
    Asks(StepModel),
    /// The result, and the number of replies used.
    Gives(T, int),
}

/// `p`, and then what follows from its result.
pub open spec fn bind<T, U>(p: Procedure<T>, next: spec_fn(T) -> Procedure<U>) -> Procedure<U>
    decreases p,
{
    match p {
        Procedure::Done(v) => next(v),
        Procedure::Ask(step, f) => Procedure::Ask(step, |r: Reply| bind(f(r), next)),
    }
}

/// `p` run over the replies from number `at` on.
pub open spec fn run<T>(p: Procedure<T>, replies: Seq<Reply>, at: int) -> Progress<T>
    decreases p,
{
    match p {
        Procedure::Done(v) => Progress::Gives(v, at),
        Procedure::Ask(step, f) => if 0 <= at < replies.len() {
            run(f(replies[at]), replies, at + 1)
        } else {
            Progress::Asks(step)
        },
    }
}

/// Every step that `p` may ask for, whatever the replies, satisfies `ok`.
pub open spec fn always<T>(p: Procedure<T>, ok: spec_fn(StepModel) -> bool) -> bool
    decreases p,
{
    match p {
        Procedure::Done(_) => true,
        Procedure::Ask(step, f) => ok(step) && forall|r: Reply| always(#[trigger] f(r), ok),
    }
}

/// Every result that `p` may have, whatever the replies, satisfies `ok`.
pub open spec fn results<T>(p: Procedure<T>, ok: spec_fn(T) -> bool) -> bool
    decreases p,
{
    match p {
        Procedure::Done(v) => ok(v),
        Procedure::Ask(_, f) => forall|r: Reply| results(#[trigger] f(r), ok),
    }
}

/// Running one procedure after another is running the first and then the
/// second from where the first ended.
pub broadcast proof fn lemma_run_bind<T, U>(
    p: Procedure<T>,
    next: spec_fn(T) -> Procedure<U>,
    replies: Seq<Reply>,
    at: int,
)
    ensures
        #[trigger] run(bind(p, next), replies, at) == (match run(p, replies, at) {
            Progress::Asks(step) => Progress::<U>::Asks(step),
            Progress::Gives(v, n) => run(next(v), replies, n),
        }),
    decreases p,
{
    match p {
        Procedure::Done(_) => {},
        Procedure::Ask(_, f) => {
            if 0 <= at < replies.len() {
                lemma_run_bind(f(replies[at]), next, replies, at + 1);
            }
        },
    }
}

/// A procedure that is done gives its result.
pub broadcast proof fn lemma_run_done<T>(v: T, replies: Seq<Reply>, at: int)
    ensures
        #[trigger] run(Procedure::Done(v), replies, at) == Progress::Gives(v, at),
{
}

/// A procedure that asks goes on by the next reply, if there is one.
pub broadcast proof fn lemma_run_ask<T>(
    step: StepModel,
    f: spec_fn(Reply) -> Procedure<T>,
    replies: Seq<Reply>,
    at: int,
)
    ensures
        #[trigger] run(Procedure::Ask(step, f), replies, at) == (if 0 <= at < replies.len() {
            run(f(replies[at]), replies, at + 1)
        } else {
            Progress::Asks(step)
        }),
{
}

/// How procedures run.
pub broadcast group group_run {
    lemma_run_bind,
    lemma_run_done,
    lemma_run_ask,
}

/// Lemma: what a procedure that is done may ask for.
pub broadcast proof fn lemma_always_done<T>(v: T, ok: spec_fn(StepModel) -> bool)
    ensures
        #[trigger] always(Procedure::Done(v), ok),
{
}

/// Lemma: what a procedure may ask for after a reply.
proof fn lemma_always_step<T>(p: Procedure<T>, ok: spec_fn(StepModel) -> bool, r: Reply)
    requires
        always(p, ok),
    ensures
        p matches Procedure::Ask(step, f) ==> ok(step) && always(f(r), ok),
{
    match p {
        Procedure::Done(_) => {},
        Procedure::Ask(_, f) => {
            assert(always(f(r), ok));
        },
    }
}

/// Lemma: the results of a procedure after a reply.
proof fn lemma_results_step<T>(p: Procedure<T>, ok: spec_fn(T) -> bool, r: Reply)
    requires
        results(p, ok),
    ensures
        p matches Procedure::Ask(_, f) ==> results(f(r), ok),
{
    match p {
        Procedure::Done(_) => {},
        Procedure::Ask(_, f) => {
            assert(results(f(r), ok));
        },
    }
}

/// Lemma: what a procedure that asks may ask for.
pub broadcast proof fn lemma_always_ask<T>(
    step: StepModel,
    f: spec_fn(Reply) -> Procedure<T>,
    ok: spec_fn(StepModel) -> bool,
)
    ensures
        #[trigger] always(Procedure::Ask(step, f), ok) == (ok(step) && forall|r: Reply|
            always(#[trigger] f(r), ok)),
{
    let p = Procedure::Ask(step, f);
    if always(p, ok) {
        assert forall|r: Reply| always(#[trigger] f(r), ok) by {
            lemma_always_step(p, ok, r);
        }
    }
}

/// Lemma: one procedure after another asks only for steps that satisfy `ok` if
/// the first does, and the second does after every result of the first.
pub broadcast proof fn lemma_always_bind<T, U>(
    p: Procedure<T>,
    next: spec_fn(T) -> Procedure<U>,
    ok: spec_fn(StepModel) -> bool,
)
    requires
        always(p, ok),
        forall|v: T| always(#[trigger] next(v), ok),
    ensures
        #[trigger] always(bind(p, next), ok),
    decreases p,
{
    match p {
        Procedure::Done(_) => {},
        Procedure::Ask(_, f) => {
            assert forall|r: Reply| always(bind(#[trigger] f(r), next), ok) by {
                lemma_always_bind(f(r), next, ok);
            }
        },
    }
}

/// What procedures may ask for.
pub broadcast group group_always {
    lemma_always_done,
    lemma_always_ask,
    lemma_always_bind,
}

/// Lemma: the result of a procedure that is done.
pub broadcast proof fn lemma_results_done<T>(v: T, ok: spec_fn(T) -> bool)
    ensures
        #[trigger] results(Procedure::Done(v), ok) == ok(v),
{
}

/// Lemma: the results of a procedure that asks.
pub broadcast proof fn lemma_results_ask<T>(
    step: StepModel,
    f: spec_fn(Reply) -> Procedure<T>,
    ok: spec_fn(T) -> bool,
)
    ensures
        #[trigger] results(Procedure::Ask(step, f), ok) == (forall|r: Reply|
            results(#[trigger] f(r), ok)),
{
    let p = Procedure::Ask(step, f);
    if results(p, ok) {
        assert forall|r: Reply| results(#[trigger] f(r), ok) by {
            lemma_results_step(p, ok, r);
        }
    }
}

/// Lemma: the results of one procedure after another satisfy `ok` if those of
/// the second do after every result of the first.
pub broadcast proof fn lemma_results_bind<T, U>(
    p: Procedure<T>,
    next: spec_fn(T) -> Procedure<U>,
    ok: spec_fn(U) -> bool,
)
    requires
        forall|v: T| results(#[trigger] next(v), ok),
    ensures
        #[trigger] results(bind(p, next), ok),
    decreases p,
{
    match p {
        Procedure::Done(_) => {},
        Procedure::Ask(_, f) => {
            assert forall|r: Reply| results(bind(#[trigger] f(r), next), ok) by {
                lemma_results_bind(f(r), next, ok);
            }
        },
    }
}

/// The results that procedures may have.
pub broadcast group group_results {
    lemma_results_done,
    lemma_results_ask,
    lemma_results_bind,
}

// ----- After a reply of one kind, no step of another -------------------

/// On no path does `p` ask for a step that satisfies `danger` once a step got
/// a reply that satisfies `bad`.
pub open spec fn never_after<T>(
    p: Procedure<T>,
    bad: spec_fn(StepModel, Reply) -> bool,
    danger: spec_fn(StepModel) -> bool,
) -> bool
    decreases p,
{
    match p {
        Procedure::Done(_) => true,
        Procedure::Ask(step, f) => forall|r: Reply|
            if bad(step, r) {
                always(#[trigger] f(r), |s: StepModel| !danger(s))
            } else {
                never_after(f(r), bad, danger)
            },
    }
}

/// On every path on which a step got a reply that satisfies `bad`, the result
/// of `p` satisfies `stop`.
pub open spec fn stops_after<T>(
    p: Procedure<T>,
    bad: spec_fn(StepModel, Reply) -> bool,
    stop: spec_fn(T) -> bool,
) -> bool
    decreases p,
{
    match p {
        Procedure::Done(_) => true,
        Procedure::Ask(step, f) => forall|r: Reply|
            if bad(step, r) {
                results(#[trigger] f(r), stop)
            } else {
                stops_after(f(r), bad, stop)
            },
    }
}

/// Lemma: a procedure whose steps are all harmless does nothing dangerous.
pub proof fn lemma_never_after_harmless<T>(
    p: Procedure<T>,
    bad: spec_fn(StepModel, Reply) -> bool,
    danger: spec_fn(StepModel) -> bool,
)
    requires
        always(p, |s: StepModel| !danger(s)),
    ensures
        never_after(p, bad, danger),
    decreases p,
{
    match p {
        Procedure::Done(_) => {},
        Procedure::Ask(step, f) => {
            assert forall|r: Reply|
                if bad(step, r) {
                    always(#[trigger] f(r), |s: StepModel| !danger(s))
                } else {
                    never_after(f(r), bad, danger)
                } by {
                lemma_never_after_harmless(f(r), bad, danger);
            }
        },
    }
}

/// Lemma: one procedure after another. The first may see a bad reply only if
/// its result then makes the second harmless.
pub proof fn lemma_never_after_bind<T, U>(
    p: Procedure<T>,
    next: spec_fn(T) -> Procedure<U>,
    bad: spec_fn(StepModel, Reply) -> bool,
    danger: spec_fn(StepModel) -> bool,
    stop: spec_fn(T) -> bool,
)
    requires
        never_after(p, bad, danger),
        stops_after(p, bad, stop),
        forall|v: T| stop(v) ==> always(#[trigger] next(v), |s: StepModel| !danger(s)),
        forall|v: T| never_after(#[trigger] next(v), bad, danger),
    ensures
        never_after(bind(p, next), bad, danger),
    decreases p,
{
    match p {
        Procedure::Done(_) => {},
        Procedure::Ask(step, f) => {
            assert forall|r: Reply|
                if bad(step, r) {
                    always(bind(#[trigger] f(r), next), |s: StepModel| !danger(s))
                } else {
                    never_after(bind(f(r), next), bad, danger)
                } by {
                if bad(step, r) {
                    assert(always(f(r), |s: StepModel| !danger(s)));
                    assert(results(f(r), stop));
                    lemma_always_bind_results(f(r), next, stop, |s: StepModel| !danger(s));
                } else {
                    assert(never_after(f(r), bad, danger));
                    assert(stops_after(f(r), bad, stop));
                    lemma_never_after_bind(f(r), next, bad, danger, stop);
                }
            }
        },
    }
}

/// Lemma: as `lemma_always_bind`, where the second procedure need only be
/// looked at after the results that the first has.
pub proof fn lemma_always_bind_results<T, U>(
    p: Procedure<T>,
    next: spec_fn(T) -> Procedure<U>,
    mid: spec_fn(T) -> bool,
    ok: spec_fn(StepModel) -> bool,
)
    requires
        always(p, ok),
        results(p, mid),
        forall|v: T| mid(v) ==> always(#[trigger] next(v), ok),
    ensures
        always(bind(p, next), ok),
    decreases p,
{
    match p {
        Procedure::Done(_) => {},
        Procedure::Ask(_, f) => {
            assert forall|r: Reply| always(bind(#[trigger] f(r), next), ok) by {
                lemma_always_bind_results(f(r), next, mid, ok);
            }
        },
    }
}

/// Lemma: one procedure after another stops after a bad reply, if the second
/// stops after one, and stops whenever the first did.
pub proof fn lemma_stops_after_bind<T, U>(
    p: Procedure<T>,
    next: spec_fn(T) -> Procedure<U>,
    bad: spec_fn(StepModel, Reply) -> bool,
    mid: spec_fn(T) -> bool,
    stop: spec_fn(U) -> bool,
)
    requires
        stops_after(p, bad, mid),
        forall|v: T| mid(v) ==> results(#[trigger] next(v), stop),
        forall|v: T| stops_after(#[trigger] next(v), bad, stop),
    ensures
        stops_after(bind(p, next), bad, stop),
    decreases p,
{
    match p {
        Procedure::Done(_) => {},
        Procedure::Ask(step, f) => {
            assert forall|r: Reply|
                if bad(step, r) {
                    results(bind(#[trigger] f(r), next), stop)
                } else {
                    stops_after(bind(f(r), next), bad, stop)
                } by {
                if bad(step, r) {
                    assert(results(f(r), mid));
                    lemma_results_bind_results(f(r), next, mid, stop);
                } else {
                    assert(stops_after(f(r), bad, mid));
                    lemma_stops_after_bind(f(r), next, bad, mid, stop);
                }
            }
        },
    }
}

/// Lemma: as `lemma_results_bind`, where the second procedure need only be
/// looked at after the results that the first has.
pub proof fn lemma_results_bind_results<T, U>(
    p: Procedure<T>,
    next: spec_fn(T) -> Procedure<U>,
    mid: spec_fn(T) -> bool,
    ok: spec_fn(U) -> bool,
)
    requires
        results(p, mid),
        forall|v: T| mid(v) ==> results(#[trigger] next(v), ok),
    ensures
        results(bind(p, next), ok),
    decreases p,
{
    match p {
        Procedure::Done(_) => {},
        Procedure::Ask(_, f) => {
            assert forall|r: Reply| results(bind(#[trigger] f(r), next), ok) by {
                lemma_results_bind_results(f(r), next, mid, ok);
            }
        },
    }
}

/// Lemma: a procedure that is done.
pub broadcast proof fn lemma_stops_after_done<T>(
    v: T,
    bad: spec_fn(StepModel, Reply) -> bool,
    stop: spec_fn(T) -> bool,
)
    ensures
        #[trigger] stops_after(Procedure::Done(v), bad, stop),
{
}

/// Lemma: a procedure that asks.
pub broadcast proof fn lemma_stops_after_ask<T>(
    step: StepModel,
    f: spec_fn(Reply) -> Procedure<T>,
    bad: spec_fn(StepModel, Reply) -> bool,
    stop: spec_fn(T) -> bool,
)
    requires
        forall|r: Reply|
            if bad(step, r) {
                results(#[trigger] f(r), stop)
            } else {
                stops_after(f(r), bad, stop)
            },
    ensures
        #[trigger] stops_after(Procedure::Ask(step, f), bad, stop),
{
}

/// No step of `p` can get a bad reply.
pub open spec fn unbothered<T>(p: Procedure<T>, bad: spec_fn(StepModel, Reply) -> bool) -> bool {
    always(p, |s: StepModel| forall|r: Reply| !#[trigger] bad(s, r))
}

/// Lemma: one procedure after another, the first of which gets no bad reply.
pub broadcast proof fn lemma_stops_after_bind_unbothered<T, U>(
    p: Procedure<T>,
    next: spec_fn(T) -> Procedure<U>,
    bad: spec_fn(StepModel, Reply) -> bool,
    stop: spec_fn(U) -> bool,
)
    requires
        unbothered(p, bad),
        forall|v: T| stops_after(#[trigger] next(v), bad, stop),
    ensures
        #[trigger] stops_after(bind(p, next), bad, stop),
    decreases p,
{
    match p {
        Procedure::Done(_) => {},
        Procedure::Ask(step, f) => {
            assert forall|r: Reply|
                if bad(step, r) {
                    results(bind(#[trigger] f(r), next), stop)
                } else {
                    stops_after(bind(f(r), next), bad, stop)
                } by {
                assert(always(f(r), |s: StepModel| forall|q: Reply| !#[trigger] bad(s, q)));
                lemma_stops_after_bind_unbothered(f(r), next, bad, stop);
            }
        },
    }
}

/// Where procedures stop.
pub broadcast group group_stops_after {
    lemma_stops_after_done,
    lemma_stops_after_ask,
    lemma_stops_after_bind_unbothered,
}

/// Lemma: a procedure that is done.
pub broadcast proof fn lemma_never_after_done<T>(
    v: T,
    bad: spec_fn(StepModel, Reply) -> bool,
    danger: spec_fn(StepModel) -> bool,
)
    ensures
        #[trigger] never_after(Procedure::Done(v), bad, danger),
{
}

/// Lemma: a procedure that asks.
pub broadcast proof fn lemma_never_after_ask<T>(
    step: StepModel,
    f: spec_fn(Reply) -> Procedure<T>,
    bad: spec_fn(StepModel, Reply) -> bool,
    danger: spec_fn(StepModel) -> bool,
)
    requires
        forall|r: Reply|
            if bad(step, r) {
                always(#[trigger] f(r), |s: StepModel| !danger(s))
            } else {
                never_after(f(r), bad, danger)
            },
    ensures
        #[trigger] never_after(Procedure::Ask(step, f), bad, danger),
{
}

/// Lemma: one procedure after another, the first of which gets no bad reply.
pub broadcast proof fn lemma_never_after_bind_unbothered<T, U>(
    p: Procedure<T>,
    next: spec_fn(T) -> Procedure<U>,
    bad: spec_fn(StepModel, Reply) -> bool,
    danger: spec_fn(StepModel) -> bool,
)
    requires
        unbothered(p, bad),
        forall|v: T| never_after(#[trigger] next(v), bad, danger),
    ensures
        #[trigger] never_after(bind(p, next), bad, danger),
    decreases p,
{
    match p {
        Procedure::Done(_) => {},
        Procedure::Ask(step, f) => {
            assert forall|r: Reply|
                if bad(step, r) {
                    always(bind(#[trigger] f(r), next), |s: StepModel| !danger(s))
                } else {
                    never_after(bind(f(r), next), bad, danger)
                } by {
                assert(always(f(r), |s: StepModel| forall|q: Reply| !#[trigger] bad(s, q)));
                lemma_never_after_bind_unbothered(f(r), next, bad, danger);
            }
        },
    }
}

/// What procedures no longer do.
pub broadcast group group_never_after {
    lemma_never_after_done,
    lemma_never_after_ask,
    lemma_never_after_bind_unbothered,
}

/// Lemma: a procedure whose results all satisfy `stop` stops whatever happens.
pub proof fn lemma_stops_after_results<T>(
    p: Procedure<T>,
    bad: spec_fn(StepModel, Reply) -> bool,
    stop: spec_fn(T) -> bool,
)
    requires
        results(p, stop),
    ensures
        stops_after(p, bad, stop),
    decreases p,
{
    match p {
        Procedure::Done(_) => {},
        Procedure::Ask(step, f) => {
            assert forall|r: Reply|
                if bad(step, r) {
                    results(#[trigger] f(r), stop)
                } else {
                    stops_after(f(r), bad, stop)
                } by {
                assert(results(f(r), stop));
                lemma_stops_after_results(f(r), bad, stop);
            }
        },
    }
}

/// Lemma: a procedure that gets no bad reply does nothing after one.
pub proof fn lemma_never_after_unbothered<T>(
    p: Procedure<T>,
    bad: spec_fn(StepModel, Reply) -> bool,
    danger: spec_fn(StepModel) -> bool,
)
    requires
        unbothered(p, bad),
    ensures
        never_after(p, bad, danger),
    decreases p,
{
    match p {
        Procedure::Done(_) => {},
        Procedure::Ask(step, f) => {
            assert forall|r: Reply|
                if bad(step, r) {
                    always(#[trigger] f(r), |s: StepModel| !danger(s))
                } else {
                    never_after(f(r), bad, danger)
                } by {
                assert(always(f(r), |s: StepModel| forall|q: Reply| !#[trigger] bad(s, q)));
                lemma_never_after_unbothered(f(r), bad, danger);
            }
        },
    }
}

/// Lemma: a procedure that gets no bad reply has nothing to stop after.
pub proof fn lemma_stops_after_unbothered<T>(
    p: Procedure<T>,
    bad: spec_fn(StepModel, Reply) -> bool,
    stop: spec_fn(T) -> bool,
)
    requires
        unbothered(p, bad),
    ensures
        stops_after(p, bad, stop),
    decreases p,
{
    match p {
        Procedure::Done(_) => {},
        Procedure::Ask(step, f) => {
            assert forall|r: Reply|
                if bad(step, r) {
                    results(#[trigger] f(r), stop)
                } else {
                    stops_after(f(r), bad, stop)
                } by {
                assert(always(f(r), |s: StepModel| forall|q: Reply| !#[trigger] bad(s, q)));
                lemma_stops_after_unbothered(f(r), bad, stop);
            }
        },
    }
}

/// As `never_after`, on the paths on which every reply satisfies `known`.
pub open spec fn never_after_where<T>(
    p: Procedure<T>,
    known: spec_fn(StepModel, Reply) -> bool,
    bad: spec_fn(StepModel, Reply) -> bool,
    danger: spec_fn(StepModel) -> bool,
) -> bool
    decreases p,
{
    match p {
        Procedure::Done(_) => true,
        Procedure::Ask(step, f) => forall|r: Reply|
            known(step, r) ==> if bad(step, r) {
                always(#[trigger] f(r), |s: StepModel| !danger(s))
            } else {
                never_after_where(f(r), known, bad, danger)
            },
    }
}

/// Lemma: what holds on every path holds where the replies are known.
pub proof fn lemma_never_after_anywhere<T>(
    p: Procedure<T>,
    known: spec_fn(StepModel, Reply) -> bool,
    bad: spec_fn(StepModel, Reply) -> bool,
    danger: spec_fn(StepModel) -> bool,
)
    requires
        never_after(p, bad, danger),
    ensures
        never_after_where(p, known, bad, danger),
    decreases p,
{
    match p {
        Procedure::Done(_) => {},
        Procedure::Ask(step, f) => {
            assert forall|r: Reply| known(step, r) implies if bad(step, r) {
                always(#[trigger] f(r), |s: StepModel| !danger(s))
            } else {
                never_after_where(f(r), known, bad, danger)
            } by {
                if bad(step, r) {
                    assert(always(f(r), |s: StepModel| !danger(s)));
                } else {
                    assert(never_after(f(r), bad, danger));
                    lemma_never_after_anywhere(f(r), known, bad, danger);
                }
            }
        },
    }
}

/// Lemma: one procedure after another, the first of which gets no bad reply.
pub proof fn lemma_never_after_where_bind<T, U>(
    p: Procedure<T>,
    next: spec_fn(T) -> Procedure<U>,
    known: spec_fn(StepModel, Reply) -> bool,
    bad: spec_fn(StepModel, Reply) -> bool,
    danger: spec_fn(StepModel) -> bool,
)
    requires
        unbothered(p, bad),
        forall|v: T| never_after_where(#[trigger] next(v), known, bad, danger),
    ensures
        never_after_where(bind(p, next), known, bad, danger),
    decreases p,
{
    match p {
        Procedure::Done(_) => {},
        Procedure::Ask(step, f) => {
            assert forall|r: Reply| known(step, r) implies if bad(step, r) {
                always(bind(#[trigger] f(r), next), |s: StepModel| !danger(s))
            } else {
                never_after_where(bind(f(r), next), known, bad, danger)
            } by {
                assert(always(f(r), |s: StepModel| forall|q: Reply| !#[trigger] bad(s, q)));
                lemma_never_after_where_bind(f(r), next, known, bad, danger);
            }
        },
    }
}

/// Lemma: a question, and what follows from the answer.
pub proof fn lemma_never_after_where_ask<T, U>(
    step: StepModel,
    f: spec_fn(Reply) -> Procedure<T>,
    next: spec_fn(T) -> Procedure<U>,
    known: spec_fn(StepModel, Reply) -> bool,
    bad: spec_fn(StepModel, Reply) -> bool,
    danger: spec_fn(StepModel) -> bool,
)
    requires
        forall|r: Reply|
            known(step, r) ==> !bad(step, r) && never_after_where(
                bind(#[trigger] f(r), next),
                known,
                bad,
                danger,
            ),
    ensures
        never_after_where(bind(Procedure::Ask(step, f), next), known, bad, danger),
{
}

// ----- Where a procedure stops, if the replies are known ---------------

/// As `results`, on the paths on which no reply satisfies `spared`.
pub open spec fn results_unless<T>(
    p: Procedure<T>,
    spared: spec_fn(StepModel, Reply) -> bool,
    ok: spec_fn(T) -> bool,
) -> bool
    decreases p,
{
    match p {
        Procedure::Done(v) => ok(v),
        Procedure::Ask(step, f) => forall|r: Reply|
            !spared(step, r) ==> results_unless(#[trigger] f(r), spared, ok),
    }
}

/// As `stops_after`, on the paths on which every reply up to the bad one
/// satisfies `known`, and none after it satisfies `spared`.
pub open spec fn stops_after_where<T>(
    p: Procedure<T>,
    known: spec_fn(StepModel, Reply) -> bool,
    bad: spec_fn(StepModel, Reply) -> bool,
    spared: spec_fn(StepModel, Reply) -> bool,
    stop: spec_fn(T) -> bool,
) -> bool
    decreases p,
{
    match p {
        Procedure::Done(_) => true,
        Procedure::Ask(step, f) => forall|r: Reply|
            known(step, r) ==> if bad(step, r) {
                results_unless(#[trigger] f(r), spared, stop)
            } else {
                stops_after_where(f(r), known, bad, spared, stop)
            },
    }
}

/// Lemma: results that hold on every path hold where nothing is spared.
pub proof fn lemma_results_anywhere<T>(
    p: Procedure<T>,
    spared: spec_fn(StepModel, Reply) -> bool,
    ok: spec_fn(T) -> bool,
)
    requires
        results(p, ok),
    ensures
        results_unless(p, spared, ok),
    decreases p,
{
    match p {
        Procedure::Done(_) => {},
        Procedure::Ask(step, f) => {
            assert forall|r: Reply| !spared(step, r) implies results_unless(
                #[trigger] f(r),
                spared,
                ok,
            ) by {
                assert(results(f(r), ok));
                lemma_results_anywhere(f(r), spared, ok);
            }
        },
    }
}

/// Lemma: the results of one procedure after another, where the second need
/// only be looked at after the results that the first has.
pub proof fn lemma_results_unless_bind<T, U>(
    p: Procedure<T>,
    next: spec_fn(T) -> Procedure<U>,
    spared: spec_fn(StepModel, Reply) -> bool,
    mid: spec_fn(T) -> bool,
    ok: spec_fn(U) -> bool,
)
    requires
        results_unless(p, spared, mid),
        forall|v: T| mid(v) ==> results_unless(#[trigger] next(v), spared, ok),
    ensures
        results_unless(bind(p, next), spared, ok),
    decreases p,
{
    match p {
        Procedure::Done(_) => {},
        Procedure::Ask(step, f) => {
            assert forall|r: Reply| !spared(step, r) implies results_unless(
                bind(#[trigger] f(r), next),
                spared,
                ok,
            ) by {
                assert(results_unless(f(r), spared, mid));
                lemma_results_unless_bind(f(r), next, spared, mid, ok);
            }
        },
    }
}

/// Lemma: what holds on every path holds where the replies are known.
pub proof fn lemma_stops_after_anywhere<T>(
    p: Procedure<T>,
    known: spec_fn(StepModel, Reply) -> bool,
    bad: spec_fn(StepModel, Reply) -> bool,
    spared: spec_fn(StepModel, Reply) -> bool,
    stop: spec_fn(T) -> bool,
)
    requires
        stops_after(p, bad, stop),
    ensures
        stops_after_where(p, known, bad, spared, stop),
    decreases p,
{
    match p {
        Procedure::Done(_) => {},
        Procedure::Ask(step, f) => {
            assert forall|r: Reply| known(step, r) implies if bad(step, r) {
                results_unless(#[trigger] f(r), spared, stop)
            } else {
                stops_after_where(f(r), known, bad, spared, stop)
            } by {
                if bad(step, r) {
                    assert(results(f(r), stop));
                    lemma_results_anywhere(f(r), spared, stop);
                } else {
                    assert(stops_after(f(r), bad, stop));
                    lemma_stops_after_anywhere(f(r), known, bad, spared, stop);
                }
            }
        },
    }
}

/// Lemma: one procedure after another, the first of which gets no bad reply.
pub proof fn lemma_stops_after_where_bind<T, U>(
    p: Procedure<T>,
    next: spec_fn(T) -> Procedure<U>,
    known: spec_fn(StepModel, Reply) -> bool,
    bad: spec_fn(StepModel, Reply) -> bool,
    spared: spec_fn(StepModel, Reply) -> bool,
    stop: spec_fn(U) -> bool,
)
    requires
        unbothered(p, bad),
        forall|v: T| stops_after_where(#[trigger] next(v), known, bad, spared, stop),
    ensures
        stops_after_where(bind(p, next), known, bad, spared, stop),
    decreases p,
{
    match p {
        Procedure::Done(_) => {},
        Procedure::Ask(step, f) => {
            assert forall|r: Reply| known(step, r) implies if bad(step, r) {
                results_unless(bind(#[trigger] f(r), next), spared, stop)
            } else {
                stops_after_where(bind(f(r), next), known, bad, spared, stop)
            } by {
                assert(always(f(r), |s: StepModel| forall|q: Reply| !#[trigger] bad(s, q)));
                lemma_stops_after_where_bind(f(r), next, known, bad, spared, stop);
            }
        },
    }
}

/// Lemma: a question, and what follows from the answer.
pub proof fn lemma_stops_after_where_ask<T, U>(
    step: StepModel,
    f: spec_fn(Reply) -> Procedure<T>,
    next: spec_fn(T) -> Procedure<U>,
    known: spec_fn(StepModel, Reply) -> bool,
    bad: spec_fn(StepModel, Reply) -> bool,
    spared: spec_fn(StepModel, Reply) -> bool,
    stop: spec_fn(U) -> bool,
)
    requires
        forall|r: Reply|
            known(step, r) ==> if bad(step, r) {
                results_unless(bind(#[trigger] f(r), next), spared, stop)
            } else {
                stops_after_where(bind(f(r), next), known, bad, spared, stop)
            },
    ensures
        stops_after_where(bind(Procedure::Ask(step, f), next), known, bad, spared, stop),
{
}

// ----- One step only after another -------------------------------------

/// On no path does `p` ask for a step that satisfies `second` before one that
/// satisfies `first`.
pub open spec fn only_after<T>(
    p: Procedure<T>,
    first: spec_fn(StepModel) -> bool,
    second: spec_fn(StepModel) -> bool,
) -> bool
    decreases p,
{
    match p {
        Procedure::Done(_) => true,
        Procedure::Ask(step, f) => !second(step) && (first(step) || forall|r: Reply|
            only_after(#[trigger] f(r), first, second)),
    }
}

/// Lemma: a procedure that is done.
pub broadcast proof fn lemma_only_after_done<T>(
    v: T,
    first: spec_fn(StepModel) -> bool,
    second: spec_fn(StepModel) -> bool,
)
    ensures
        #[trigger] only_after(Procedure::Done(v), first, second),
{
}

/// Lemma: a procedure that asks.
pub broadcast proof fn lemma_only_after_ask<T>(
    step: StepModel,
    f: spec_fn(Reply) -> Procedure<T>,
    first: spec_fn(StepModel) -> bool,
    second: spec_fn(StepModel) -> bool,
)
    requires
        !second(step),
        first(step) || forall|r: Reply| only_after(#[trigger] f(r), first, second),
    ensures
        #[trigger] only_after(Procedure::Ask(step, f), first, second),
{
}

/// Lemma: one procedure after another.
pub broadcast proof fn lemma_only_after_bind<T, U>(
    p: Procedure<T>,
    next: spec_fn(T) -> Procedure<U>,
    first: spec_fn(StepModel) -> bool,
    second: spec_fn(StepModel) -> bool,
)
    requires
        only_after(p, first, second),
        forall|v: T| only_after(#[trigger] next(v), first, second),
    ensures
        #[trigger] only_after(bind(p, next), first, second),
    decreases p,
{
    match p {
        Procedure::Done(_) => {},
        Procedure::Ask(step, f) => {
            if !first(step) {
                    assert forall|r: Reply| only_after(bind(#[trigger] f(r), next), first, second) by {
                    lemma_only_after_bind(f(r), next, first, second);
                }
            }
        },
    }
}

/// On every path on which `p` asks for no step that satisfies `first`, its
/// result satisfies `ok`.
pub open spec fn unless_asked<T>(
    p: Procedure<T>,
    first: spec_fn(StepModel) -> bool,
    ok: spec_fn(T) -> bool,
) -> bool
    decreases p,
{
    match p {
        Procedure::Done(v) => ok(v),
        Procedure::Ask(step, f) => first(step) || forall|r: Reply|
            unless_asked(#[trigger] f(r), first, ok),
    }
}

/// Lemma: a procedure that is done.
pub broadcast proof fn lemma_unless_asked_done<T>(
    v: T,
    first: spec_fn(StepModel) -> bool,
    ok: spec_fn(T) -> bool,
)
    requires
        ok(v),
    ensures
        #[trigger] unless_asked(Procedure::Done(v), first, ok),
{
}

/// Lemma: a procedure that asks.
pub broadcast proof fn lemma_unless_asked_ask<T>(
    step: StepModel,
    f: spec_fn(Reply) -> Procedure<T>,
    first: spec_fn(StepModel) -> bool,
    ok: spec_fn(T) -> bool,
)
    requires
        first(step) || forall|r: Reply| unless_asked(#[trigger] f(r), first, ok),
    ensures
        #[trigger] unless_asked(Procedure::Ask(step, f), first, ok),
{
}

/// Lemma: one procedure after another.
pub broadcast proof fn lemma_unless_asked_bind<T, U>(
    p: Procedure<T>,
    next: spec_fn(T) -> Procedure<U>,
    first: spec_fn(StepModel) -> bool,
    ok: spec_fn(U) -> bool,
)
    requires
        forall|v: T| unless_asked(#[trigger] next(v), first, ok),
    ensures
        #[trigger] unless_asked(bind(p, next), first, ok),
    decreases p,
{
    match p {
        Procedure::Done(_) => {},
        Procedure::Ask(step, f) => {
            if !first(step) {
                assert forall|r: Reply| unless_asked(bind(#[trigger] f(r), next), first, ok) by {
                    lemma_unless_asked_bind(f(r), next, first, ok);
                }
            }
        },
    }
}

/// Lemma: as `lemma_unless_asked_bind`, where the second procedure need only
/// be looked at after results that the first has without asking.
pub proof fn lemma_unless_asked_bind_if<T, U>(
    p: Procedure<T>,
    next: spec_fn(T) -> Procedure<U>,
    first: spec_fn(StepModel) -> bool,
    mid: spec_fn(T) -> bool,
    ok: spec_fn(U) -> bool,
)
    requires
        unless_asked(p, first, mid),
        forall|v: T| mid(v) ==> unless_asked(#[trigger] next(v), first, ok),
    ensures
        unless_asked(bind(p, next), first, ok),
    decreases p,
{
    match p {
        Procedure::Done(_) => {},
        Procedure::Ask(step, f) => {
            if !first(step) {
                assert forall|r: Reply| unless_asked(bind(#[trigger] f(r), next), first, ok) by {
                    lemma_unless_asked_bind_if(f(r), next, first, mid, ok);
                }
            }
        },
    }
}

/// Results that procedures have without asking for something.
pub broadcast group group_unless_asked {
    lemma_unless_asked_done,
    lemma_unless_asked_ask,
    lemma_unless_asked_bind,
}

/// Lemma: one procedure after another, where the second need only be looked at
/// after results that the first has without asking for the first step.
pub proof fn lemma_only_after_bind_if<T, U>(
    p: Procedure<T>,
    next: spec_fn(T) -> Procedure<U>,
    first: spec_fn(StepModel) -> bool,
    second: spec_fn(StepModel) -> bool,
    mid: spec_fn(T) -> bool,
)
    requires
        only_after(p, first, second),
        unless_asked(p, first, mid),
        forall|v: T| mid(v) ==> only_after(#[trigger] next(v), first, second),
    ensures
        only_after(bind(p, next), first, second),
    decreases p,
{
    match p {
        Procedure::Done(_) => {},
        Procedure::Ask(step, f) => {
            if !first(step) {
                assert forall|r: Reply| only_after(bind(#[trigger] f(r), next), first, second) by {
                    lemma_only_after_bind_if(f(r), next, first, second, mid);
                }
            }
        },
    }
}

/// What procedures ask for only after something else.
pub broadcast group group_only_after {
    lemma_only_after_done,
    lemma_only_after_ask,
    lemma_only_after_bind,
}

// ----- What is opened is closed ----------------------------------------

/// On every path on which `p` asks for a step that satisfies `opens`, it asks
/// for one that satisfies `closes` later. `open` says whether one is owed from
/// the start.
pub open spec fn closed_in_the_end<T>(
    p: Procedure<T>,
    opens: spec_fn(StepModel) -> bool,
    closes: spec_fn(StepModel) -> bool,
    open: bool,
) -> bool
    decreases p,
{
    match p {
        Procedure::Done(_) => !open,
        Procedure::Ask(step, f) => forall|r: Reply|
            closed_in_the_end(
                #[trigger] f(r),
                opens,
                closes,
                !closes(step) && (open || opens(step)),
            ),
    }
}

/// Lemma: a procedure that is done.
pub broadcast proof fn lemma_closed_done<T>(
    v: T,
    opens: spec_fn(StepModel) -> bool,
    closes: spec_fn(StepModel) -> bool,
)
    ensures
        #[trigger] closed_in_the_end(Procedure::Done(v), opens, closes, false),
{
}

/// Lemma: a procedure that asks.
pub broadcast proof fn lemma_closed_ask<T>(
    step: StepModel,
    f: spec_fn(Reply) -> Procedure<T>,
    opens: spec_fn(StepModel) -> bool,
    closes: spec_fn(StepModel) -> bool,
    open: bool,
)
    requires
        forall|r: Reply|
            closed_in_the_end(
                #[trigger] f(r),
                opens,
                closes,
                !closes(step) && (open || opens(step)),
            ),
    ensures
        #[trigger] closed_in_the_end(Procedure::Ask(step, f), opens, closes, open),
{
}

/// Lemma: one procedure after another, each of which closes what it opens.
pub broadcast proof fn lemma_closed_bind<T, U>(
    p: Procedure<T>,
    next: spec_fn(T) -> Procedure<U>,
    opens: spec_fn(StepModel) -> bool,
    closes: spec_fn(StepModel) -> bool,
    open: bool,
)
    requires
        closed_in_the_end(p, opens, closes, open),
        forall|v: T| closed_in_the_end(#[trigger] next(v), opens, closes, false),
    ensures
        #[trigger] closed_in_the_end(bind(p, next), opens, closes, open),
    decreases p,
{
    match p {
        Procedure::Done(_) => {},
        Procedure::Ask(step, f) => {
            let owed = !closes(step) && (open || opens(step));
            assert forall|r: Reply| closed_in_the_end(
                bind(#[trigger] f(r), next),
                opens,
                closes,
                owed,
            ) by {
                lemma_closed_bind(f(r), next, opens, closes, owed);
            }
        },
    }
}

/// Lemma: whatever a procedure opens, one after it that closes first of all
/// closes that too.
pub proof fn lemma_closed_by_next<T, U>(
    p: Procedure<T>,
    next: spec_fn(T) -> Procedure<U>,
    opens: spec_fn(StepModel) -> bool,
    closes: spec_fn(StepModel) -> bool,
    open: bool,
)
    requires
        forall|v: T|
            closed_in_the_end(#[trigger] next(v), opens, closes, false) && closed_in_the_end(
                next(v),
                opens,
                closes,
                true,
            ),
    ensures
        closed_in_the_end(bind(p, next), opens, closes, open),
    decreases p,
{
    match p {
        Procedure::Done(_) => {},
        Procedure::Ask(step, f) => {
            let owed = !closes(step) && (open || opens(step));
            assert forall|r: Reply| closed_in_the_end(
                bind(#[trigger] f(r), next),
                opens,
                closes,
                owed,
            ) by {
                lemma_closed_by_next(f(r), next, opens, closes, owed);
            }
        },
    }
}

/// How procedures close what they open.
pub broadcast group group_closed {
    lemma_closed_done,
    lemma_closed_ask,
    lemma_closed_bind,
}

// ----- Runs ------------------------------------------------------------

/// What a procedure asks for, run over any replies, is one of the steps it may
/// ask for; and what it gives is one of the results it may have.
pub proof fn law_run_is_one_of_the_ways<T>(
    p: Procedure<T>,
    replies: Seq<Reply>,
    at: int,
    ok_step: spec_fn(StepModel) -> bool,
    ok_result: spec_fn(T) -> bool,
)
    requires
        always(p, ok_step),
        results(p, ok_result),
    ensures
        run(p, replies, at) matches Progress::Asks(step) ==> ok_step(step),
        run(p, replies, at) matches Progress::Gives(v, _) ==> ok_result(v),
    decreases p,
{
    match p {
        Procedure::Done(_) => {},
        Procedure::Ask(_, f) => {
            if 0 <= at < replies.len() {
                law_run_is_one_of_the_ways(f(replies[at]), replies, at + 1, ok_step, ok_result);
            }
        },
    }
}

/// Lemma: a run asks only for steps that the procedure may ask for.
proof fn lemma_run_asks<T>(
    p: Procedure<T>,
    replies: Seq<Reply>,
    at: int,
    ok: spec_fn(StepModel) -> bool,
)
    requires
        always(p, ok),
    ensures
        run(p, replies, at) matches Progress::Asks(step) ==> ok(step),
    decreases p,
{
    match p {
        Procedure::Done(_) => {},
        Procedure::Ask(_, f) => {
            if 0 <= at < replies.len() {
                lemma_run_asks(f(replies[at]), replies, at + 1, ok);
            }
        },
    }
}

/// A procedure that does nothing dangerous after a bad reply does not do so in
/// any run: if reply number `k` was bad for the step that it answered, no
/// dangerous step is asked for from then on.
pub proof fn law_run_keeps_away<T>(
    p: Procedure<T>,
    replies: Seq<Reply>,
    at: int,
    k: int,
    answered: StepModel,
    bad: spec_fn(StepModel, Reply) -> bool,
    danger: spec_fn(StepModel) -> bool,
)
    requires
        never_after(p, bad, danger),
        0 <= at <= k < replies.len(),
        run(p, replies.take(k), at) == Progress::<T>::Asks(answered),
        bad(answered, replies[k]),
    ensures
        run(p, replies, at) matches Progress::Asks(step) ==> !danger(step),
    decreases p,
{
    match p {
        Procedure::Done(_) => {},
        Procedure::Ask(step, f) => {
            let next = f(replies[at]);
            if bad(step, replies[at]) {
                lemma_run_asks(next, replies, at + 1, |s: StepModel| !danger(s));
            } else {
                assert(at < k);
                assert(replies.take(k)[at] == replies[at]);
                law_run_keeps_away(next, replies, at + 1, k, answered, bad, danger);
            }
        },
    }
}

/// As `law_run_keeps_away`, for a procedure of which it is known only where the
/// replies satisfy `known`: if those up to number `k` do, and that one was bad,
/// no dangerous step is asked for from then on.
pub proof fn law_run_keeps_away_where<T>(
    p: Procedure<T>,
    replies: Seq<Reply>,
    at: int,
    k: int,
    answered: StepModel,
    known: spec_fn(StepModel, Reply) -> bool,
    bad: spec_fn(StepModel, Reply) -> bool,
    danger: spec_fn(StepModel) -> bool,
)
    requires
        never_after_where(p, known, bad, danger),
        0 <= at <= k < replies.len(),
        forall|i: int|
            at <= i <= k ==> (run(p, #[trigger] replies.take(i), at) matches Progress::Asks(s)
                ==> known(s, replies[i])),
        run(p, replies.take(k), at) == Progress::<T>::Asks(answered),
        bad(answered, replies[k]),
    ensures
        run(p, replies, at) matches Progress::Asks(step) ==> !danger(step),
    decreases p,
{
    match p {
        Procedure::Done(_) => {},
        Procedure::Ask(step, f) => {
            let next = f(replies[at]);
            assert(run(p, replies.take(at), at) == Progress::<T>::Asks(step));
            assert(known(step, replies[at]));
            if bad(step, replies[at]) {
                lemma_run_asks(next, replies, at + 1, |s: StepModel| !danger(s));
            } else {
                assert(at < k);
                assert forall|i: int| at + 1 <= i <= k implies run(
                    next,
                    #[trigger] replies.take(i),
                    at + 1,
                ) == run(p, replies.take(i), at) by {
                    assert(replies.take(i)[at] == replies[at]);
                }
                law_run_keeps_away_where(
                    next,
                    replies,
                    at + 1,
                    k,
                    answered,
                    known,
                    bad,
                    danger,
                );
            }
        },
    }
}

/// Lemma: a run gives a result that the procedure may have, if none of its
/// replies is spared.
proof fn lemma_run_gives<T>(
    p: Procedure<T>,
    replies: Seq<Reply>,
    at: int,
    spared: spec_fn(StepModel, Reply) -> bool,
    ok: spec_fn(T) -> bool,
)
    requires
        results_unless(p, spared, ok),
        0 <= at,
        forall|i: int|
            at <= i < replies.len() ==> (run(p, #[trigger] replies.take(i), at) matches
                Progress::Asks(s) ==> !spared(s, replies[i])),
    ensures
        run(p, replies, at) matches Progress::Gives(v, _) ==> ok(v),
    decreases p,
{
    match p {
        Procedure::Done(_) => {},
        Procedure::Ask(step, f) => {
            if at < replies.len() {
                let next = f(replies[at]);
                assert(run(p, replies.take(at), at) == Progress::<T>::Asks(step));
                assert forall|i: int| at + 1 <= i < replies.len() implies run(
                    next,
                    #[trigger] replies.take(i),
                    at + 1,
                ) == run(p, replies.take(i), at) by {
                    assert(replies.take(i)[at] == replies[at]);
                }
                lemma_run_gives(next, replies, at + 1, spared, ok);
            }
        },
    }
}

/// A procedure that stops after a bad reply does so in every run: if the
/// replies up to number `k` satisfy `known`, that one was the first that was bad
/// for the step that it answered, and none after it is spared, the result
/// satisfies `stop`.
pub proof fn law_run_stops_where<T>(
    p: Procedure<T>,
    replies: Seq<Reply>,
    at: int,
    k: int,
    answered: StepModel,
    known: spec_fn(StepModel, Reply) -> bool,
    bad: spec_fn(StepModel, Reply) -> bool,
    spared: spec_fn(StepModel, Reply) -> bool,
    stop: spec_fn(T) -> bool,
)
    requires
        stops_after_where(p, known, bad, spared, stop),
        0 <= at <= k < replies.len(),
        forall|i: int|
            at <= i <= k ==> (run(p, #[trigger] replies.take(i), at) matches Progress::Asks(s)
                ==> known(s, replies[i]) && (bad(s, replies[i]) ==> i == k)),
        run(p, replies.take(k), at) == Progress::<T>::Asks(answered),
        bad(answered, replies[k]),
        forall|i: int|
            at <= i < replies.len() ==> (run(p, #[trigger] replies.take(i), at) matches
                Progress::Asks(s) ==> k < i ==> !spared(s, replies[i])),
    ensures
        run(p, replies, at) matches Progress::Gives(v, _) ==> stop(v),
    decreases p,
{
    match p {
        Procedure::Done(_) => {},
        Procedure::Ask(step, f) => {
            let next = f(replies[at]);
            assert(run(p, replies.take(at), at) == Progress::<T>::Asks(step));
            assert(known(step, replies[at]));
            assert forall|i: int| at + 1 <= i < replies.len() implies run(
                next,
                #[trigger] replies.take(i),
                at + 1,
            ) == run(p, replies.take(i), at) by {
                assert(replies.take(i)[at] == replies[at]);
            }
            if at == k {
                lemma_run_gives(next, replies, at + 1, spared, stop);
            } else {
                law_run_stops_where(
                    next,
                    replies,
                    at + 1,
                    k,
                    answered,
                    known,
                    bad,
                    spared,
                    stop,
                );
            }
        },
    }
}

/// What a procedure comes to depends on the replies it has used and on nothing
/// after them.
pub proof fn law_later_replies_do_not_matter<T>(
    p: Procedure<T>,
    replies: Seq<Reply>,
    others: Seq<Reply>,
    at: int,
)
    requires
        0 <= at,
        run(p, replies, at) matches Progress::Gives(_, n) && n <= others.len() && forall|i: int|
            at <= i < n ==> others[i] == replies[i],
    ensures
        run(p, others, at) == run(p, replies, at),
        run(p, replies, at) matches Progress::Gives(_, n) && at <= n && (n == at || n
            <= replies.len()),
    decreases p,
{
    match p {
        Procedure::Done(_) => {},
        Procedure::Ask(_, f) => {
            lemma_uses_more(f(replies[at]), replies, at + 1);
            law_later_replies_do_not_matter(f(replies[at]), replies, others, at + 1);
        },
    }
}

/// Lemma: a procedure that is done has not given replies back.
pub proof fn lemma_uses_more<T>(p: Procedure<T>, replies: Seq<Reply>, at: int)
    ensures
        run(p, replies, at) matches Progress::Gives(_, n) ==> at <= n,
    decreases p,
{
    match p {
        Procedure::Done(_) => {},
        Procedure::Ask(_, f) => {
            if 0 <= at < replies.len() {
                lemma_uses_more(f(replies[at]), replies, at + 1);
            }
        },
    }
}

/// What stands for a value in mathematics.
pub trait Modeled {
    type Model;

    /// The value as a mathematical one.
    spec fn model(&self) -> Self::Model;
}

impl Modeled for String {
    type Model = Seq<char>;

    open spec fn model(&self) -> Seq<char> {
        self@
    }
}

impl Modeled for Vec<u8> {
    type Model = Seq<u8>;

    open spec fn model(&self) -> Seq<u8> {
        self@
    }
}

impl Modeled for bool {
    type Model = bool;

    open spec fn model(&self) -> bool {
        *self
    }
}

impl Modeled for u64 {
    type Model = u64;

    open spec fn model(&self) -> u64 {
        *self
    }
}

impl Modeled for () {
    type Model = ();

    open spec fn model(&self) -> () {
        ()
    }
}

impl<A: Modeled, B: Modeled> Modeled for (A, B) {
    type Model = (A::Model, B::Model);

    open spec fn model(&self) -> (A::Model, B::Model) {
        (self.0.model(), self.1.model())
    }
}

impl<A: Modeled> Modeled for Option<A> {
    type Model = Option<A::Model>;

    open spec fn model(&self) -> Option<A::Model> {
        match self {
            Some(v) => Some(v.model()),
            None => None,
        }
    }
}

impl<A: Modeled, B: Modeled> Modeled for Result<A, B> {
    type Model = Result<A::Model, B::Model>;

    open spec fn model(&self) -> Result<A::Model, B::Model> {
        match self {
            Ok(v) => Ok(v.model()),
            Err(e) => Err(e.model()),
        }
    }
}

/// The script went on by the procedure `p` and came to `r`: a result, or the
/// step that is asked for next.
pub open spec fn follows<T: Modeled>(
    p: Procedure<T::Model>,
    before: Script,
    after: Script,
    r: Result<T, Step>,
) -> bool {
    &&& after.replies@ == before.replies@
    &&& run(p, before.replies@, before.at as int) == (match r {
        Ok(v) => Progress::Gives(v.model(), after.at as int),
        Err(step) => Progress::Asks(step@),
    })
}

/// The replies received so far, and how many of them were looked at.
pub struct Script<'a> {
    pub replies: &'a Vec<Reply>,
    pub at: usize,
}

impl<'a> Script<'a> {
    /// A script that begins with the first reply.
    pub fn new(replies: &'a Vec<Reply>) -> (r: Script<'a>)
        ensures
            r.replies@ == replies@,
            r.at == 0,
    {
        Script { replies, at: 0 }
    }

    /// Asks for a step: its reply, or, where the replies end, the step itself.
    pub fn ask(&mut self, step: Step) -> (r: Result<&'a Reply, Step>)
        ensures
            final(self).replies@ == old(self).replies@,
            match r {
                Ok(reply) => {
                    &&& old(self).at < old(self).replies@.len()
                    &&& *reply == old(self).replies@[old(self).at as int]
                    &&& final(self).at == old(self).at + 1
                },
                Err(s) => {
                    &&& old(self).at >= old(self).replies@.len()
                    &&& s == step
                    &&& final(self).at == old(self).at
                },
            },
    {
        if self.at < self.replies.len() {
            let reply = &self.replies[self.at];
            self.at += 1;
            Ok(reply)
        } else {
            Err(step)
        }
    }
}

} // verus!
