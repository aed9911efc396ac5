//! What holds of every injection, whatever the host answers.

use crate::clipboard::secret_offer;
use crate::exchange::{RequestView, ResponseView};
use crate::output::{exhausted, reasons, start, InjectionView};
use crate::strategy::{InjectBackend, Stage, Strategy};
use crate::text::join;
use vstd::prelude::*;

verus! {

/// The state after the host has answered with each of `responses` in turn.
pub open spec fn run(state: InjectionView, responses: Seq<ResponseView>) -> InjectionView
    decreases responses.len(),
{
    if responses.len() == 0 {
        state
    } else {
        run(state, responses.drop_last()).advance(responses.last())
    }
}

/// One request that the host has carried out, with the strategy that was
/// under way.
pub struct Deed {
    pub strategy: Strategy,
    pub request: RequestView,
}

/// The requests that the host has carried out along a run, oldest first:
/// each request that got an answer of its kind.
pub open spec fn deeds(state: InjectionView, responses: Seq<ResponseView>) -> Seq<Deed>
    decreases responses.len(),
{
    if responses.len() == 0 {
        Seq::empty()
    } else {
        let before = run(state, responses.drop_last());
        let earlier = deeds(state, responses.drop_last());
        if before.request().answered_by(responses.last()) {
            earlier.push(Deed { strategy: before.strategy, request: before.request() })
        } else {
            earlier
        }
    }
}

/// An answer of another kind than the request asks for changes nothing.
pub proof fn stray_answer_is_passed_over(state: InjectionView, response: ResponseView)
    requires
        !state.request().answered_by(response),
    ensures
        state.advance(response) == state,
{
}

/// A well-formed state stays well-formed under every answer.
pub proof fn advance_keeps_well_formed(state: InjectionView, response: ResponseView)
    requires
        state.wf(),
    ensures
        state.advance(response).wf(),
{
}

/// Every state of every injection is well-formed, and holds the text and
/// the backend that the injection began with.
pub proof fn run_is_well_formed(
    text: Seq<char>,
    backend: InjectBackend,
    responses: Seq<ResponseView>,
)
    ensures
        run(start(text, backend), responses).wf(),
        run(start(text, backend), responses).text == text,
        run(start(text, backend), responses).backend == backend,
    decreases responses.len(),
{
    if responses.len() > 0 {
        run_is_well_formed(text, backend, responses.drop_last());
        advance_keeps_well_formed(
            run(start(text, backend), responses.drop_last()),
            responses.last(),
        );
    }
}

/// Once the injection is over, no answer changes the state, and so the
/// request stays the final one.
pub proof fn finished_is_final(state: InjectionView, responses: Seq<ResponseView>)
    requires
        state.finished(),
    ensures
        run(state, responses) == state,
        deeds(state, responses) == Seq::<Deed>::empty(),
    decreases responses.len(),
{
    if responses.len() > 0 {
        finished_is_final(state, responses.drop_last());
    }
}

/// What the cascade keeps true of a run: the deeds stand in the order of
/// the cascade, and none belongs to a strategy after the current one.
pub open spec fn in_cascade_order(end: InjectionView, done: Seq<Deed>) -> bool {
    &&& forall|i: int, j: int|
        0 <= i <= j < done.len() ==> (#[trigger] done[i]).strategy.rank() <= (
        #[trigger] done[j]).strategy.rank()
    &&& forall|i: int|
        0 <= i < done.len() ==> (#[trigger] done[i]).strategy.rank() <= end.strategy.rank()
}

proof fn cascade_order_step(text: Seq<char>, backend: InjectBackend, responses: Seq<ResponseView>)
    ensures
        in_cascade_order(run(start(text, backend), responses), deeds(start(text, backend), responses)),
        run(start(text, backend), responses).wf(),
    decreases responses.len(),
{
    let begin = start(text, backend);
    if responses.len() > 0 {
        cascade_order_step(text, backend, responses.drop_last());
        let before = run(begin, responses.drop_last());
        advance_keeps_well_formed(before, responses.last());
        assert(before.strategy.rank() <= before.advance(responses.last()).strategy.rank());
    }
}

/// The order of the cascade. In automatic mode, whatever the host answers:
/// the strategies are attempted in the order clipboard paste, kernel
/// injection, Wayland, X11; the strategy under way, or the one that has
/// delivered the text, is the first that has not failed, every one before
/// it having failed once, in order; the host has done nothing for a later
/// strategy; and the injection fails only when all four have failed.
pub proof fn cascade_order(text: Seq<char>, responses: Seq<ResponseView>)
    ensures
        ({
            let end = run(start(text, InjectBackend::Auto), responses);
            let done = deeds(start(text, InjectBackend::Auto), responses);
            &&& forall|i: int, j: int|
                0 <= i <= j < done.len() ==> (#[trigger] done[i]).strategy.rank() <= (
                #[trigger] done[j]).strategy.rank()
            &&& forall|i: int|
                0 <= i < done.len() ==> (#[trigger] done[i]).strategy.rank()
                    <= end.strategy.rank()
            &&& forall|i: int|
                0 <= i < end.failures.len() ==> (#[trigger] end.failures[i]).strategy.rank() == i
            &&& !end.failed() ==> end.failures.len() == end.strategy.rank()
            &&& end.failed() <==> end.failures.len() == 4
            &&& end.succeeded ==> end.finished() && end.outcome() is Ok
        }),
{
    cascade_order_step(text, InjectBackend::Auto, responses);
    run_is_well_formed(text, InjectBackend::Auto, responses);
}

/// The first success ends the cascade: after it no answer changes the
/// state, and the host is asked for nothing but to finish.
pub proof fn success_ends_the_cascade(
    text: Seq<char>,
    backend: InjectBackend,
    responses: Seq<ResponseView>,
    later: Seq<ResponseView>,
)
    requires
        run(start(text, backend), responses).succeeded,
    ensures
        ({
            let end = run(start(text, backend), responses);
            &&& run(end, later) == end
            &&& deeds(end, later) == Seq::<Deed>::empty()
            &&& end.request() == (RequestView::Finish { result: Ok(()) })
        }),
{
    run_is_well_formed(text, backend, responses);
    finished_is_final(run(start(text, backend), responses), later);
}

/// The exhausted cascade. In automatic mode an injection that fails has
/// seen all four strategies fail, and its message holds the four reasons in
/// the order of the attempts, joined by semicolons.
pub proof fn cascade_exhaustion(text: Seq<char>, responses: Seq<ResponseView>)
    requires
        run(start(text, InjectBackend::Auto), responses).failed(),
    ensures
        ({
            let end = run(start(text, InjectBackend::Auto), responses);
            let failures = end.failures;
            &&& failures.len() == 4
            &&& failures[0].strategy is ClipboardPaste
            &&& failures[1].strategy is KernelInjection
            &&& failures[2].strategy is WaylandNative
            &&& failures[3].strategy is X11Native
            &&& end.outcome() == Err::<(), Seq<char>>(
                "no supported injection backends available ("@ + failures[0].reason + "; "@
                    + failures[1].reason + "; "@ + failures[2].reason + "; "@
                    + failures[3].reason + ")"@,
            )
            &&& end.request() == (RequestView::Finish { result: end.outcome() })
        }),
{
    let end = run(start(text, InjectBackend::Auto), responses);
    run_is_well_formed(text, InjectBackend::Auto, responses);
    let parts = reasons(end.failures);
    let sep = "; "@;
    assert(parts.len() == 4);
    let three = parts.drop_last();
    let two = three.drop_last();
    let one = two.drop_last();
    assert(join(one, sep) == parts[0]);
    assert(join(two, sep) == join(one, sep) + sep + parts[1]);
    assert(join(three, sep) == join(two, sep) + sep + parts[2]);
    assert(join(parts, sep) == join(three, sep) + sep + parts[3]);
    assert(exhausted(end.failures) =~= "no supported injection backends available ("@
        + end.failures[0].reason + "; "@ + end.failures[1].reason + "; "@
        + end.failures[2].reason + "; "@ + end.failures[3].reason + ")"@);
}

/// One strategy for an explicit backend. Whatever the host answers, the
/// strategy under way is the one asked for, the host does nothing for any
/// other, and a failure of that strategy is the whole error: its reason is
/// the message.
pub proof fn explicit_backend_runs_one_strategy(
    text: Seq<char>,
    backend: InjectBackend,
    responses: Seq<ResponseView>,
)
    requires
        backend !is Auto,
    ensures
        ({
            let end = run(start(text, backend), responses);
            let done = deeds(start(text, backend), responses);
            &&& end.strategy == backend.first_strategy()
            &&& forall|i: int|
                0 <= i < done.len() ==> (#[trigger] done[i]).strategy == backend.first_strategy()
            &&& end.failed() ==> end.failures.len() == 1 && end.failures[0].strategy
                == backend.first_strategy() && end.outcome() == Err::<(), Seq<char>>(
                end.failures[0].reason,
            )
            &&& !end.failed() ==> end.failures.len() == 0
        }),
    decreases responses.len(),
{
    let begin = start(text, backend);
    run_is_well_formed(text, backend, responses);
    if responses.len() > 0 {
        explicit_backend_runs_one_strategy(text, backend, responses.drop_last());
        run_is_well_formed(text, backend, responses.drop_last());
    }
}

/// Whether carrying out `request` starts a program.
pub open spec fn starts_program(request: RequestView) -> bool {
    request is Run || request is Capture
}

/// Whether `stage` is one of the probes that an attempt begins with.
pub open spec fn probing(stage: Stage) -> bool {
    stage is Uid || stage is RuntimeSocket || stage is FallbackSocket || stage is Session
}

/// Whether no program has been started for `strategy` among `done`.
pub open spec fn no_program_for(strategy: Strategy, done: Seq<Deed>) -> bool {
    forall|k: int|
        0 <= k < done.len() && (#[trigger] done[k]).strategy == strategy ==> !starts_program(
            done[k].request,
        )
}

/// Failing fast. A strategy that fails as unavailable (its daemon or its
/// session is absent) fails before the host has started any program for
/// it.
pub proof fn unavailable_starts_no_program(
    text: Seq<char>,
    backend: InjectBackend,
    responses: Seq<ResponseView>,
)
    ensures
        ({
            let end = run(start(text, backend), responses);
            let done = deeds(start(text, backend), responses);
            &&& forall|i: int|
                0 <= i < end.failures.len() && (#[trigger] end.failures[i]).kind is Unavailable
                    ==> no_program_for(end.failures[i].strategy, done)
            &&& !end.finished() && probing(end.stage) ==> no_program_for(end.strategy, done)
        }),
    decreases responses.len(),
{
    let begin = start(text, backend);
    let end = run(begin, responses);
    let done = deeds(begin, responses);
    cascade_order_step(text, backend, responses);
    run_is_well_formed(text, backend, responses);
    if responses.len() > 0 {
        let earlier = responses.drop_last();
        let before = run(begin, earlier);
        let prior = deeds(begin, earlier);
        unavailable_starts_no_program(text, backend, earlier);
        cascade_order_step(text, backend, earlier);
        run_is_well_formed(text, backend, earlier);
        assert forall|i: int|
            0 <= i < end.failures.len() && (#[trigger] end.failures[i]).kind is Unavailable implies no_program_for(
            end.failures[i].strategy,
            done,
        ) by {
            if i < before.failures.len() {
                assert(end.failures[i] == before.failures[i]);
                assert(no_program_for(before.failures[i].strategy, prior));
            } else {
                assert(probing(before.stage));
                assert(end.failures[i].strategy == before.strategy);
                assert(no_program_for(before.strategy, prior));
            }
        }
    }
}

/// Whether the text of the injection may stand on the clipboard in this
/// state: the clipboard paste has written it and has not yet put back what
/// it saved.
pub open spec fn holds_clipboard(state: InjectionView) -> bool {
    state.strategy is ClipboardPaste && (state.stage is WindowWayland || state.stage is WindowX11
        || state.stage is Run || state.stage is Settle || state.stage is Restore)
}

/// Guaranteed cleanup. Once the clipboard paste has written the text, the
/// attempt ends in one way only: through the restoring of the clipboard,
/// which offers the saved content again, or clears the clipboard where
/// nothing was saved. The restoring follows the settle delay, and the
/// settle delay follows the paste shortcut, whatever came of the shortcut.
pub proof fn written_clipboard_is_put_back_on_every_path(
    state: InjectionView,
    response: ResponseView,
)
    requires
        state.wf(),
        holds_clipboard(state),
    ensures
        ({
            let next = state.advance(response);
            &&& holds_clipboard(next) || (state.stage is Restore && response is Clipboard)
            &&& state.stage is Restore ==> state.request() == match state.saved {
                Some(content) => RequestView::OfferClipboard { offer: secret_offer(content) },
                None => RequestView::ClearClipboard,
            }
            &&& next.stage is Restore && holds_clipboard(next) ==> state.stage is Restore || (
            state.stage is Settle && response is Settled)
            &&& next.stage is Settle ==> state.stage is Settle || (state.stage is Run
                && response is Exited)
        }),
{
}

/// What the clipboard holds after the host has carried out `request` and
/// answered with `response`, where it held `content` before: a successful
/// offer replaces the content, a successful clearing empties the
/// clipboard, and everything else, a failed write too, leaves it as it was.
pub open spec fn clipboard_after(
    content: Option<Seq<u8>>,
    request: RequestView,
    response: ResponseView,
) -> Option<Seq<u8>> {
    match (request, response) {
        (RequestView::OfferClipboard { offer }, ResponseView::Clipboard(Ok(_))) => Some(
            offer.content,
        ),
        (RequestView::ClearClipboard, ResponseView::Clipboard(Ok(_))) => None,
        _ => content,
    }
}

/// What the clipboard holds after a run, where it held `initial` at the
/// start.
pub open spec fn clipboard(
    initial: Option<Seq<u8>>,
    state: InjectionView,
    responses: Seq<ResponseView>,
) -> Option<Seq<u8>>
    decreases responses.len(),
{
    if responses.len() == 0 {
        initial
    } else {
        clipboard_after(
            clipboard(initial, state, responses.drop_last()),
            run(state, responses.drop_last()).request(),
            responses.last(),
        )
    }
}

/// Whether the clipboard has played along in a run: every answer to the
/// saving of the clipboard reported what it held, and every restoring
/// succeeded.
pub open spec fn clipboard_plays_along(
    initial: Option<Seq<u8>>,
    state: InjectionView,
    responses: Seq<ResponseView>,
) -> bool
    decreases responses.len(),
{
    if responses.len() == 0 {
        true
    } else {
        let before = run(state, responses.drop_last());
        let content = clipboard(initial, state, responses.drop_last());
        &&& clipboard_plays_along(initial, state, responses.drop_last())
        &&& before.stage is Snapshot ==> (responses.last() matches ResponseView::Snapshot(seen)
            ==> seen == content)
        &&& before.stage is Restore ==> (responses.last() matches ResponseView::Clipboard(done)
            ==> done is Ok)
    }
}

/// The clipboard round trip. Where the clipboard plays along, it holds
/// after the clipboard paste, successful or not, what it held before: the
/// saved content where there was one, nothing where there was none. While
/// the text stands on the clipboard, the engine holds what it saved; no
/// other strategy touches the clipboard.
pub proof fn clipboard_round_trip(
    text: Seq<char>,
    backend: InjectBackend,
    initial: Option<Seq<u8>>,
    responses: Seq<ResponseView>,
)
    requires
        clipboard_plays_along(initial, start(text, backend), responses),
    ensures
        ({
            let end = run(start(text, backend), responses);
            let content = clipboard(initial, start(text, backend), responses);
            &&& holds_clipboard(end) ==> end.saved == initial
            &&& !holds_clipboard(end) ==> content == initial
            &&& end.finished() ==> content == initial
        }),
    decreases responses.len(),
{
    let begin = start(text, backend);
    let end = run(begin, responses);
    run_is_well_formed(text, backend, responses);
    if responses.len() > 0 {
        let earlier = responses.drop_last();
        let before = run(begin, earlier);
        clipboard_round_trip(text, backend, initial, earlier);
        written_text_awaits_restoring(text, backend, initial, earlier);
        run_is_well_formed(text, backend, earlier);
    }
}

proof fn written_text_awaits_restoring(
    text: Seq<char>,
    backend: InjectBackend,
    initial: Option<Seq<u8>>,
    responses: Seq<ResponseView>,
)
    requires
        clipboard_plays_along(initial, start(text, backend), responses),
    ensures
        ({
            let end = run(start(text, backend), responses);
            end.strategy is ClipboardPaste && end.stage is Write ==> end.saved == initial
        }),
    decreases responses.len(),
{
    let begin = start(text, backend);
    run_is_well_formed(text, backend, responses);
    if responses.len() > 0 {
        let earlier = responses.drop_last();
        written_text_awaits_restoring(text, backend, initial, earlier);
        clipboard_round_trip(text, backend, initial, earlier);
        run_is_well_formed(text, backend, earlier);
    }
}

/// How many answers the attempt of `strategy` needs at most from `stage`
/// to its end.
pub open spec fn answers_left_in(strategy: Strategy, stage: Stage) -> nat {
    let run: nat = if strategy is ClipboardPaste {
        3
    } else {
        1
    };
    let daemon: nat = if strategy is ClipboardPaste {
        7
    } else {
        1
    };
    match stage {
        Stage::Uid => daemon + 3,
        Stage::RuntimeSocket => daemon + 2,
        Stage::FallbackSocket => daemon + 1,
        Stage::Snapshot => 7,
        Stage::Write => 6,
        Stage::WindowWayland => 5,
        Stage::WindowX11 => 4,
        Stage::Session => 2,
        Stage::Run => run,
        Stage::Settle => 2,
        Stage::Restore => 1,
        Stage::Done => 0,
    }
}

/// How many answers the strategies after `strategy` need at most, all
/// together.
pub open spec fn answers_left_after(strategy: Strategy) -> nat {
    match strategy {
        Strategy::ClipboardPaste => 8,
        Strategy::KernelInjection => 4,
        Strategy::WaylandNative => 2,
        Strategy::X11Native => 0,
    }
}

/// How many answers the injection needs at most from `state` to its end.
pub open spec fn answers_left(state: InjectionView) -> nat {
    if state.finished() {
        0
    } else if state.backend is Auto {
        answers_left_in(state.strategy, state.stage) + answers_left_after(state.strategy)
    } else {
        answers_left_in(state.strategy, state.stage)
    }
}

/// Every answer of the kind asked for brings the end nearer.
pub proof fn every_answer_brings_the_end_nearer(state: InjectionView, response: ResponseView)
    requires
        state.wf(),
        state.request().answered_by(response),
    ensures
        answers_left(state.advance(response)) < answers_left(state),
{
}

/// No injection asks for more than eighteen things before it is over: the
/// deeds of a run and the answers still needed never exceed that together.
pub proof fn injection_ends(text: Seq<char>, backend: InjectBackend, responses: Seq<ResponseView>)
    ensures
        deeds(start(text, backend), responses).len() + answers_left(
            run(start(text, backend), responses),
        ) <= 18,
    decreases responses.len(),
{
    let begin = start(text, backend);
    if responses.len() > 0 {
        let earlier = responses.drop_last();
        injection_ends(text, backend, earlier);
        run_is_well_formed(text, backend, earlier);
        let before = run(begin, earlier);
        if before.request().answered_by(responses.last()) {
            every_answer_brings_the_end_nearer(before, responses.last());
        }
    }
}

} // verus!
