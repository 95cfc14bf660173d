use vstd::prelude::*;

use crate::format::{
    default_panic_renderer, lemma_panic_page_holds_whole_message, panic_message, panic_page,
    render_replacement, replacement_markup, unescaped, PanicPayload,
};
use crate::html::Html;
use crate::options::ColumboOptions;

verus! {

/// How a suspended task ended.
pub enum TaskOutcome {
    /// The response went away while auto-cancel was on, before the task
    /// finished.
    Cancelled,
    /// The task finished with this content.
    Completed(Html),
    /// The task panicked, and the configured panic renderer made this
    /// fallback.
    PanickedWithFallback(Html),
    /// The task panicked, and no panic renderer was configured.
    Panicked(PanicPayload),
}

/// How a suspended task ended, from what its future gave: the content where
/// it completed; where it panicked, the fallback of the configured panic
/// renderer, called on the panic object, or else the payload that `describe`
/// reads from the panic object, for the default panic page.
pub fn task_outcome<P, R, D>(
    result: Result<Html, P>,
    options: &ColumboOptions<R>,
    describe: D,
) -> (outcome: TaskOutcome) where R: Fn(P) -> Html, D: FnOnce(P) -> PanicPayload
    requires
        result matches Err(panic) ==> match options.panic_renderer {
            Some(render) => call_requires(render, (panic,)),
            None => call_requires(describe, (panic,)),
        },
    ensures
        match result {
            Ok(content) => outcome == TaskOutcome::Completed(content),
            Err(panic) => match options.panic_renderer {
                Some(render) => outcome matches TaskOutcome::PanickedWithFallback(fallback)
                    && call_ensures(render, (panic,), fallback),
                None => outcome matches TaskOutcome::Panicked(payload) && call_ensures(
                    describe,
                    (panic,),
                    payload,
                ),
            },
        },
{
    match result {
        Ok(content) => TaskOutcome::Completed(content),
        Err(panic) => match &options.panic_renderer {
            Some(render) => TaskOutcome::PanickedWithFallback(render(panic)),
            None => TaskOutcome::Panicked(describe(panic)),
        },
    }
}

/// The content swapped in for a task that ended this way, if any.
pub open spec fn outcome_content(outcome: TaskOutcome) -> Option<Seq<char>> {
    match outcome {
        TaskOutcome::Cancelled => None,
        TaskOutcome::Completed(content) => Some(content@),
        TaskOutcome::PanickedWithFallback(fallback) => Some(fallback@),
        TaskOutcome::Panicked(payload) => Some(panic_page(panic_message(payload))),
    }
}

/// Only cancellation streams nothing: every other outcome has content to
/// swap in. A completed task swaps in exactly its content, empty content
/// included; a panicked one swaps in the fallback of its renderer, or the
/// panic page whose message reads back as the panic text.
pub proof fn lemma_only_cancellation_streams_nothing(outcome: TaskOutcome)
    ensures
        outcome_content(outcome) is None <==> outcome is Cancelled,
        outcome matches TaskOutcome::Completed(content) ==> outcome_content(outcome) == Some(
            content@,
        ),
        outcome matches TaskOutcome::PanickedWithFallback(fallback) ==> outcome_content(outcome)
            == Some(fallback@),
        outcome matches TaskOutcome::Panicked(PanicPayload::Text(text)) ==> ({
            let page = outcome_content(outcome)->0;
            let head = crate::format::PANIC_PAGE_HEAD@;
            let tail = crate::format::PANIC_PAGE_TAIL@;
            unescaped(page.subrange(head.len() as int, page.len() - tail.len())) == text@
        }),
{
    if let TaskOutcome::Panicked(payload) = outcome {
        lemma_panic_page_holds_whole_message(panic_message(payload));
    }
}

/// The message that the task of suspense `id` streams once it has ended: the
/// replacement template around its content, or around the panic fallback; a
/// cancelled task streams nothing.
pub fn replacement_for(id: usize, outcome: TaskOutcome) -> (message: Option<Html>)
    ensures
        match outcome_content(outcome) {
            None => message is None,
            Some(content) => message matches Some(m) && m@ == replacement_markup(id as nat, content),
        },
{
    match outcome {
        TaskOutcome::Cancelled => None,
        TaskOutcome::Completed(content) => Some(render_replacement(&id, &content)),
        TaskOutcome::PanickedWithFallback(fallback) => Some(render_replacement(&id, &fallback)),
        TaskOutcome::Panicked(payload) => {
            let fallback = default_panic_renderer(payload);
            Some(render_replacement(&id, &fallback))
        },
    }
}

} // verus!
