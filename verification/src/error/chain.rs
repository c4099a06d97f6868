//! What holds of every error chain.

use super::{CauseView, ErrorView};
use vstd::prelude::*;

verus! {

/// A chain has an innermost link: its root has no structured cause, and a
/// chain of one link is its own root.
pub proof fn lemma_root_is_innermost(e: ErrorView)
    ensures
        !(e.root().cause matches Some(CauseView::Error(_))),
        e.root().links() == 1,
        e.links() == 1 ==> e.root() == e,
    decreases e,
{
    if let Some(CauseView::Error(inner)) = e.cause {
        lemma_root_is_innermost(*inner);
    }
}

/// Changing the party an error is attributed to changes nothing else, and
/// the last attribution is the one that stays.
pub proof fn lemma_from_source(e: ErrorView, first: super::ErrorSource, second: super::ErrorSource)
    ensures
        e.from_source(first).etype == e.etype,
        e.from_source(first).cause == e.cause,
        e.from_source(first).context == e.context,
        e.from_source(first).source == first,
        e.from_source(first).from_source(second) == e.from_source(second),
        e.from_source(e.source) == e,
{
}

/// A new link on top of a chain inherits the kind and the origin of the
/// link below, and leaves the root of the chain, its kind and where the
/// chain ends as they were.
pub proof fn lemma_wrapped_keeps_root(e: ErrorView, context: Seq<char>)
    ensures
        e.wrapped(context).etype == e.etype,
        e.wrapped(context).source == e.source,
        e.wrapped(context).links() == e.links() + 1,
        e.wrapped(context).root() == e.root(),
        e.wrapped(context).root_etype() == e.root_etype(),
        e.wrapped(context).root_cause() == e.root_cause(),
{
}

/// A label never shows twice in a row. Below a link with the same origin
/// label a link shows no origin label, and below a link with the same kind
/// label it shows no kind label; a label that differs from the one above
/// shows. An origin label is the same only for the same origin; a kind
/// label is the same for the same kind and for any two status errors.
pub proof fn lemma_no_label_twice_in_a_row(e: ErrorView, above: ErrorView)
    ensures
        above.source.label() == e.source.label() <==> above.source == e.source,
        above.etype.label() == e.etype.label() <==> above.etype == e.etype || (above.etype
            is ProxyError && e.etype is ProxyError),
        e.source_text(Some(above)) == if above.source.label() == e.source.label() {
            Seq::<char>::empty()
        } else {
            e.source.label()
        },
        e.etype_text(Some(above)) == if above.etype.label() == e.etype.label() {
            Seq::<char>::empty()
        } else {
            " "@ + e.etype.label()
        },
{
    above.source.lemma_label(e.source);
    above.etype.lemma_label(e.etype);
}

/// Below a link with the same origin label and the same kind label, a link
/// shows neither label.
pub proof fn lemma_labels_show_once(e: ErrorView, above: ErrorView)
    requires
        above.source.label() == e.source.label(),
        above.etype.label() == e.etype.label(),
    ensures
        e.chain_text(Some(above)) == e.context_text() + e.cause_text(),
{
    let empty = Seq::<char>::empty();
    assert(empty + empty + e.context_text() + e.cause_text() =~= e.context_text() + e.cause_text());
}

/// Putting a context on an error renders the origin and kind labels once,
/// then the new context, then what the error itself rendered after its
/// labels: its own context and its cause.
pub proof fn lemma_wrapped_text(e: ErrorView, context: Seq<char>)
    ensures
        e.text() == e.source.label() + " "@ + e.etype.label() + (e.context_text() + e.cause_text()),
        e.wrapped(context).text() == e.source.label() + " "@ + e.etype.label() + " context: "@
            + context + " cause: "@ + (e.context_text() + e.cause_text()),
{
    let rest = e.context_text() + e.cause_text();
    let w = e.wrapped(context);
    lemma_labels_show_once(e, w);
    assert(w.text() =~= e.source.label() + " "@ + e.etype.label() + " context: "@ + context
        + " cause: "@ + rest);
}

/// The text that one more context adds to a rendered chain.
pub open spec fn context_link(context: Seq<char>) -> Seq<char> {
    " context: "@ + context + " cause: "@
}

/// An error wrapped three times renders its labels once, then the three
/// contexts from the outermost to the innermost, then the error's own
/// context and cause; and its root kind is that of the error it started
/// from.
pub proof fn lemma_three_contexts(
    e: ErrorView,
    first: Seq<char>,
    second: Seq<char>,
    third: Seq<char>,
)
    ensures
        e.wrapped(first).wrapped(second).wrapped(third).text() == e.source.label() + " "@
            + e.etype.label() + context_link(third) + context_link(second) + context_link(first)
            + (e.context_text() + e.cause_text()),
        e.wrapped(first).wrapped(second).wrapped(third).root_etype() == e.root_etype(),
{
    let one = e.wrapped(first);
    let two = one.wrapped(second);
    let three = two.wrapped(third);
    let labels = e.source.label() + " "@ + e.etype.label();
    let tail = e.context_text() + e.cause_text();
    lemma_wrapped_keeps_root(e, first);
    lemma_wrapped_keeps_root(one, second);
    lemma_wrapped_keeps_root(two, third);
    lemma_labels_show_once(e, one);
    lemma_labels_show_once(one, two);
    lemma_wrapped_text(two, third);
    assert(two.context_text() + two.cause_text() =~= context_link(second) + (context_link(first)
        + tail));
    assert(three.text() =~= labels + context_link(third) + context_link(second) + context_link(
        first,
    ) + tail);
}

} // verus!
