//! Rendering an error chain as text.
//!
//! A chain is written from the outermost link to the innermost. Each link
//! gives its origin label, its kind label after one space, then its context
//! and its cause, each where present. A label is left out where the link
//! directly above has the same label, so a label never shows twice in a
//! row. Status errors share one kind label whatever their codes: below a
//! status error, another status error shows no kind label.

use super::{Cause, CauseView, DakiaError, ErrorView};
use vstd::prelude::*;
use vstd::string::StringExecFns;

verus! {

impl ErrorView {
    /// The origin label of this link, as it shows below `previous`.
    pub open spec fn source_text(self, previous: Option<ErrorView>) -> Seq<char> {
        if previous matches Some(p) && p.source.label() == self.source.label() {
            Seq::empty()
        } else {
            self.source.label()
        }
    }

    /// The kind label of this link, as it shows below `previous`.
    pub open spec fn etype_text(self, previous: Option<ErrorView>) -> Seq<char> {
        if previous matches Some(p) && p.etype.label() == self.etype.label() {
            Seq::empty()
        } else {
            " "@ + self.etype.label()
        }
    }

    /// The context of this link as it shows.
    pub open spec fn context_text(self) -> Seq<char> {
        match self.context {
            Some(c) => " context: "@ + c,
            None => Seq::empty(),
        }
    }

    /// The cause of this link as it shows: a structured cause as the chain
    /// below this link, an outside failure as its own text.
    pub open spec fn cause_text(self) -> Seq<char>
        decreases self, 0nat,
    {
        match self.cause {
            Some(CauseView::Error(e)) => " cause: "@ + e.chain_text(Some(self)),
            Some(CauseView::External(text)) => " cause: "@ + text,
            None => Seq::empty(),
        }
    }

    /// This link and all below it, as they show below `previous`.
    pub open spec fn chain_text(self, previous: Option<ErrorView>) -> Seq<char>
        decreases self, 1nat,
    {
        self.source_text(previous) + self.etype_text(previous) + self.context_text()
            + self.cause_text()
    }

    /// The whole chain as text.
    pub open spec fn text(self) -> Seq<char> {
        self.chain_text(None)
    }
}

/// The value of an optional link above.
pub open spec fn previous_view(previous: Option<&DakiaError>) -> Option<ErrorView> {
    match previous {
        Some(p) => Some(p@),
        None => None,
    }
}

proof fn lemma_append_twice(start: Seq<char>, a: Seq<char>, b: Seq<char>)
    ensures
        (start + a) + b == start + (a + b),
{
}

impl DakiaError {
    fn write_source(&self, previous: Option<&DakiaError>, out: &mut String)
        ensures
            final(out)@ == old(out)@ + self@.source_text(previous_view(previous)),
    {
        let same = match previous {
            Some(p) => p.source.same_label(&self.source),
            None => false,
        };
        if !same {
            out.append(self.source.as_str());
        }
    }

    fn write_etype(&self, previous: Option<&DakiaError>, out: &mut String)
        ensures
            final(out)@ == old(out)@ + self@.etype_text(previous_view(previous)),
    {
        let same = match previous {
            Some(p) => p.etype.same_label(&self.etype),
            None => false,
        };
        if !same {
            out.append(" ");
            out.append(self.etype.as_str());
        }
    }

    fn write_context(&self, out: &mut String)
        ensures
            final(out)@ == old(out)@ + self@.context_text(),
    {
        match &self.context {
            Some(c) => {
                out.append(" context: ");
                out.append(c.as_str());
            },
            None => {},
        }
    }

    fn write_cause(&self, out: &mut String)
        ensures
            final(out)@ == old(out)@ + self@.cause_text(),
        decreases self, 0nat,
    {
        match &self.cause {
            Some(Cause::Error(e)) => {
                out.append(" cause: ");
                e.chain_display(Some(self), out);
                proof {
                    lemma_append_twice(old(out)@, " cause: "@, e@.chain_text(Some(self@)));
                }
            },
            Some(Cause::External(text)) => {
                out.append(" cause: ");
                out.append(text.as_str());
                proof {
                    lemma_append_twice(old(out)@, " cause: "@, text@);
                }
            },
            None => {},
        }
    }

    /// Appends to `out` this link and all below it, as they show below
    /// `previous`.
    pub fn chain_display(&self, previous: Option<&DakiaError>, out: &mut String)
        ensures
            final(out)@ == old(out)@ + self@.chain_text(previous_view(previous)),
        decreases self, 1nat,
    {
        let ghost above = previous_view(previous);
        self.write_source(previous, out);
        self.write_etype(previous, out);
        self.write_context(out);
        self.write_cause(out);
        proof {
            let a = self@.source_text(above);
            let b = self@.etype_text(above);
            let c = self@.context_text();
            let d = self@.cause_text();
            lemma_append_twice(old(out)@, a, b);
            lemma_append_twice(old(out)@, a + b, c);
            lemma_append_twice(old(out)@, a + b + c, d);
        }
    }

    /// The whole chain as text.
    pub fn render(&self) -> (text: String)
        ensures
            text@ == self@.text(),
    {
        let mut out = String::new();
        self.chain_display(None, &mut out);
        out
    }
}

} // verus!
