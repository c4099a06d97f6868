//! Structured errors: a kind, the party at fault, an optional context string
//! and an optional cause, which may itself be a structured error.

use vstd::prelude::*;

pub mod chain;
pub mod context;
pub mod display;

verus! {

/// The party that caused a failure.
#[derive(Debug, PartialEq, Eq, Clone, Copy, Structural)]
pub enum ErrorSource {
    /// The remote server the gateway forwards to.
    Upstream,
    /// The remote client.
    Downstream,
    /// The gateway's own logic or configuration.
    Internal,
    /// Not known, or not classified yet.
    Unknown,
}

impl ErrorSource {
    /// The label this origin is rendered with.
    pub open spec fn label(self) -> Seq<char> {
        match self {
            ErrorSource::Upstream => "Upstream"@,
            ErrorSource::Downstream => "Downstream"@,
            ErrorSource::Internal => "Internal"@,
            ErrorSource::Unknown => "Unknown"@,
        }
    }

    /// Every origin has a label of its own.
    pub proof fn lemma_label(self, other: ErrorSource)
        ensures
            self.label() == other.label() <==> self == other,
    {
        reveal_strlit("Upstream");
        reveal_strlit("Downstream");
        reveal_strlit("Internal");
        reveal_strlit("Unknown");
        assert("Upstream"@.len() == 8 && "Upstream"@[0] == 'U');
        assert("Downstream"@.len() == 10);
        assert("Internal"@.len() == 8 && "Internal"@[0] == 'I');
        assert("Unknown"@.len() == 7);
    }

    /// Whether the two origins are rendered with the same label.
    pub fn same_label(&self, other: &ErrorSource) -> (same: bool)
        ensures
            same == (self.label() == other.label()),
    {
        proof {
            self.lemma_label(*other);
        }
        *self == *other
    }

    pub fn as_str(&self) -> (s: &'static str)
        ensures
            s@ == self.label(),
    {
        match self {
            ErrorSource::Upstream => "Upstream",
            ErrorSource::Downstream => "Downstream",
            ErrorSource::Internal => "Internal",
            ErrorSource::Unknown => "Unknown",
        }
    }
}

/// The kind of a failure.
#[derive(Debug, PartialEq, Eq, Clone, Copy, Structural)]
pub enum ErrorType {
    /// A failure that should reach the client as the given HTTP status.
    ProxyError(u16),
    /// A defect in the gateway's own logic or configuration.
    InternalError,
    /// Anything not classified.
    UnknownError,
}

impl ErrorType {
    /// The label this kind is rendered with. The status code of a
    /// `ProxyError` is not part of the label, so all status errors share
    /// one label.
    pub open spec fn label(self) -> Seq<char> {
        match self {
            ErrorType::ProxyError(_) => "HTTPStatus"@,
            ErrorType::InternalError => "InternalError"@,
            ErrorType::UnknownError => "UnknownError"@,
        }
    }

    /// Two kinds have the same label exactly where both are status errors,
    /// whatever their codes, or both are the same other kind.
    pub proof fn lemma_label(self, other: ErrorType)
        ensures
            self.label() == other.label() <==> match (self, other) {
                (ErrorType::ProxyError(_), ErrorType::ProxyError(_)) => true,
                (ErrorType::InternalError, ErrorType::InternalError) => true,
                (ErrorType::UnknownError, ErrorType::UnknownError) => true,
                _ => false,
            },
    {
        reveal_strlit("HTTPStatus");
        reveal_strlit("InternalError");
        reveal_strlit("UnknownError");
        assert("HTTPStatus"@.len() == 10);
        assert("InternalError"@.len() == 13);
        assert("UnknownError"@.len() == 12);
    }

    /// Whether the two kinds are rendered with the same label.
    pub fn same_label(&self, other: &ErrorType) -> (same: bool)
        ensures
            same == (self.label() == other.label()),
    {
        proof {
            self.lemma_label(*other);
        }
        match (self, other) {
            (ErrorType::ProxyError(_), ErrorType::ProxyError(_)) => true,
            (ErrorType::InternalError, ErrorType::InternalError) => true,
            (ErrorType::UnknownError, ErrorType::UnknownError) => true,
            _ => false,
        }
    }

    pub fn as_str(&self) -> (s: &'static str)
        ensures
            s@ == self.label(),
    {
        match self {
            ErrorType::ProxyError(_) => "HTTPStatus",
            ErrorType::InternalError => "InternalError",
            ErrorType::UnknownError => "UnknownError",
        }
    }
}

/// What an error was caused by.
#[derive(Debug)]
pub enum Cause {
    /// A structured error, which may have a cause of its own.
    Error(Box<DakiaError>),
    /// A failure from outside this library, kept as the text it renders to.
    External(String),
}

/// A structured error.
#[derive(Debug)]
pub struct DakiaError {
    /// The kind of error.
    pub etype: ErrorType,
    /// The party at fault.
    pub source: ErrorSource,
    /// What caused this error, if anything is known.
    pub cause: Option<Cause>,
    /// Free text that explains what was going on when the error happened.
    pub context: Option<String>,
}

/// Where a chain ends: its innermost structured error, or the outside
/// failure under it.
#[derive(Debug)]
pub enum RootCause<'a> {
    /// The innermost structured error, where that has no cause.
    Error(&'a DakiaError),
    /// The text of the outside failure under the innermost structured error.
    External(&'a String),
}

/// The mathematical value of a [`Cause`].
pub enum CauseView {
    Error(Box<ErrorView>),
    External(Seq<char>),
}

/// The mathematical value of a [`DakiaError`]: the same chain, with every
/// string as a sequence of characters.
pub struct ErrorView {
    pub etype: ErrorType,
    pub source: ErrorSource,
    pub cause: Option<CauseView>,
    pub context: Option<Seq<char>>,
}

impl DakiaError {
    /// The chain as a mathematical value.
    pub open spec fn model(&self) -> ErrorView
        decreases self,
    {
        ErrorView {
            etype: self.etype,
            source: self.source,
            cause: match self.cause {
                Some(Cause::Error(e)) => Some(CauseView::Error(Box::new(e.model()))),
                Some(Cause::External(s)) => Some(CauseView::External(s@)),
                None => None,
            },
            context: match self.context {
                Some(c) => Some(c@),
                None => None,
            },
        }
    }
}

impl View for DakiaError {
    type V = ErrorView;

    open spec fn view(&self) -> ErrorView {
        self.model()
    }
}

impl View for Cause {
    type V = CauseView;

    open spec fn view(&self) -> CauseView {
        match self {
            Cause::Error(e) => CauseView::Error(Box::new(e.model())),
            Cause::External(s) => CauseView::External(s@),
        }
    }
}

impl View for RootCause<'_> {
    type V = CauseView;

    open spec fn view(&self) -> CauseView {
        match self {
            RootCause::Error(e) => CauseView::Error(Box::new(e.model())),
            RootCause::External(s) => CauseView::External(s@),
        }
    }
}

/// The value of an optional cause.
pub open spec fn cause_view(cause: Option<Cause>) -> Option<CauseView> {
    match cause {
        Some(c) => Some(c@),
        None => None,
    }
}

/// The value of an optional context.
pub open spec fn context_view(context: Option<String>) -> Option<Seq<char>> {
    match context {
        Some(c) => Some(c@),
        None => None,
    }
}

impl ErrorView {
    /// An error of the given kind and origin that says nothing more.
    pub open spec fn bare(etype: ErrorType, source: ErrorSource) -> ErrorView {
        ErrorView { etype, source, cause: None, context: None }
    }

    /// An error of unknown origin that carries a context and no cause.
    pub open spec fn explained(etype: ErrorType, context: Seq<char>) -> ErrorView {
        ErrorView { etype, source: ErrorSource::Unknown, cause: None, context: Some(context) }
    }

    /// An error of unknown origin that carries a context and a cause.
    pub open spec fn caused(etype: ErrorType, context: Seq<char>, cause: CauseView) -> ErrorView {
        ErrorView {
            etype,
            source: ErrorSource::Unknown,
            cause: Some(cause),
            context: Some(context),
        }
    }

    /// The same error, attributed to another party.
    pub open spec fn from_source(self, source: ErrorSource) -> ErrorView {
        ErrorView { source, ..self }
    }

    /// A new link on top of this chain: it has this error's kind and origin,
    /// the given context, and this error as its cause.
    pub open spec fn wrapped(self, context: Seq<char>) -> ErrorView {
        ErrorView {
            etype: self.etype,
            source: self.source,
            cause: Some(CauseView::Error(Box::new(self))),
            context: Some(context),
        }
    }

    /// The number of structured links in the chain.
    pub open spec fn links(self) -> nat
        decreases self,
    {
        match self.cause {
            Some(CauseView::Error(e)) => 1 + e.links(),
            _ => 1,
        }
    }

    /// The innermost structured link of the chain.
    pub open spec fn root(self) -> ErrorView
        decreases self,
    {
        match self.cause {
            Some(CauseView::Error(e)) => e.root(),
            _ => self,
        }
    }

    /// The kind of the innermost structured link.
    pub open spec fn root_etype(self) -> ErrorType {
        self.root().etype
    }

    /// Where the chain ends: the outside failure under the innermost
    /// structured link if there is one, else that link itself.
    pub open spec fn root_cause(self) -> CauseView {
        match self.root().cause {
            Some(CauseView::External(text)) => CauseView::External(text),
            _ => CauseView::Error(Box::new(self.root())),
        }
    }
}

impl DakiaError {
    /// Makes an error from all four of its parts.
    pub fn create(
        etype: ErrorType,
        esource: ErrorSource,
        context: Option<String>,
        cause: Option<Cause>,
    ) -> (e: Box<DakiaError>)
        ensures
            e@ == (ErrorView {
                etype,
                source: esource,
                cause: cause_view(cause),
                context: context_view(context),
            }),
    {
        Box::new(DakiaError { etype, source: esource, cause, context })
    }

    fn do_new(e: ErrorType, s: ErrorSource) -> (r: Box<DakiaError>)
        ensures
            r@ == ErrorView::bare(e, s),
    {
        Self::create(e, s, None, None)
    }

    /// An error of the given kind, of unknown origin.
    pub fn new(e: ErrorType) -> (r: Box<DakiaError>)
        ensures
            r@ == ErrorView::bare(e, ErrorSource::Unknown),
    {
        Self::do_new(e, ErrorSource::Unknown)
    }

    /// An error of unknown origin with a context and the failure that caused it.
    pub fn because(e: ErrorType, context: &str, cause: Cause) -> (r: Box<DakiaError>)
        ensures
            r@ == ErrorView::caused(e, context@, cause@),
    {
        Self::create(e, ErrorSource::Unknown, Some(context.to_owned()), Some(cause))
    }

    /// `Err` of [`DakiaError::because`].
    pub fn e_because<T>(e: ErrorType, context: &str, cause: Cause) -> (r: Result<
        T,
        Box<DakiaError>,
    >)
        ensures
            r matches Err(err) && err@ == ErrorView::caused(e, context@, cause@),
    {
        Err(Self::because(e, context, cause))
    }

    /// An error of unknown origin with a context and no cause.
    pub fn explain(e: ErrorType, context: &str) -> (r: Box<DakiaError>)
        ensures
            r@ == ErrorView::explained(e, context@),
    {
        Self::create(e, ErrorSource::Unknown, Some(context.to_owned()), None)
    }

    /// `Err` of [`DakiaError::explain`].
    pub fn e_explain<T>(e: ErrorType, context: &str) -> (r: Result<T, Box<DakiaError>>)
        ensures
            r matches Err(err) && err@ == ErrorView::explained(e, context@),
    {
        Err(Self::explain(e, context))
    }

    /// An error of the given kind, caused by the upstream.
    pub fn new_up(e: ErrorType) -> (r: Box<DakiaError>)
        ensures
            r@ == ErrorView::bare(e, ErrorSource::Upstream),
    {
        Self::do_new(e, ErrorSource::Upstream)
    }

    /// An error of the given kind, caused by the client.
    pub fn new_down(e: ErrorType) -> (r: Box<DakiaError>)
        ensures
            r@ == ErrorView::bare(e, ErrorSource::Downstream),
    {
        Self::do_new(e, ErrorSource::Downstream)
    }

    /// An error of the given kind, caused by the gateway itself.
    pub fn new_in(e: ErrorType) -> (r: Box<DakiaError>)
        ensures
            r@ == ErrorView::bare(e, ErrorSource::Internal),
    {
        Self::do_new(e, ErrorSource::Internal)
    }

    /// `Err` of [`DakiaError::new`].
    pub fn err<T>(e: ErrorType) -> (r: Result<T, Box<DakiaError>>)
        ensures
            r matches Err(err) && err@ == ErrorView::bare(e, ErrorSource::Unknown),
    {
        Err(Self::new(e))
    }

    /// `Err` of [`DakiaError::new_up`].
    pub fn err_up<T>(e: ErrorType) -> (r: Result<T, Box<DakiaError>>)
        ensures
            r matches Err(err) && err@ == ErrorView::bare(e, ErrorSource::Upstream),
    {
        Err(Self::new_up(e))
    }

    /// `Err` of [`DakiaError::new_down`].
    pub fn err_down<T>(e: ErrorType) -> (r: Result<T, Box<DakiaError>>)
        ensures
            r matches Err(err) && err@ == ErrorView::bare(e, ErrorSource::Downstream),
    {
        Err(Self::new_down(e))
    }

    /// `Err` of [`DakiaError::new_in`].
    pub fn err_in<T>(e: ErrorType) -> (r: Result<T, Box<DakiaError>>)
        ensures
            r matches Err(err) && err@ == ErrorView::bare(e, ErrorSource::Internal),
    {
        Err(Self::new_in(e))
    }

    /// The kind of this error.
    pub fn etype(&self) -> (r: &ErrorType)
        ensures
            *r == self@.etype,
    {
        &self.etype
    }

    /// The party this error is attributed to.
    pub fn esource(&self) -> (r: &ErrorSource)
        ensures
            *r == self@.source,
    {
        &self.source
    }

    /// The label of this error's kind.
    pub fn reason_str(&self) -> (s: &'static str)
        ensures
            s@ == self@.etype.label(),
    {
        self.etype.as_str()
    }

    /// The label of this error's origin.
    pub fn source_str(&self) -> (s: &'static str)
        ensures
            s@ == self@.source.label(),
    {
        self.source.as_str()
    }

    /// Attributes this error to the upstream; nothing else changes.
    pub fn as_up(&mut self)
        ensures
            final(self)@ == old(self)@.from_source(ErrorSource::Upstream),
    {
        self.source = ErrorSource::Upstream;
    }

    /// Attributes this error to the client; nothing else changes.
    pub fn as_down(&mut self)
        ensures
            final(self)@ == old(self)@.from_source(ErrorSource::Downstream),
    {
        self.source = ErrorSource::Downstream;
    }

    /// Attributes this error to the gateway itself; nothing else changes.
    pub fn as_in(&mut self)
        ensures
            final(self)@ == old(self)@.from_source(ErrorSource::Internal),
    {
        self.source = ErrorSource::Internal;
    }

    /// [`DakiaError::as_up`] on an owned error.
    pub fn into_up(self: Box<Self>) -> (r: Box<DakiaError>)
        ensures
            r@ == self@.from_source(ErrorSource::Upstream),
    {
        let mut e = self;
        e.as_up();
        e
    }

    /// [`DakiaError::as_down`] on an owned error.
    pub fn into_down(self: Box<Self>) -> (r: Box<DakiaError>)
        ensures
            r@ == self@.from_source(ErrorSource::Downstream),
    {
        let mut e = self;
        e.as_down();
        e
    }

    /// [`DakiaError::as_in`] on an owned error.
    pub fn into_in(self: Box<Self>) -> (r: Box<DakiaError>)
        ensures
            r@ == self@.from_source(ErrorSource::Internal),
    {
        let mut e = self;
        e.as_in();
        e
    }

    /// This error as the `Err` of a result.
    pub fn into_err<T>(self: Box<Self>) -> (r: Result<T, Box<DakiaError>>)
        ensures
            r == Err::<T, Box<DakiaError>>(self),
    {
        Err(self)
    }

    /// Replaces the cause; nothing else changes.
    pub fn set_cause(&mut self, cause: Cause)
        ensures
            final(self)@ == (ErrorView { cause: Some(cause@), ..old(self)@ }),
    {
        self.cause = Some(cause);
    }

    /// Replaces the context; nothing else changes.
    pub fn set_context(&mut self, context: &str)
        ensures
            final(self)@ == (ErrorView { context: Some(context@), ..old(self)@ }),
    {
        self.context = Some(context.to_owned());
    }

    /// Puts a new link on top of this chain. The new link keeps this error's
    /// kind and origin, carries `context`, and has this error as its cause.
    pub fn more_context(self: Box<Self>, context: &str) -> (r: Box<DakiaError>)
        ensures
            r@ == self@.wrapped(context@),
    {
        let esource = self.source;
        let etype = self.etype;
        let mut e = Self::because(etype, context, Cause::Error(self));
        e.source = esource;
        e
    }

    /// The kind of the innermost structured error of the chain.
    pub fn root_etype(&self) -> (r: &ErrorType)
        ensures
            *r == self@.root_etype(),
        decreases self,
    {
        match &self.cause {
            Some(Cause::Error(e)) => e.root_etype(),
            _ => &self.etype,
        }
    }

    /// Where the chain ends.
    pub fn root_cause(&self) -> (r: RootCause<'_>)
        ensures
            r@ == self@.root_cause(),
        decreases self,
    {
        match &self.cause {
            Some(Cause::Error(e)) => e.root_cause(),
            Some(Cause::External(text)) => RootCause::External(text),
            None => RootCause::Error(self),
        }
    }
}

} // verus!
