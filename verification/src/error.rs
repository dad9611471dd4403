use vstd::prelude::*;
use vstd::string::StringExecFns;

use instant::Duration;

verus! {

/// What the library reads of an underlying error value: its display text,
/// its debug text and the display text of its own source, if it has one.
///
/// This stands in for the formatting and error-chain capabilities that
/// operation authors give their own error types; the classification wrapper
/// below delegates to it without adding anything of its own.
pub trait UnderlyingError {
    /// The human-facing text of the error.
    spec fn display_spec(&self) -> Seq<char>;

    /// The text of the error in debug output.
    spec fn debug_spec(&self) -> Seq<char>;

    /// The display text of the error's own source (cause), absent when the
    /// error has none.
    spec fn source_spec(&self) -> Option<Seq<char>>;

    /// Render the error for humans.
    fn display_text(&self) -> (r: String)
        ensures
            r@ == self.display_spec(),
    ;

    /// Render the error for debugging.
    fn debug_text(&self) -> (r: String)
        ensures
            r@ == self.debug_spec(),
    ;

    /// The error's own source, rendered, or `None` when it has none.
    fn source_text(&self) -> (r: Option<String>)
        ensures
            match r {
                Some(s) => self.source_spec() == Some(s@),
                None => self.source_spec() is None,
            },
    ;
}

/// Error is the error value in an operation's result.
///
/// Based on the two possible values, the operation may be retried.
pub enum Error<E> {
    /// Permanent means that it's impossible to execute the operation
    /// successfully. A retry engine must surface this error immediately.
    Permanent(E),
    /// Transient means that the error is temporary. If the second argument is
    /// `None` the operation should be retried according to the backoff policy,
    /// else after the specified duration. Useful for handling ratelimits like
    /// a HTTP 429 response.
    Transient(E, Option<Duration>),
}

impl<E> Error<E> {
    /// The underlying error value, whatever the variant.
    pub open spec fn underlying(self) -> E {
        match self {
            Error::Permanent(e) => e,
            Error::Transient(e, _) => e,
        }
    }

    /// The explicit delay carried by the classification: absent unless the
    /// variant is `Transient` with a caller-mandated duration.
    pub open spec fn delay(self) -> Option<Duration> {
        match self {
            Error::Permanent(_) => None,
            Error::Transient(_, d) => d,
        }
    }

    /// Fixed introspection string per variant, independent of the underlying
    /// error's own description.
    pub fn description(&self) -> (r: &'static str)
        ensures
            *self is Permanent ==> r@ == "permanent error"@,
            *self is Transient ==> r@ == "transient error"@,
    {
        match self {
            Error::Permanent(_) => "permanent error",
            Error::Transient(..) => "transient error",
        }
    }
}

impl<E: UnderlyingError> Error<E> {
    /// What the classification displays: exactly the underlying error's own
    /// display text, for both variants.
    pub open spec fn display_spec(self) -> Seq<char> {
        self.underlying().display_spec()
    }

    /// What the classification shows in debug output: the variant's name
    /// round the underlying error's debug text. The explicit delay, if any,
    /// does not appear.
    pub open spec fn debug_spec(self) -> Seq<char> {
        match self {
            Error::Permanent(e) => "Permanent("@ + e.debug_spec() + ")"@,
            Error::Transient(e, _) => "Transient("@ + e.debug_spec() + ")"@,
        }
    }

    /// The classification's source: the underlying error's own source, for
    /// both variants. The wrapper adds no node of its own to the chain.
    pub open spec fn source_spec(self) -> Option<Seq<char>> {
        self.underlying().source_spec()
    }

    /// Display rendering: the classification is invisible; only the
    /// underlying error's message is shown.
    pub fn display_text(&self) -> (r: String)
        ensures
            r@ == self.display_spec(),
    {
        match self {
            Error::Permanent(e) => e.display_text(),
            Error::Transient(e, _) => e.display_text(),
        }
    }

    /// Debug rendering: a tagged representation naming the variant, holding
    /// only the underlying error's debug text; the delay is excluded.
    pub fn debug_text(&self) -> (r: String)
        ensures
            r@ == self.debug_spec(),
    {
        match self {
            Error::Permanent(e) => {
                let mut r = "Permanent(".to_owned();
                r.append(e.debug_text().as_str());
                r.append(")");
                r
            },
            Error::Transient(e, _) => {
                let mut r = "Transient(".to_owned();
                r.append(e.debug_text().as_str());
                r.append(")");
                r
            },
        }
    }

    /// The wrapper is transparent in any error-chain traversal: walking the
    /// chain skips the classification layer and reaches the underlying
    /// error's own source directly.
    pub fn source_text(&self) -> (r: Option<String>)
        ensures
            match r {
                Some(s) => self.source_spec() == Some(s@),
                None => self.source_spec() is None,
            },
    {
        match self {
            Error::Permanent(e) => e.source_text(),
            Error::Transient(e, _) => e.source_text(),
        }
    }

    /// Same as `source_text`: the cause accessor is an alias of the source
    /// accessor.
    pub fn cause_text(&self) -> (r: Option<String>)
        ensures
            match r {
                Some(s) => self.source_spec() == Some(s@),
                None => self.source_spec() is None,
            },
    {
        self.source_text()
    }
}

/// By default all errors are transient. Permanent errors can be constructed
/// explicitly. This implementation is for making the question mark
/// operator (?) work.
impl<E> core::convert::From<E> for Error<E> {
    fn from(err: E) -> (r: Error<E>) {
        Error::Transient(err, None)
    }
}

impl<E> vstd::std_specs::convert::FromSpecImpl<E> for Error<E> {
    open spec fn obeys_from_spec() -> bool {
        true
    }

    open spec fn from_spec(err: E) -> Error<E> {
        Error::Transient(err, None)
    }
}

/// Law: the default conversion path always yields a `Transient`
/// classification with an absent explicit delay, carrying the converted
/// error unchanged.
pub proof fn lemma_default_conversion_transient<E>(e: E)
    ensures
        <Error<E> as vstd::std_specs::convert::FromSpec<E>>::from_spec(e) == Error::Transient(
            e,
            None::<Duration>,
        ),
        <Error<E> as vstd::std_specs::convert::FromSpec<E>>::from_spec(e) is Transient,
        <Error<E> as vstd::std_specs::convert::FromSpec<E>>::from_spec(e).delay() is None,
        <Error<E> as vstd::std_specs::convert::FromSpec<E>>::from_spec(e).underlying() == e,
{
}

/// Law: display is transparent. `Permanent(e)` and `Transient(e, d)` both
/// display exactly the text that `e` itself displays, for every delay `d`.
pub proof fn lemma_display_transparent<E: UnderlyingError>(e: E, d: Option<Duration>)
    ensures
        Error::Permanent(e).display_spec() == e.display_spec(),
        Error::Transient(e, d).display_spec() == e.display_spec(),
{
}

/// Law: debug output names the variant round `e`'s own debug text, and the
/// explicit delay never appears in it: two transient classifications of the
/// same error render identically whatever their delays.
pub proof fn lemma_debug_form<E: UnderlyingError>(e: E, d1: Option<Duration>, d2: Option<Duration>)
    ensures
        Error::Permanent(e).debug_spec() == "Permanent("@ + e.debug_spec() + ")"@,
        Error::Transient(e, d1).debug_spec() == "Transient("@ + e.debug_spec() + ")"@,
        Error::Transient(e, d1).debug_spec() == Error::Transient(e, d2).debug_spec(),
{
}

/// Law: the source accessor is transparent. Either variant's source equals
/// `e`'s own source, including the case where `e` has none.
pub proof fn lemma_source_transparent<E: UnderlyingError>(e: E, d: Option<Duration>)
    ensures
        Error::Permanent(e).source_spec() == e.source_spec(),
        Error::Transient(e, d).source_spec() == e.source_spec(),
        e.source_spec() is None ==> Error::Permanent(e).source_spec() is None,
        e.source_spec() is None ==> Error::Transient(e, d).source_spec() is None,
{
}

/// Law: round trip. Extracting the underlying error and the delay of a
/// classification and re-wrapping them with the same variant reproduces the
/// classification itself, so nothing observable about it changes.
pub proof fn lemma_rewrap_round_trip<E>(x: Error<E>)
    ensures
        x is Permanent ==> Error::Permanent(x.underlying()) == x,
        x is Transient ==> Error::Transient(x.underlying(), x.delay()) == x,
{
}

/// Law: round trip, observably. The re-wrapped classification has the same
/// display text, the same debug text and the same source as the original.
pub proof fn lemma_rewrap_observables<E: UnderlyingError>(x: Error<E>)
    ensures
        x is Permanent ==> Error::Permanent(x.underlying()).display_spec() == x.display_spec(),
        x is Permanent ==> Error::Permanent(x.underlying()).debug_spec() == x.debug_spec(),
        x is Permanent ==> Error::Permanent(x.underlying()).source_spec() == x.source_spec(),
        x is Transient ==> Error::Transient(x.underlying(), x.delay()).display_spec()
            == x.display_spec(),
        x is Transient ==> Error::Transient(x.underlying(), x.delay()).debug_spec()
            == x.debug_spec(),
        x is Transient ==> Error::Transient(x.underlying(), x.delay()).source_spec()
            == x.source_spec(),
{
    lemma_rewrap_round_trip(x);
}

/// A plain underlying error for operation authors who need nothing more
/// than a message and, optionally, the message of the failure that caused
/// it. It also grounds `UnderlyingError`: the classification's behaviour
/// can be observed on it end to end.
pub struct SimpleError {
    /// The human-facing message; also what the error displays.
    pub message: String,
    /// The display text of the failure that caused this one, if any.
    pub source: Option<String>,
}

impl UnderlyingError for SimpleError {
    open spec fn display_spec(&self) -> Seq<char> {
        self.message@
    }

    open spec fn debug_spec(&self) -> Seq<char> {
        "SimpleError(\""@ + self.message@ + "\")"@
    }

    open spec fn source_spec(&self) -> Option<Seq<char>> {
        match self.source {
            Some(s) => Some(s@),
            None => None,
        }
    }

    fn display_text(&self) -> (r: String) {
        self.message.clone()
    }

    fn debug_text(&self) -> (r: String) {
        let mut r = "SimpleError(\"".to_owned();
        r.append(self.message.as_str());
        r.append("\")");
        r
    }

    fn source_text(&self) -> (r: Option<String>) {
        match &self.source {
            Some(s) => Some(s.clone()),
            None => None,
        }
    }
}

} // verus!
