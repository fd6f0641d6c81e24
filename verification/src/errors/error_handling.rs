use vstd::prelude::*;

verus! {

/// What stands between two segments of an environment path.
pub open spec fn separator() -> Seq<char> {
    "\n\t-> "@
}

/// `path` with the segment `sub_environment` added at its end.
pub open spec fn extended_path(path: Seq<char>, sub_environment: Seq<char>) -> Seq<char> {
    path + separator() + sub_environment
}

/// An error that can say in words what went wrong.
pub trait ErrorMessage {
    /// Whether `text` is what the error says of itself.
    open spec fn says(&self, text: Seq<char>) -> bool {
        true
    }

    fn message(&self) -> (text: String)
        ensures
            self.says(text@),
    ;
}

/// A path of nested usage sites, written out as text.
pub trait Environment: Sized {
    /// The path as text.
    spec fn path(&self) -> Seq<char>;

    /// Adds `sub_environment` at the end of the path.
    fn extend_path(&mut self, sub_environment: &str)
        ensures
            final(self).path() == extended_path(old(self).path(), sub_environment@),
    ;
}

/// Something that knows the environment in which it is used.
pub trait TracksEnvironment: Sized {
    /// Whether the contracts of this type tell its environment. An
    /// implementation that leaves this at `false` promises nothing of it.
    open spec fn tells_environment() -> bool {
        false
    }

    /// The environment as text.
    open spec fn environment_spec(&self) -> Seq<char> {
        Seq::empty()
    }

    fn environment(&self) -> (environment: &String)
        ensures
            Self::tells_environment() ==> environment@ == self.environment_spec(),
    ;

    /// The environment, to be changed in place.
    fn environment_mut(&mut self) -> (environment: &mut String)
        ensures
            Self::tells_environment() ==> environment@ == old(self).environment_spec()
                && final(self).environment_spec() == final(environment)@,
    ;

    /// A copy for use in `sub_environment`, a site inside this one. The copy's
    /// path is the longer one; this value keeps its own.
    fn clone_for(&self, sub_environment: &str) -> (clone: Self)
        ensures
            Self::tells_environment() ==> clone.environment_spec() == extended_path(
                self.environment_spec(),
                sub_environment@,
            ),
    ;
}

/// Receives errors of type `E` and reports them to its sink.
pub trait ErrorHandler<E>: TracksEnvironment {
    /// Where the reports go.
    type Sink;

    /// Whether a report of `err` can turn `sink` into `sink_after`.
    open spec fn reported(&self, sink: Self::Sink, err: E, sink_after: Self::Sink) -> bool {
        true
    }

    fn handle(&self, sink: &mut Self::Sink, err: E)
        ensures
            self.reported(*old(sink), err, *final(sink)),
    ;
}

/// Turns a failure into a report and an absent value.
pub trait ErrorHandling<T, E> {
    /// The value of a success. A failure goes to `handler`, which reports it
    /// to `sink`.
    fn handle<H: ErrorHandler<E>>(self, handler: &H, sink: &mut H::Sink) -> Option<T>;
}

impl<T, E> ErrorHandling<T, E> for Result<T, E> {
    fn handle<H: ErrorHandler<E>>(self, handler: &H, sink: &mut H::Sink) -> (value: Option<T>)
        ensures
            match self {
                Ok(success) => value == Some(success) && *final(sink) == *old(sink),
                Err(error) => value is None && handler.reported(*old(sink), error, *final(sink)),
            },
    {
        match self {
            Ok(value) => Some(value),
            Err(error) => {
                handler.handle(sink, error);
                None
            },
        }
    }
}

/// A copy of a copy reports the path of the first value, extended by the
/// first and then by the second sub-environment.
pub proof fn lemma_nested_clones_extend_the_path<H: TracksEnvironment>(
    base: H,
    first: H,
    second: H,
    a: Seq<char>,
    b: Seq<char>,
)
    requires
        first.environment_spec() == extended_path(base.environment_spec(), a),
        second.environment_spec() == extended_path(first.environment_spec(), b),
    ensures
        second.environment_spec() == base.environment_spec() + separator() + a + separator() + b,
        second.environment_spec() == extended_path(extended_path(base.environment_spec(), a), b),
{
}

} // verus!
