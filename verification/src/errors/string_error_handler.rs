use super::error_handling::{Environment, ErrorHandler, ErrorMessage, TracksEnvironment};
use vstd::prelude::*;

verus! {

/// The report that a [`StringErrorHandler`] in `environment` writes of an
/// error with the message `message`.
pub open spec fn string_report(message: Seq<char>, environment: Seq<char>) -> Seq<char> {
    "ERROR: \""@ + message + "\"\n\tin "@ + environment
}

/// Holds the reports that string error handlers write, oldest first.
pub struct ErrorAccessToken {
    errors: Vec<String>,
}

impl View for ErrorAccessToken {
    type V = Seq<Seq<char>>;

    closed spec fn view(&self) -> Seq<Seq<char>> {
        Seq::new(self.errors@.len(), |i: int| self.errors@[i]@)
    }
}

impl ErrorAccessToken {
    /// The reports so far, oldest first.
    pub fn get(&self) -> (errors: Vec<String>)
        ensures
            errors@.len() == self@.len(),
            forall|i: int| 0 <= i < errors@.len() ==> (#[trigger] errors@[i])@ == self@[i],
    {
        let mut errors: Vec<String> = Vec::new();
        let mut i: usize = 0;
        while i < self.errors.len()
            invariant
                0 <= i <= self.errors@.len(),
                errors@.len() == i,
                forall|j: int| 0 <= j < i ==> (#[trigger] errors@[j])@ == self@[j],
            decreases self.errors@.len() - i,
        {
            errors.push(self.errors[i].clone());
            i += 1;
        }
        errors
    }
}

/// An error handler that writes each error, with the environment it came
/// from, as one report to an [`ErrorAccessToken`].
pub struct StringErrorHandler {
    environment: String,
}

impl StringErrorHandler {
    /// A handler for `environment`, and an empty token for its reports.
    pub fn new(environment: String) -> (made: (Self, ErrorAccessToken))
        ensures
            made.0.environment_spec() == environment@,
            made.1@ == Seq::<Seq<char>>::empty(),
    {
        let token = ErrorAccessToken { errors: Vec::new() };
        assert(token@ =~= Seq::<Seq<char>>::empty());
        (Self { environment }, token)
    }
}

impl Default for StringErrorHandler {
    fn default() -> (handler: Self)
        ensures
            handler.environment_spec() == Seq::<char>::empty(),
    {
        Self { environment: String::new() }
    }
}

impl<E: ErrorMessage> ErrorHandler<E> for StringErrorHandler {
    type Sink = ErrorAccessToken;

    open spec fn reported(
        &self,
        sink: ErrorAccessToken,
        err: E,
        sink_after: ErrorAccessToken,
    ) -> bool {
        exists|message: Seq<char>| #[trigger]
            err.says(message) && sink_after@ == sink@.push(
                string_report(message, self.environment_spec()),
            )
    }

    fn handle(&self, sink: &mut ErrorAccessToken, err: E) {
        let message = err.message();
        let mut report = String::from_str("ERROR: \"");
        report.append(message.as_str());
        report.append("\"\n\tin ");
        report.append(self.environment.as_str());
        sink.errors.push(report);
        assert(sink@ =~= old(sink)@.push(string_report(message@, self.environment_spec())));
    }
}

impl TracksEnvironment for StringErrorHandler {
    open spec fn tells_environment() -> bool {
        true
    }

    closed spec fn environment_spec(&self) -> Seq<char> {
        self.environment@
    }

    fn environment(&self) -> (environment: &String) {
        &self.environment
    }

    fn environment_mut(&mut self) -> (environment: &mut String) {
        &mut self.environment
    }

    fn clone_for(&self, sub_environment: &str) -> (clone: Self) {
        let mut environment = self.environment.clone();
        environment.extend_path(sub_environment);
        Self { environment }
    }
}

} // verus!
