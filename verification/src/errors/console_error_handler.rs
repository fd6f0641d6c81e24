use super::error_handling::{Environment, ErrorHandler, ErrorMessage, TracksEnvironment};
use vstd::prelude::*;

verus! {

/// The line that a [`ConsoleErrorHandler`] in `environment` writes of an error
/// with the message `message`.
pub open spec fn console_report(message: Seq<char>, environment: Seq<char>) -> Seq<char> {
    message + "\nin "@ + environment
}

/// Lines on their way to the console, oldest first.
pub struct ConsoleOutput {
    lines: Vec<String>,
}

impl View for ConsoleOutput {
    type V = Seq<Seq<char>>;

    closed spec fn view(&self) -> Seq<Seq<char>> {
        Seq::new(self.lines@.len(), |i: int| self.lines@[i]@)
    }
}

impl ConsoleOutput {
    pub fn new() -> (output: Self)
        ensures
            output@ == Seq::<Seq<char>>::empty(),
    {
        let output = Self { lines: Vec::new() };
        assert(output@ =~= Seq::<Seq<char>>::empty());
        output
    }

    /// Hands out the lines that wait, oldest first, and leaves none behind.
    pub fn take(&mut self) -> (lines: Vec<String>)
        ensures
            final(self)@ == Seq::<Seq<char>>::empty(),
            lines@.len() == old(self)@.len(),
            forall|i: int| 0 <= i < lines@.len() ==> (#[trigger] lines@[i])@ == old(self)@[i],
    {
        let mut lines = Vec::new();
        core::mem::swap(&mut self.lines, &mut lines);
        assert(self@ =~= Seq::<Seq<char>>::empty());
        lines
    }
}

/// An error handler that writes each error, with the environment it came
/// from, as one line for the console.
pub struct ConsoleErrorHandler {
    environment: String,
}

impl ConsoleErrorHandler {
    pub fn new(environment: String) -> (handler: Self)
        ensures
            handler.environment_spec() == environment@,
    {
        Self { environment }
    }
}

impl Default for ConsoleErrorHandler {
    fn default() -> (handler: Self)
        ensures
            handler.environment_spec() == Seq::<char>::empty(),
    {
        Self { environment: String::new() }
    }
}

impl<E: ErrorMessage> ErrorHandler<E> for ConsoleErrorHandler {
    type Sink = ConsoleOutput;

    open spec fn reported(&self, sink: ConsoleOutput, err: E, sink_after: ConsoleOutput) -> bool {
        exists|message: Seq<char>| #[trigger]
            err.says(message) && sink_after@ == sink@.push(
                console_report(message, self.environment_spec()),
            )
    }

    fn handle(&self, sink: &mut ConsoleOutput, err: E) {
        let mut line = err.message();
        let ghost message = line@;
        line.append("\nin ");
        line.append(self.environment.as_str());
        sink.lines.push(line);
        assert(sink@ =~= old(sink)@.push(console_report(message, self.environment_spec())));
    }
}

impl TracksEnvironment for ConsoleErrorHandler {
    open spec fn tells_environment() -> bool {
        true
    }

    closed spec fn environment_spec(&self) -> Seq<char> {
        self.environment@
    }

    fn environment(&self) -> (environment: &String) {
        &self.environment
    }

    fn environment_mut(&mut self) -> (environment: &mut String) {
        &mut self.environment
    }

    fn clone_for(&self, sub_environment: &str) -> (clone: Self) {
        let mut environment = self.environment.clone();
        environment.extend_path(sub_environment);
        Self { environment }
    }
}

} // verus!
