use super::error_handling::{Environment, ErrorHandler, TracksEnvironment};
use vstd::prelude::*;

verus! {

/// An error handler that drops every error.
pub struct IgnoreErr {
    environment: String,
}

impl IgnoreErr {
    pub fn new(environment: String) -> (handler: Self)
        ensures
            handler.environment_spec() == environment@,
    {
        Self { environment }
    }
}

impl Default for IgnoreErr {
    fn default() -> (handler: Self)
        ensures
            handler.environment_spec() == Seq::<char>::empty(),
    {
        Self { environment: String::new() }
    }
}

impl<E> ErrorHandler<E> for IgnoreErr {
    type Sink = ();

    open spec fn reported(&self, sink: (), err: E, sink_after: ()) -> bool {
        true
    }

    fn handle(&self, sink: &mut (), err: E) {
    }
}

impl TracksEnvironment for IgnoreErr {
    open spec fn tells_environment() -> bool {
        true
    }

    closed spec fn environment_spec(&self) -> Seq<char> {
        self.environment@
    }

    fn environment(&self) -> (environment: &String) {
        &self.environment
    }

    fn environment_mut(&mut self) -> (environment: &mut String) {
        &mut self.environment
    }

    fn clone_for(&self, sub_environment: &str) -> (clone: Self) {
        let mut environment = self.environment.clone();
        environment.extend_path(sub_environment);
        Self { environment }
    }
}

} // verus!
