use ui_core::errors::{
    BorrowError, BorrowMutError, ConsoleErrorHandler, ConsoleOutput, ContextInUseError, Environment,
    ErrorHandler, ErrorHandling, ErrorMessage, IgnoreErr, StringErrorHandler, TracksEnvironment,
};
use ui_core::{Context, SharedCell};

#[test]
fn test() -> Result<(), ()> {
    let (handler, mut errors) = StringErrorHandler::new("Workspace".to_owned());

    let (context, mut data) = Context::make(7, handler);
    let context = context.clone_for("SelectionFrame");
    let context = context.clone_for("ContextMenu");
    let context = context.clone_for("/click");

    if let Some(x) = context.access_mut(&mut data, &mut errors) {
        if let Some(y) = context.access(&mut data, &mut errors) {
            let sum = *data.peek(&x).unwrap() + *data.get(&y).unwrap();
            _ = data.replace(&x, sum);
            data.release(y);
        }
        data.release_mut(x);
    }

    let errors = errors.get();
    if errors.len() == 1 {
        println!("{}", errors[0]);
        return Ok(());
    }
    Err(())
}

#[test]
fn refused_access_is_reported_with_the_whole_path() {
    let (handler, mut errors) = StringErrorHandler::new("Workspace".to_owned());
    let (context, mut data) = Context::make(7, handler);
    let context = context.clone_for("Selection").clone_for("Click");

    let writer = context.access_mut(&mut data, &mut errors).unwrap();
    assert!(context.access(&mut data, &mut errors).is_none());
    data.release_mut(writer);

    assert_eq!(
        errors.get(),
        vec!["ERROR: \"context is already in use\"\n\tin Workspace\n\t-> Selection\n\t-> Click"
            .to_owned()]
    );
    let reader = context.access(&mut data, &mut errors).unwrap();
    assert_eq!(data.get(&reader), Some(&7));
    data.release(reader);
    assert_eq!(errors.get().len(), 1);
}

#[test]
fn clones_extend_the_path_and_leave_the_base_alone() {
    let (handler, _errors) = StringErrorHandler::new("Base".to_owned());
    let (context, _data) = Context::make(0u8, handler);
    let first = context.clone_for("A");
    let second = first.clone_for("B");
    assert_eq!(second.environment().as_str(), "Base\n\t-> A\n\t-> B");
    assert_eq!(first.environment().as_str(), "Base\n\t-> A");
    assert_eq!(context.environment().as_str(), "Base");
    assert_eq!(context.error_handler.environment().as_str(), "Base");
}

#[test]
fn environment_can_be_changed_in_place() {
    let mut handler = IgnoreErr::new("outer".to_owned());
    handler.environment_mut().extend_path("inner");
    assert_eq!(handler.environment().as_str(), "outer\n\t-> inner");
    assert_eq!(IgnoreErr::default().environment().as_str(), "");

    let mut path = String::new();
    path.extend_path("only");
    assert_eq!(path, "\n\t-> only");
}

#[test]
fn shared_accesses_may_overlap() {
    let (context, mut data) = Context::make("text".to_owned(), IgnoreErr::new("here".to_owned()));
    let first = context.access(&mut data, &mut ()).unwrap();
    let second = context.access(&mut data, &mut ()).unwrap();
    assert_eq!(data.get(&first).unwrap(), "text");
    assert_eq!(data.get(&second).unwrap(), "text");
    assert!(context.access_mut(&mut data, &mut ()).is_none());
    data.release(first);
    assert!(context.access_mut(&mut data, &mut ()).is_none());
    data.release(second);
    let writer = context.access_mut(&mut data, &mut ()).unwrap();
    assert_eq!(data.replace(&writer, "more".to_owned()), Ok("text".to_owned()));
    assert!(context.access_mut(&mut data, &mut ()).is_none());
    data.release_mut(writer);
    let reader = context.access(&mut data, &mut ()).unwrap();
    assert_eq!(data.get(&reader).unwrap(), "more");
}

#[test]
fn refused_exclusive_access_is_reported_as_such() {
    let (handler, mut errors) = StringErrorHandler::new("root".to_owned());
    let mut data = SharedCell::new(1u32);
    let context = Context::new(handler);
    let other = context.clone_for("other");

    let reader = context.access(&mut data, &mut errors).unwrap();
    assert!(other.access_mut(&mut data, &mut errors).is_none());
    assert_eq!(other.access_mut_or(&mut data, &mut errors, "busy").err(), Some("busy"));
    assert!(other.access_or(&mut data, &mut errors, "busy").is_ok());
    data.release(reader);

    assert_eq!(
        errors.get(),
        vec![
            "ERROR: \"context is already in use\"\n\tin root\n\t-> other".to_owned(),
            "ERROR: \"context is already in use\"\n\tin root\n\t-> other".to_owned(),
        ]
    );
}

#[test]
fn access_or_fails_with_the_given_error() {
    let (context, mut data) = Context::make(1u32, IgnoreErr::new(String::new()));
    let writer = context.access_mut_or(&mut data, &mut (), 5u8).unwrap();
    assert_eq!(context.access_or(&mut data, &mut (), 5u8).err(), Some(5u8));
    assert_eq!(context.access_mut_or(&mut data, &mut (), 6u8).err(), Some(6u8));
    data.release_mut(writer);
    assert!(context.access_or(&mut data, &mut (), 5u8).is_ok());
}

#[test]
fn cell_counts_its_readers() {
    let mut cell = SharedCell::new(3i64);
    let first = cell.try_borrow().unwrap();
    let second = cell.try_borrow().unwrap();
    assert_eq!(cell.try_borrow_mut().err(), Some(BorrowMutError));
    cell.release(first);
    assert_eq!(cell.try_borrow_mut().err(), Some(BorrowMutError));
    cell.release(second);
    let writer = cell.try_borrow_mut().unwrap();
    assert_eq!(cell.try_borrow().err(), Some(BorrowError));
    assert_eq!(cell.try_borrow_mut().err(), Some(BorrowMutError));
    assert_eq!(cell.peek(&writer), Some(&3));
    assert_eq!(cell.replace(&writer, 4), Ok(3));
    let stale = cell.try_borrow_mut();
    assert_eq!(stale.err(), Some(BorrowMutError));
    cell.release_mut(writer);
    let reader = cell.try_borrow().unwrap();
    assert_eq!(cell.get(&reader), Some(&4));
}

#[test]
fn cell_hands_its_value_out_only_while_an_access_is_open() {
    let mut cell = SharedCell::new(3i64);
    let mut other = SharedCell::new(0i64);
    let reader = other.try_borrow().unwrap();
    assert_eq!(cell.get(&reader), None);
    other.release(reader);
    let writer = other.try_borrow_mut().unwrap();
    assert_eq!(cell.peek(&writer), None);
    assert_eq!(cell.replace(&writer, 9), Err(9));
    assert_eq!(other.replace(&writer, 9), Ok(0));
    let reader = cell.try_borrow().unwrap();
    assert_eq!(cell.get(&reader), Some(&3));
    cell.release(reader);
    let late = cell.try_borrow_mut().unwrap();
    assert_eq!(cell.peek(&late), Some(&3));
}

#[test]
fn console_handler_writes_one_line_per_error() {
    let handler = ConsoleErrorHandler::new("Canvas".to_owned()).clone_for("resize");
    let mut console = ConsoleOutput::new();
    handler.handle(&mut console, ContextInUseError::Borrowed(BorrowError));
    handler.handle(&mut console, ContextInUseError::BorrowedMut(BorrowMutError));
    assert_eq!(
        console.take(),
        vec![
            "context is already in use\nin Canvas\n\t-> resize".to_owned(),
            "context is already in use\nin Canvas\n\t-> resize".to_owned(),
        ]
    );
    assert!(console.take().is_empty());
    assert_eq!(ConsoleErrorHandler::default().environment().as_str(), "");
}

#[test]
fn result_goes_to_the_handler_on_failure() {
    let (handler, mut errors) = StringErrorHandler::new("load".to_owned());
    let success: Result<u8, ContextInUseError> = Ok(9);
    assert_eq!(success.handle(&handler, &mut errors), Some(9));
    assert!(errors.get().is_empty());

    let failure: Result<u8, ContextInUseError> =
        Err(ContextInUseError::BorrowedMut(BorrowMutError));
    assert_eq!(failure.handle(&handler, &mut errors), None);
    assert_eq!(errors.get(), vec!["ERROR: \"context is already in use\"\n\tin load".to_owned()]);

    let ignored: Result<u8, &str> = Err("dropped");
    assert_eq!(ignored.handle(&IgnoreErr::new("x".to_owned()), &mut ()), None);
}

#[test]
fn context_passes_errors_on_to_its_handler() {
    let (handler, mut errors) = StringErrorHandler::new("outer".to_owned());
    let (context, _data) = Context::make((), handler);
    let context = context.clone_for("inner");
    ErrorHandler::<ContextInUseError>::handle(
        &context,
        &mut errors,
        ContextInUseError::Borrowed(BorrowError),
    );
    assert_eq!(
        errors.get(),
        vec!["ERROR: \"context is already in use\"\n\tin outer\n\t-> inner".to_owned()]
    );
    assert_eq!(
        ContextInUseError::Borrowed(BorrowError).message(),
        "context is already in use"
    );
    assert_eq!(StringErrorHandler::default().environment().as_str(), "");
}

/// An error handler from outside the library: it counts the errors it gets.
struct Counting {
    environment: String,
}

impl TracksEnvironment for Counting {
    fn environment(&self) -> &String {
        &self.environment
    }

    fn environment_mut(&mut self) -> &mut String {
        &mut self.environment
    }

    fn clone_for(&self, sub_environment: &str) -> Self {
        let mut environment = self.environment.clone();
        environment.extend_path(sub_environment);
        Counting { environment }
    }
}

impl<E> ErrorHandler<E> for Counting {
    type Sink = u32;

    fn handle(&self, sink: &mut u32, _err: E) {
        *sink += 1;
    }
}

#[test]
fn context_takes_any_error_handler() {
    let (context, mut data) = Context::make(vec![1u8], Counting { environment: "x".to_owned() });
    let context = context.clone_for("y");
    assert_eq!(context.environment().as_str(), "x\n\t-> y");
    let mut count = 0;
    let reader = context.access(&mut data, &mut count).unwrap();
    assert!(context.access_mut(&mut data, &mut count).is_none());
    assert!(context.access_mut(&mut data, &mut count).is_none());
    data.release(reader);
    assert_eq!(count, 2);
}

/// An error handler from outside the library: it keeps the errors it gets.
struct Keeping {
    environment: String,
}

impl TracksEnvironment for Keeping {
    fn environment(&self) -> &String {
        &self.environment
    }

    fn environment_mut(&mut self) -> &mut String {
        &mut self.environment
    }

    fn clone_for(&self, _sub_environment: &str) -> Self {
        Keeping { environment: self.environment.clone() }
    }
}

impl ErrorHandler<ContextInUseError> for Keeping {
    type Sink = Vec<ContextInUseError>;

    fn handle(&self, sink: &mut Vec<ContextInUseError>, err: ContextInUseError) {
        sink.push(err);
    }
}

#[test]
fn report_tells_which_access_was_refused() {
    let (context, mut data) = Context::make(0u8, Keeping { environment: String::new() });
    let mut seen = Vec::new();

    let reader = context.access(&mut data, &mut seen).unwrap();
    assert!(context.access_mut(&mut data, &mut seen).is_none());
    data.release(reader);
    let writer = context.access_mut(&mut data, &mut seen).unwrap();
    assert!(context.access(&mut data, &mut seen).is_none());
    assert!(context.access_mut(&mut data, &mut seen).is_none());
    data.release_mut(writer);
    assert!(context.access_mut(&mut data, &mut seen).is_some());

    assert_eq!(
        seen,
        vec![
            ContextInUseError::BorrowedMut(BorrowMutError),
            ContextInUseError::Borrowed(BorrowError),
            ContextInUseError::BorrowedMut(BorrowMutError),
        ]
    );
}
