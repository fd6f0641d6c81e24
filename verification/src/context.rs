use crate::errors::{
    string_report, BorrowError, BorrowMutError, ContextInUseError, ErrorAccessToken, ErrorHandler,
    StringErrorHandler, TracksEnvironment,
};
use core::marker::PhantomData;
use vstd::prelude::*;

verus! {

/// What a shared cell holds: the value, the number of shared accesses that
/// are open, and whether an exclusive access is open.
pub struct CellState<T> {
    pub value: T,
    pub readers: nat,
    pub writer: bool,
}

impl<T> CellState<T> {
    /// An exclusive access rules out every other access.
    pub open spec fn wf(self) -> bool {
        self.writer ==> self.readers == 0
    }

    /// Whether a shared access can be opened.
    pub open spec fn can_read(self) -> bool {
        !self.writer && self.readers < usize::MAX
    }

    /// Whether an exclusive access can be opened.
    pub open spec fn can_write(self) -> bool {
        !self.writer && self.readers == 0
    }

    /// The cell with one more shared access open.
    pub open spec fn reading(self) -> Self {
        CellState { readers: self.readers + 1, ..self }
    }

    /// The cell with an exclusive access open.
    pub open spec fn writing(self) -> Self {
        CellState { writer: true, ..self }
    }

    /// The cell with one shared access closed.
    pub open spec fn read(self) -> Self {
        CellState {
            readers: if self.readers > 0 {
                (self.readers - 1) as nat
            } else {
                0
            },
            ..self
        }
    }

    /// The cell with the exclusive access closed.
    pub open spec fn written(self) -> Self {
        CellState { writer: false, ..self }
    }
}

/// The right to read the value of a cell. It is handed out when a shared
/// access is opened and handed in when the access is closed.
#[derive(Debug)]
pub struct ReadGuard {
    token: (),
}

/// The right to read and change the value of a cell. It is handed out when
/// an exclusive access is opened and handed in when the access is closed.
#[derive(Debug)]
pub struct WriteGuard {
    token: (),
}

/// A value that several contexts work on. The cell counts the accesses that
/// are open, and refuses one that would overlap with an exclusive access.
pub struct SharedCell<T> {
    value: T,
    readers: usize,
    writer: bool,
}

impl<T> View for SharedCell<T> {
    type V = CellState<T>;

    closed spec fn view(&self) -> CellState<T> {
        CellState { value: self.value, readers: self.readers as nat, writer: self.writer }
    }
}

impl<T> SharedCell<T> {
    pub fn new(value: T) -> (cell: Self)
        ensures
            cell@ == (CellState { value, readers: 0, writer: false }),
    {
        Self { value, readers: 0, writer: false }
    }

    /// Opens a shared access, unless an exclusive access is open.
    pub fn try_borrow(&mut self) -> (result: Result<ReadGuard, BorrowError>)
        ensures
            old(self)@.can_read() ==> result is Ok && final(self)@ == old(self)@.reading(),
            !old(self)@.can_read() ==> result is Err && final(self)@ == old(self)@,
    {
        if self.writer || self.readers == usize::MAX {
            Err(BorrowError)
        } else {
            self.readers = self.readers + 1;
            Ok(ReadGuard { token: () })
        }
    }

    /// Opens an exclusive access, unless any access is open.
    pub fn try_borrow_mut(&mut self) -> (result: Result<WriteGuard, BorrowMutError>)
        ensures
            old(self)@.can_write() ==> result is Ok && final(self)@ == old(self)@.writing(),
            !old(self)@.can_write() ==> result is Err && final(self)@ == old(self)@,
    {
        if self.writer || self.readers > 0 {
            Err(BorrowMutError)
        } else {
            self.writer = true;
            Ok(WriteGuard { token: () })
        }
    }

    /// Closes a shared access.
    pub fn release(&mut self, guard: ReadGuard)
        ensures
            final(self)@ == old(self)@.read(),
    {
        if self.readers > 0 {
            self.readers = self.readers - 1;
        }
    }

    /// Closes the exclusive access.
    pub fn release_mut(&mut self, guard: WriteGuard)
        ensures
            final(self)@ == old(self)@.written(),
    {
        self.writer = false;
    }

    /// The value, for the holder of a shared access: handed out only while a
    /// shared access to this cell is open.
    pub fn get(&self, guard: &ReadGuard) -> (value: Option<&T>)
        ensures
            match value {
                Some(value) => self@.readers > 0 && *value == self@.value,
                None => self@.readers == 0,
            },
    {
        if self.readers > 0 {
            Some(&self.value)
        } else {
            None
        }
    }

    /// The value, for the holder of the exclusive access: handed out only
    /// while the exclusive access to this cell is open.
    pub fn peek(&self, guard: &WriteGuard) -> (value: Option<&T>)
        ensures
            match value {
                Some(value) => self@.writer && *value == self@.value,
                None => !self@.writer,
            },
    {
        if self.writer {
            Some(&self.value)
        } else {
            None
        }
    }

    /// Replaces the value, for the holder of the exclusive access, and
    /// returns the value that it replaces. While no exclusive access to this
    /// cell is open, the cell stays as it is and hands `value` back.
    pub fn replace(&mut self, guard: &WriteGuard, value: T) -> (result: Result<T, T>)
        ensures
            old(self)@.writer ==> result == Ok::<T, T>(old(self)@.value) && final(self)@ == (
            CellState { value, ..old(self)@ }),
            !old(self)@.writer ==> result == Err::<T, T>(value) && final(self)@ == old(self)@,
    {
        if self.writer {
            let mut value = value;
            core::mem::swap(&mut self.value, &mut value);
            Ok(value)
        } else {
            Err(value)
        }
    }
}

/// What a shared access through `context` does to the cell `data`: granted
/// unless an exclusive access is open, else refused and reported to the
/// handler of the context.
pub open spec fn accessed<T, H: ErrorHandler<ContextInUseError>>(
    context: Context<T, H>,
    data: CellState<T>,
    sink: H::Sink,
    granted: bool,
    data_after: CellState<T>,
    sink_after: H::Sink,
) -> bool {
    if data.can_read() {
        granted && data_after == data.reading() && sink_after == sink
    } else {
        !granted && data_after == data && context.handler().reported(
            sink,
            ContextInUseError::Borrowed(BorrowError),
            sink_after,
        )
    }
}

/// What an exclusive access through `context` does to the cell `data`:
/// granted unless any access is open, else refused and reported to the
/// handler of the context.
pub open spec fn accessed_mut<T, H: ErrorHandler<ContextInUseError>>(
    context: Context<T, H>,
    data: CellState<T>,
    sink: H::Sink,
    granted: bool,
    data_after: CellState<T>,
    sink_after: H::Sink,
) -> bool {
    if data.can_write() {
        granted && data_after == data.writing() && sink_after == sink
    } else {
        !granted && data_after == data && context.handler().reported(
            sink,
            ContextInUseError::BorrowedMut(BorrowMutError),
            sink_after,
        )
    }
}

/// Access to the data of a shared cell from one site of use.
///
/// A context names the environment it is used in. When it asks for an access
/// that the cell refuses, its error handler gets a report of that, and the
/// context goes without the access.
pub struct Context<T, H> {
    pub error_handler: H,
    data: PhantomData<T>,
}

impl<T, H> Context<T, H> {
    /// The error handler of the context.
    pub closed spec fn handler(&self) -> H {
        self.error_handler
    }
}

impl<T, H: ErrorHandler<ContextInUseError>> Context<T, H> {
    /// A context for cells of `T`, with `error_handler` to report to.
    pub fn new(error_handler: H) -> (context: Self)
        ensures
            context.handler() == error_handler,
    {
        Self { error_handler, data: PhantomData }
    }

    /// A new cell that holds `data`, and a context for it.
    pub fn make(data: T, error_handler: H) -> (made: (Self, SharedCell<T>))
        ensures
            made.0.handler() == error_handler,
            made.1@ == (CellState { value: data, readers: 0, writer: false }),
    {
        (Self::new(error_handler), SharedCell::new(data))
    }

    /// Opens a shared access to `data`.
    pub fn access(&self, data: &mut SharedCell<T>, sink: &mut H::Sink) -> (guard: Option<
        ReadGuard,
    >)
        ensures
            accessed(*self, old(data)@, *old(sink), guard is Some, final(data)@, *final(sink)),
    {
        match data.try_borrow() {
            Ok(guard) => Some(guard),
            Err(error) => {
                self.error_handler.handle(sink, ContextInUseError::Borrowed(error));
                None
            },
        }
    }

    /// Opens an exclusive access to `data`.
    pub fn access_mut(&self, data: &mut SharedCell<T>, sink: &mut H::Sink) -> (guard: Option<
        WriteGuard,
    >)
        ensures
            accessed_mut(*self, old(data)@, *old(sink), guard is Some, final(data)@, *final(sink)),
    {
        match data.try_borrow_mut() {
            Ok(guard) => Some(guard),
            Err(error) => {
                self.error_handler.handle(sink, ContextInUseError::BorrowedMut(error));
                None
            },
        }
    }

    /// Opens a shared access to `data`, or fails with `err`.
    pub fn access_or<F>(&self, data: &mut SharedCell<T>, sink: &mut H::Sink, err: F) -> (guard:
        Result<ReadGuard, F>)
        ensures
            accessed(*self, old(data)@, *old(sink), guard is Ok, final(data)@, *final(sink)),
            guard matches Err(failure) ==> failure == err,
    {
        match self.access(data, sink) {
            Some(guard) => Ok(guard),
            None => Err(err),
        }
    }

    /// Opens an exclusive access to `data`, or fails with `err`.
    pub fn access_mut_or<F>(
        &self,
        data: &mut SharedCell<T>,
        sink: &mut H::Sink,
        err: F,
    ) -> (guard: Result<WriteGuard, F>)
        ensures
            accessed_mut(*self, old(data)@, *old(sink), guard is Ok, final(data)@, *final(sink)),
            guard matches Err(failure) ==> failure == err,
    {
        match self.access_mut(data, sink) {
            Some(guard) => Ok(guard),
            None => Err(err),
        }
    }
}

impl<T, H: ErrorHandler<ContextInUseError>> TracksEnvironment for Context<T, H> {
    open spec fn tells_environment() -> bool {
        H::tells_environment()
    }

    open spec fn environment_spec(&self) -> Seq<char> {
        self.handler().environment_spec()
    }

    fn environment(&self) -> (environment: &String) {
        self.error_handler.environment()
    }

    fn environment_mut(&mut self) -> (environment: &mut String) {
        self.error_handler.environment_mut()
    }

    fn clone_for(&self, sub_environment: &str) -> (clone: Self) {
        Self { error_handler: self.error_handler.clone_for(sub_environment), data: PhantomData }
    }
}

impl<T, H, E> ErrorHandler<E> for Context<T, H> where
    H: ErrorHandler<E> + ErrorHandler<ContextInUseError>,
 {
    type Sink = <H as ErrorHandler<E>>::Sink;

    open spec fn reported(&self, sink: Self::Sink, err: E, sink_after: Self::Sink) -> bool {
        <H as ErrorHandler<E>>::reported(&self.handler(), sink, err, sink_after)
    }

    /// Passes `err` on to the error handler of the context.
    fn handle(&self, sink: &mut Self::Sink, err: E) {
        <H as ErrorHandler<E>>::handle(&self.error_handler, sink, err);
    }
}

/// While an exclusive access is open, every other access is refused; while a
/// shared access is open, an exclusive one is refused. Closing the access
/// that was opened leads back to the cell as it was.
pub proof fn lemma_accesses_exclude_each_other<T>(data: CellState<T>)
    requires
        data.wf(),
    ensures
        data.can_write() ==> !data.writing().can_read() && !data.writing().can_write()
            && data.writing().written() == data && data.writing().wf(),
        data.can_read() ==> !data.reading().can_write() && data.reading().read() == data
            && data.reading().wf(),
        data.read().wf(),
        data.written().wf(),
{
}

/// A shared access that a context with a string error handler asks for while
/// an exclusive access is open is refused, and adds exactly one report: that
/// the context is already in use, with the whole path of the context.
pub proof fn lemma_refused_access_is_reported_once<T>(
    context: Context<T, StringErrorHandler>,
    data: CellState<T>,
    sink: ErrorAccessToken,
    granted: bool,
    data_after: CellState<T>,
    sink_after: ErrorAccessToken,
)
    requires
        data.writer,
        accessed(context, data, sink, granted, data_after, sink_after),
    ensures
        !granted,
        data_after == data,
        sink_after@ == sink@.push(
            string_report("context is already in use"@, context.environment_spec()),
        ),
{
}

} // verus!
