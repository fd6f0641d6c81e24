use crate::events::{fired, CustomEventListener, EventHandler, ListenerState, ReentrantAccess};
use vstd::prelude::*;

verus! {

/// What the host's answer to a request to load a file means: a failure, no
/// file, or the bytes of the file.
pub open spec fn load_result(failed: bool, data: Option<Vec<u8>>) -> Result<Option<Vec<u8>>, ()> {
    if failed {
        Err(())
    } else {
        Ok(data)
    }
}

/// What a file handler holds: the listener for files that were loaded, and
/// the listener for saves that were done.
pub struct FileIOState<L, S> {
    pub on_load: ListenerState<L>,
    pub on_save: ListenerState<S>,
}

/// Passes the host's answers to requests to load and to save a file on to
/// the listeners for them.
pub struct FileIOHandler<L, S> {
    on_load: CustomEventListener<Result<Option<Vec<u8>>, ()>, L>,
    on_save: CustomEventListener<bool, S>,
}

impl<L, S> View for FileIOHandler<L, S> {
    type V = FileIOState<L, S>;

    closed spec fn view(&self) -> FileIOState<L, S> {
        FileIOState { on_load: self.on_load@, on_save: self.on_save@ }
    }
}

impl<L: EventHandler<Result<Option<Vec<u8>>, ()>>, S: EventHandler<bool>> FileIOHandler<L, S> {
    pub fn new() -> (handler: Self)
        ensures
            handler@ == (FileIOState::<L, S> {
                on_load: ListenerState::vacant(),
                on_save: ListenerState::vacant(),
            }),
    {
        Self { on_load: CustomEventListener::new(), on_save: CustomEventListener::new() }
    }

    /// Takes the host's answer to a request to load a file, and fires the
    /// listener for loaded files with what the answer means.
    pub fn loaded(&mut self, failed: bool, data: Option<Vec<u8>>) -> (result: Result<
        bool,
        ReentrantAccess,
    >)
        ensures
            fired(old(self)@.on_load, load_result(failed, data), result, final(self)@.on_load),
            final(self)@.on_save == old(self)@.on_save,
    {
        let answer = if failed {
            Err(())
        } else {
            Ok(data)
        };
        self.on_load.fire(answer)
    }

    /// Takes the host's answer to a request to save a file, and fires the
    /// listener for saves with it.
    pub fn saved(&mut self, success: bool) -> (result: Result<bool, ReentrantAccess>)
        ensures
            fired(old(self)@.on_save, success, result, final(self)@.on_save),
            final(self)@.on_load == old(self)@.on_load,
    {
        self.on_save.fire(success)
    }

    /// The listener for files that were loaded.
    pub fn on_load(&mut self) -> (listener: &mut CustomEventListener<Result<Option<Vec<u8>>, ()>, L>)
        ensures
            listener@ == old(self)@.on_load,
            final(self)@ == (FileIOState { on_load: final(listener)@, ..old(self)@ }),
    {
        &mut self.on_load
    }

    /// The listener for saves that were done.
    pub fn on_save(&mut self) -> (listener: &mut CustomEventListener<bool, S>)
        ensures
            listener@ == old(self)@.on_save,
            final(self)@ == (FileIOState { on_save: final(listener)@, ..old(self)@ }),
    {
        &mut self.on_save
    }
}

} // verus!
