use crate::component_content::ComponentContent;
use crate::errors::{ErrorHandler, ErrorMessage, HostError};
use vstd::prelude::*;

verus! {

/// Why a component could not do what it was asked.
#[derive(Debug, Clone, Copy, PartialEq, Eq, Structural)]
pub enum ComponentError {
    /// The surface did not take the component's element.
    MountFailed,
}

impl ErrorMessage for ComponentError {
    open spec fn says(&self, text: Seq<char>) -> bool {
        text == "Failed to mount component"@
    }

    fn message(&self) -> (text: String) {
        String::from_str("Failed to mount component")
    }
}

/// What a component holds: its content, and whether its element is on a
/// surface.
pub struct ComponentState<C> {
    pub content: C,
    pub mounted: bool,
}

/// What an update does to a component in state `before`: the update of its
/// content, and nothing else.
pub open spec fn updated<C: ComponentContent>(
    before: ComponentState<C>,
    outcome: Result<(), C::Error>,
    after: ComponentState<C>,
) -> bool {
    &&& after.mounted == before.mounted
    &&& before.content.updated(outcome, after.content)
    &&& C::tells_element() ==> after.content.element_spec() == before.content.element_spec()
}

/// What the teardown does with a component in state `before`: one cleanup of
/// its content, which is `content` afterwards and still has the element that
/// stood for the component. `cleaned` tells whether the cleanup succeeded; if
/// it failed, `handler` has reported the failure.
pub open spec fn torn_down<C: ComponentContent, H: ErrorHandler<C::Error>>(
    before: ComponentState<C>,
    handler: H,
    sink: H::Sink,
    content: C,
    cleaned: bool,
    sink_after: H::Sink,
) -> bool {
    &&& C::tells_element() ==> content.element_spec() == before.content.element_spec()
    &&& if cleaned {
        sink_after == sink && before.content.destroyed(Ok(()), content)
    } else {
        exists|failure: C::Error| #[trigger]
            before.content.destroyed(Err(failure), content) && handler.reported(
                sink,
                failure,
                sink_after,
            )
    }
}

/// A piece of user interface with a managed life: it is made, its element is
/// put on a surface, and at the end it is torn down, once.
///
/// The component decides and keeps track, and the owner of the surface acts:
/// it attaches the element and tells the component how that went, and it
/// detaches the element of the content that the teardown hands back.
pub struct Component<C> {
    content: C,
    mounted: bool,
}

impl<C> View for Component<C> {
    type V = ComponentState<C>;

    closed spec fn view(&self) -> ComponentState<C> {
        ComponentState { content: self.content, mounted: self.mounted }
    }
}

impl<C: ComponentContent> Component<C> {
    fn new(content: C) -> (component: Self)
        ensures
            component@ == (ComponentState { content, mounted: false }),
    {
        Self { content, mounted: false }
    }

    /// A component for `content`, not on any surface yet.
    pub fn make(content: C) -> (component: Self)
        ensures
            component@ == (ComponentState { content, mounted: false }),
    {
        Self::new(content)
    }

    pub fn content(&self) -> (content: &C)
        ensures
            *content == self@.content,
    {
        &self.content
    }

    /// The element that stands for the component.
    pub fn element(&self) -> (element: &C::Element)
        ensures
            C::tells_element() ==> *element == self@.content.element_spec(),
    {
        self.content.element()
    }

    /// Whether the component's element is on a surface.
    pub fn is_mounted(&self) -> (mounted: bool)
        ensures
            mounted == self@.mounted,
    {
        self.mounted
    }

    /// Takes note of how attaching the element to a surface went. A
    /// component whose element the surface did not take stays as it is.
    pub fn mount_in(&mut self, attached: Result<(), HostError>) -> (result: Result<
        (),
        ComponentError,
    >)
        ensures
            match attached {
                Ok(_) => result == Ok::<(), ComponentError>(()) && final(self)@ == (
                ComponentState { mounted: true, ..old(self)@ }),
                Err(_) => result == Err::<(), ComponentError>(ComponentError::MountFailed)
                    && final(self)@ == old(self)@,
            },
    {
        match attached {
            Ok(_) => {
                self.mounted = true;
                Ok(())
            },
            Err(_) => Err(ComponentError::MountFailed),
        }
    }

    /// Updates the content, and passes on what it fails with.
    pub fn update(&mut self) -> (outcome: Result<(), C::Error>)
        ensures
            updated(old(self)@, outcome, final(self)@),
    {
        self.content.update()
    }

    /// Takes note that the element has left its surface.
    pub fn unmount(&mut self) -> (result: Result<(), ComponentError>)
        ensures
            result == Ok::<(), ComponentError>(()),
            final(self)@ == (ComponentState { mounted: false, ..old(self)@ }),
    {
        self.mounted = false;
        Ok(())
    }

    /// Ends the life of the component. The content cleans up first, and a
    /// failure of that is reported to `handler` and stops nothing. The
    /// content is handed back for its element to be detached, together with
    /// whether the cleanup succeeded.
    pub fn teardown<H: ErrorHandler<C::Error>>(self, handler: &H, sink: &mut H::Sink) -> (torn: (
        C,
        bool,
    ))
        ensures
            torn_down(self@, *handler, *old(sink), torn.0, torn.1, *final(sink)),
    {
        let mut content = self.content;
        let outcome = content.destroy();
        match outcome {
            Ok(done) => {
                // There is one unit value, so the outcome is the `Ok(())` of the contract.
                assert(done == ());
                assert(outcome == Ok::<(), C::Error>(()));
                (content, true)
            },
            Err(failure) => {
                handler.handle(sink, failure);
                assert(self@.content.destroyed(Err(failure), content));
                (content, false)
            },
        }
    }
}

} // verus!
