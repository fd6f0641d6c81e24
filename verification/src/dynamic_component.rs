use crate::component::{updated, Component, ComponentError, ComponentState};
use crate::errors::HostError;
use crate::component_content::ComponentContent;
use vstd::prelude::*;

verus! {

/// What every component offers, whatever its content: the way to hold
/// components of several kinds side by side.
pub trait DynamicComponent {
    /// What an update can fail with.
    type Error;

    fn mount_in(&mut self, attached: Result<(), HostError>) -> Result<(), ComponentError>;

    fn update(&mut self) -> Result<(), Self::Error>;

    fn unmount(&mut self) -> Result<(), ComponentError>;
}

impl<C: ComponentContent> DynamicComponent for Component<C> {
    type Error = C::Error;

    fn mount_in(&mut self, attached: Result<(), HostError>) -> (result: Result<(), ComponentError>)
        ensures
            match attached {
                Ok(_) => result == Ok::<(), ComponentError>(()) && final(self)@ == (
                ComponentState { mounted: true, ..old(self)@ }),
                Err(_) => result == Err::<(), ComponentError>(ComponentError::MountFailed)
                    && final(self)@ == old(self)@,
            },
    {
        Component::mount_in(self, attached)
    }

    fn update(&mut self) -> (outcome: Result<(), C::Error>)
        ensures
            updated(old(self)@, outcome, final(self)@),
    {
        Component::update(self)
    }

    fn unmount(&mut self) -> (result: Result<(), ComponentError>)
        ensures
            result == Ok::<(), ComponentError>(()),
            final(self)@ == (ComponentState { mounted: false, ..old(self)@ }),
    {
        Component::unmount(self)
    }
}

} // verus!
