use vstd::prelude::*;

verus! {

/// What a type has to offer to be the content of a
/// [`Component`](crate::Component).
///
/// The content owns the presentation element that stands for it on a surface,
/// together with whatever else makes up the piece of user interface: event
/// bindings, state, child components.
pub trait ComponentContent: Sized {
    /// The handle of a presentation element.
    type Element;

    /// What updating and cleaning up can fail with.
    type Error;

    /// Whether the contracts of this type tell its element. An implementation
    /// that leaves this at `false` promises nothing of it.
    open spec fn tells_element() -> bool {
        false
    }

    /// The element that stands for the content.
    open spec fn element_spec(&self) -> Self::Element {
        arbitrary()
    }

    /// Whether an update can end with `outcome` and the content as `after`.
    open spec fn updated(&self, outcome: Result<(), Self::Error>, after: Self) -> bool {
        true
    }

    /// Whether the cleanup can end with `outcome` and the content as `after`.
    open spec fn destroyed(&self, outcome: Result<(), Self::Error>, after: Self) -> bool {
        true
    }

    /// The element that stands for the content. It is the same element for as
    /// long as the content lives.
    fn element(&self) -> (element: &Self::Element)
        ensures
            Self::tells_element() ==> *element == self.element_spec(),
    ;

    /// Brings what the content shows up to date. A content with nothing to
    /// bring up to date returns `Ok(())`.
    fn update(&mut self) -> (outcome: Result<(), Self::Error>)
        ensures
            old(self).updated(outcome, *final(self)),
            Self::tells_element() ==> final(self).element_spec() == old(self).element_spec(),
    ;

    /// Cleans up before the content's element leaves its surface: the place
    /// to give up event bindings and subscriptions. A content with nothing to
    /// clean up returns `Ok(())`.
    fn destroy(&mut self) -> (outcome: Result<(), Self::Error>)
        ensures
            old(self).destroyed(outcome, *final(self)),
            Self::tells_element() ==> final(self).element_spec() == old(self).element_spec(),
    ;
}

} // verus!
