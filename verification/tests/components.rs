use std::cell::RefCell;
use std::rc::Rc;
use ui_core::errors::{ErrorMessage, IgnoreErr, StringErrorHandler};
use ui_core::events::EventListener;
use ui_core::{Component, ComponentContent, ComponentError, HostError};

/// A stand-in for the host: the elements on a surface, the handlers that are
/// registered with an event source, and what happened, in order.
#[derive(Default)]
struct Host {
    attached: Vec<u32>,
    listeners: Vec<(&'static str, u32)>,
    journal: Vec<String>,
    calls: u32,
}

impl Host {
    fn attach(&mut self, element: u32) -> Result<(), HostError> {
        if element == 0 {
            return Err(HostError);
        }
        if !self.attached.contains(&element) {
            self.attached.push(element);
        }
        self.journal.push(format!("attach {}", element));
        Ok(())
    }

    fn detach(&mut self, element: u32) {
        self.attached.retain(|attached| *attached != element);
        self.journal.push(format!("detach {}", element));
    }

    fn add_listener(&mut self, eventname: &'static str, handler: u32) {
        self.listeners.push((eventname, handler));
        self.journal.push(format!("listen {} {}", eventname, handler));
    }

    fn remove_listener(&mut self, eventname: &'static str, handler: u32) {
        self.listeners.retain(|listener| *listener != (eventname, handler));
        self.journal.push(format!("unlisten {} {}", eventname, handler));
    }

    fn dispatch(&mut self, eventname: &'static str) {
        let hits = self.listeners.iter().filter(|listener| listener.0 == eventname).count();
        self.calls += hits as u32;
    }
}

#[derive(Debug, Clone, PartialEq)]
struct CleanupFailed;

impl ErrorMessage for CleanupFailed {
    fn message(&self) -> String {
        "cleanup failed".to_owned()
    }
}

struct Button {
    element: u32,
    host: Rc<RefCell<Host>>,
    on_click: EventListener<u32, u32>,
    updates: u32,
    destroyed: u32,
    fails: bool,
}

impl Button {
    fn new(element: u32, host: &Rc<RefCell<Host>>) -> Self {
        let mut on_click = EventListener::new(element, "click");
        assert_eq!(on_click.set_handler(element * 10), None);
        host.borrow_mut().add_listener("click", element * 10);
        Button { element, host: host.clone(), on_click, updates: 0, destroyed: 0, fails: false }
    }
}

impl ComponentContent for Button {
    type Element = u32;
    type Error = CleanupFailed;

    fn element(&self) -> &u32 {
        &self.element
    }

    fn update(&mut self) -> Result<(), CleanupFailed> {
        self.updates += 1;
        if self.fails {
            Err(CleanupFailed)
        } else {
            Ok(())
        }
    }

    fn destroy(&mut self) -> Result<(), CleanupFailed> {
        self.destroyed += 1;
        if let Some(handler) = self.on_click.remove_handler() {
            self.host.borrow_mut().remove_listener(self.on_click.eventname(), handler);
        }
        if self.fails {
            Err(CleanupFailed)
        } else {
            Ok(())
        }
    }
}

struct Plain {
    element: u32,
}

impl ComponentContent for Plain {
    type Element = u32;
    type Error = CleanupFailed;

    fn element(&self) -> &u32 {
        &self.element
    }

    fn update(&mut self) -> Result<(), CleanupFailed> {
        Ok(())
    }

    fn destroy(&mut self) -> Result<(), CleanupFailed> {
        Ok(())
    }
}

fn mount(component: &mut Component<Button>, host: &Rc<RefCell<Host>>) -> Result<(), ComponentError> {
    let attached = host.borrow_mut().attach(*component.element());
    component.mount_in(attached)
}

#[test]
fn teardown_cleans_up_before_the_element_is_detached() {
    let host = Rc::new(RefCell::new(Host::default()));
    let mut component = Component::make(Button::new(4, &host));
    assert!(!component.is_mounted());
    assert_eq!(mount(&mut component, &host), Ok(()));
    assert!(component.is_mounted());

    host.borrow_mut().dispatch("click");
    assert_eq!(host.borrow().calls, 1);

    let (handler, mut errors) = StringErrorHandler::new("App".to_owned());
    let (content, cleaned) = component.teardown(&handler, &mut errors);
    host.borrow_mut().detach(*content.element());

    assert!(cleaned);
    assert_eq!(content.destroyed, 1);
    assert!(errors.get().is_empty());
    assert_eq!(
        host.borrow().journal,
        vec!["listen click 40", "attach 4", "unlisten click 40", "detach 4"]
    );
    assert!(host.borrow().attached.is_empty());

    host.borrow_mut().dispatch("click");
    assert_eq!(host.borrow().calls, 1);
}

#[test]
fn failed_cleanup_is_reported_and_does_not_stop_the_teardown() {
    let host = Rc::new(RefCell::new(Host::default()));
    let mut button = Button::new(2, &host);
    button.fails = true;
    let mut component = Component::make(button);
    assert_eq!(mount(&mut component, &host), Ok(()));

    let (handler, mut errors) = StringErrorHandler::new("App".to_owned());
    let (content, cleaned) = component.teardown(&handler, &mut errors);
    host.borrow_mut().detach(*content.element());

    assert!(!cleaned);
    assert_eq!(content.destroyed, 1);
    assert_eq!(errors.get(), vec!["ERROR: \"cleanup failed\"\n\tin App".to_owned()]);
    assert!(host.borrow().attached.is_empty());
    assert!(host.borrow().listeners.is_empty());
}

#[test]
fn refused_mount_leaves_the_component_unattached() {
    let host = Rc::new(RefCell::new(Host::default()));
    let mut component = Component::make(Button::new(0, &host));
    assert_eq!(mount(&mut component, &host), Err(ComponentError::MountFailed));
    assert!(!component.is_mounted());
    assert_eq!(ComponentError::MountFailed.message(), "Failed to mount component");
    assert_eq!(component.mount_in(Ok(())), Ok(()));
    assert!(component.is_mounted());
    assert_eq!(component.mount_in(Err(HostError)), Err(ComponentError::MountFailed));
    assert!(component.is_mounted());
    assert_eq!(component.unmount(), Ok(()));
    assert!(!component.is_mounted());
}

#[test]
fn update_passes_on_what_the_content_fails_with() {
    let host = Rc::new(RefCell::new(Host::default()));
    let mut component = Component::make(Button::new(1, &host));
    assert_eq!(component.update(), Ok(()));
    assert_eq!(component.content().updates, 1);

    let mut button = Button::new(3, &host);
    button.fails = true;
    let mut failing = Component::make(button);
    assert_eq!(failing.update(), Err(CleanupFailed));
    assert_eq!(failing.content().updates, 1);
}

#[test]
fn content_without_hooks_updates_and_cleans_up_to_nothing() {
    let mut component = Component::make(Plain { element: 8 });
    assert_eq!(component.update(), Ok(()));
    assert_eq!(*component.element(), 8);
    let (content, cleaned) = component.teardown(&IgnoreErr::new(String::new()), &mut ());
    assert!(cleaned);
    assert_eq!(content.element, 8);
}
