use vstd::prelude::*;

verus! {

/// How a [`BubbleStopper`] is to behave.
#[derive(Debug, Clone, Copy, PartialEq, Eq, Structural)]
pub struct BubbleStopperConfig {
    pub prevent_default: bool,
    pub expires: bool,
}

impl Default for BubbleStopperConfig {
    /// The default action is prevented, and the stopper does not expire.
    fn default() -> (config: Self)
        ensures
            config == (BubbleStopperConfig { prevent_default: true, expires: false }),
    {
        Self { prevent_default: true, expires: false }
    }
}

impl BubbleStopperConfig {
    /// Lets the default action of the event happen.
    pub fn permit_default(self) -> (config: Self)
        ensures
            config == (BubbleStopperConfig { prevent_default: false, ..self }),
    {
        let mut config = self;
        config.prevent_default = false;
        config
    }

    /// Lets the event bubble again once the stopper is given up.
    pub fn expiring(self) -> (config: Self)
        ensures
            config == (BubbleStopperConfig { expires: true, ..self }),
    {
        let mut config = self;
        config.expires = true;
        config
    }
}

/// What a stopper does with an event that reaches it.
#[derive(Debug, Clone, Copy, PartialEq, Eq, Structural)]
pub struct Reaction {
    pub prevent_default: bool,
    pub stop_propagation: bool,
}

/// What becomes of the handler of a stopper that is given up.
#[derive(Debug, PartialEq, Eq)]
pub enum Disposal<H> {
    /// The handler stays registered, and is kept alive for the host.
    Keep(H),
    /// The handler goes with the stopper.
    Expire(H),
    /// The stopper had given its handler away before.
    Nothing,
}

/// What a stopper holds: its handler, unless it was given away; what it does
/// with an event; and whether it expires.
pub struct StopperState<H> {
    pub closure: Option<H>,
    pub prevent_default: bool,
    pub expires: bool,
}

impl<H> StopperState<H> {
    /// What becomes of the handler when the stopper is given up.
    pub open spec fn disposal(self) -> Disposal<H> {
        match self.closure {
            None => Disposal::Nothing,
            Some(closure) => if self.expires {
                Disposal::Expire(closure)
            } else {
                Disposal::Keep(closure)
            },
        }
    }
}

/// Keeps an event from bubbling up from an element, and by default prevents
/// its default action too. By default it does not expire: it keeps working
/// when it is given up.
pub struct BubbleStopper<H> {
    closure: Option<H>,
    prevent_default: bool,
    expires: bool,
}

impl<H> View for BubbleStopper<H> {
    type V = StopperState<H>;

    closed spec fn view(&self) -> StopperState<H> {
        StopperState {
            closure: self.closure,
            prevent_default: self.prevent_default,
            expires: self.expires,
        }
    }
}

impl<H> BubbleStopper<H> {
    /// A stopper by the default configuration, with `closure` as the handler
    /// that is registered for it.
    pub fn new(closure: H) -> (stopper: Self)
        ensures
            stopper@ == (StopperState {
                closure: Some(closure),
                prevent_default: true,
                expires: false,
            }),
    {
        Self::make(closure, BubbleStopperConfig::default())
    }

    /// A stopper by the configuration that `configure` makes of the default
    /// one.
    pub fn configure<F: FnOnce(BubbleStopperConfig) -> BubbleStopperConfig>(
        closure: H,
        configure: F,
    ) -> (stopper: Self)
        requires
            configure.requires((BubbleStopperConfig { prevent_default: true, expires: false },)),
        ensures
            stopper@.closure == Some(closure),
            configure.ensures(
                (BubbleStopperConfig { prevent_default: true, expires: false },),
                BubbleStopperConfig {
                    prevent_default: stopper@.prevent_default,
                    expires: stopper@.expires,
                },
            ),
    {
        let config = configure(BubbleStopperConfig::default());
        Self::make(closure, config)
    }

    /// A stopper by `config`.
    pub fn make(closure: H, config: BubbleStopperConfig) -> (stopper: Self)
        ensures
            stopper@ == (StopperState {
                closure: Some(closure),
                prevent_default: config.prevent_default,
                expires: config.expires,
            }),
    {
        Self {
            closure: Some(closure),
            prevent_default: config.prevent_default,
            expires: config.expires,
        }
    }

    /// What to do with an event that reaches the stopper: it never bubbles
    /// further, and its default action is prevented unless the configuration
    /// permits it.
    pub fn reaction(&self) -> (reaction: Reaction)
        ensures
            reaction == (Reaction {
                prevent_default: self@.prevent_default,
                stop_propagation: true,
            }),
    {
        Reaction { prevent_default: self.prevent_default, stop_propagation: true }
    }

    /// Lets the event bubble again once the stopper is given up.
    pub fn expiring(self) -> (stopper: Self)
        ensures
            stopper@ == (StopperState { expires: true, ..self@ }),
    {
        let mut stopper = self;
        stopper.expires = true;
        stopper
    }

    /// Gives the stopper up and keeps it from expiring: the handler is
    /// handed back to be kept alive for the host.
    pub fn forget(self) -> (kept: Option<H>)
        ensures
            kept == self@.closure,
    {
        let mut stopper = self;
        stopper.forget_closure()
    }

    fn forget_closure(&mut self) -> (kept: Option<H>)
        ensures
            kept == old(self)@.closure,
            final(self)@ == (StopperState { closure: None, ..old(self)@ }),
    {
        self.closure.take()
    }

    /// Gives the stopper up, and says what becomes of its handler.
    pub fn release(self) -> (disposal: Disposal<H>)
        ensures
            disposal == self@.disposal(),
    {
        let mut stopper = self;
        if !stopper.expires {
            match stopper.forget_closure() {
                Some(closure) => Disposal::Keep(closure),
                None => Disposal::Nothing,
            }
        } else {
            match stopper.closure {
                Some(closure) => Disposal::Expire(closure),
                None => Disposal::Nothing,
            }
        }
    }
}

} // verus!
