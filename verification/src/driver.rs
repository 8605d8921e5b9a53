//! The game driver: bridges the device's own per-frame scheduler to one
//! stateful update routine.
//!
//! The driver is a two-phase machine. It starts uninitialized; the one
//! init event builds the device context from the capability table,
//! configures the display refresh rate, registers the update-callback
//! slot, and constructs the game's initial state. Once running, every
//! device tick drives one update call; there is no way back to the
//! uninitialized phase, matching the device's single-process,
//! non-restartable execution model. Events other than init that arrive
//! before initialization are ignored.

use vstd::prelude::*;

use crate::device::Device;
use crate::CapabilityTable;
use crate::Game;
use crate::Playdate;
use crate::Subsystem;

verus! {

/// The refresh rate the driver configures at the init event, in whole
/// frames per second.
pub const DRIVER_REFRESH_RATE: u32 = 20;

/// An event the embedded runtime delivers to the driver.
#[derive(Clone, Copy, Debug, PartialEq, Eq, Structural)]
pub enum SystemEvent {
    Init,
    Lock,
    Unlock,
    Pause,
    Resume,
    Terminate,
    KeyPressed,
    KeyReleased,
    LowPower,
}

/// The driver's phase: before the init event, or running ever after.
#[derive(Clone, Copy, Debug, PartialEq, Eq, Structural)]
pub enum DriverPhase {
    Uninitialized,
    Running,
}

/// The game driver, owning the device context and the game state once the
/// init event has fired.
pub struct GameDriver<G> {
    phase: DriverPhase,
    playdate: Option<Playdate>,
    game: Option<G>,
}

impl<G: Game> GameDriver<G> {
    /// True once the init event has fired.
    pub closed spec fn running(self) -> bool {
        self.phase is Running
    }

    /// The driver's phases carry their state: uninitialized holds nothing,
    /// running holds the context and the game.
    pub closed spec fn wf(self) -> bool {
        &&& (self.phase is Running ==> self.playdate is Some && self.game is Some)
        &&& (self.phase is Uninitialized ==> self.playdate is None && self.game is None)
    }

    /// A fresh driver: uninitialized, holding nothing.
    pub fn new() -> (r: GameDriver<G>)
        ensures
            r.wf(),
            !r.running(),
    {
        GameDriver { phase: DriverPhase::Uninitialized, playdate: None, game: None }
    }

    /// Reacts to one runtime event. The one init event — which the runtime
    /// delivers exactly once, so a second is a contract violation —
    /// transitions the driver to running: the context is built from the
    /// capability table, the display refresh rate is configured and the
    /// update callback registered (each as far as the table offers the
    /// subsystem), and the game's initial state is constructed. Every
    /// other event is ignored. The status handed back to the runtime is
    /// always zero.
    pub fn handle_event(&mut self, dev: &mut Device, table: &CapabilityTable, event:
        SystemEvent) -> (r: i32)
        requires
            old(self).wf(),
            old(dev).wf(),
            !(old(self).running() && event is Init),
        ensures
            final(self).wf(),
            final(dev).wf(),
            r == 0,
            final(self).running() == (old(self).running() || event is Init),
    {
        match event {
            SystemEvent::Init => {
                let pd = Playdate::new(table);
                if table.display != 0 {
                    proof {
                        assert(pd.entry(Subsystem::Display) == Some(table.display));
                    }
                    let display = pd.display();
                    display.set_refresh_rate(dev, DRIVER_REFRESH_RATE);
                }
                if table.system != 0 {
                    proof {
                        assert(pd.entry(Subsystem::System) == Some(table.system));
                    }
                    let sys = pd.system();
                    sys.set_update_callback(dev, true);
                }
                let game = G::init(&pd, dev);
                self.playdate = Some(pd);
                self.game = Some(game);
                self.phase = DriverPhase::Running;
                0
            },
            _ => 0,
        }
    }

    /// Drives one device tick: the game's update routine runs once against
    /// the context and the device. The status handed back to the scheduler
    /// is one — keep calling — when the update succeeded, and zero when
    /// the game reported an error; the driver stays running either way.
    pub fn update_tick(&mut self, dev: &mut Device) -> (r: i32)
        requires
            old(self).wf(),
            old(self).running(),
            old(dev).wf(),
        ensures
            final(self).wf(),
            final(self).running(),
            final(dev).wf(),
            r == 1 || r == 0,
    {
        let pd = self.playdate.as_ref().unwrap();
        let game = self.game.as_mut().unwrap();
        let outcome = game.update(pd, dev);
        match outcome {
            Ok(_) => 1,
            Err(_) => 0,
        }
    }
}

} // verus!
