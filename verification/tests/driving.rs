use playdate::device::Device;
use playdate::driver::GameDriver;
use playdate::driver::SystemEvent;
use playdate::driver::DRIVER_REFRESH_RATE;
use playdate::error::PdError;
use playdate::CapabilityTable;
use playdate::Game;
use playdate::Playdate;

struct Counter {
    ticks: u32,
    fail_on: u32,
}

impl Game for Counter {
    fn init(_playdate: &Playdate, _dev: &mut Device) -> Counter {
        Counter { ticks: 0, fail_on: 3 }
    }

    fn update(&mut self, _playdate: &Playdate, _dev: &mut Device) -> Result<(), PdError> {
        self.ticks += 1;
        if self.ticks == self.fail_on {
            Err(PdError::Io { code: -1 })
        } else {
            Ok(())
        }
    }
}

fn complete_table() -> CapabilityTable {
    CapabilityTable { system: 10, file: 20, graphics: 30, sprite: 40, display: 50, sound: 60 }
}

#[test]
fn init_event_starts_the_driver_and_configures_the_device() {
    let mut dev = Device::new(1 << 16);
    let mut driver: GameDriver<Counter> = GameDriver::new();
    let status = driver.handle_event(&mut dev, &complete_table(), SystemEvent::Init);
    assert_eq!(status, 0);
    assert_eq!(dev.refresh_rate, DRIVER_REFRESH_RATE);
    assert!(dev.update_callback_set);
}

#[test]
fn other_events_before_init_are_ignored() {
    let mut dev = Device::new(1 << 16);
    let mut driver: GameDriver<Counter> = GameDriver::new();
    let status = driver.handle_event(&mut dev, &complete_table(), SystemEvent::Pause);
    assert_eq!(status, 0);
    assert_eq!(dev.refresh_rate, 30);
    assert!(!dev.update_callback_set);
}

#[test]
fn ticks_continue_until_the_game_reports_an_error() {
    let mut dev = Device::new(1 << 16);
    let mut driver: GameDriver<Counter> = GameDriver::new();
    driver.handle_event(&mut dev, &complete_table(), SystemEvent::Init);
    assert_eq!(driver.update_tick(&mut dev), 1);
    assert_eq!(driver.update_tick(&mut dev), 1);
    assert_eq!(driver.update_tick(&mut dev), 0);
    assert_eq!(driver.update_tick(&mut dev), 1);
}

#[test]
fn init_with_a_sparse_table_still_runs() {
    let table = CapabilityTable { system: 0, file: 0, graphics: 0, sprite: 0, display: 0, sound: 0 };
    let mut dev = Device::new(1 << 16);
    let mut driver: GameDriver<Counter> = GameDriver::new();
    let status = driver.handle_event(&mut dev, &table, SystemEvent::Init);
    assert_eq!(status, 0);
    // No display or system entry: nothing was configured, nothing registered.
    assert_eq!(dev.refresh_rate, 30);
    assert!(!dev.update_callback_set);
    assert_eq!(driver.update_tick(&mut dev), 1);
}
