use playdate::device::Device;
use playdate::CapabilityTable;
use playdate::Playdate;
use playdate::Subsystem;

fn full_table() -> CapabilityTable {
    CapabilityTable { system: 10, file: 20, graphics: 30, sprite: 40, display: 50, sound: 60 }
}

#[test]
fn get_returns_cached_entries() {
    let pd = Playdate::new(&full_table());
    assert_eq!(pd.get(Subsystem::System), Some(10));
    assert_eq!(pd.get(Subsystem::File), Some(20));
    assert_eq!(pd.get(Subsystem::Graphics), Some(30));
    assert_eq!(pd.get(Subsystem::Sprite), Some(40));
    assert_eq!(pd.get(Subsystem::Display), Some(50));
    assert_eq!(pd.get(Subsystem::Sound), Some(60));
}

#[test]
fn get_is_idempotent() {
    let pd = Playdate::new(&full_table());
    let first = pd.get(Subsystem::Graphics);
    let second = pd.get(Subsystem::Graphics);
    assert_eq!(first, second);
    let third = pd.get(Subsystem::Sound);
    let fourth = pd.get(Subsystem::Sound);
    assert_eq!(third, fourth);
}

#[test]
fn missing_sound_fails_fast() {
    let table = CapabilityTable {
        system: 10,
        file: 20,
        graphics: 30,
        sprite: 40,
        display: 50,
        sound: 0,
    };
    let pd = Playdate::new(&table);
    assert_eq!(pd.get(Subsystem::Sound), None);
    assert_eq!(pd.get(Subsystem::System), Some(10));
}

#[test]
fn empty_table_caches_nothing() {
    let table = CapabilityTable { system: 0, file: 0, graphics: 0, sprite: 0, display: 0, sound: 0 };
    let pd = Playdate::new(&table);
    assert_eq!(pd.get(Subsystem::System), None);
    assert_eq!(pd.get(Subsystem::File), None);
    assert_eq!(pd.get(Subsystem::Graphics), None);
    assert_eq!(pd.get(Subsystem::Sprite), None);
    assert_eq!(pd.get(Subsystem::Display), None);
    assert_eq!(pd.get(Subsystem::Sound), None);
}

#[test]
fn fresh_device_is_quiet() {
    let dev = Device::new(1 << 20);
    assert_eq!(dev.create_calls, 0);
    assert_eq!(dev.free_calls, 0);
    assert_eq!(dev.load_calls, 0);
    assert_eq!(dev.log.len(), 0);
    assert_eq!(dev.error_log.len(), 0);
    assert_eq!(dev.heap_free, 1 << 20);
}
