use playdate::device::Device;
use playdate::error::PdError;
use playdate::error::ResourceKind;
use playdate::graphics::Bitmap;
use playdate::graphics::BitmapTable;
use playdate::graphics::Color;
use playdate::graphics::Font;
use playdate::graphics::SolidColor;
use playdate::sound::FilePlayer;
use playdate::sound::Sample;
use playdate::sound::SamplePlayer;
use playdate::sprite::Sprite;

#[test]
fn bitmap_create_then_release_frees_exactly_once() {
    let mut dev = Device::new(1 << 20);
    let bitmap = Bitmap::new(&mut dev, 32, 32, &Color::Solid(SolidColor::White)).unwrap();
    assert_eq!(dev.create_calls, 1);
    assert_eq!(dev.free_calls, 0);
    bitmap.release(&mut dev);
    assert_eq!(dev.create_calls, 1);
    assert_eq!(dev.free_calls, 1);
}

#[test]
fn sprite_create_then_release_frees_exactly_once() {
    let mut dev = Device::new(1 << 20);
    let sprite = Sprite::new(&mut dev).unwrap();
    sprite.release(&mut dev);
    assert_eq!(dev.create_calls, 1);
    assert_eq!(dev.free_calls, 1);
}

#[test]
fn players_and_samples_release_exactly_once() {
    let mut dev = Device::new(1 << 20);
    let fp = FilePlayer::new(&mut dev).unwrap();
    let sp = SamplePlayer::new(&mut dev).unwrap();
    let sample = Sample::new(&mut dev, 8).unwrap();
    assert_eq!(dev.create_calls, 3);
    assert_eq!(dev.free_calls, 0);
    fp.release(&mut dev);
    sp.release(&mut dev);
    sample.release(&mut dev);
    assert_eq!(dev.create_calls, 3);
    assert_eq!(dev.free_calls, 3);
}

#[test]
fn bitmap_load_missing_yields_creation_error_and_no_release() {
    let mut dev = Device::new(1 << 20);
    let r = Bitmap::load(&mut dev, &b"missing.png".to_vec());
    assert_eq!(r.err(), Some(PdError::ResourceCreation { kind: ResourceKind::Bitmap }));
    // The device was asked, answered null, and nothing was created — so
    // nothing is ever freed for it.
    assert_eq!(dev.load_calls, 1);
    assert_eq!(dev.create_calls, 0);
    assert_eq!(dev.free_calls, 0);
}

#[test]
fn bitmap_load_present_asset_succeeds() {
    let mut dev = Device::new(1 << 20);
    assert!(dev.add_asset(b"hero.png".to_vec(), vec![1, 2, 3, 4]));
    let bitmap = Bitmap::load(&mut dev, &b"hero.png".to_vec()).unwrap();
    assert_eq!(dev.load_calls, 1);
    assert_eq!(dev.create_calls, 1);
    bitmap.release(&mut dev);
    assert_eq!(dev.free_calls, 1);
}

#[test]
fn bitmap_load_nul_path_is_encoding_error_without_device_call() {
    let mut dev = Device::new(1 << 20);
    let r = Bitmap::load(&mut dev, &vec![104, 0, 105]);
    assert_eq!(r.err(), Some(PdError::Encoding));
    assert_eq!(dev.load_calls, 0);
    assert_eq!(dev.create_calls, 0);
}

#[test]
fn font_load_follows_assets() {
    let mut dev = Device::new(1 << 20);
    let missing = Font::load(&mut dev, &b"face.pft".to_vec());
    assert_eq!(missing.err(), Some(PdError::ResourceCreation { kind: ResourceKind::Font }));
    assert!(dev.add_asset(b"face.pft".to_vec(), vec![9]));
    let font = Font::load(&mut dev, &b"face.pft".to_vec());
    assert!(font.is_ok());
    assert_eq!(dev.load_calls, 2);
    assert_eq!(dev.create_calls, 1);
}

#[test]
fn bitmap_copy_owns_a_second_handle() {
    let mut dev = Device::new(1 << 20);
    let first = Bitmap::new(&mut dev, 8, 8, &Color::Solid(SolidColor::Black)).unwrap();
    let second = Bitmap::copy(&mut dev, &first).unwrap();
    assert_eq!(dev.create_calls, 2);
    first.release(&mut dev);
    second.release(&mut dev);
    assert_eq!(dev.free_calls, 2);
}

#[test]
fn bitmap_table_load_derives_count_from_asset() {
    let mut dev = Device::new(1 << 20);
    assert!(dev.add_asset(b"tiles.gif".to_vec(), vec![7, 7, 7]));
    let table = BitmapTable::load(&mut dev, &b"tiles.gif".to_vec()).unwrap();
    let frame = table.get_bitmap(&mut dev, 2);
    assert!(frame.is_ok());
    let beyond = table.get_bitmap(&mut dev, 3);
    assert_eq!(beyond.err(), Some(PdError::ResourceCreation { kind: ResourceKind::Bitmap }));
    frame.unwrap().release(&mut dev);
    table.release(&mut dev);
    assert_eq!(dev.create_calls, 2);
    assert_eq!(dev.free_calls, 2);
}

#[test]
fn bitmap_table_new_admits_count_indices() {
    let mut dev = Device::new(1 << 20);
    let table = BitmapTable::new(&mut dev, 4, 16, 16).unwrap();
    assert!(table.get_bitmap(&mut dev, 3).is_ok());
    assert!(table.get_bitmap(&mut dev, 4).is_err());
}

#[test]
fn sample_load_carries_asset_bytes() {
    let mut dev = Device::new(1 << 20);
    assert!(dev.add_asset(b"boom.wav".to_vec(), vec![5, 6, 7]));
    let sample = Sample::load(&mut dev, &b"boom.wav".to_vec()).unwrap();
    let (data, _format, rate) = sample.get_data();
    assert_eq!(data, &vec![5u8, 6, 7]);
    assert_eq!(rate, 44100);
    sample.release(&mut dev);
}

#[test]
fn sample_new_is_zero_filled() {
    let mut dev = Device::new(1 << 20);
    let sample = Sample::new(&mut dev, 4).unwrap();
    let (data, _format, _rate) = sample.get_data();
    assert_eq!(data, &vec![0u8, 0, 0, 0]);
    let negative = Sample::new(&mut dev, -1);
    assert_eq!(negative.err(), Some(PdError::ResourceCreation { kind: ResourceKind::Sample }));
    sample.release(&mut dev);
}

#[test]
fn sample_from_data_copies_bytes() {
    let mut dev = Device::new(1 << 20);
    let source = vec![1u8, 2, 3];
    let sample = Sample::new_sample_from_data(
        &mut dev,
        &source,
        playdate::sound::SoundFormat::Stereo16,
        22050,
    )
    .unwrap();
    let (data, format, rate) = sample.get_data();
    assert_eq!(data, &source);
    assert_eq!(format, playdate::sound::SoundFormat::Stereo16);
    assert_eq!(rate, 22050);
    sample.release(&mut dev);
}

#[test]
fn load_into_sample_replaces_bytes() {
    let mut dev = Device::new(1 << 20);
    assert!(dev.add_asset(b"hit.wav".to_vec(), vec![9, 9]));
    let mut sample = Sample::new(&mut dev, 2).unwrap();
    sample.load_into_sample(&mut dev, &b"hit.wav".to_vec()).unwrap();
    let (data, _format, _rate) = sample.get_data();
    assert_eq!(data, &vec![9u8, 9]);
    sample.release(&mut dev);
}
