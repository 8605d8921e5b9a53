use playdate::codec::read_encoded;
use playdate::codec::write_encoded;
use playdate::device::Device;
use playdate::error::PdError;
use playdate::error::ResourceKind;
use playdate::file::status_to_result;
use playdate::file::FileOptions;
use playdate::file::Filesystem;
use playdate::file::Whence;

fn filesystem() -> Filesystem {
    Filesystem::new(20)
}

#[test]
fn negative_status_maps_to_io_error() {
    assert_eq!(status_to_result(-1), Err(PdError::Io { code: -1 }));
    assert_eq!(status_to_result(-42), Err(PdError::Io { code: -42 }));
    assert_eq!(status_to_result(0), Ok(0));
    assert_eq!(status_to_result(17), Ok(17));
}

#[test]
fn open_nul_path_is_encoding_error_without_device_call() {
    let mut dev = Device::new(1 << 20);
    let fs = filesystem();
    let r = fs.open(&mut dev, &vec![97, 0, 98], FileOptions::Read);
    assert!(matches!(r.err(), Some(PdError::Encoding)));
    assert_eq!(dev.create_calls, 0);
    assert_eq!(dev.open_files.len(), 0);
}

#[test]
fn open_missing_for_read_is_creation_error() {
    let mut dev = Device::new(1 << 20);
    let fs = filesystem();
    let r = fs.open(&mut dev, &b"save.json".to_vec(), FileOptions::Read);
    assert!(matches!(
        r.err(),
        Some(PdError::ResourceCreation { kind: ResourceKind::File })
    ));
    assert_eq!(dev.create_calls, 0);
}

#[test]
fn write_then_read_round_trips() {
    let mut dev = Device::new(1 << 20);
    let fs = filesystem();
    let file = fs.open(&mut dev, &b"log.txt".to_vec(), FileOptions::Write).unwrap();
    let count = file.write(&mut dev, &vec![10, 20, 30]).unwrap();
    assert_eq!(count, 3);
    file.close(&mut dev);
    assert_eq!(dev.free_calls, 1);

    let file = fs.open(&mut dev, &b"log.txt".to_vec(), FileOptions::Read).unwrap();
    let bytes = file.read(&mut dev, 16).unwrap();
    assert_eq!(bytes, vec![10, 20, 30]);
    let empty = file.read(&mut dev, 16).unwrap();
    assert_eq!(empty.len(), 0);
    file.close(&mut dev);
    assert_eq!(dev.free_calls, 2);
}

#[test]
fn read_on_write_only_file_is_io_error_not_a_count() {
    let mut dev = Device::new(1 << 20);
    let fs = filesystem();
    let file = fs.open(&mut dev, &b"out.bin".to_vec(), FileOptions::Write).unwrap();
    let r = file.read(&mut dev, 4);
    assert!(matches!(r.err(), Some(PdError::Io { code: -1 })));
    file.close(&mut dev);
}

#[test]
fn write_on_read_only_file_is_io_error() {
    let mut dev = Device::new(1 << 20);
    assert!(dev.add_file(b"data.bin".to_vec(), vec![1, 2]));
    let fs = filesystem();
    let file = fs.open(&mut dev, &b"data.bin".to_vec(), FileOptions::Read).unwrap();
    let r = file.write(&mut dev, &vec![3]);
    assert!(matches!(r.err(), Some(PdError::Io { code: -1 })));
    file.close(&mut dev);
}

#[test]
fn seek_and_tell_track_the_position() {
    let mut dev = Device::new(1 << 20);
    assert!(dev.add_file(b"d".to_vec(), vec![1, 2, 3, 4, 5]));
    let fs = filesystem();
    let file = fs.open(&mut dev, &b"d".to_vec(), FileOptions::Read).unwrap();
    assert_eq!(file.tell(&mut dev).unwrap(), 0);
    file.seek(&mut dev, 3, Whence::Start).unwrap();
    assert_eq!(file.tell(&mut dev).unwrap(), 3);
    file.seek(&mut dev, -2, Whence::Cur).unwrap();
    assert_eq!(file.tell(&mut dev).unwrap(), 1);
    file.seek(&mut dev, -1, Whence::End).unwrap();
    assert_eq!(file.tell(&mut dev).unwrap(), 4);
    let bytes = file.read(&mut dev, 8).unwrap();
    assert_eq!(bytes, vec![5]);
    file.close(&mut dev);
}

#[test]
fn seek_outside_the_file_is_io_error_and_keeps_position() {
    let mut dev = Device::new(1 << 20);
    assert!(dev.add_file(b"d".to_vec(), vec![1, 2, 3]));
    let fs = filesystem();
    let file = fs.open(&mut dev, &b"d".to_vec(), FileOptions::Read).unwrap();
    let before = file.tell(&mut dev).unwrap();
    let past = file.seek(&mut dev, 4, Whence::Start);
    assert!(matches!(past.err(), Some(PdError::Io { code: -1 })));
    let negative = file.seek(&mut dev, -1, Whence::Start);
    assert!(matches!(negative.err(), Some(PdError::Io { code: -1 })));
    assert_eq!(file.tell(&mut dev).unwrap(), before);
    file.close(&mut dev);
}

#[test]
fn append_continues_at_the_end() {
    let mut dev = Device::new(1 << 20);
    assert!(dev.add_file(b"a".to_vec(), vec![1, 2]));
    let fs = filesystem();
    let file = fs.open(&mut dev, &b"a".to_vec(), FileOptions::Append).unwrap();
    assert_eq!(file.tell(&mut dev).unwrap(), 2);
    file.write(&mut dev, &vec![3]).unwrap();
    file.close(&mut dev);
    let file = fs.open(&mut dev, &b"a".to_vec(), FileOptions::Read).unwrap();
    assert_eq!(file.read(&mut dev, 8).unwrap(), vec![1, 2, 3]);
    file.close(&mut dev);
}

#[test]
fn flush_succeeds_on_an_open_file() {
    let mut dev = Device::new(1 << 20);
    let fs = filesystem();
    let file = fs.open(&mut dev, &b"f".to_vec(), FileOptions::Write).unwrap();
    assert_eq!(file.flush(&mut dev).unwrap(), 0);
    file.close(&mut dev);
}

#[test]
fn stat_reports_sizes_files_and_directories() {
    let mut dev = Device::new(1 << 20);
    assert!(dev.add_file(b"save".to_vec(), vec![1, 2, 3, 4]));
    let fs = filesystem();
    let st = fs.stat(&dev, &b"save".to_vec()).unwrap();
    assert!(!st.is_directory);
    assert_eq!(st.size, 4);
    fs.mkdir(&mut dev, &b"images".to_vec()).unwrap();
    let st = fs.stat(&dev, &b"images".to_vec()).unwrap();
    assert!(st.is_directory);
    let missing = fs.stat(&dev, &b"nope".to_vec());
    assert!(matches!(missing.err(), Some(PdError::Io { code: -1 })));
}

#[test]
fn mkdir_twice_is_io_error() {
    let mut dev = Device::new(1 << 20);
    let fs = filesystem();
    fs.mkdir(&mut dev, &b"images".to_vec()).unwrap();
    let again = fs.mkdir(&mut dev, &b"images".to_vec());
    assert!(matches!(again.err(), Some(PdError::Io { code: -1 })));
}

#[test]
fn unlink_removes_files_and_recursive_directories() {
    let mut dev = Device::new(1 << 20);
    assert!(dev.add_file(b"junk".to_vec(), vec![0]));
    let fs = filesystem();
    fs.unlink(&mut dev, &b"junk".to_vec(), false).unwrap();
    assert!(fs.stat(&dev, &b"junk".to_vec()).is_err());
    fs.mkdir(&mut dev, &b"tmp".to_vec()).unwrap();
    let plain = fs.unlink(&mut dev, &b"tmp".to_vec(), false);
    assert!(matches!(plain.err(), Some(PdError::Io { code: -1 })));
    fs.unlink(&mut dev, &b"tmp".to_vec(), true).unwrap();
    assert!(fs.stat(&dev, &b"tmp".to_vec()).is_err());
}

#[test]
fn rename_moves_a_file() {
    let mut dev = Device::new(1 << 20);
    assert!(dev.add_file(b"old".to_vec(), vec![8]));
    let fs = filesystem();
    fs.rename(&mut dev, &b"old".to_vec(), &b"new".to_vec()).unwrap();
    assert!(fs.stat(&dev, &b"old".to_vec()).is_err());
    assert_eq!(fs.stat(&dev, &b"new".to_vec()).unwrap().size, 1);
    let clash = fs.rename(&mut dev, &b"new".to_vec(), &b"new".to_vec());
    assert!(matches!(clash.err(), Some(PdError::Io { code: -1 })));
}

#[test]
fn codec_write_then_read_drops_the_trailing_byte() {
    let mut dev = Device::new(1 << 20);
    let fs = filesystem();
    let count = write_encoded(&fs, &mut dev, &b"save.json".to_vec(), &vec![1, 2, 3, 10]).unwrap();
    assert_eq!(count, 4);
    let bytes = read_encoded(&fs, &mut dev, &b"save.json".to_vec()).unwrap();
    assert_eq!(bytes, vec![1, 2, 3]);
    // Each transfer opened one handle and freed it again.
    assert_eq!(dev.create_calls, 2);
    assert_eq!(dev.free_calls, 2);
    assert_eq!(dev.open_files.len(), 0);
}

#[test]
fn codec_read_of_missing_file_is_creation_error() {
    let mut dev = Device::new(1 << 20);
    let fs = filesystem();
    let r = read_encoded(&fs, &mut dev, &b"absent".to_vec());
    assert!(matches!(
        r.err(),
        Some(PdError::ResourceCreation { kind: ResourceKind::File })
    ));
}

#[test]
fn codec_read_of_empty_file_is_io_error() {
    let mut dev = Device::new(1 << 20);
    assert!(dev.add_file(b"empty".to_vec(), vec![]));
    let fs = filesystem();
    let r = read_encoded(&fs, &mut dev, &b"empty".to_vec());
    assert!(matches!(r.err(), Some(PdError::Io { code: -1 })));
}

#[test]
fn codec_nul_path_is_encoding_error() {
    let mut dev = Device::new(1 << 20);
    let fs = filesystem();
    let r = write_encoded(&fs, &mut dev, &vec![0], &vec![1]);
    assert!(matches!(r.err(), Some(PdError::Encoding)));
    assert_eq!(dev.create_calls, 0);
}
