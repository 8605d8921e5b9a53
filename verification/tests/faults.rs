use playdate::device::Device;
use playdate::fault::abort_with_addr;
use playdate::fault::render_fault_message;
use playdate::fault::report_fault;
use playdate::fault::FAULT_CAPACITY;

#[test]
fn fault_message_formats_payload_file_and_line() {
    let message = render_fault_message(&b"oops".to_vec(), &b"main.rs".to_vec(), 17);
    let mut expected = b"panic: oops @ main.rs:17".to_vec();
    expected.push(0);
    assert_eq!(message, expected);
}

#[test]
fn fault_message_renders_zero_line() {
    let message = render_fault_message(&b"x".to_vec(), &b"f".to_vec(), 0);
    let mut expected = b"panic: x @ f:0".to_vec();
    expected.push(0);
    assert_eq!(message, expected);
}

#[test]
fn fault_message_sanitizes_null_bytes() {
    let message = render_fault_message(&vec![b'a', 0, b'b'], &b"f.rs".to_vec(), 3);
    let mut expected = b"panic: a?b @ f.rs:3".to_vec();
    expected.push(0);
    assert_eq!(message, expected);
    // No interior null byte survives, so the device accepts the message.
    assert_eq!(message.iter().filter(|b| **b == 0).count(), 1);
}

#[test]
fn fault_message_is_truncated_to_the_buffer() {
    let long = vec![b'a'; 5000];
    let message = render_fault_message(&long, &b"f.rs".to_vec(), 1);
    assert_eq!(message.len(), FAULT_CAPACITY);
    assert_eq!(*message.last().unwrap(), 0);
    assert_eq!(&message[0..7], b"panic: ");
    assert!(message[7..FAULT_CAPACITY - 1].iter().all(|b| *b == b'a'));
}

#[test]
fn report_fault_reaches_the_error_log_and_halts() {
    let mut dev = Device::new(16);
    let halt = report_fault(&mut dev, &b"boom".to_vec(), &b"game.rs".to_vec(), 99);
    assert_eq!(halt.address, 0xdeadbeef);
    assert_eq!(dev.error_log.len(), 1);
    let mut expected = b"panic: boom @ game.rs:99".to_vec();
    expected.push(0);
    assert_eq!(dev.error_log[0], expected);
}

#[test]
fn abort_address_is_kept() {
    let halt = abort_with_addr(0x1234);
    assert_eq!(halt.address, 0x1234);
}
