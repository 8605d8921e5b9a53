use playdate::cstr::to_c_string;
use playdate::error::PdError;

#[test]
fn conversion_appends_the_terminator() {
    let c = to_c_string(&b"assets/hero.png".to_vec()).unwrap();
    let mut expected = b"assets/hero.png".to_vec();
    expected.push(0);
    assert_eq!(c, expected);
}

#[test]
fn empty_input_becomes_the_bare_terminator() {
    let c = to_c_string(&Vec::new()).unwrap();
    assert_eq!(c, vec![0]);
}

#[test]
fn embedded_null_byte_is_an_encoding_error() {
    let r = to_c_string(&vec![b'a', 0, b'b']);
    assert_eq!(r.err(), Some(PdError::Encoding));
    let leading = to_c_string(&vec![0, b'a']);
    assert_eq!(leading.err(), Some(PdError::Encoding));
    let trailing = to_c_string(&vec![b'a', 0]);
    assert_eq!(trailing.err(), Some(PdError::Encoding));
}
