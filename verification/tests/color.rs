use chess::color::Color;

#[test]
fn white_other() {
    assert!(Color::White.other() == Color::Black);
}

#[test]
fn black_other() {
    assert!(Color::Black.other() == Color::White);
}
