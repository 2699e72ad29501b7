use ysos::serial::{PortWrite, SerialPort};

fn w(port: u16, value: u8) -> PortWrite {
    PortWrite { port, value }
}

#[test]
fn init_sequence_for_com1() {
    let port = SerialPort::new(0x3F8);
    let writes = port.init();
    assert_eq!(
        writes,
        vec![
            w(0x3F9, 0x00),
            w(0x3FB, 0x80),
            w(0x3F8, 0x03),
            w(0x3F9, 0x00),
            w(0x3FB, 0x03),
            w(0x3FA, 0xC7),
            w(0x3FC, 0x0B),
            w(0x3FC, 0x1E),
            w(0x3F8, 0xAE),
        ]
    );
    assert_eq!(port.data_port(), 0x3F8);
    assert_eq!(port.line_status_port(), 0x3FD);
}

#[test]
fn loopback_check() {
    let port = SerialPort::new(0x3F8);
    assert_eq!(port.finish_init(0xAE), Some(w(0x3FC, 0x0F)));
    assert_eq!(port.finish_init(0x00), None);
}

#[test]
fn send_waits_for_empty_transmitter() {
    let port = SerialPort::new(0x2F8);
    assert_eq!(port.send(b'A', 0x00), None);
    assert_eq!(port.send(b'A', 0x01), None);
    assert_eq!(port.send(b'A', 0x20), Some(w(0x2F8, b'A')));
    assert_eq!(port.send(b'A', 0x60), Some(w(0x2F8, b'A')));
}

#[test]
fn receive_without_waiting() {
    let port = SerialPort::new(0x3F8);
    assert_eq!(port.receive(0x60), None);
    assert_eq!(port.receive(0x61), Some(0x3F8));
}
