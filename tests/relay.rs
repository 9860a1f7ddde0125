use socks5_proxy::relay::{Direction, Relay, RelayAction};

fn written(a: RelayAction) -> Option<(Direction, Vec<u8>)> {
    match a {
        RelayAction::Write(d, b) => Some((d, b)),
        _ => None,
    }
}

#[test]
fn relay_forwards_bytes_in_order_both_ways() {
    let mut r = Relay::new();
    let up: Vec<Vec<u8>> = vec![b"GET / HTTP/1.1\r\n".to_vec(), b"Host: x\r\n\r\n".to_vec()];
    let down: Vec<Vec<u8>> = vec![b"HTTP/1.1 200 OK\r\n".to_vec(), vec![0, 255, 1], b"body".to_vec()];
    let mut at_destination = Vec::new();
    let mut at_client = Vec::new();
    for i in 0..3 {
        if i < up.len() {
            let (d, b) = written(r.on_read(Direction::Upload, up[i].clone())).unwrap();
            assert_eq!(d, Direction::Upload);
            at_destination.extend(b);
        }
        let (d, b) = written(r.on_read(Direction::Download, down[i].clone())).unwrap();
        assert_eq!(d, Direction::Download);
        at_client.extend(b);
    }
    assert_eq!(at_destination, up.concat());
    assert_eq!(at_client, down.concat());
    assert!(!r.is_finished());
}

#[test]
fn half_close_lets_other_direction_drain() {
    let mut r = Relay::new();
    assert!(matches!(r.on_read(Direction::Upload, vec![]), RelayAction::Shutdown(Direction::Upload)));
    assert!(!r.is_open(Direction::Upload));
    assert!(r.is_open(Direction::Download));
    assert!(!r.is_finished());
    let (d, b) = written(r.on_read(Direction::Download, b"late data".to_vec())).unwrap();
    assert_eq!(d, Direction::Download);
    assert_eq!(b, b"late data".to_vec());
    // reads on the closed flow do nothing
    assert!(matches!(r.on_read(Direction::Upload, vec![1]), RelayAction::Idle));
    assert!(matches!(
        r.on_read(Direction::Download, vec![]),
        RelayAction::Shutdown(Direction::Download)
    ));
    assert!(r.is_finished());
    assert!(!r.has_failed());
}

#[test]
fn relay_error_tears_down_both() {
    let mut r = Relay::new();
    assert!(written(r.on_read(Direction::Upload, vec![1, 2])).is_some());
    assert!(matches!(r.on_error(), RelayAction::Teardown));
    assert!(r.has_failed());
    assert!(r.is_finished());
    assert!(matches!(r.on_read(Direction::Download, vec![3]), RelayAction::Idle));
}
