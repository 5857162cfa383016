use mock_io::error::ErrorKind;
use mock_io::sync::{MockListener, MockStream};

#[test]
fn listener_flow_delivers_both_values() {
    let (listener, handle) = MockListener::new();

    let mut local = MockStream::connect(&handle).unwrap();
    assert!(matches!(local.write(&1u64.to_be_bytes()), Ok(8)));
    assert!(matches!(local.write(&2u64.to_be_bytes()), Ok(8)));
    drop(handle);

    let mut accepted = listener.accept().unwrap();
    let mut buf = [0; 8];

    assert!(matches!(accepted.read(&mut buf), Ok(8)));
    assert_eq!(1u64.to_be_bytes(), buf);

    assert!(matches!(accepted.read(&mut buf), Ok(8)));
    assert_eq!(2u64.to_be_bytes(), buf);

    let e = listener.accept().map(|_| ()).unwrap_err();
    assert!(matches!(e.kind(), ErrorKind::ChannelRecvError));
}

#[test]
fn accept_yields_connections_in_connect_order() {
    let (listener, handle) = MockListener::new();

    let handle_clone = handle.clone();
    let mut first = MockStream::connect(&handle).unwrap();
    let mut second = MockStream::connect(&handle_clone).unwrap();
    assert!(matches!(first.write(&[1]), Ok(1)));
    assert!(matches!(second.write(&[2]), Ok(1)));

    let mut accepted_first = listener.accept().unwrap();
    let mut accepted_second = listener.accept().unwrap();

    let mut buf = [0; 1];
    assert!(matches!(accepted_first.read(&mut buf), Ok(1)));
    assert_eq!([1], buf);
    assert!(matches!(accepted_second.read(&mut buf), Ok(1)));
    assert_eq!([2], buf);
}

#[test]
fn accept_fails_terminally_once_every_handle_is_gone() {
    let (listener, handle) = MockListener::new();
    let _local = MockStream::connect(&handle).unwrap();
    let _pending = listener.accept().unwrap();
    drop(handle);

    let e = listener.accept().map(|_| ()).unwrap_err();
    assert!(matches!(e.kind(), ErrorKind::ChannelRecvError));
    let e = listener.accept().map(|_| ()).unwrap_err();
    assert!(matches!(e.kind(), ErrorKind::ChannelRecvError));
}

#[test]
fn connect_fails_once_listener_is_dropped() {
    let (listener, handle) = MockListener::new();
    drop(listener);

    let e = MockStream::connect(&handle).map(|_| ()).unwrap_err();
    assert!(matches!(e.kind(), ErrorKind::StreamConnectError));
    let e = MockStream::connect(&handle).map(|_| ()).unwrap_err();
    assert!(matches!(e.kind(), ErrorKind::StreamConnectError));
}

#[test]
fn accepted_stream_talks_back_to_connector() {
    let (listener, handle) = MockListener::new();

    let mut local = MockStream::connect(&handle).unwrap();
    let mut accepted = listener.accept().unwrap();

    assert!(matches!(local.write(&[10, 11]), Ok(2)));
    assert!(matches!(accepted.write(&[20]), Ok(1)));

    let mut buf = [0; 2];
    assert!(matches!(accepted.read(&mut buf), Ok(2)));
    assert_eq!([10, 11], buf);
    assert!(matches!(local.read(&mut buf[..1]), Ok(1)));
    assert_eq!(20, buf[0]);
}
