use mock_io::error::ErrorKind;
use mock_io::sync::{MockListener, MockStream};

#[test]
fn each_failure_reports_its_own_kind() {
    let (listener, handle) = MockListener::new();
    drop(listener);
    let connect_err = MockStream::connect(&handle).map(|_| ()).unwrap_err();
    assert!(matches!(connect_err.kind(), ErrorKind::StreamConnectError));

    let (mut alive, dropped) = MockStream::pair();
    drop(dropped);
    let send_err = alive.write(&[1]).unwrap_err();
    assert!(matches!(send_err.kind(), ErrorKind::ChannelSendError));

    let mut buf = [0; 1];
    let recv_err = alive.read(&mut buf).unwrap_err();
    assert!(matches!(recv_err.kind(), ErrorKind::ChannelRecvError));

    let (gone, still_here) = MockStream::pair();
    drop(gone);
    let (mut read_half, _write_half) = still_here.split();
    let timeout = std::time::Duration::from_millis(10);
    let timeout_err = read_half.receive_timeout(&mut buf, timeout).unwrap_err();
    assert!(matches!(timeout_err.kind(), ErrorKind::ChannelRecvTimeoutError));
}

#[test]
fn messages_match_kinds() {
    let (listener, handle) = MockListener::new();
    drop(listener);
    let connect_err = MockStream::connect(&handle).map(|_| ()).unwrap_err();
    assert_eq!("Stream connecting error", connect_err.message());
    assert_eq!("Stream connecting error", connect_err.kind().message());

    let (mut alive, dropped) = MockStream::pair();
    drop(dropped);
    let send_err = alive.write(&[1]).unwrap_err();
    assert_eq!("Channel sending error", send_err.message());

    let mut buf = [0; 1];
    let recv_err = alive.read(&mut buf).unwrap_err();
    assert_eq!("Channel receiving error", recv_err.message());

    assert_eq!("Channel receiving error", ErrorKind::ChannelRecvTimeoutError.message());
    assert_eq!("Other error", ErrorKind::Other.message());
}

#[test]
fn kinds_compare_by_variant() {
    assert_eq!(ErrorKind::ChannelRecvError, ErrorKind::ChannelRecvError);
    assert_ne!(ErrorKind::ChannelRecvError, ErrorKind::ChannelSendError);
}
