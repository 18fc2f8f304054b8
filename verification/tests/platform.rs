use tokio_udp::platform::{Backend, CloneMethod, CloneUnsupported, SendWait};
use tokio_udp::{is_vectored_supported, Platform, UdpSocket};

#[test]
fn is_vectored_supported_reflects_the_platform_backend() {
    assert_eq!(is_vectored_supported(Platform::Unix), true);
    assert_eq!(is_vectored_supported(Platform::MacOs), true);
    assert_eq!(is_vectored_supported(Platform::Windows), false);
    assert_eq!(is_vectored_supported(Platform::Other), false);
}

#[test]
fn the_compiled_backend_is_the_unix_vectored_one() {
    assert_eq!(Platform::Unix.backend(), Backend::Vectored);
    assert_eq!(Platform::MacOs.backend(), Backend::Vectored);
    assert!(
        is_vectored_supported(Platform::Unix),
        "the unix backend is the vectored one, so the predicate must be true"
    );
}

#[test]
fn the_compiled_backend_is_the_concatenating_fallback() {
    assert_eq!(Platform::Windows.backend(), Backend::Concatenating);
    assert_eq!(Platform::Other.backend(), Backend::Concatenating);
    assert!(
        !is_vectored_supported(Platform::Windows),
        "the fallback concatenates, so the predicate must be false"
    );
}

#[test]
fn sends_wait_by_the_means_of_the_system() {
    assert_eq!(UdpSocket::new(Platform::MacOs).send_wait(), SendWait::Backoff);
    assert_eq!(UdpSocket::new(Platform::Unix).send_wait(), SendWait::Writable);
    assert_eq!(UdpSocket::new(Platform::Windows).send_wait(), SendWait::Runtime);
    assert_eq!(UdpSocket::new(Platform::Other).send_wait(), SendWait::Runtime);
    assert_eq!(UdpSocket::fallback(Platform::MacOs).send_wait(), SendWait::Runtime);
}

#[test]
fn only_the_windows_fallback_can_duplicate_a_borrowed_handle() {
    assert_eq!(
        UdpSocket::new(Platform::Unix).try_clone_std(),
        Ok(CloneMethod::Socket)
    );
    assert_eq!(
        UdpSocket::new(Platform::Windows).try_clone_std(),
        Ok(CloneMethod::Handle)
    );
    assert_eq!(
        UdpSocket::fallback(Platform::Unix).try_clone_std(),
        Err(CloneUnsupported)
    );
    assert_eq!(
        UdpSocket::new(Platform::Other).try_clone_std(),
        Err(CloneUnsupported)
    );
    assert_eq!(
        CloneUnsupported.message(),
        "socket clone unsupported on this platform"
    );
}
