use p3get::DownloadError;

#[test]
fn missing_length_message() {
    assert_eq!(DownloadError::MissingLength.message(), "Failed to get file length");
}

#[test]
fn invalid_destination_message() {
    assert_eq!(DownloadError::InvalidDestination.message(), "Invalid filename");
}

#[test]
fn request_message_is_its_reason() {
    let error = DownloadError::Request(String::from("dns error"));
    assert_eq!(error.message(), "dns error");
}

#[test]
fn io_message_is_its_reason() {
    let error = DownloadError::Io(String::from("permission denied"));
    assert_eq!(error.message(), "permission denied");
}

#[test]
fn stream_message_is_its_reason() {
    let error = DownloadError::Stream(String::from("connection reset"));
    assert_eq!(error.message(), "connection reset");
}

#[test]
fn infrastructure_message_is_its_reason() {
    let error = DownloadError::Infrastructure(String::from("no tls backend"));
    assert_eq!(error.message(), "no tls backend");
}

#[test]
fn only_infrastructure_errors_leave_the_task() {
    assert!(DownloadError::Request(String::new()).is_task_level());
    assert!(DownloadError::MissingLength.is_task_level());
    assert!(DownloadError::InvalidDestination.is_task_level());
    assert!(DownloadError::Io(String::new()).is_task_level());
    assert!(DownloadError::Stream(String::new()).is_task_level());
    assert!(!DownloadError::Infrastructure(String::new()).is_task_level());
}
