use sminer::worker_error::Error;

#[test]
fn worker_errors_have_their_messages() {
    assert_eq!(Error::BlockHashNotFound.message(), "block hash not found");
    assert_eq!(Error::BlockNotFound.message(), "block not found");
    assert_eq!(
        Error::FailedToCallRegisterWorker.message(),
        "failed to call register_worker"
    );
}

#[test]
fn worker_errors_can_be_debug_printed() {
    assert_eq!(format!("{:?}", Error::BlockNotFound), "BlockNotFound");
}
