use std::cell::RefCell;
use std::rc::Rc;

use upload_limit::reader::check_under_expected;
use upload_limit::reader::check_under_maximum;
use upload_limit::reader::handle_eof;
use upload_limit::reader::handle_ok;
use upload_limit::reader::BoundedReader;
use upload_limit::reader::Callback;
use upload_limit::reader::Error;
use upload_limit::reader::ReadEvent;
use upload_limit::reader::ReadOutcome;

/// A test observer that records every notification it receives.
struct RecordingCallback {
    calls: Rc<RefCell<Vec<Result<(), Error>>>>,
}

impl Callback for RecordingCallback {
    fn call(&self, outcome: Result<(), Error>) {
        self.calls.borrow_mut().push(outcome);
    }
}

#[test]
fn lib_max_value() {
    // when payload is larger than maximum
    let mut reader = BoundedReader::new(2);
    let err = reader.read_to_end(b"test string", 1024).unwrap_err();
    assert_eq!(err, Error::MaxLengthExceeded { max_length: 2 });
    assert_eq!(
        err.message().as_str(),
        "payload is larger than configured maximum (>2 bytes)"
    );

    // when payload is less than the maximum
    let mut reader = BoundedReader::new(128);
    let out = reader.read_to_end(b"test string", 1024).unwrap();
    assert_eq!(out, b"test string".to_vec());
    assert_eq!(reader.bytes_read(), 11);
}

#[test]
fn byte_sniffer_max_value() {
    // when payload is larger than maximum
    let payload: &[u8] = b"test string";
    let mut reader = BoundedReader::new(2).with_expected_length(payload.len());
    let err = reader.read_to_end(payload, 1024).unwrap_err();
    assert_eq!(err, Error::MaxLengthExceeded { max_length: 2 });

    // when payload is less than the maximum
    let mut reader = BoundedReader::new(128).with_expected_length(payload.len());
    let out = reader.read_to_end(payload, 1024).unwrap();
    assert_eq!(out, payload.to_vec());
}

#[test]
fn expected_value() {
    // when payload is larger than expected
    let mut reader = BoundedReader::new(1024).with_expected_length(2);
    let err = reader.read_to_end(b"test string", 1024).unwrap_err();
    assert_eq!(err, Error::ExceedsExpectedLength { expected_length: 2 });
    assert_eq!(
        err.message().as_str(),
        "payload is larger than expected (>2 bytes)"
    );

    // when payload is expected size
    let mut reader = BoundedReader::new(1024).with_expected_length(11);
    let out = reader.read_to_end(b"test string", 1024).unwrap();
    assert_eq!(out, b"test string".to_vec());

    // when payload is smaller than expected
    let mut reader = BoundedReader::new(1024).with_expected_length(128);
    let err = reader.read_to_end(b"test string", 1024).unwrap_err();
    assert_eq!(
        err,
        Error::ShorterThanExpectedLength {
            bytes_read: 11,
            expected_length: 128,
        }
    );
    assert_eq!(
        err.message().as_str(),
        "payload is smaller than expected (11 < 128)"
    );
}

#[test]
fn bytes_pass_through_untouched() {
    // delivered in small chunks, the payload comes back byte-for-byte
    let payload: Vec<u8> = (0u8..=255).collect();
    let mut reader = BoundedReader::new(4096);
    let out = reader.read_to_end(&payload, 7).unwrap();
    assert_eq!(out, payload);
}

#[test]
fn empty_payload() {
    let mut reader = BoundedReader::new(16);
    assert_eq!(reader.read_to_end(b"", 8).unwrap(), Vec::<u8>::new());

    let mut reader = BoundedReader::new(16).with_expected_length(0);
    assert_eq!(reader.read_to_end(b"", 8).unwrap(), Vec::<u8>::new());

    let mut reader = BoundedReader::new(16).with_expected_length(1);
    let err = reader.read_to_end(b"", 8).unwrap_err();
    assert_eq!(
        err,
        Error::ShorterThanExpectedLength {
            bytes_read: 0,
            expected_length: 1,
        }
    );
    assert_eq!(
        err.message().as_str(),
        "payload is smaller than expected (0 < 1)"
    );
}

#[test]
fn payload_exactly_at_maximum() {
    let mut reader = BoundedReader::new(11);
    let out = reader.read_to_end(b"test string", 4).unwrap();
    assert_eq!(out, b"test string".to_vec());

    let mut reader = BoundedReader::new(10);
    let err = reader.read_to_end(b"test string", 4).unwrap_err();
    assert_eq!(err, Error::MaxLengthExceeded { max_length: 10 });
    assert_eq!(
        err.message().as_str(),
        "payload is larger than configured maximum (>10 bytes)"
    );
}

#[test]
fn huge_maximum() {
    let mut reader = BoundedReader::new(usize::MAX);
    let out = reader.read_to_end(b"test string", 3).unwrap();
    assert_eq!(out, b"test string".to_vec());
}

#[test]
fn violation_on_first_crossing_read() {
    // one byte per read: the failing read is the one whose cumulative count
    // first exceeds the ceiling, and the count keeps the bytes consumed
    let mut reader = BoundedReader::new(2);
    assert_eq!(
        reader.observe(ReadEvent::Data { count: 1 }),
        ReadOutcome::Data { count: 1 }
    );
    assert_eq!(
        reader.observe(ReadEvent::Data { count: 1 }),
        ReadOutcome::Data { count: 1 }
    );
    assert_eq!(
        reader.observe(ReadEvent::Data { count: 1 }),
        ReadOutcome::Violated {
            error: Error::MaxLengthExceeded { max_length: 2 }
        }
    );
    assert_eq!(reader.bytes_read(), 3);
}

#[test]
fn max_checked_before_expected() {
    // a single read that crosses both limits reports the ceiling first
    let mut reader = BoundedReader::new(4).with_expected_length(2);
    assert_eq!(
        reader.observe(ReadEvent::Data { count: 8 }),
        ReadOutcome::Violated {
            error: Error::MaxLengthExceeded { max_length: 4 }
        }
    );

    // when only the declared size is crossed, its violation is reported
    let mut reader = BoundedReader::new(1024).with_expected_length(2);
    assert_eq!(
        reader.observe(ReadEvent::Data { count: 8 }),
        ReadOutcome::Violated {
            error: Error::ExceedsExpectedLength { expected_length: 2 }
        }
    );
}

#[test]
fn not_ready_changes_no_accounting() {
    let mut reader = BoundedReader::new(128);
    assert_eq!(
        reader.observe(ReadEvent::Data { count: 5 }),
        ReadOutcome::Data { count: 5 }
    );
    assert_eq!(reader.observe(ReadEvent::NotReady), ReadOutcome::NotReady);
    assert_eq!(reader.bytes_read(), 5);

    // a later retry continues accounting from the prior count
    assert_eq!(
        reader.observe(ReadEvent::Data { count: 6 }),
        ReadOutcome::Data { count: 6 }
    );
    assert_eq!(reader.bytes_read(), 11);
    assert_eq!(
        reader.observe(ReadEvent::Data { count: 0 }),
        ReadOutcome::Data { count: 0 }
    );
}

#[test]
fn inner_error_passes_through() {
    let mut reader = BoundedReader::new(128);
    assert_eq!(
        reader.observe(ReadEvent::Data { count: 5 }),
        ReadOutcome::Data { count: 5 }
    );
    assert_eq!(reader.observe(ReadEvent::Failed), ReadOutcome::Failed);
    assert_eq!(reader.bytes_read(), 5);
}

#[test]
fn notifier_fires_once_with_success() {
    let calls = Rc::new(RefCell::new(Vec::new()));
    let callback = RecordingCallback {
        calls: Rc::clone(&calls),
    };
    let mut reader = BoundedReader::new(1024)
        .with_expected_length(11)
        .with_callback(callback);
    let out = reader.read_to_end(b"test string", 4).unwrap();
    assert_eq!(out, b"test string".to_vec());
    assert_eq!(*calls.borrow(), vec![Ok(())]);
}

#[test]
fn notifier_fires_once_with_violation() {
    let calls = Rc::new(RefCell::new(Vec::new()));
    let callback = RecordingCallback {
        calls: Rc::clone(&calls),
    };
    let mut reader = BoundedReader::new(2).with_callback(callback);
    let err = reader.read_to_end(b"test string", 4).unwrap_err();
    assert_eq!(err, Error::MaxLengthExceeded { max_length: 2 });
    assert_eq!(
        *calls.borrow(),
        vec![Err(Error::MaxLengthExceeded { max_length: 2 })]
    );
}

#[test]
fn notifier_silent_on_partial_reads() {
    let calls = Rc::new(RefCell::new(Vec::new()));
    let callback = RecordingCallback {
        calls: Rc::clone(&calls),
    };
    let mut reader = BoundedReader::new(128).with_callback(callback);
    reader.observe(ReadEvent::Data { count: 5 });
    reader.observe(ReadEvent::NotReady);
    reader.observe(ReadEvent::Data { count: 6 });
    assert!(calls.borrow().is_empty());
    reader.observe(ReadEvent::Data { count: 0 });
    assert_eq!(*calls.borrow(), vec![Ok(())]);
}

#[test]
fn check_functions() {
    assert_eq!(check_under_maximum(10, 10), Ok(()));
    assert_eq!(
        check_under_maximum(11, 10),
        Err(Error::MaxLengthExceeded { max_length: 10 })
    );

    assert_eq!(check_under_expected(11, None), Ok(()));
    assert_eq!(check_under_expected(7, Some(7)), Ok(()));
    assert_eq!(
        check_under_expected(8, Some(7)),
        Err(Error::ExceedsExpectedLength { expected_length: 7 })
    );

    assert_eq!(handle_eof(7, None), Ok(0));
    assert_eq!(handle_eof(7, Some(7)), Ok(0));
    assert_eq!(
        handle_eof(6, Some(7)),
        Err(Error::ShorterThanExpectedLength {
            bytes_read: 6,
            expected_length: 7,
        })
    );
}

#[test]
fn handle_ok_accounts_before_checking() {
    let mut count: usize = 5;
    assert_eq!(handle_ok(&mut count, 10, None, 3), Ok(3));
    assert_eq!(count, 8);

    let mut count: usize = 5;
    assert_eq!(
        handle_ok(&mut count, 7, None, 3),
        Err(Error::MaxLengthExceeded { max_length: 7 })
    );
    assert_eq!(count, 8);

    let mut count: usize = 5;
    assert_eq!(
        handle_ok(&mut count, 10, Some(6), 3),
        Err(Error::ExceedsExpectedLength { expected_length: 6 })
    );
    assert_eq!(count, 8);
}

#[test]
fn getters_report_configuration() {
    let reader = BoundedReader::new(42);
    assert_eq!(reader.max_length(), 42);
    assert_eq!(reader.expected_length(), None);
    assert_eq!(reader.bytes_read(), 0);

    let reader = BoundedReader::new(42).with_expected_length(7);
    assert_eq!(reader.expected_length(), Some(7));
}
