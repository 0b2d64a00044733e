use eymate::config::{Config, Detection, Modes, Video};
use eymate::enroll::{enroll_scripted, EnrollEvent, EnrollSession};
use eymate::error::{DeviceError, EnrollmentError, ExtractionError, VerifyError};
use eymate::illumination::Frame;
use eymate::similarity::Embedding;
use eymate::store::{NotEnrolled, ReferenceStore};
use eymate::verify::{verify_scripted, Attempt};

fn detection(retries: u32) -> Detection {
    Detection {
        min_similarity_rgb: 700_000,
        min_similarity_ir: 900_000,
        min_brightness_rgb: 50_000,
        min_brightness_ir: 10_000,
        retries,
    }
}

fn emb(values: &[i16]) -> Embedding {
    Embedding::new(values.to_vec()).unwrap()
}

fn frame(level: u8) -> Frame {
    Frame { pixels: vec![level; 12], width: 2, height: 2, channels: 3 }
}

#[test]
fn first_bright_frame_is_enrolled() {
    let mut store = ReferenceStore::new();
    let events = vec![
        EnrollEvent::Frame(frame(3)),
        EnrollEvent::Frame(frame(12)),
        EnrollEvent::Embedded(emb(&[1, 2, 3])),
        EnrollEvent::Frame(frame(200)),
    ];
    let (outcome, used) = enroll_scripted(&mut store, "alice", &detection(3), Modes::Ir, events);
    assert!(matches!(outcome, Some(Ok(()))));
    assert_eq!(used, 3);
    assert_eq!(store.load("alice", Modes::Ir).unwrap().values(), &vec![1, 2, 3]);
    assert!(store.is_enrolled("alice", Modes::Ir));
    assert!(!store.is_enrolled("alice", Modes::Rgb));
}

#[test]
fn too_dark_every_attempt_fails_with_brightness() {
    let mut store = ReferenceStore::new();
    let events = vec![
        EnrollEvent::Frame(frame(1)),
        EnrollEvent::Frame(frame(2)),
        EnrollEvent::Frame(frame(9)),
    ];
    let (outcome, used) = enroll_scripted(&mut store, "alice", &detection(3), Modes::Ir, events);
    match outcome {
        Some(Err(EnrollmentError::Failed { last_brightness, required_brightness })) => {
            assert_eq!(last_brightness.sum(), 9 * 12);
            assert_eq!(last_brightness.count(), 12);
            assert_eq!(required_brightness, 10_000);
        },
        other => panic!("unexpected {:?}", other),
    }
    assert_eq!(used, 3);
    assert!(!store.is_enrolled("alice", Modes::Ir));
}

#[test]
fn extraction_failure_consumes_attempt_then_retry_succeeds() {
    let mut store = ReferenceStore::new();
    let events = vec![
        EnrollEvent::Frame(frame(60)),
        EnrollEvent::ExtractionFailed(ExtractionError { message: "model".to_string() }),
        EnrollEvent::Frame(frame(60)),
        EnrollEvent::Embedded(emb(&[7, 7])),
    ];
    let (outcome, used) = enroll_scripted(&mut store, "bob", &detection(2), Modes::Rgb, events);
    assert!(matches!(outcome, Some(Ok(()))));
    assert_eq!(used, 4);
    assert_eq!(store.load("bob", Modes::Rgb).unwrap().values(), &vec![7, 7]);
}

#[test]
fn extraction_failing_every_attempt_reports_it() {
    let mut store = ReferenceStore::new();
    let events = vec![
        EnrollEvent::Frame(frame(60)),
        EnrollEvent::ExtractionFailed(ExtractionError { message: "first".to_string() }),
        EnrollEvent::Frame(frame(60)),
        EnrollEvent::ExtractionFailed(ExtractionError { message: "second".to_string() }),
    ];
    let (outcome, _) = enroll_scripted(&mut store, "bob", &detection(2), Modes::Rgb, events);
    match outcome {
        Some(Err(EnrollmentError::Extraction(e))) => assert_eq!(e.message, "second"),
        other => panic!("unexpected {:?}", other),
    }
    assert!(!store.is_enrolled("bob", Modes::Rgb));
}

#[test]
fn device_failure_stops_enrollment() {
    let mut store = ReferenceStore::new();
    let events = vec![
        EnrollEvent::Frame(frame(1)),
        EnrollEvent::DeviceFailed(DeviceError { message: "gone".to_string() }),
        EnrollEvent::Frame(frame(100)),
    ];
    let (outcome, used) = enroll_scripted(&mut store, "carol", &detection(3), Modes::Ir, events);
    assert!(matches!(outcome, Some(Err(EnrollmentError::Device(_)))));
    assert_eq!(used, 2);
}

#[test]
fn zero_budget_enrollment_fails_before_capture() {
    let mut store = ReferenceStore::new();
    let (outcome, used) =
        enroll_scripted(&mut store, "dave", &detection(0), Modes::Ir, vec![EnrollEvent::Frame(frame(100))]);
    match outcome {
        Some(Err(EnrollmentError::Failed { last_brightness, required_brightness })) => {
            assert_eq!(last_brightness.count(), 0);
            assert_eq!(required_brightness, 10_000);
        },
        other => panic!("unexpected {:?}", other),
    }
    assert_eq!(used, 0);
}

#[test]
fn session_ignores_events_it_does_not_wait_for() {
    let mut session = EnrollSession::start(&detection(3), Modes::Ir);
    assert!(!session.wants_embedding());
    session.record(EnrollEvent::Embedded(emb(&[1])));
    assert!(!session.is_finished());
    assert_eq!(session.attempts(), 0);
    session.record(EnrollEvent::Frame(frame(50)));
    assert!(session.wants_embedding());
    assert_eq!(session.attempts(), 1);
    session.record(EnrollEvent::Frame(frame(50)));
    assert_eq!(session.attempts(), 1);
    session.record(EnrollEvent::Embedded(emb(&[4, 5])));
    match session.into_outcome() {
        Some(Ok(e)) => assert_eq!(e.values(), &vec![4, 5]),
        other => panic!("unexpected {:?}", other),
    }
}

#[test]
fn reenrollment_replaces_the_reference() {
    let mut store = ReferenceStore::new();
    let d = detection(3);
    let first = vec![EnrollEvent::Frame(frame(50)), EnrollEvent::Embedded(emb(&[10000, 0]))];
    let second = vec![EnrollEvent::Frame(frame(50)), EnrollEvent::Embedded(emb(&[0, 10000]))];
    assert!(matches!(enroll_scripted(&mut store, "erin", &d, Modes::Ir, first).0, Some(Ok(()))));
    assert!(matches!(enroll_scripted(&mut store, "erin", &d, Modes::Ir, second).0, Some(Ok(()))));
    assert_eq!(store.load("erin", Modes::Ir).unwrap().values(), &vec![0, 10000]);
    let config = Config { video: Video { mode: Modes::Ir, device_rgb: 0, device_ir: 2 }, detection: d };
    // A probe like the first reference no longer matches.
    let old_like = vec![Attempt::Scored { frame: frame(50), probe: emb(&[10000, 0]) }];
    let (outcome, _) = verify_scripted(&store, "erin", &config, old_like);
    assert!(!matches!(outcome, Some(Ok(true))));
    let new_like = vec![Attempt::Scored { frame: frame(50), probe: emb(&[0, 10000]) }];
    let (outcome, _) = verify_scripted(&store, "erin", &config, new_like);
    assert!(matches!(outcome, Some(Ok(true))));
}

#[test]
fn store_keys_identity_and_mode() {
    let mut store = ReferenceStore::new();
    assert!(matches!(store.load("x", Modes::Ir), Err(NotEnrolled)));
    store.save("x", Modes::Ir, emb(&[1]));
    store.save("y", Modes::Ir, emb(&[2]));
    store.save("x", Modes::Rgb, emb(&[3]));
    store.save("x", Modes::Ir, emb(&[4]));
    assert_eq!(store.load("x", Modes::Ir).unwrap().values(), &vec![4]);
    assert_eq!(store.load("y", Modes::Ir).unwrap().values(), &vec![2]);
    assert_eq!(store.load("x", Modes::Rgb).unwrap().values(), &vec![3]);
    assert!(matches!(store.load("y", Modes::Rgb), Err(NotEnrolled)));
    assert!(!store.is_enrolled("z", Modes::Ir));
    let _ = VerifyError::NotEnrolled;
}
