use url_uploader::guard::{CancelOutcome, ConversationGuard};
use url_uploader::progress::{percent_hundredths, ProgressSampler};
use url_uploader::resource::{attachment_kind, name_from_path, AttachmentKind};
use url_uploader::revoke::RevocableSource;
use url_uploader::session::{begin, StartRefusal};
use url_uploader::{validate_length, ValidateError};

fn make_trigger() -> stream_cancel::Trigger {
    let (trigger, _stream) = stream_cancel::Valved::new(futures::stream::empty::<Vec<u8>>());
    trigger
}

const GIB: u64 = 1024 * 1024 * 1024;

#[test]
fn lock_is_exclusive_per_conversation() {
    let mut g = ConversationGuard::new();
    assert!(g.try_acquire(7, 100));
    assert!(!g.try_acquire(7, 100));
    assert!(!g.try_acquire(7, 200));
    // an unrelated conversation is unaffected
    assert!(g.try_acquire(8, 300));
}

#[test]
fn failed_acquire_mutates_nothing() {
    let mut g = ConversationGuard::new();
    assert!(g.try_acquire(7, 100));
    let t = make_trigger();
    g.register_handle(7, t);
    // a second caller fails and neither the initiator record nor the
    // revocation handle changes
    assert!(!g.try_acquire(7, 200));
    assert_eq!(g.authorized_canceller(7), Some(100));
    assert_eq!(g.cancel(7, 100), CancelOutcome::Fired);
}

#[test]
fn releasing_unheld_lock_is_a_noop() {
    let mut g = ConversationGuard::new();
    g.release(42);
    g.release(42);
    assert_eq!(g.authorized_canceller(42), None);
    assert!(g.try_acquire(42, 5));
}

#[test]
fn revocation_is_one_shot_and_idempotent() {
    let mut s = RevocableSource::new();
    assert_eq!(s.read(Some(vec![1, 2, 3])), Ok(Some(vec![1, 2, 3])));
    s.revoke();
    s.revoke();
    assert!(s.read(Some(vec![4])).is_err());
    assert!(s.read(None).is_err());
}

#[test]
fn reads_pass_through_until_revoked() {
    let mut s = RevocableSource::new();
    assert_eq!(s.read(Some(vec![9, 8])), Ok(Some(vec![9, 8])));
    assert_eq!(s.read(Some(vec![])), Ok(Some(vec![])));
    assert_eq!(s.read(None), Ok(None));
}

#[test]
fn release_discards_all_records_for_the_conversation() {
    let mut g = ConversationGuard::new();
    assert!(g.try_acquire(6, 44));
    g.register_handle(6, make_trigger());
    g.release(6);
    // owner record and handle went with the lock
    assert_eq!(g.authorized_canceller(6), None);
    assert_eq!(g.cancel(6, 44), CancelOutcome::Unauthorized);
    assert!(g.try_acquire(6, 44));
}

#[test]
fn second_cancel_finds_nothing() {
    let mut g = ConversationGuard::new();
    assert!(g.try_acquire(1, 10));
    g.register_handle(1, make_trigger());
    assert_eq!(g.cancel(1, 10), CancelOutcome::Fired);
    assert_eq!(g.cancel(1, 10), CancelOutcome::AlreadyGone);
}

#[test]
fn sampler_emits_at_most_once_per_interval() {
    let mut s = ProgressSampler::new(3000);
    assert!(s.observe(0));
    assert!(!s.observe(1));
    assert!(!s.observe(2999));
    assert!(s.observe(3000));
    assert!(!s.observe(5999));
    assert!(s.observe(6001));
}

#[test]
fn sampler_count_over_a_transfer_is_duration_over_interval() {
    // observations every 500 ms over a 10 s transfer, 3 s interval:
    // events at 0, 3000, 6000, 9000 — floor(10000 / 3000) + 1 of them
    let mut s = ProgressSampler::new(3000);
    let mut fired = Vec::new();
    let mut now = 0;
    while now <= 10000 {
        if s.observe(now) {
            fired.push(now);
        }
        now += 500;
    }
    assert_eq!(fired, vec![0, 3000, 6000, 9000]);
}

#[test]
fn percent_is_exact_hundredths() {
    assert_eq!(percent_hundredths(0, 200), 0);
    assert_eq!(percent_hundredths(50, 200), 2500);
    assert_eq!(percent_hundredths(200, 200), 10000);
    assert_eq!(percent_hundredths(1, 3), 3333);
}

#[test]
fn empty_resource_is_refused_without_registry_trace() {
    let mut g = ConversationGuard::new();
    let path = b"/some/file.bin".to_vec();
    assert!(matches!(begin(&mut g, 5, 77, Some(0), &path), Err(StartRefusal::Empty)));
    assert!(matches!(begin(&mut g, 5, 77, None, &path), Err(StartRefusal::Empty)));
    assert_eq!(g.authorized_canceller(5), None);
    assert!(g.try_acquire(5, 77));
}

#[test]
fn oversize_resource_is_refused_without_guard() {
    let mut g = ConversationGuard::new();
    let path = b"/big.iso".to_vec();
    assert!(matches!(begin(&mut g, 5, 77, Some(3 * GIB), &path), Err(StartRefusal::TooLarge)));
    assert!(matches!(begin(&mut g, 5, 77, Some(2 * GIB + 1), &path), Err(StartRefusal::TooLarge)));
    assert!(begin(&mut g, 5, 77, Some(2 * GIB), &path).is_ok());
}

#[test]
fn validate_length_exact_boundaries() {
    assert_eq!(validate_length(None), Err(ValidateError::Empty));
    assert_eq!(validate_length(Some(0)), Err(ValidateError::Empty));
    assert_eq!(validate_length(Some(1)), Ok(1));
    assert_eq!(validate_length(Some(2 * GIB)), Ok(2 * GIB));
    assert_eq!(validate_length(Some(2 * GIB + 1)), Err(ValidateError::TooLarge));
}

#[test]
fn foreign_cancel_is_refused_and_transfer_continues() {
    let mut g = ConversationGuard::new();
    let mut s = begin(&mut g, 9, 100, Some(1000), &b"/v.bin".to_vec()).unwrap();
    s.arm(&mut g, make_trigger());
    // participant 200 did not start the transfer
    assert_eq!(g.cancel(9, 200), CancelOutcome::Unauthorized);
    // the transfer is still active and still cancellable by its owner
    assert_eq!(g.authorized_canceller(9), Some(100));
    assert!(matches!(begin(&mut g, 9, 200, Some(1000), &b"/w.bin".to_vec()), Err(StartRefusal::Busy)));
    assert_eq!(g.cancel(9, 100), CancelOutcome::Fired);
}

#[test]
fn own_cancel_fires_and_frees_the_conversation() {
    let mut g = ConversationGuard::new();
    let mut s = begin(&mut g, 9, 100, Some(1000), &b"/v.bin".to_vec()).unwrap();
    s.arm(&mut g, make_trigger());
    assert_eq!(g.cancel(9, 100), CancelOutcome::Fired);
    s.cancelled(&mut g);
    // a new transfer can start at once
    let mut s2 = begin(&mut g, 9, 100, Some(1000), &b"/v.bin".to_vec()).unwrap();
    s2.arm(&mut g, make_trigger());
    s2.cancelled(&mut g);
}

#[test]
fn back_to_back_transfers_succeed() {
    let mut g = ConversationGuard::new();
    let mut s1 = begin(&mut g, 3, 50, Some(10), &b"/a.mp4".to_vec()).unwrap();
    s1.arm(&mut g, make_trigger());
    assert_eq!(s1.complete(&mut g), AttachmentKind::Video);
    let mut s2 = begin(&mut g, 3, 50, Some(10), &b"/b.txt".to_vec()).unwrap();
    s2.arm(&mut g, make_trigger());
    assert_eq!(s2.complete(&mut g), AttachmentKind::Document);
}

#[test]
fn mp4_names_become_video_attachments() {
    assert_eq!(attachment_kind(&b"movie.mp4".to_vec()), AttachmentKind::Video);
    assert_eq!(attachment_kind(&b"MOVIE.MP4".to_vec()), AttachmentKind::Video);
    assert_eq!(attachment_kind(&b"clip.Mp4".to_vec()), AttachmentKind::Video);
    assert_eq!(attachment_kind(&b"movie.mp3".to_vec()), AttachmentKind::Document);
    assert_eq!(attachment_kind(&b"mp4".to_vec()), AttachmentKind::Document);
    assert_eq!(attachment_kind(&b"archive.tar.gz".to_vec()), AttachmentKind::Document);
    assert_eq!(attachment_kind(&b"".to_vec()), AttachmentKind::Document);
}

#[test]
fn display_name_is_the_last_path_segment() {
    assert_eq!(name_from_path(&b"/files/video.mp4".to_vec()), b"video.mp4".to_vec());
    assert_eq!(name_from_path(&b"/video.mp4".to_vec()), b"video.mp4".to_vec());
    // a trailing slash leaves an empty final segment, as the platform shows it
    assert_eq!(name_from_path(&b"/files/".to_vec()), b"".to_vec());
    // a URL that cannot be a base has no rooted path: generic name
    assert_eq!(name_from_path(&b"text/plain,hello".to_vec()), b"file".to_vec());
    assert_eq!(name_from_path(&b"".to_vec()), b"file".to_vec());
}
