use cross_kvm::clipboard::{payload_text, write_outcome, write_request, ClipboardError, ClipboardService, ClipboardWrite, FileChunkSender, FileDropTransfer, FILE_CHUNK_SIZE};
use sha2::{Digest, Sha256};
use cross_kvm::platform::{ClipboardHandler, PlatformError};
use cross_kvm::protocol::{ClipboardFormat, ControlMessage};
use std::sync::{Arc, Mutex};

#[derive(Default)]
struct Board {
    text: Option<String>,
    image: Option<Vec<u8>>,
    count: u64,
    fail_writes: bool,
    written_text: Vec<String>,
}

#[derive(Clone, Default)]
struct FakeClipboard(Arc<Mutex<Board>>);

impl ClipboardHandler for FakeClipboard {
    fn read_text(&self) -> Result<Option<String>, PlatformError> {
        Ok(self.0.lock().unwrap().text.clone())
    }
    fn write_text(&self, text: &str) -> Result<(), PlatformError> {
        let mut b = self.0.lock().unwrap();
        if b.fail_writes {
            return Err(PlatformError::OsError("busy".into()));
        }
        b.written_text.push(text.to_string());
        b.count += 1;
        Ok(())
    }
    fn read_image(&self) -> Result<Option<Vec<u8>>, PlatformError> {
        Ok(self.0.lock().unwrap().image.clone())
    }
    fn write_image(&self, png_bytes: &[u8]) -> Result<(), PlatformError> {
        let mut b = self.0.lock().unwrap();
        b.image = Some(png_bytes.to_vec());
        b.count += 1;
        Ok(())
    }
    fn get_change_count(&self) -> u64 {
        self.0.lock().unwrap().count
    }
}

const ABC_SHA256: [u8; 32] = [
    0xba, 0x78, 0x16, 0xbf, 0x8f, 0x01, 0xcf, 0xea, 0x41, 0x41, 0x40, 0xde, 0x5d, 0xae, 0x22, 0x23,
    0xb0, 0x03, 0x61, 0xa3, 0x96, 0x17, 0x7a, 0x9c, 0xb4, 0x10, 0xff, 0x61, 0xf2, 0x00, 0x15, 0xad,
];

#[test]
fn poll_announces_text_once_per_change() {
    let fake = FakeClipboard::default();
    let mut svc = ClipboardService::new(Box::new(fake.clone()));
    assert!(svc.poll_changes().is_none());
    {
        let mut b = fake.0.lock().unwrap();
        b.text = Some("abc".to_string());
        b.image = Some(vec![1, 2, 3]);
        b.count = 7;
    }
    match svc.poll_changes() {
        Some(ControlMessage::ClipboardNotify { format, data_size, sha256 }) => {
            assert_eq!(format, ClipboardFormat::PlainText);
            assert_eq!(data_size, 3);
            assert_eq!(sha256, ABC_SHA256);
        }
        other => panic!("unexpected {:?}", other),
    }
    assert!(svc.poll_changes().is_none());
    match svc.get_payload(&ABC_SHA256) {
        Some(ControlMessage::ClipboardPayload { sha256, format, data }) => {
            assert_eq!(sha256, ABC_SHA256);
            assert_eq!(format, ClipboardFormat::PlainText);
            assert_eq!(data, b"abc".to_vec());
        }
        other => panic!("unexpected {:?}", other),
    }
    assert!(svc.get_payload(&[0u8; 32]).is_none());
}

#[test]
fn poll_falls_back_to_image() {
    let fake = FakeClipboard::default();
    let mut svc = ClipboardService::new(Box::new(fake.clone()));
    {
        let mut b = fake.0.lock().unwrap();
        b.image = Some(vec![0x89, 0x50]);
        b.count = 1;
    }
    match svc.poll_changes() {
        Some(ControlMessage::ClipboardNotify { format, data_size, .. }) => {
            assert_eq!(format, ClipboardFormat::PngImage);
            assert_eq!(data_size, 2);
        }
        other => panic!("unexpected {:?}", other),
    }
}

#[test]
fn apply_payload_writes_lossy_text_and_tracks_count() {
    let fake = FakeClipboard::default();
    let mut svc = ClipboardService::new(Box::new(fake.clone()));
    svc.apply_payload(&ClipboardFormat::PlainText, &[b'h', b'i', 0xff]).unwrap();
    assert_eq!(fake.0.lock().unwrap().written_text, vec!["hi\u{fffd}".to_string()]);
    // our own write does not come back as a change
    assert!(svc.poll_changes().is_none());
    svc.apply_payload(&ClipboardFormat::PngImage, &[9, 9]).unwrap();
    assert!(svc.poll_changes().is_none());
    // unsupported formats are ignored
    svc.apply_payload(&ClipboardFormat::HtmlText, b"<b>").unwrap();
    assert_eq!(fake.0.lock().unwrap().written_text.len(), 1);
}

#[test]
fn apply_payload_reports_platform_errors() {
    let fake = FakeClipboard::default();
    fake.0.lock().unwrap().fail_writes = true;
    let mut svc = ClipboardService::new(Box::new(fake.clone()));
    match svc.apply_payload(&ClipboardFormat::PlainText, b"x") {
        Err(ClipboardError::Platform(msg)) => assert_eq!(msg, "OS error: busy"),
        other => panic!("unexpected {:?}", other),
    }
}

#[test]
fn clone_of_file_list_format() {
    let f = ClipboardFormat::FileList(vec!["a.txt".to_string(), "b.png".to_string()]);
    assert_eq!(f.clone(), f);
}

#[test]
fn share_drop_directory() {
    for home in ["/home/ann", "/home/ann/", "", ".", "C:\\Users\\b"] {
        let expected = std::path::PathBuf::from(home).join("Downloads").join("ShareDrop");
        let t = FileDropTransfer::from_home(home);
        assert_eq!(std::path::Path::new(t.target_directory()), expected.as_path());
        // the same path on every call
        assert_eq!(t.target_directory(), t.target_directory());
    }
    if std::path::MAIN_SEPARATOR == '/' {
        assert_eq!(FileDropTransfer::from_home("/home/ann").target_directory(), "/home/ann/Downloads/ShareDrop");
        assert_eq!(FileDropTransfer::from_home("").target_directory(), "Downloads/ShareDrop");
    }
}

#[test]
fn file_chunks_are_contiguous() {
    let (mut sender, init) = FileChunkSender::start(9, "f.bin".to_string(), 5, [7u8; 32]);
    assert_eq!(
        init,
        ControlMessage::FileTransferInit { transfer_id: 9, file_name: "f.bin".to_string(), total_size: 5, sha256: [7u8; 32] }
    );
    assert_eq!(
        sender.next(vec![1, 2, 3]),
        Some(ControlMessage::FileTransferChunk { transfer_id: 9, offset: 0, data: vec![1, 2, 3] })
    );
    assert_eq!(
        sender.next(vec![4, 5]),
        Some(ControlMessage::FileTransferChunk { transfer_id: 9, offset: 3, data: vec![4, 5] })
    );
    assert_eq!(sender.next(vec![]), Some(ControlMessage::FileTransferDone { transfer_id: 9 }));
    assert_eq!(sender.next(vec![6]), None);
}

#[test]
fn clipboard_error_messages() {
    assert_eq!(
        ClipboardError::Platform("busy".to_string()).message(),
        "Platform clipboard error: busy"
    );
    assert_eq!(ClipboardError::ChecksumMismatch.message(), "Checksum mismatch on file transfer");
    let io = ClipboardError::Io(std::io::Error::new(std::io::ErrorKind::Other, "disk full"));
    assert_eq!(io.message(), "I/O error: disk full");
}

#[test]
fn payload_text_decodes_utf8_lossily() {
    assert_eq!(payload_text("Grüße".as_bytes()), "Grüße");
    assert_eq!(payload_text(&[0x61, 0xFF, 0x62]), "a\u{FFFD}b");
}

#[test]
fn write_outcome_renders_platform_errors() {
    assert!(write_outcome(Ok(())).is_ok());
    match write_outcome(Err(PlatformError::OsError("locked".to_string()))) {
        Err(ClipboardError::Platform(m)) => assert_eq!(m, "OS error: locked"),
        other => panic!("unexpected {:?}", other.is_ok()),
    }
}

#[test]
fn file_transfer_announces_content_and_reassembles() {
    let content: Vec<u8> = (0..150_000u32).map(|i| (i % 251) as u8).collect();
    let (mut sender, init) = FileChunkSender::start_for_content(9, "notes.bin".to_string(), &content);
    let expected: [u8; 32] = Sha256::digest(&content).into();
    assert_eq!(
        init,
        ControlMessage::FileTransferInit { transfer_id: 9, file_name: "notes.bin".into(), total_size: 150_000, sha256: expected }
    );
    let mut rebuilt = Vec::new();
    let mut sizes = Vec::new();
    let mut done = false;
    while let Some(msg) = sender.next_from(&content) {
        match msg {
            ControlMessage::FileTransferChunk { transfer_id, offset, data } => {
                assert_eq!(transfer_id, 9);
                assert_eq!(offset as usize, rebuilt.len());
                sizes.push(data.len());
                rebuilt.extend_from_slice(&data);
            }
            ControlMessage::FileTransferDone { transfer_id } => {
                assert_eq!(transfer_id, 9);
                done = true;
            }
            other => panic!("unexpected {:?}", other),
        }
    }
    assert!(done);
    assert_eq!(sizes, vec![FILE_CHUNK_SIZE, FILE_CHUNK_SIZE, 150_000 - 2 * FILE_CHUNK_SIZE]);
    assert_eq!(rebuilt, content);
}

#[test]
fn empty_file_transfer_ends_at_once() {
    let (mut sender, init) = FileChunkSender::start_for_content(1, "empty".to_string(), &[]);
    assert!(matches!(init, ControlMessage::FileTransferInit { total_size: 0, .. }));
    assert!(matches!(sender.next_from(&[]), Some(ControlMessage::FileTransferDone { transfer_id: 1 })));
    assert!(sender.next_from(&[]).is_none());
}

#[test]
fn write_requests_by_format() {
    assert!(matches!(write_request(&ClipboardFormat::PlainText, "héllo".as_bytes()), Some(ClipboardWrite::Text(t)) if t == "héllo"));
    assert!(matches!(write_request(&ClipboardFormat::PngImage, &[1, 2, 3]), Some(ClipboardWrite::Image(b)) if b == vec![1, 2, 3]));
    assert!(write_request(&ClipboardFormat::HtmlText, b"<b>").is_none());
    assert!(write_request(&ClipboardFormat::FileList(vec!["a".into()]), b"").is_none());
}

#[test]
fn settled_writes_record_the_counter() {
    let board = FakeClipboard::default();
    let mut service = ClipboardService::new(Box::new(board.clone()));
    assert!(service.settle_write(Ok(()), 42).is_ok());
    // the write itself is not announced back
    board.0.lock().unwrap().count = 42;
    assert!(service.poll_changes().is_none());
    match service.settle_write(Err(PlatformError::HookFailed("x".into())), 7) {
        Err(ClipboardError::Platform(m)) => assert_eq!(m, "Hook initialization failed: x"),
        _ => panic!("expected a platform error"),
    }
    board.0.lock().unwrap().text = Some("t".into());
    board.0.lock().unwrap().count = 43;
    assert!(service.poll_changes().is_some());
}
