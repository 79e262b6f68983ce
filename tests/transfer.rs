use shim::download::{assemble_download, DownloadAction, DownloadSink};
use shim::frame::{split_chunks, TransferError, TransferFrame, CHUNK_SIZE, READ_FAILURE_CODE};
use shim::upload::{encode_upload, ReadOutcome, UploadStream};

fn bytes(n: usize) -> Vec<u8> {
    (0..n).map(|i| (i % 251) as u8).collect()
}

fn chunk_sizes(frames: &[TransferFrame]) -> Vec<usize> {
    frames
        .iter()
        .filter_map(|f| match f {
            TransferFrame::Chunk(d) => Some(d.len()),
            _ => None,
        })
        .collect()
}

#[test]
fn split_chunks_counts_round_up() {
    assert_eq!(split_chunks(&[]).len(), 0);
    assert_eq!(split_chunks(&bytes(1)).len(), 1);
    assert_eq!(split_chunks(&bytes(CHUNK_SIZE)).len(), 1);
    assert_eq!(split_chunks(&bytes(CHUNK_SIZE + 1)).len(), 2);
    let parts = split_chunks(&bytes(10000));
    let sizes: Vec<usize> = parts.iter().map(|p| p.len()).collect();
    assert_eq!(sizes, vec![4096, 4096, 1808]);
    assert_eq!(parts.concat(), bytes(10000));
}

#[test]
fn encode_upload_ten_thousand_bytes() {
    let content = bytes(10000);
    let (frames, checksum) = encode_upload("t1".to_string(), "out.bin".to_string(), &content);
    assert_eq!(frames.len(), 4);
    match &frames[0] {
        TransferFrame::Metadata { task_id, path } => {
            assert_eq!(task_id, "t1");
            assert_eq!(path, "out.bin");
        }
        _ => panic!("first frame must be metadata"),
    }
    assert_eq!(chunk_sizes(&frames), vec![4096, 4096, 1808]);
    assert_eq!(checksum, *blake3::hash(&content).as_bytes());
}

#[test]
fn encode_upload_empty_file_is_metadata_only() {
    let (frames, checksum) = encode_upload("t".to_string(), "empty".to_string(), &[]);
    assert_eq!(frames.len(), 1);
    assert!(matches!(frames[0], TransferFrame::Metadata { .. }));
    assert_eq!(checksum, *blake3::hash(b"").as_bytes());
}

#[test]
fn upload_checksum_is_not_the_input() {
    let content = bytes(32);
    let (_, checksum) = encode_upload("t".to_string(), "f".to_string(), &content);
    assert_ne!(checksum.to_vec(), content);
    assert_ne!(checksum, *blake3::hash(b"").as_bytes());
}

#[test]
fn upload_round_trip_through_download() {
    for n in [0usize, 1, 4095, 4096, 4097, 12288, 10000] {
        let content = bytes(n);
        let (frames, checksum) = encode_upload("t".to_string(), "f".to_string(), &content);
        assert!(chunk_sizes(&frames).iter().all(|&s| s > 0 && s <= CHUNK_SIZE));
        assert_eq!(chunk_sizes(&frames).len(), (n + CHUNK_SIZE - 1) / CHUNK_SIZE);
        let received = assemble_download(&frames).unwrap();
        assert_eq!(received, content);
        assert_eq!(checksum, *blake3::hash(&received).as_bytes());
    }
}

#[test]
fn upload_stream_read_failure_sends_one_error_frame() {
    let (mut stream, first) = UploadStream::open("t".to_string(), "f".to_string());
    assert!(matches!(first, TransferFrame::Metadata { .. }));
    let sent = stream.on_read(ReadOutcome::Data(bytes(5000)));
    assert_eq!(chunk_sizes(&sent), vec![4096, 904]);
    let failed = stream.on_read(ReadOutcome::Failed);
    assert_eq!(failed.len(), 1);
    assert!(matches!(failed[0], TransferFrame::Error(c) if c == READ_FAILURE_CODE));
    assert!(stream.on_read(ReadOutcome::Data(bytes(10))).is_empty());
    assert_eq!(stream.finish(), Err(TransferError::SourceUnreadable));
}

#[test]
fn upload_stream_hashes_every_read() {
    let (mut stream, _) = UploadStream::open("t".to_string(), "f".to_string());
    assert_eq!(stream.finish(), Err(TransferError::Unfinished));
    let a = bytes(100);
    let b = bytes(7000);
    stream.on_read(ReadOutcome::Data(a.clone()));
    stream.on_read(ReadOutcome::Data(b.clone()));
    assert!(stream.on_read(ReadOutcome::End).is_empty());
    let mut all = a;
    all.extend_from_slice(&b);
    assert_eq!(stream.finish(), Ok(*blake3::hash(&all).as_bytes()));
}

#[test]
fn download_skips_metadata_and_keeps_order() {
    let frames = vec![
        TransferFrame::Metadata { task_id: "t".to_string(), path: "f".to_string() },
        TransferFrame::Chunk(vec![1, 2]),
        TransferFrame::Metadata { task_id: "t".to_string(), path: "f".to_string() },
        TransferFrame::Chunk(vec![3]),
    ];
    assert_eq!(assemble_download(&frames), Ok(vec![1, 2, 3]));
    assert_eq!(assemble_download(&vec![]), Ok(vec![]));
}

#[test]
fn download_error_frame_aborts() {
    let frames = vec![
        TransferFrame::Chunk(vec![1, 2]),
        TransferFrame::Error(7),
        TransferFrame::Chunk(vec![3]),
        TransferFrame::Error(9),
    ];
    assert_eq!(assemble_download(&frames), Err(TransferError::RemoteAborted(7)));

    let mut sink = DownloadSink::new();
    assert!(matches!(sink.accept(&frames[0]), DownloadAction::Write));
    assert!(matches!(sink.accept(&frames[1]), DownloadAction::Abort(7)));
    assert!(matches!(sink.accept(&frames[2]), DownloadAction::Skip));
    assert_eq!(sink.total_bytes(), 2);
    assert_eq!(sink.outcome(), Err(TransferError::RemoteAborted(7)));
}

#[test]
fn download_sink_counts_bytes() {
    let mut sink = DownloadSink::new();
    assert!(matches!(
        sink.accept(&TransferFrame::Metadata { task_id: "t".to_string(), path: "f".to_string() }),
        DownloadAction::Skip
    ));
    sink.accept(&TransferFrame::Chunk(vec![0; 4096]));
    sink.accept(&TransferFrame::Chunk(vec![0; 10]));
    assert_eq!(sink.outcome(), Ok(4106));
}
