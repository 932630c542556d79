use cloud::error::Error;
use cloud::model::FileMetadata;
use cloud::transfer::{
    assemble_chunks, split_chunks, stream_chunks, Assembler, Chunk, ChunkedReader, DOWNLOAD_BLOCK,
    ONE_MB,
};

fn sample(size: usize) -> Vec<u8> {
    (0..size).map(|i| (i * 31 + 7) as u8).collect()
}

fn round_trip(size: usize, block: usize) {
    let data = sample(size);
    let chunks = split_chunks(&data, block);
    let rebuilt = assemble_chunks(size as u64, &chunks);
    assert_eq!(rebuilt, Ok(data));
}

#[test]
fn round_trip_with_block_larger_than_file() {
    round_trip(10, 64);
}

#[test]
fn round_trip_with_block_of_one_byte() {
    round_trip(10, 1);
}

#[test]
fn round_trip_with_block_equal_to_file() {
    round_trip(10, 10);
}

#[test]
fn round_trip_with_block_that_does_not_divide_file() {
    round_trip(10, 3);
}

#[test]
fn round_trip_of_empty_file() {
    round_trip(0, 16);
}

#[test]
fn split_gives_contiguous_exclusive_ranges() {
    let data = sample(10);
    let chunks = split_chunks(&data, 4);
    assert_eq!(chunks.len(), 3);
    assert_eq!((chunks[0].start, chunks[0].end), (0, 4));
    assert_eq!((chunks[1].start, chunks[1].end), (4, 8));
    assert_eq!((chunks[2].start, chunks[2].end), (8, 10));
    assert_eq!(chunks[0].data, data[0..4].to_vec());
    assert_eq!(chunks[1].data, data[4..8].to_vec());
    assert_eq!(chunks[2].data, data[8..10].to_vec());
}

#[test]
fn split_of_empty_file_gives_no_chunk() {
    assert_eq!(split_chunks(&Vec::new(), 4).len(), 0);
}

#[test]
fn split_with_block_of_no_bytes_gives_no_chunk() {
    assert_eq!(split_chunks(&vec![1, 2, 3], 0).len(), 0);
}

#[test]
fn download_of_ten_million_bytes_in_blocks_of_4096() {
    let size: usize = 10_000_000;
    let data = sample(size);
    let chunks = split_chunks(&data, DOWNLOAD_BLOCK);
    assert_eq!(chunks.len(), 2442);
    let mut offset: u64 = 0;
    let mut total: usize = 0;
    for chunk in &chunks {
        assert_eq!(chunk.start, offset);
        assert!(chunk.start < chunk.end);
        assert_eq!((chunk.end - chunk.start) as usize, chunk.data.len());
        offset = chunk.end;
        total += chunk.data.len();
    }
    assert_eq!(total, size);
    assert_eq!(offset, size as u64);
    assert_eq!(assemble_chunks(size as u64, &chunks), Ok(data));
}

#[test]
fn assembler_starts_with_zero_bytes() {
    let assembler = Assembler::new(4).unwrap();
    assert_eq!(assembler.size(), 4);
    assert_eq!(assembler.received(), 0);
    assert!(!assembler.is_complete());
    assert_eq!(assembler.finish(), Err(Error::ProtocolViolation));
}

#[test]
fn assembler_writes_chunks_at_their_offsets() {
    let mut assembler = Assembler::new(5).unwrap();
    assert_eq!(assembler.accept(&Chunk { start: 0, end: 2, data: vec![1, 2] }), Ok(()));
    assert_eq!(assembler.received(), 2);
    assert_eq!(assembler.accept(&Chunk { start: 2, end: 5, data: vec![3, 4, 5] }), Ok(()));
    assert!(assembler.is_complete());
    assert_eq!(assembler.finish(), Ok(vec![1, 2, 3, 4, 5]));
}

#[test]
fn assembler_refuses_chunk_beyond_buffer() {
    let mut assembler = Assembler::new(3).unwrap();
    let outcome = assembler.accept(&Chunk { start: 0, end: 4, data: vec![1, 2, 3, 4] });
    assert_eq!(outcome, Err(Error::ProtocolViolation));
    assert_eq!(assembler.received(), 0);
}

#[test]
fn assembler_refuses_gap() {
    let mut assembler = Assembler::new(4).unwrap();
    assert_eq!(assembler.accept(&Chunk { start: 0, end: 1, data: vec![1] }), Ok(()));
    let outcome = assembler.accept(&Chunk { start: 2, end: 4, data: vec![3, 4] });
    assert_eq!(outcome, Err(Error::ProtocolViolation));
    assert_eq!(assembler.received(), 1);
}

#[test]
fn assembler_refuses_overlap_and_out_of_order() {
    let mut assembler = Assembler::new(4).unwrap();
    assert_eq!(assembler.accept(&Chunk { start: 0, end: 2, data: vec![1, 2] }), Ok(()));
    let overlap = assembler.accept(&Chunk { start: 1, end: 3, data: vec![9, 9] });
    assert_eq!(overlap, Err(Error::ProtocolViolation));
    let again = assembler.accept(&Chunk { start: 0, end: 2, data: vec![1, 2] });
    assert_eq!(again, Err(Error::ProtocolViolation));
    assert_eq!(assembler.accept(&Chunk { start: 2, end: 4, data: vec![3, 4] }), Ok(()));
    assert_eq!(assembler.finish(), Ok(vec![1, 2, 3, 4]));
}

#[test]
fn assembler_refuses_chunk_whose_data_does_not_match_its_range() {
    let mut assembler = Assembler::new(4).unwrap();
    let short = assembler.accept(&Chunk { start: 0, end: 2, data: vec![1] });
    assert_eq!(short, Err(Error::ProtocolViolation));
    let long = assembler.accept(&Chunk { start: 0, end: 2, data: vec![1, 2, 3] });
    assert_eq!(long, Err(Error::ProtocolViolation));
    let inclusive_end = assembler.accept(&Chunk { start: 0, end: 3, data: vec![1, 2, 3, 4] });
    assert_eq!(inclusive_end, Err(Error::ProtocolViolation));
}

#[test]
fn assembler_refuses_empty_chunk() {
    let mut assembler = Assembler::new(4).unwrap();
    let outcome = assembler.accept(&Chunk { start: 0, end: 0, data: vec![] });
    assert_eq!(outcome, Err(Error::ProtocolViolation));
}

#[test]
fn assemble_refuses_incomplete_transfer() {
    let chunks = vec![Chunk { start: 0, end: 2, data: vec![1, 2] }];
    assert_eq!(assemble_chunks(3, &chunks), Err(Error::ProtocolViolation));
}

#[test]
fn assemble_of_no_chunk_is_the_empty_file() {
    assert_eq!(assemble_chunks(0, &Vec::new()), Ok(Vec::new()));
}

#[test]
fn reader_hands_out_one_message_per_block() {
    let data = sample(5);
    let mut reader =
        ChunkedReader::with_block(data.clone(), String::from("/img/x"), 2).unwrap();
    let first = reader.next().unwrap();
    assert_eq!(first.file_path, "/img/x");
    assert_eq!((first.chunk.start, first.chunk.end), (0, 2));
    assert_eq!(first.chunk.data, data[0..2].to_vec());
    let second = reader.next().unwrap();
    assert_eq!((second.chunk.start, second.chunk.end), (2, 4));
    let third = reader.next().unwrap();
    assert_eq!((third.chunk.start, third.chunk.end), (4, 5));
    assert_eq!(third.chunk.data, data[4..5].to_vec());
    assert!(reader.next().is_none());
    assert!(reader.next().is_none());
}

#[test]
fn reader_refuses_block_of_zero_bytes() {
    let made = ChunkedReader::with_block(vec![1, 2, 3], String::from("/img/x"), 0);
    assert!(matches!(made, Err(Error::InvalidState)));
}

#[test]
fn reader_cuts_blocks_of_one_megabyte() {
    let data = sample(ONE_MB + 5);
    let mut reader = ChunkedReader::new(data, String::from("/img/x"));
    let first = reader.next().unwrap();
    assert_eq!((first.chunk.start, first.chunk.end), (0, ONE_MB as u64));
    let second = reader.next().unwrap();
    assert_eq!((second.chunk.start, second.chunk.end), (ONE_MB as u64, ONE_MB as u64 + 5));
    assert!(reader.next().is_none());
}

#[test]
fn stream_chunks_addresses_every_message_to_the_file() {
    let metadata =
        FileMetadata { file_path: String::from("/img/x.qcow2"), file_size: 7, version: 0 };
    let data = sample(7);
    let requests = stream_chunks(&metadata, data.clone());
    assert_eq!(requests.len(), 1);
    assert_eq!(requests[0].file_path, "/img/x.qcow2");
    assert_eq!((requests[0].chunk.start, requests[0].chunk.end), (0, 7));
    assert_eq!(requests[0].chunk.data, data);
}
