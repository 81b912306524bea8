use s3_unzip::object_reader::{ByteRange, ReadStep, S3ObjectReader, OBJECT_READER_MAX_BUF_SIZE};

/// Drives a reader against an object held in memory, counting the fetches.
struct MemoryObject<'a> {
    reader: S3ObjectReader,
    object: &'a [u8],
    fetches: usize,
}

impl<'a> MemoryObject<'a> {
    fn new(object: &'a [u8], chunk_size: usize) -> Self {
        MemoryObject {
            reader: S3ObjectReader::with_chunk_size("bucket".to_string(), "key".to_string(), chunk_size),
            object,
            fetches: 0,
        }
    }

    fn fetch(&mut self, range: ByteRange) -> &'a [u8] {
        self.fetches += 1;
        let len = self.object.len() as u64;
        let start = range.first.min(len) as usize;
        let end = range.last.saturating_add(1).min(len) as usize;
        &self.object[start..end]
    }

    fn read(&mut self, want: usize) -> Vec<u8> {
        let mut out = Vec::new();
        loop {
            match self.reader.read_step(&mut out, want) {
                ReadStep::Delivered(n) => {
                    assert_eq!(n, out.len());
                    return out;
                }
                ReadStep::Fetch(range) => {
                    let chunk = self.fetch(range);
                    self.reader.refill(chunk);
                }
            }
        }
    }
}

fn pattern(len: usize) -> Vec<u8> {
    (0..len).map(|i| (i * 7 + i / 251) as u8).collect()
}

#[test]
fn reads_reassemble_the_object() {
    let object = pattern(1000);
    let mut m = MemoryObject::new(&object, 64);
    let mut got = Vec::new();
    for want in [1usize, 7, 100, 333, 64, 128, 500] {
        let part = m.read(want);
        assert!(part.len() <= want);
        got.extend_from_slice(&part);
    }
    assert_eq!(got, object);
    assert!(m.read(10).is_empty());
}

#[test]
fn a_short_read_comes_only_at_the_end() {
    let object = pattern(300);
    let mut m = MemoryObject::new(&object, 128);
    assert_eq!(m.read(250), object[..250].to_vec());
    assert_eq!(m.read(100), object[250..].to_vec());
    assert_eq!(m.read(100), Vec::<u8>::new());
}

#[test]
fn straddling_read_joins_old_and_new_bytes() {
    let object = pattern(25);
    let mut m = MemoryObject::new(&object, 10);
    assert_eq!(m.read(4), object[..4].to_vec());
    assert_eq!(m.reader.stream_cursor(), 10);
    // 6 bytes are buffered; 4 more need a fetch of the next chunk.
    assert_eq!(m.read(10), object[4..14].to_vec());
    assert_eq!(m.reader.stream_cursor(), 20);
    assert_eq!(m.fetches, 2);
}

#[test]
fn fetch_ranges_cover_one_chunk_each() {
    let mut reader = S3ObjectReader::with_chunk_size("b".to_string(), "k".to_string(), 16);
    let mut out = Vec::new();
    assert_eq!(reader.read_step(&mut out, 5), ReadStep::Fetch(ByteRange { first: 0, last: 15 }));
    reader.refill(&[1u8; 16]);
    let mut out = Vec::new();
    assert_eq!(reader.read_step(&mut out, 20), ReadStep::Fetch(ByteRange { first: 16, last: 31 }));
    assert_eq!(out, vec![1u8; 16]);
}

#[test]
fn default_chunk_is_sixteen_mebibytes() {
    assert_eq!(OBJECT_READER_MAX_BUF_SIZE, 16 * 1024 * 1024);
    let mut reader = S3ObjectReader::new("b".to_string(), "k".to_string());
    assert_eq!(reader.bucket_name(), "b");
    assert_eq!(reader.object_name(), "k");
    let mut out = Vec::new();
    assert_eq!(
        reader.read_step(&mut out, 1),
        ReadStep::Fetch(ByteRange { first: 0, last: 16 * 1024 * 1024 - 1 })
    );
}

#[test]
fn end_of_stream_is_idempotent_without_fetches() {
    let object = pattern(30);
    let mut m = MemoryObject::new(&object, 16);
    assert_eq!(m.read(100), object);
    assert_eq!(m.fetches, 2);
    for _ in 0..3 {
        assert!(m.read(8).is_empty());
    }
    assert_eq!(m.fetches, 2);
}

#[test]
fn object_of_whole_chunks_ends_after_an_empty_fetch() {
    let object = pattern(32);
    let mut m = MemoryObject::new(&object, 16);
    assert_eq!(m.read(32), object);
    assert_eq!(m.fetches, 2);
    assert!(m.read(5).is_empty());
    assert_eq!(m.fetches, 3);
    assert!(m.read(5).is_empty());
    assert_eq!(m.fetches, 3);
}

#[test]
fn empty_object_reads_nothing() {
    let object: Vec<u8> = Vec::new();
    let mut m = MemoryObject::new(&object, 8);
    assert!(m.read(4).is_empty());
    assert!(m.read(0).is_empty());
    assert_eq!(m.fetches, 1);
}

#[test]
fn zero_length_read_fetches_nothing() {
    let object = pattern(10);
    let mut m = MemoryObject::new(&object, 8);
    assert!(m.read(0).is_empty());
    assert_eq!(m.fetches, 0);
}
