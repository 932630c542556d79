//! Chunked transfer of files.
//!
//! A file travels as an ordered sequence of chunks. Each chunk names the
//! byte range `[start, end)` that it covers and carries the bytes of that
//! range. A transfer is well formed when its chunks are non-empty, follow
//! one another without gap or overlap, start at offset zero and end at the
//! declared size of the file.
//!
//! [`split_chunks`] cuts a file into such a sequence and an [`Assembler`]
//! rebuilds the file from it, refusing every chunk that does not continue
//! the sequence. [`law_round_trip`] states that the two are inverse to each
//! other for every file and every block size.

use vstd::prelude::*;
use crate::error::Error;
use crate::model::FileMetadata;

verus! {

/// The block size that an uploading client cuts a file into.
pub const ONE_MB: usize = 1048576;

/// The block size that a node cuts a file into when it serves a download.
pub const DOWNLOAD_BLOCK: usize = 4096;

/// A fragment of a file: the bytes of the range `[start, end)`.
#[derive(Debug, PartialEq, Eq)]
pub struct Chunk {
    /// Offset of the first byte of the fragment.
    pub start: u64,
    /// Offset one past the last byte of the fragment.
    pub end: u64,
    /// The bytes of the fragment.
    pub data: Vec<u8>,
}

/// The mathematical content of a [`Chunk`].
pub struct ChunkView {
    pub start: nat,
    pub end: nat,
    pub data: Seq<u8>,
}

impl View for Chunk {
    type V = ChunkView;

    open spec fn view(&self) -> ChunkView {
        ChunkView { start: self.start as nat, end: self.end as nat, data: self.data@ }
    }
}

impl DeepView for Chunk {
    type V = ChunkView;

    open spec fn deep_view(&self) -> ChunkView {
        self@
    }
}

impl Clone for Chunk {
    fn clone(&self) -> (copy: Chunk)
        ensures
            copy@ == self@,
    {
        Chunk { start: self.start, end: self.end, data: copy_bytes(&self.data) }
    }
}

/// The number of chunks that a file of `size` bytes is cut into when every
/// chunk but the last holds `block` bytes.
pub open spec fn chunk_count(size: nat, block: nat) -> nat {
    if block == 0 {
        0
    } else {
        ((size + block - 1) / (block as int)) as nat
    }
}

/// The chunk with index `i` of `data` cut into blocks of `block` bytes.
pub open spec fn chunk_of(data: Seq<u8>, block: nat, i: int) -> ChunkView {
    let start = i * block;
    let end = if start + block <= data.len() {
        start + block
    } else {
        data.len() as int
    };
    ChunkView { start: start as nat, end: end as nat, data: data.subrange(start, end) }
}

/// `data` cut into blocks of `block` bytes, in offset order.
pub open spec fn split(data: Seq<u8>, block: nat) -> Seq<ChunkView> {
    Seq::new(chunk_count(data.len(), block), |i: int| chunk_of(data, block, i))
}

/// A buffer of `n` zero bytes.
pub open spec fn zeros(n: nat) -> Seq<u8> {
    Seq::new(n, |i: int| 0u8)
}

/// The state of a reassembly: the buffer of the declared size and the
/// offset up to which it has been filled.
pub struct Assembly {
    pub buffer: Seq<u8>,
    pub cursor: nat,
}

/// The state before the first chunk: `size` zero bytes, nothing filled.
pub open spec fn fresh_assembly(size: nat) -> Assembly {
    Assembly { buffer: zeros(size), cursor: 0 }
}

/// Whether chunk `c` continues a transfer of `size` bytes that has been
/// received up to `cursor`.
pub open spec fn fits(c: ChunkView, cursor: nat, size: nat) -> bool {
    &&& c.start == cursor
    &&& c.start < c.end
    &&& c.end <= size
    &&& c.data.len() == c.end - c.start
}

/// `buffer` with the bytes of `c` written at `[c.start, c.end)`.
pub open spec fn write_chunk(buffer: Seq<u8>, c: ChunkView) -> Seq<u8> {
    buffer.subrange(0, c.start as int) + c.data + buffer.subrange(
        c.end as int,
        buffer.len() as int,
    )
}

/// The state after chunk `c`, or `None` where `c` does not fit.
pub open spec fn accept_chunk(a: Assembly, c: ChunkView) -> Option<Assembly> {
    if fits(c, a.cursor, a.buffer.len()) {
        Some(Assembly { buffer: write_chunk(a.buffer, c), cursor: c.end })
    } else {
        None
    }
}

/// The state after all of `chunks`, taken in order, or `None` where one of
/// them does not fit.
pub open spec fn accept_chunks(a: Assembly, chunks: Seq<ChunkView>) -> Option<Assembly>
    decreases chunks.len(),
{
    if chunks.len() == 0 {
        Some(a)
    } else {
        match accept_chunks(a, chunks.drop_last()) {
            Some(b) => accept_chunk(b, chunks.last()),
            None => None,
        }
    }
}

/// The file of `size` bytes that `chunks` carry, or `None` where they are
/// not a well-formed transfer of exactly `size` bytes.
pub open spec fn assemble(size: nat, chunks: Seq<ChunkView>) -> Option<Seq<u8>> {
    match accept_chunks(fresh_assembly(size), chunks) {
        Some(a) => if a.cursor == size {
            Some(a.buffer)
        } else {
            None
        },
        None => None,
    }
}

/// Every index below the chunk count starts inside the file, and the
/// chunks together reach its end.
pub proof fn lemma_chunk_count_bounds(size: nat, block: nat)
    requires
        block > 0,
    ensures
        chunk_count(size, block) * block >= size,
        forall|i: int| 0 <= i < chunk_count(size, block) ==> #[trigger] (i * block) < size,
{
    let q = (size + block - 1) / (block as int);
    let r = (size + block - 1) % (block as int);
    vstd::arithmetic::div_mod::lemma_fundamental_div_mod(size + block - 1, block as int);
    assert(0 <= r < block);
    assert(q * block == block * q) by (nonlinear_arith);
    assert(q >= 0) by (nonlinear_arith)
        requires
            size + block - 1 == block * q + r,
            0 <= r < block,
            block > 0,
            size >= 0,
    ;
    assert forall|i: int| 0 <= i < chunk_count(size, block) implies #[trigger] (i * block)
        < size by {
        assert(i * block <= (q - 1) * block) by (nonlinear_arith)
            requires
                i <= q - 1,
                block > 0,
        ;
        assert((q - 1) * block == q * block - block) by (nonlinear_arith);
    }
}

/// A sequence of `k` chunks that starts inside the file with its last
/// chunk and reaches the end of the file is the whole split.
pub proof fn lemma_chunk_count_unique(size: nat, block: nat, k: nat)
    requires
        block > 0,
        k * block >= size,
        k == 0 || (k - 1) * block < size,
    ensures
        chunk_count(size, block) == k,
{
    lemma_chunk_count_bounds(size, block);
    let q = chunk_count(size, block);
    if q < k {
        assert(q * block <= (k - 1) * block) by (nonlinear_arith)
            requires
                q <= k - 1,
                block > 0,
        ;
    } else if q > k {
        assert(k * block < size);
    }
}

/// The first `k` chunks of a split fill the buffer up to the end of the
/// last of them with the bytes of the file and leave the rest zero.
proof fn lemma_accept_split_prefix(data: Seq<u8>, block: nat, k: nat)
    requires
        block > 0,
        k <= chunk_count(data.len(), block),
    ensures
        ({
            let filled: int = if k * block <= data.len() {
                (k * block) as int
            } else {
                data.len() as int
            };
            accept_chunks(fresh_assembly(data.len()), split(data, block).take(k as int)) == Some(
                Assembly {
                    buffer: data.subrange(0, filled) + zeros((data.len() - filled) as nat),
                    cursor: filled as nat,
                },
            )
        }),
    decreases k,
{
    let size = data.len();
    let chunks = split(data, block);
    lemma_chunk_count_bounds(size, block);
    if k == 0 {
        assert(0 * block == 0) by (nonlinear_arith);
        assert(data.subrange(0, 0) + zeros(size) =~= zeros(size));
    } else {
        let j = (k - 1) as nat;
        lemma_accept_split_prefix(data, block, j);
        assert(chunks.take(k as int).drop_last() =~= chunks.take(j as int));
        assert(chunks.take(k as int).last() == chunk_of(data, block, j as int));
        assert(j * block < size);
        assert(k * block == j * block + block) by (nonlinear_arith)
            requires
                k == j + 1,
        ;
        let start: int = (j * block) as int;
        let end: int = if k * block <= size {
            (k * block) as int
        } else {
            size as int
        };
        let before = Assembly {
            buffer: data.subrange(0, start) + zeros((size - start) as nat),
            cursor: start as nat,
        };
        let c = chunk_of(data, block, j as int);
        assert(fits(c, before.cursor, before.buffer.len()));
        assert(write_chunk(before.buffer, c) =~= data.subrange(0, end) + zeros(
            (size - end) as nat,
        ));
    }
}

/// Round trip: a file cut into blocks of any size and reassembled from
/// the chunks is the file again.
pub proof fn law_round_trip(data: Seq<u8>, block: nat)
    requires
        block > 0,
    ensures
        assemble(data.len(), split(data, block)) == Some(data),
{
    let size = data.len();
    let count = chunk_count(size, block);
    lemma_chunk_count_bounds(size, block);
    lemma_accept_split_prefix(data, block, count);
    assert(split(data, block).take(count as int) =~= split(data, block));
    assert(data.subrange(0, size as int) + zeros(0) =~= data);
}

/// The chunk of `source` that starts at `position` and holds at most
/// `block` bytes.
fn cut_chunk(source: &Vec<u8>, position: usize, block: usize) -> (chunk: Chunk)
    requires
        position < source.len(),
        block > 0,
    ensures
        chunk@.start == position,
        chunk@.end == if position + block <= source.len() {
            position + block
        } else {
            source.len() as int
        },
        chunk@.data == source@.subrange(chunk@.start as int, chunk@.end as int),
{
    let remaining: usize = source.len() - position;
    let count: usize = if remaining < block {
        remaining
    } else {
        block
    };
    let mut data: Vec<u8> = Vec::new();
    let mut i: usize = 0;
    while i < count
        invariant
            i <= count,
            position + count <= source.len(),
            data@ == source@.subrange(position as int, position + i),
        decreases count - i,
    {
        data.push(source[position + i]);
        i = i + 1;
        assert(data@ =~= source@.subrange(position as int, position + i));
    }
    Chunk { start: position as u64, end: (position + count) as u64, data }
}

/// Cuts `source` into chunks of `block` bytes, the last one holding what is
/// left. An empty file gives no chunk, and so does a block of no bytes.
pub fn split_chunks(source: &Vec<u8>, block: usize) -> (chunks: Vec<Chunk>)
    ensures
        chunks.deep_view() == split(source@, block as nat),
{
    let mut chunks: Vec<Chunk> = Vec::new();
    if block == 0 {
        assert(chunks.deep_view() =~= split(source@, block as nat));
        return chunks;
    }
    let mut position: usize = 0;
    assert(0 * block == 0) by (nonlinear_arith);
    while position < source.len()
        invariant
            block > 0,
            position <= source.len(),
            position == if chunks.len() * block <= source.len() {
                chunks.len() * block
            } else {
                source.len() as int
            },
            chunks.len() == 0 || (chunks.len() - 1) * block < source.len(),
            forall|i: int|
                0 <= i < chunks.len() ==> (#[trigger] chunks[i])@ == chunk_of(
                    source@,
                    block as nat,
                    i,
                ),
        decreases source.len() - position,
    {
        let ghost k = chunks.len() as int;
        let chunk = cut_chunk(source, position, block);
        proof {
            assert((k + 1) * block == k * block + block) by (nonlinear_arith);
            assert(position == k * block);
            assert(chunk@ == chunk_of(source@, block as nat, k));
        }
        position = position + chunk.data.len();
        chunks.push(chunk);
    }
    proof {
        lemma_chunk_count_unique(source@.len(), block as nat, chunks.len() as nat);
        assert(chunks.deep_view() =~= split(source@, block as nat));
    }
    chunks
}

/// Rebuilds a file of a declared size from the chunks of a transfer.
///
/// The assembler starts from a buffer of zero bytes and accepts one chunk
/// at a time. A chunk is accepted only where it continues the transfer:
/// it starts where the last one ended, is not empty, carries as many bytes
/// as its range is long and ends inside the buffer. Any other chunk is
/// refused and leaves the buffer as it was.
pub struct Assembler {
    buffer: Vec<u8>,
    cursor: usize,
}

impl View for Assembler {
    type V = Assembly;

    closed spec fn view(&self) -> Assembly {
        Assembly { buffer: self.buffer@, cursor: self.cursor as nat }
    }
}

impl Assembler {
    #[verifier::type_invariant]
    spec fn filled_within_buffer(self) -> bool {
        self.cursor <= self.buffer.len()
    }

    /// An assembler for a file of `size` bytes, or `InvalidState` where
    /// the size cannot be addressed on this machine.
    pub fn new(size: u64) -> (made: Result<Assembler, Error>)
        ensures
            match made {
                Ok(assembler) => size <= usize::MAX && assembler@ == fresh_assembly(size as nat),
                Err(e) => size > usize::MAX && e == Error::InvalidState,
            },
    {
        if size > usize::MAX as u64 {
            return Err(Error::InvalidState);
        }
        let mut buffer: Vec<u8> = Vec::new();
        buffer.resize(size as usize, 0u8);
        assert(buffer@ =~= zeros(size as nat));
        Ok(Assembler { buffer, cursor: 0 })
    }

    /// The declared size of the file.
    pub fn size(&self) -> (size: usize)
        ensures
            size == self@.buffer.len(),
    {
        self.buffer.len()
    }

    /// The number of bytes received so far.
    pub fn received(&self) -> (count: usize)
        ensures
            count == self@.cursor,
    {
        self.cursor
    }

    /// Whether the whole file has been received.
    pub fn is_complete(&self) -> (complete: bool)
        ensures
            complete == (self@.cursor == self@.buffer.len()),
    {
        self.cursor == self.buffer.len()
    }

    /// Writes `chunk` into the buffer where it continues the transfer, and
    /// refuses it with `ProtocolViolation`, changing nothing, where it does
    /// not.
    pub fn accept(&mut self, chunk: &Chunk) -> (outcome: Result<(), Error>)
        ensures
            match outcome {
                Ok(()) => accept_chunk(old(self)@, chunk@) == Some(final(self)@),
                Err(e) => e == Error::ProtocolViolation && accept_chunk(old(self)@, chunk@)
                    is None && final(self)@ == old(self)@,
            },
    {
        proof {
            use_type_invariant(&*self);
        }
        let size: usize = self.buffer.len();
        if chunk.start != self.cursor as u64 || chunk.start >= chunk.end || chunk.end
            > size as u64 {
            return Err(Error::ProtocolViolation);
        }
        let length: usize = (chunk.end - chunk.start) as usize;
        if chunk.data.len() != length {
            return Err(Error::ProtocolViolation);
        }
        let start: usize = self.cursor;
        let mut buffer: Vec<u8> = Vec::new();
        self.cursor = 0;
        core::mem::swap(&mut self.buffer, &mut buffer);
        write_bytes(&mut buffer, start, &chunk.data);
        core::mem::swap(&mut self.buffer, &mut buffer);
        self.cursor = start + length;
        Ok(())
    }

    /// Hands out the file once all of it has been received, and fails with
    /// `ProtocolViolation` where the transfer ended early.
    pub fn finish(self) -> (outcome: Result<Vec<u8>, Error>)
        ensures
            match outcome {
                Ok(file) => self@.cursor == self@.buffer.len() && file@ == self@.buffer,
                Err(e) => self@.cursor != self@.buffer.len() && e == Error::ProtocolViolation,
            },
    {
        if self.cursor == self.buffer.len() {
            Ok(self.buffer)
        } else {
            Err(Error::ProtocolViolation)
        }
    }
}

/// Overwrites `buffer` from offset `start` on with `data`.
fn write_bytes(buffer: &mut Vec<u8>, start: usize, data: &Vec<u8>)
    requires
        start + data.len() <= old(buffer).len(),
    ensures
        final(buffer)@ == old(buffer)@.subrange(0, start as int) + data@ + old(buffer)@.subrange(
            start + data.len(),
            old(buffer).len() as int,
        ),
{
    let mut i: usize = 0;
    while i < data.len()
        invariant
            i <= data.len(),
            buffer.len() == old(buffer).len(),
            start + data.len() <= buffer.len(),
            buffer@ == old(buffer)@.subrange(0, start as int) + data@.subrange(0, i as int)
                + old(buffer)@.subrange(start + i, old(buffer).len() as int),
        decreases data.len() - i,
    {
        buffer.set(start + i, data[i]);
        i = i + 1;
        assert(buffer@ =~= old(buffer)@.subrange(0, start as int) + data@.subrange(0, i as int)
            + old(buffer)@.subrange(start + i, old(buffer).len() as int));
    }
    assert(data@.subrange(0, data.len() as int) =~= data@);
}

/// Rebuilds a file of `size` bytes from the chunks of a whole transfer.
///
/// Fails with `InvalidState` where `size` cannot be addressed on this
/// machine, and with `ProtocolViolation` where the chunks are not a
/// well-formed transfer of exactly `size` bytes.
pub fn assemble_chunks(size: u64, chunks: &Vec<Chunk>) -> (outcome: Result<Vec<u8>, Error>)
    ensures
        match outcome {
            Ok(file) => size <= usize::MAX && assemble(size as nat, chunks.deep_view()) == Some(
                file@,
            ),
            Err(e) => if size > usize::MAX {
                e == Error::InvalidState
            } else {
                e == Error::ProtocolViolation && assemble(size as nat, chunks.deep_view())
                    is None
            },
        },
{
    let mut assembler = match Assembler::new(size) {
        Ok(assembler) => assembler,
        Err(e) => {
            return Err(e);
        },
    };
    let ghost views = chunks.deep_view();
    let mut i: usize = 0;
    while i < chunks.len()
        invariant
            i <= chunks.len(),
            views == chunks.deep_view(),
            size <= usize::MAX,
            assembler@.buffer.len() == size,
            accept_chunks(fresh_assembly(size as nat), views.take(i as int)) == Some(assembler@),
        decreases chunks.len() - i,
    {
        let outcome = assembler.accept(&chunks[i]);
        proof {
            assert(views.take(i + 1).drop_last() =~= views.take(i as int));
            assert(views.take(i + 1).last() == chunks[i as int]@);
        }
        if outcome.is_err() {
            proof {
                lemma_refusal_is_final(fresh_assembly(size as nat), views, i + 1);
            }
            return Err(Error::ProtocolViolation);
        }
        i = i + 1;
    }
    assert(views.take(i as int) =~= views);
    assembler.finish()
}

/// Once a prefix of a transfer has been refused, the whole transfer is.
pub proof fn lemma_refusal_is_final(a: Assembly, chunks: Seq<ChunkView>, k: int)
    requires
        0 <= k <= chunks.len(),
        accept_chunks(a, chunks.take(k)) is None,
    ensures
        accept_chunks(a, chunks) is None,
    decreases chunks.len() - k,
{
    if k == chunks.len() {
        assert(chunks.take(k) =~= chunks);
    } else {
        assert(chunks.take(k + 1).drop_last() =~= chunks.take(k));
        lemma_refusal_is_final(a, chunks, k + 1);
    }
}

/// One message of an upload: a chunk and the path it is meant for.
#[derive(Debug, PartialEq, Eq)]
pub struct UploadFileRequest {
    /// The path in the node's storage that the file is written to.
    pub file_path: String,
    pub chunk: Chunk,
}

/// The mathematical content of an [`UploadFileRequest`].
pub struct UploadFileRequestView {
    pub file_path: Seq<char>,
    pub chunk: ChunkView,
}

impl View for UploadFileRequest {
    type V = UploadFileRequestView;

    open spec fn view(&self) -> UploadFileRequestView {
        UploadFileRequestView { file_path: self.file_path@, chunk: self.chunk@ }
    }
}

impl DeepView for UploadFileRequest {
    type V = UploadFileRequestView;

    open spec fn deep_view(&self) -> UploadFileRequestView {
        self@
    }
}

/// The messages that upload `data` to `path` in blocks of `block` bytes.
pub open spec fn upload_requests(path: Seq<char>, data: Seq<u8>, block: nat) -> Seq<
    UploadFileRequestView,
> {
    Seq::new(
        chunk_count(data.len(), block),
        |i: int| UploadFileRequestView { file_path: path, chunk: chunk_of(data, block, i) },
    )
}

/// Walks through a file block by block and hands out one upload message
/// for each block.
pub struct ChunkedReader {
    source: Vec<u8>,
    write_path: String,
    position: usize,
    block: usize,
}

impl ChunkedReader {
    #[verifier::type_invariant]
    spec fn at_block_boundary(self) -> bool {
        &&& self.block > 0
        &&& self.position <= self.source.len()
        &&& (self.position == self.source.len() || self.position as int % self.block as int == 0)
    }

    /// The file that is read.
    pub closed spec fn source(&self) -> Seq<u8> {
        self.source@
    }

    /// The path that every message carries.
    pub closed spec fn write_path(&self) -> Seq<char> {
        self.write_path@
    }

    /// The number of bytes in every chunk but the last.
    pub closed spec fn block(&self) -> nat {
        self.block as nat
    }

    /// The number of messages handed out so far.
    pub closed spec fn emitted(&self) -> nat {
        chunk_count(self.position as nat, self.block as nat)
    }

    /// A reader over `source` that cuts it into blocks of [`ONE_MB`] bytes
    /// and addresses them to `write_path`.
    pub fn new(source: Vec<u8>, write_path: String) -> (reader: ChunkedReader)
        ensures
            reader.source() == source@,
            reader.write_path() == write_path@,
            reader.block() == ONE_MB,
            reader.emitted() == 0,
    {
        ChunkedReader { source, write_path, position: 0, block: ONE_MB }
    }

    /// A reader that cuts `source` into blocks of `block` bytes, or
    /// `InvalidState` where `block` is zero.
    pub fn with_block(source: Vec<u8>, write_path: String, block: usize) -> (made: Result<
        ChunkedReader,
        Error,
    >)
        ensures
            match made {
                Ok(reader) => {
                    &&& block > 0
                    &&& reader.source() == source@
                    &&& reader.write_path() == write_path@
                    &&& reader.block() == block
                    &&& reader.emitted() == 0
                },
                Err(e) => block == 0 && e == Error::InvalidState,
            },
    {
        if block == 0 {
            Err(Error::InvalidState)
        } else {
            proof {
                assert(0 * block == 0) by (nonlinear_arith);
                lemma_chunk_count_unique(0, block as nat, 0);
                vstd::arithmetic::div_mod::lemma_small_mod(0, block as nat);
            }
            Ok(ChunkedReader { source, write_path, position: 0, block })
        }
    }

    /// The next message, or `None` once the whole file has been handed out.
    pub fn next(&mut self) -> (message: Option<UploadFileRequest>)
        ensures
            final(self).source() == old(self).source(),
            final(self).write_path() == old(self).write_path(),
            final(self).block() == old(self).block(),
            match message {
                Some(request) => {
                    &&& old(self).emitted() < chunk_count(
                        old(self).source().len(),
                        old(self).block(),
                    )
                    &&& request@ == upload_requests(
                        old(self).write_path(),
                        old(self).source(),
                        old(self).block(),
                    )[old(self).emitted() as int]
                    &&& final(self).emitted() == old(self).emitted() + 1
                },
                None => {
                    &&& old(self).emitted() == chunk_count(
                        old(self).source().len(),
                        old(self).block(),
                    )
                    &&& final(self).emitted() == old(self).emitted()
                },
            },
    {
        proof {
            use_type_invariant(&*self);
        }
        if self.position == self.source.len() {
            return None;
        }
        let ghost size = self.source@.len();
        let ghost block = self.block as nat;
        let ghost k = self.position as int / self.block as int;
        let chunk = cut_chunk(&self.source, self.position, self.block);
        let request = UploadFileRequest { file_path: self.write_path.clone(), chunk };
        proof {
            vstd::arithmetic::div_mod::lemma_fundamental_div_mod(
                self.position as int,
                self.block as int,
            );
            assert(k * block == block * k) by (nonlinear_arith);
            assert(k >= 0) by (nonlinear_arith)
                requires
                    k * block >= 0,
                    block > 0,
            ;
            assert((k + 1) * block == k * block + block) by (nonlinear_arith);
            assert(k == 0 || (k - 1) * block < k * block) by (nonlinear_arith)
                requires
                    block > 0,
            ;
            lemma_chunk_count_unique(self.position as nat, block, k as nat);
            lemma_chunk_count_bounds(size, block);
            if chunk_count(size, block) <= k {
                assert(chunk_count(size, block) * block <= k * block) by (nonlinear_arith)
                    requires
                        chunk_count(size, block) <= k,
                        block > 0,
                ;
            }
            if self.position + block <= size {
                lemma_chunk_count_unique((self.position + block) as nat, block, (k + 1) as nat);
                vstd::arithmetic::div_mod::lemma_mod_multiples_basic(k + 1, block as int);
            } else {
                lemma_chunk_count_unique(size, block, (k + 1) as nat);
            }
        }
        self.position = self.position + request.chunk.data.len();
        Some(request)
    }
}

/// The messages that upload `source` to the path of `file_metadata`, cut
/// into blocks of [`ONE_MB`] bytes.
pub fn stream_chunks(file_metadata: &FileMetadata, source: Vec<u8>) -> (requests: Vec<
    UploadFileRequest,
>)
    ensures
        requests.deep_view() == upload_requests(
            file_metadata@.file_path,
            source@,
            ONE_MB as nat,
        ),
{
    let ghost expected = upload_requests(file_metadata@.file_path, source@, ONE_MB as nat);
    let mut reader = ChunkedReader::new(source, file_metadata.file_path.clone());
    let mut requests: Vec<UploadFileRequest> = Vec::new();
    loop
        invariant
            reader.source() == source@,
            reader.write_path() == file_metadata@.file_path,
            reader.block() == ONE_MB,
            expected == upload_requests(file_metadata@.file_path, source@, ONE_MB as nat),
            reader.emitted() == requests.len(),
            requests.len() <= expected.len(),
            forall|i: int| 0 <= i < requests.len() ==> (#[trigger] requests[i])@ == expected[i],
        ensures
            requests.len() == expected.len(),
            forall|i: int| 0 <= i < requests.len() ==> (#[trigger] requests[i])@ == expected[i],
        decreases expected.len() - requests.len(),
    {
        match reader.next() {
            Some(request) => {
                requests.push(request);
            },
            None => {
                break ;
            },
        }
    }
    assert(requests.deep_view() =~= expected);
    requests
}

/// A copy of `bytes`.
pub fn copy_bytes(bytes: &Vec<u8>) -> (copy: Vec<u8>)
    ensures
        copy@ == bytes@,
{
    let mut copy: Vec<u8> = Vec::new();
    let mut i: usize = 0;
    while i < bytes.len()
        invariant
            i <= bytes.len(),
            copy@ == bytes@.subrange(0, i as int),
        decreases bytes.len() - i,
    {
        copy.push(bytes[i]);
        i = i + 1;
        assert(copy@ =~= bytes@.subrange(0, i as int));
    }
    assert(copy@ =~= bytes@);
    copy
}

} // verus!
