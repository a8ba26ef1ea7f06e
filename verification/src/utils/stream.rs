use vstd::prelude::*;

verus! {

/// The chunk size of a stream that was given none.
pub const DEFAULT_CHUNK_SIZE: usize = 65535 - 40;

/// What a chunked stream does after its reader was polled.
#[derive(Debug, Clone, Copy, PartialEq, Eq)]
pub enum ChunkStep {
    /// The stream has ended before: it yields nothing more.
    Finished,
    /// The reader had nothing more: the stream yields one empty chunk and
    /// then ends.
    YieldLast,
    /// The stream yields what was read and goes on with a new buffer.
    YieldChunk,
}

/// Turns a reader into a stream of chunks. The reader is dropped once it
/// has nothing more to give.
#[derive(Debug)]
pub struct ReaderChunkedStream<R> {
    reader: Option<R>,
    chunk_size: usize,
}

impl<R> ReaderChunkedStream<R> {
    /// Whether the stream still holds its reader.
    pub closed spec fn reading(&self) -> bool {
        self.reader is Some
    }

    /// The capacity that each buffer of the stream is made with.
    pub closed spec fn spec_chunk_size(&self) -> usize {
        self.chunk_size
    }

    pub fn new(reader: R) -> (stream: Self)
        ensures
            stream.reading(),
            stream.spec_chunk_size() == DEFAULT_CHUNK_SIZE,
    {
        Self::with_chunk_size(reader, DEFAULT_CHUNK_SIZE)
    }

    pub fn with_chunk_size(reader: R, chunk_size: usize) -> (stream: Self)
        ensures
            stream.reading(),
            stream.spec_chunk_size() == chunk_size,
    {
        ReaderChunkedStream { reader: Some(reader), chunk_size }
    }

    #[verifier::when_used_as_spec(spec_chunk_size)]
    pub fn chunk_size(&self) -> (size: usize)
        ensures
            size == self.spec_chunk_size(),
    {
        self.chunk_size
    }

    /// The reader to poll next, as long as the stream has not ended.
    pub fn reader_mut(&mut self) -> (reader: Option<&mut R>)
        ensures
            reader is Some <==> old(self).reading(),
            final(self).reading() == old(self).reading(),
            final(self).spec_chunk_size() == old(self).spec_chunk_size(),
    {
        self.reader.as_mut()
    }

    /// Decides what the stream yields after its reader filled the buffer
    /// up to `buffered` bytes. An empty buffer means that the reader is at
    /// its end: the reader is dropped.
    pub fn after_read(&mut self, buffered: usize) -> (step: ChunkStep)
        ensures
            step == if !old(self).reading() {
                ChunkStep::Finished
            } else if buffered == 0 {
                ChunkStep::YieldLast
            } else {
                ChunkStep::YieldChunk
            },
            final(self).reading() == (old(self).reading() && buffered != 0),
            final(self).spec_chunk_size() == old(self).spec_chunk_size(),
    {
        if self.reader.is_none() {
            return ChunkStep::Finished;
        }
        if buffered == 0 {
            self.reader = None;
            return ChunkStep::YieldLast;
        }
        ChunkStep::YieldChunk
    }
}

/// Which of the two readers of a merger is read.
#[derive(Debug, Clone, Copy, PartialEq, Eq)]
pub enum MergerSide {
    First,
    Second,
}

/// Reads one reader to its end and then goes on with a second one.
pub struct AsyncReadMerger<R, E> {
    r1: R,
    r2: E,
    switched: bool,
}

impl<R, E> AsyncReadMerger<R, E> {
    /// Whether the first reader has come to its end.
    pub closed spec fn spec_switched(&self) -> bool {
        self.switched
    }

    pub closed spec fn first(&self) -> R {
        self.r1
    }

    pub closed spec fn second(&self) -> E {
        self.r2
    }

    pub fn new(r1: R, r2: E) -> (merger: Self)
        ensures
            !merger.spec_switched(),
            merger.first() == r1,
            merger.second() == r2,
    {
        Self { r1, r2, switched: false }
    }

    #[verifier::when_used_as_spec(spec_switched)]
    pub fn switched(&self) -> (switched: bool)
        ensures
            switched == self.spec_switched(),
    {
        self.switched
    }

    /// The reader that the next read goes to.
    pub fn current(&self) -> (side: MergerSide)
        ensures
            side == if self.spec_switched() { MergerSide::Second } else { MergerSide::First },
    {
        if self.switched {
            MergerSide::Second
        } else {
            MergerSide::First
        }
    }

    pub fn first_mut(&mut self) -> (reader: &mut R)
        ensures
            *reader == old(self).first(),
            final(self).first() == *final(reader),
            final(self).second() == old(self).second(),
            final(self).spec_switched() == old(self).spec_switched(),
    {
        &mut self.r1
    }

    pub fn second_mut(&mut self) -> (reader: &mut E)
        ensures
            *reader == old(self).second(),
            final(self).second() == *final(reader),
            final(self).first() == old(self).first(),
            final(self).spec_switched() == old(self).spec_switched(),
    {
        &mut self.r2
    }

    /// Decides what follows a read that came back without error. The
    /// caller's buffer held `filled_before` bytes before the read and
    /// `filled_after` bytes after it. A read of the first reader that added
    /// nothing means that it is at its end: from now on the second reader
    /// is read, and the answer `true` asks the caller to read it at once.
    /// In every other case the read stands as it is.
    pub fn after_read(&mut self, filled_before: usize, filled_after: usize) -> (read_second: bool)
        ensures
            read_second == (filled_before == filled_after && !old(self).spec_switched()),
            final(self).spec_switched() == (old(self).spec_switched() || read_second),
            final(self).first() == old(self).first(),
            final(self).second() == old(self).second(),
    {
        if filled_before == filled_after && !self.switched {
            self.switched = true;
            true
        } else {
            false
        }
    }
}

} // verus!
