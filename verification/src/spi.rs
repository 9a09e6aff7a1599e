//! The bytes on the card's bus: how a transaction runs, how its buffers are
//! cut into transfers, and what each transfer carries.
use vstd::prelude::*;

verus! {

/// The most one transfer on the card's bus takes: one block.
pub const SD_SPI_CHUNK_BYTES: usize = 512;

/// What the bus carries while nothing is sent.
pub const SD_IDLE_BYTE: u8 = 0xff;

/// How often the bus is idled for a delay.
pub fn pace_iterations(ns: u32) -> (iterations: u32)
    ensures
        iterations == iterations_of(ns),
        iterations == if ns >= 100 { ns / 100 } else { 1 },
{
    let iterations: u32 = ns / 100;
    if iterations == 0 {
        1
    } else {
        iterations
    }
}

/// One transfer on the bus: a run of bytes of a buffer. What is not sent from
/// the buffer is idle, and what is not received is let go.
#[derive(Clone, Copy, PartialEq, Eq, Structural, Debug)]
pub struct SpiChunk {
    pub offset: usize,
    pub len: usize,
    pub sends: bool,
    pub receives: bool,
}

/// The transfers that cover a buffer from `from` to `to`: whole chunks, and a
/// shorter last one.
pub open spec fn chunks_of(from: int, to: int, sends: bool, receives: bool) -> Seq<SpiChunk>
    decreases to - from,
{
    if from >= to {
        Seq::empty()
    } else {
        let len = if to - from < SD_SPI_CHUNK_BYTES { to - from } else { SD_SPI_CHUNK_BYTES as int };
        seq![SpiChunk { offset: from as usize, len: len as usize, sends, receives }] + chunks_of(
            from + len,
            to,
            sends,
            receives,
        )
    }
}

/// As far as two buffers both go.
pub open spec fn common_len(read_len: int, write_len: int) -> int {
    if read_len <= write_len { read_len } else { write_len }
}

/// The transfers of a read and a write together: both ways as far as both go,
/// then the rest of the longer one alone.
pub open spec fn transfer_pieces(read_len: int, write_len: int) -> Seq<SpiChunk> {
    let common = common_len(read_len, write_len);
    chunks_of(0, common, true, true) + chunks_of(common, read_len, false, true) + chunks_of(
        common,
        write_len,
        true,
        false,
    )
}

fn push_chunks(chunks: &mut Vec<SpiChunk>, from: usize, to: usize, sends: bool, receives: bool)
    ensures
        final(chunks)@ == old(chunks)@ + chunks_of(from as int, to as int, sends, receives),
{
    let mut at: usize = from;
    let ghost whole = chunks@ + chunks_of(from as int, to as int, sends, receives);
    while at < to
        invariant
            from <= at,
            from <= to ==> at <= to,
            chunks@ + chunks_of(at as int, to as int, sends, receives) == whole,
        decreases to - at,
    {
        let len: usize = if to - at < SD_SPI_CHUNK_BYTES { to - at } else { SD_SPI_CHUNK_BYTES };
        let ghost before = chunks@;
        let chunk = SpiChunk { offset: at, len, sends, receives };
        chunks.push(chunk);
        proof {
            let rest = chunks_of(at + len, to as int, sends, receives);
            assert(before.push(chunk) + rest =~= before + (seq![chunk] + rest));
        }
        at = at + len;
    }
    assert(chunks@ + Seq::<SpiChunk>::empty() =~= chunks@);
}

/// The card's place on the bus, as far as its transfers are planned.
pub struct SdSpiDevice;

impl SdSpiDevice {
    /// The transfers that read a buffer while the bus idles.
    pub fn read_with_sd_clocks(&self, len: usize) -> (chunks: Vec<SpiChunk>)
        ensures
            chunks@ == chunks_of(0, len as int, false, true),
    {
        let mut chunks: Vec<SpiChunk> = Vec::new();
        push_chunks(&mut chunks, 0, len, false, true);
        assert(chunks@ =~= chunks_of(0, len as int, false, true));
        chunks
    }

    /// The transfers that write a buffer.
    pub fn write_chunked(&self, len: usize) -> (chunks: Vec<SpiChunk>)
        ensures
            chunks@ == chunks_of(0, len as int, true, false),
    {
        let mut chunks: Vec<SpiChunk> = Vec::new();
        push_chunks(&mut chunks, 0, len, true, false);
        assert(chunks@ =~= chunks_of(0, len as int, true, false));
        chunks
    }

    /// The transfers of a read and a write together: both ways as far as both
    /// go, then the rest of the longer one alone.
    pub fn transfer_chunked(&self, read_len: usize, write_len: usize) -> (chunks: Vec<SpiChunk>)
        ensures
            chunks@ == transfer_pieces(read_len as int, write_len as int),
    {
        let common: usize = if read_len <= write_len { read_len } else { write_len };
        let mut chunks: Vec<SpiChunk> = Vec::new();
        push_chunks(&mut chunks, 0, common, true, true);
        assert(chunks@ =~= chunks_of(0, common as int, true, true));
        push_chunks(&mut chunks, common, read_len, false, true);
        push_chunks(&mut chunks, common, write_len, true, false);
        chunks
    }

    /// The transfers that replace a buffer by what comes back for it.
    pub fn transfer_in_place_chunked(&self, len: usize) -> (chunks: Vec<SpiChunk>)
        ensures
            chunks@ == transfer_pieces(len as int, len as int),
    {
        let mut chunks: Vec<SpiChunk> = Vec::new();
        push_chunks(&mut chunks, 0, len, true, true);
        assert(chunks@ =~= transfer_pieces(len as int, len as int));
        chunks
    }
}

/// What a transfer puts on the bus: its run of the buffer that is sent, or
/// idle bytes.
pub open spec fn sent_by(chunk: SpiChunk, write: Seq<u8>) -> Seq<u8> {
    if chunk.sends {
        write.subrange(chunk.offset as int, chunk.offset + chunk.len)
    } else {
        Seq::new(chunk.len as nat, |i: int| SD_IDLE_BYTE)
    }
}

/// What a transfer makes of the buffer that is received: the bytes that came
/// back take their run of it.
pub open spec fn received_by(chunk: SpiChunk, came: Seq<u8>, read: Seq<u8>) -> Seq<u8> {
    if chunk.receives {
        read.take(chunk.offset as int) + came + read.skip(chunk.offset + chunk.len)
    } else {
        read
    }
}

impl SpiChunk {
    /// Fills the transfer's bytes: those of `write` it sends, or idle ones.
    pub fn outgoing(&self, write: &[u8]) -> (bytes: Vec<u8>)
        requires
            self.sends ==> self.offset + self.len <= write@.len(),
        ensures
            bytes@ == sent_by(*self, write@),
    {
        let mut bytes: Vec<u8> = Vec::new();
        let mut i: usize = 0;
        while i < self.len
            invariant
                i <= self.len,
                self.sends ==> self.offset + self.len <= write.len(),
                bytes@ == sent_by(*self, write@).take(i as int),
                sent_by(*self, write@).len() == self.len,
            decreases self.len - i,
        {
            bytes.push(
                if self.sends {
                    write[self.offset + i]
                } else {
                    SD_IDLE_BYTE
                },
            );
            i += 1;
            assert(bytes@ =~= sent_by(*self, write@).take(i as int));
        }
        assert(bytes@ =~= sent_by(*self, write@));
        bytes
    }

    /// Takes the bytes that came back into `read`, where the transfer
    /// receives any.
    pub fn incoming(&self, came: &[u8], read: &mut [u8])
        requires
            came@.len() == self.len,
            self.receives ==> self.offset + self.len <= old(read)@.len(),
        ensures
            final(read)@ == received_by(*self, came@, old(read)@),
    {
        if !self.receives {
            return;
        }
        let mut i: usize = 0;
        assert(read@ =~= old(read)@.take(self.offset as int) + came@.take(0) + old(read)@.skip(
            self.offset as int,
        ));
        while i < self.len
            invariant
                i <= self.len,
                came.len() == self.len,
                self.offset + self.len <= read.len(),
                read@.len() == old(read)@.len(),
                read@ == old(read)@.take(self.offset as int) + came@.take(i as int)
                    + old(read)@.skip(self.offset + i),
            decreases self.len - i,
        {
            read[self.offset + i] = came[i];
            i += 1;
            assert(read@ =~= old(read)@.take(self.offset as int) + came@.take(i as int)
                + old(read)@.skip(self.offset + i));
        }
        assert(came@.take(i as int) =~= came@);
    }
}

/// Everything a sequence of transfers puts on the bus.
pub open spec fn wire(chunks: Seq<SpiChunk>, write: Seq<u8>) -> Seq<u8>
    decreases chunks.len(),
{
    if chunks.len() == 0 {
        Seq::empty()
    } else {
        sent_by(chunks[0], write) + wire(chunks.drop_first(), write)
    }
}

/// The bus sees a written buffer byte for byte, however it was cut.
pub proof fn law_wire_carries_the_buffer(write: Seq<u8>, from: int, receives: bool)
    requires
        0 <= from <= write.len() <= usize::MAX,
    ensures
        wire(chunks_of(from, write.len() as int, true, receives), write) == write.skip(from),
    decreases write.len() - from,
{
    let to = write.len() as int;
    let chunks = chunks_of(from, to, true, receives);
    if from < to {
        let len = if to - from < SD_SPI_CHUNK_BYTES { to - from } else { SD_SPI_CHUNK_BYTES as int };
        law_wire_carries_the_buffer(write, from + len, receives);
        assert(chunks.drop_first() =~= chunks_of(from + len, to, true, receives));
        assert(wire(chunks, write) =~= write.skip(from));
    } else {
        assert(write.skip(from) =~= Seq::<u8>::empty());
    }
}

/// While a buffer is only read the bus idles, one byte for each byte read.
pub proof fn law_reading_idles_the_bus(write: Seq<u8>, from: int, to: int)
    requires
        0 <= from <= to <= usize::MAX,
    ensures
        wire(chunks_of(from, to, false, true), write) == Seq::new(
            (to - from) as nat,
            |i: int| SD_IDLE_BYTE,
        ),
    decreases to - from,
{
    let chunks = chunks_of(from, to, false, true);
    let idle = Seq::new((to - from) as nat, |i: int| SD_IDLE_BYTE);
    if from < to {
        let len = if to - from < SD_SPI_CHUNK_BYTES { to - from } else { SD_SPI_CHUNK_BYTES as int };
        law_reading_idles_the_bus(write, from + len, to);
        assert(chunks.drop_first() =~= chunks_of(from + len, to, false, true));
        assert(wire(chunks, write) =~= idle);
    } else {
        assert(wire(chunks, write) =~= idle);
    }
}

/// What the transfers of a read leave in the buffer, `back` being what the
/// bus gave at each position.
pub open spec fn read_through(chunks: Seq<SpiChunk>, back: Seq<u8>, read: Seq<u8>) -> Seq<u8>
    decreases chunks.len(),
{
    if chunks.len() == 0 {
        read
    } else {
        let chunk = chunks[0];
        let came = back.subrange(chunk.offset as int, chunk.offset + chunk.len);
        read_through(chunks.drop_first(), back, received_by(chunk, came, read))
    }
}

/// A read buffer ends up holding what the bus gave, every byte in its place
/// and nothing before it touched.
pub proof fn law_reading_fills_the_buffer(back: Seq<u8>, read: Seq<u8>, from: int, sends: bool)
    requires
        back.len() == read.len() <= usize::MAX,
        0 <= from <= read.len(),
    ensures
        read_through(chunks_of(from, read.len() as int, sends, true), back, read) == read.take(from)
            + back.skip(from),
    decreases read.len() - from,
{
    let to = read.len() as int;
    let chunks = chunks_of(from, to, sends, true);
    if from < to {
        let len = if to - from < SD_SPI_CHUNK_BYTES { to - from } else { SD_SPI_CHUNK_BYTES as int };
        let came = back.subrange(from, from + len);
        let after = received_by(chunks[0], came, read);
        assert(chunks.drop_first() =~= chunks_of(from + len, to, sends, true));
        assert(after.len() == read.len());
        law_reading_fills_the_buffer(back, after, from + len, sends);
        assert(after.take(from + len) + back.skip(from + len) =~= read.take(from) + back.skip(from));
    } else {
        assert(read.take(from) + back.skip(from) =~= read);
    }
}

/// A step of an operation, piece by piece.
#[derive(Clone, Copy, PartialEq, Eq, Structural, Debug)]
pub enum PieceStep {
    /// Put the piece on the bus and report what came back.
    Transfer(SpiChunk),
    /// The operation is over. One that failed failed with the error of the
    /// last piece.
    Finish { ok: bool },
}

/// An operation in progress: its pieces, how many went through, and whether
/// one did not.
pub struct PieceTurn {
    pub pieces: Vec<SpiChunk>,
    pub done: usize,
    pub failed: bool,
}

/// What an operation does next: the next piece, unless one failed or all are
/// through.
pub open spec fn piece_step(pieces: Seq<SpiChunk>, done: int, failed: bool) -> PieceStep {
    if failed {
        PieceStep::Finish { ok: false }
    } else if done < pieces.len() {
        PieceStep::Transfer(pieces[done])
    } else {
        PieceStep::Finish { ok: true }
    }
}

impl PieceTurn {
    pub fn new(pieces: Vec<SpiChunk>) -> (turn: PieceTurn)
        ensures
            turn.pieces@ == pieces@,
            turn.done == 0,
            !turn.failed,
    {
        PieceTurn { pieces, done: 0, failed: false }
    }

    /// What to do next.
    pub fn step(&self) -> (step: PieceStep)
        ensures
            step == piece_step(self.pieces@, self.done as int, self.failed),
    {
        if self.failed {
            PieceStep::Finish { ok: false }
        } else if self.done < self.pieces.len() {
            PieceStep::Transfer(self.pieces[self.done])
        } else {
            PieceStep::Finish { ok: true }
        }
    }

    /// Takes what became of the piece: the bytes that came back for it, which
    /// go to their place in `read`, or `None` when the bus failed, which ends
    /// the operation with `read` as it is.
    pub fn transferred(&mut self, came: Option<&[u8]>, read: &mut [u8])
        requires
            match (piece_step(old(self).pieces@, old(self).done as int, old(self).failed), came) {
                (PieceStep::Transfer(piece), Some(came)) => came@.len() == piece.len && (
                piece.receives ==> piece.offset + piece.len <= old(read)@.len()),
                _ => true,
            },
        ensures
            final(self).pieces@ == old(self).pieces@,
            match (piece_step(old(self).pieces@, old(self).done as int, old(self).failed), came) {
                (PieceStep::Transfer(piece), Some(came)) => {
                    &&& final(self).done == old(self).done + 1
                    &&& !final(self).failed
                    &&& final(read)@ == received_by(piece, came@, old(read)@)
                },
                (PieceStep::Transfer(_), None) => {
                    &&& final(self).done == old(self).done
                    &&& final(self).failed
                    &&& final(read)@ == old(read)@
                },
                (PieceStep::Finish { .. }, _) => {
                    &&& final(self).done == old(self).done
                    &&& final(self).failed == old(self).failed
                    &&& final(read)@ == old(read)@
                },
            },
    {
        if let PieceStep::Transfer(piece) = self.step() {
            match came {
                Some(came) => {
                    piece.incoming(came, read);
                    let count: usize = self.pieces.len();
                    assert(self.done < count);
                    self.done = self.done + 1;
                },
                None => {
                    self.failed = true;
                },
            }
        }
    }
}

/// How an operation ended: the buffer it was read into, how often the bus was
/// called, and whether every piece went through.
pub struct PieceRun {
    pub read: Seq<u8>,
    pub calls: int,
    pub ok: bool,
}

/// An operation from piece `from` on, `back` being what the bus gives at each
/// position, and `went` saying which pieces go through.
pub open spec fn pieces_run(pieces: Seq<SpiChunk>, back: Seq<u8>, read: Seq<u8>, went: spec_fn(int) -> bool, from: int) -> PieceRun
    decreases pieces.len() - from,
{
    match piece_step(pieces, from, false) {
        PieceStep::Finish { ok } => PieceRun { read, calls: 0, ok },
        PieceStep::Transfer(piece) => if from < 0 || !went(from) {
            PieceRun { read, calls: 1, ok: false }
        } else {
            let came = back.subrange(piece.offset as int, piece.offset + piece.len);
            let rest = pieces_run(pieces, back, received_by(piece, came, read), went, from + 1);
            PieceRun { calls: rest.calls + 1, ..rest }
        },
    }
}

/// The pieces up to the first that fails are all that happens.
proof fn lemma_pieces_run(pieces: Seq<SpiChunk>, back: Seq<u8>, read: Seq<u8>, went: spec_fn(int) -> bool, from: int, stop: int)
    requires
        0 <= from <= stop <= pieces.len(),
        forall|i: int| from <= i < stop ==> #[trigger] went(i),
        stop < pieces.len() ==> !went(stop),
    ensures
        pieces_run(pieces, back, read, went, from) == (PieceRun {
            read: read_through(pieces.subrange(from, stop), back, read),
            calls: stop - from + if stop < pieces.len() { 1int } else { 0 },
            ok: stop == pieces.len(),
        }),
    decreases stop - from,
{
    if from < stop {
        let piece = pieces[from];
        let came = back.subrange(piece.offset as int, piece.offset + piece.len);
        assert(went(from));
        lemma_pieces_run(pieces, back, received_by(piece, came, read), went, from + 1, stop);
        assert(pieces.subrange(from, stop).drop_first() =~= pieces.subrange(from + 1, stop));
        assert(pieces.subrange(from, stop)[0] == piece);
    } else {
        assert(pieces.subrange(from, stop) =~= Seq::<SpiChunk>::empty());
    }
}

/// Where the first `count` pieces of a buffer end.
pub open spec fn cut_after(from: int, to: int, count: int) -> int {
    if from + count * SD_SPI_CHUNK_BYTES <= to { from + count * SD_SPI_CHUNK_BYTES } else { to }
}

/// The first piece of a buffer, and the pieces behind it.
proof fn lemma_piece_front(from: int, to: int, sends: bool, receives: bool, count: int)
    requires
        0 <= from <= to <= usize::MAX,
        0 < count <= chunks_of(from, to, sends, receives).len(),
    ensures
        ({
            let chunks = chunks_of(from, to, sends, receives);
            let len = if to - from < SD_SPI_CHUNK_BYTES {
                to - from
            } else {
                SD_SPI_CHUNK_BYTES as int
            };
            let rest = chunks_of(from + len, to, sends, receives);
            &&& 0 < len
            &&& from + len <= to
            &&& chunks[0] == (SpiChunk { offset: from as usize, len: len as usize, sends, receives })
            &&& chunks.take(count)[0] == chunks[0]
            &&& chunks.take(count).drop_first() == rest.take(count - 1)
            &&& chunks.len() == rest.len() + 1
            &&& cut_after(from, to, count) == cut_after(from + len, to, count - 1)
        }),
{
    let chunks = chunks_of(from, to, sends, receives);
    let len = if to - from < SD_SPI_CHUNK_BYTES { to - from } else { SD_SPI_CHUNK_BYTES as int };
    let rest = chunks_of(from + len, to, sends, receives);
    assert(chunks.drop_first() =~= rest);
    assert(chunks.take(count).drop_first() =~= rest.take(count - 1));
    if len < SD_SPI_CHUNK_BYTES {
        assert(rest.len() == 0);
        assert(count == 1);
    }
}

/// Where the first pieces end lies in the buffer, and all pieces end where it
/// does.
proof fn lemma_cut_in_buffer(from: int, to: int, sends: bool, receives: bool, count: int)
    requires
        0 <= from <= to <= usize::MAX,
        0 <= count <= chunks_of(from, to, sends, receives).len(),
    ensures
        from <= cut_after(from, to, count) <= to,
        count == chunks_of(from, to, sends, receives).len() ==> cut_after(from, to, count) == to,
    decreases count,
{
    if count > 0 {
        let len = if to - from < SD_SPI_CHUNK_BYTES { to - from } else { SD_SPI_CHUNK_BYTES as int };
        lemma_piece_front(from, to, sends, receives, count);
        lemma_cut_in_buffer(from + len, to, sends, receives, count - 1);
    }
}

/// What the first pieces put on the bus.
proof fn lemma_first_sent(write: Seq<u8>, from: int, to: int, sends: bool, receives: bool, count: int)
    requires
        0 <= from <= to <= usize::MAX,
        0 <= count <= chunks_of(from, to, sends, receives).len(),
        sends ==> to <= write.len(),
    ensures
        wire(chunks_of(from, to, sends, receives).take(count), write) == if sends {
            write.subrange(from, cut_after(from, to, count))
        } else {
            Seq::new((cut_after(from, to, count) - from) as nat, |i: int| SD_IDLE_BYTE)
        },
    decreases count,
{
    let first = chunks_of(from, to, sends, receives).take(count);
    let cut = cut_after(from, to, count);
    lemma_cut_in_buffer(from, to, sends, receives, count);
    if count == 0 {
        assert(first =~= Seq::<SpiChunk>::empty());
        if sends {
            assert(write.subrange(from, cut) =~= Seq::<u8>::empty());
        } else {
            assert(Seq::new((cut - from) as nat, |i: int| SD_IDLE_BYTE) =~= Seq::<u8>::empty());
        }
    } else {
        let len = if to - from < SD_SPI_CHUNK_BYTES { to - from } else { SD_SPI_CHUNK_BYTES as int };
        lemma_piece_front(from, to, sends, receives, count);
        lemma_cut_in_buffer(from + len, to, sends, receives, count - 1);
        lemma_first_sent(write, from + len, to, sends, receives, count - 1);
        if sends {
            assert(write.subrange(from, from + len) + write.subrange(from + len, cut)
                =~= write.subrange(from, cut));
        } else {
            assert(Seq::new(len as nat, |i: int| SD_IDLE_BYTE) + Seq::new(
                (cut - from - len) as nat,
                |i: int| SD_IDLE_BYTE,
            ) =~= Seq::new((cut - from) as nat, |i: int| SD_IDLE_BYTE));
        }
    }
}

/// What the first pieces leave in the buffer that is read into.
proof fn lemma_first_filled(back: Seq<u8>, read: Seq<u8>, from: int, to: int, sends: bool, count: int)
    requires
        back.len() == read.len() <= usize::MAX,
        0 <= from <= to <= read.len(),
        0 <= count <= chunks_of(from, to, sends, true).len(),
    ensures
        read_through(chunks_of(from, to, sends, true).take(count), back, read) == read.take(from)
            + back.subrange(from, cut_after(from, to, count)) + read.skip(
            cut_after(from, to, count),
        ),
    decreases count,
{
    let first = chunks_of(from, to, sends, true).take(count);
    let cut = cut_after(from, to, count);
    lemma_cut_in_buffer(from, to, sends, true, count);
    if count == 0 {
        assert(first =~= Seq::<SpiChunk>::empty());
        assert(read.take(from) + back.subrange(from, cut) + read.skip(cut) =~= read);
    } else {
        let len = if to - from < SD_SPI_CHUNK_BYTES { to - from } else { SD_SPI_CHUNK_BYTES as int };
        lemma_piece_front(from, to, sends, true, count);
        lemma_cut_in_buffer(from + len, to, sends, true, count - 1);
        let came = back.subrange(from, from + len);
        let after = received_by(first[0], came, read);
        assert(after == read.take(from) + came + read.skip(from + len));
        assert(after.len() == read.len());
        lemma_first_filled(back, after, from + len, to, sends, count - 1);
        assert(after.take(from + len) =~= read.take(from) + came);
        assert(after.skip(cut) =~= read.skip(cut));
        assert(came + back.subrange(from + len, cut) =~= back.subrange(from, cut));
        assert(after.take(from + len) + back.subrange(from + len, cut) + after.skip(cut)
            =~= read.take(from) + back.subrange(from, cut) + read.skip(cut));
    }
}

/// Pieces that receive nothing leave the buffer as it is.
proof fn lemma_unread(back: Seq<u8>, read: Seq<u8>, from: int, to: int, count: int)
    requires
        0 <= from <= to <= usize::MAX,
        0 <= count <= chunks_of(from, to, true, false).len(),
    ensures
        read_through(chunks_of(from, to, true, false).take(count), back, read) == read,
    decreases count,
{
    let first = chunks_of(from, to, true, false).take(count);
    if count == 0 {
        assert(first =~= Seq::<SpiChunk>::empty());
    } else {
        let len = if to - from < SD_SPI_CHUNK_BYTES { to - from } else { SD_SPI_CHUNK_BYTES as int };
        lemma_piece_front(from, to, true, false, count);
        lemma_unread(back, read, from + len, to, count - 1);
    }
}

/// What one run of pieces and then another leave in a buffer.
proof fn lemma_read_through_both(a: Seq<SpiChunk>, b: Seq<SpiChunk>, back: Seq<u8>, read: Seq<u8>)
    ensures
        read_through(a + b, back, read) == read_through(b, back, read_through(a, back, read)),
    decreases a.len(),
{
    if a.len() == 0 {
        assert(a + b =~= b);
    } else {
        let came = back.subrange(a[0].offset as int, a[0].offset + a[0].len);
        assert((a + b)[0] == a[0]);
        assert((a + b).drop_first() =~= a.drop_first() + b);
        lemma_read_through_both(a.drop_first(), b, back, received_by(a[0], came, read));
    }
}

/// What one run of pieces and then another put on the bus.
proof fn lemma_wire_both(a: Seq<SpiChunk>, b: Seq<SpiChunk>, write: Seq<u8>)
    ensures
        wire(a + b, write) == wire(a, write) + wire(b, write),
    decreases a.len(),
{
    if a.len() == 0 {
        assert(a + b =~= b);
        assert(wire(a, write) + wire(b, write) =~= wire(b, write));
    } else {
        assert((a + b)[0] == a[0]);
        assert((a + b).drop_first() =~= a.drop_first() + b);
        lemma_wire_both(a.drop_first(), b, write);
        assert(wire(a + b, write) =~= wire(a, write) + wire(b, write));
    }
}

/// A read fills its buffer piece by piece and stops at the first piece that
/// fails. With all pieces through it succeeds and the buffer holds what came
/// back, in order; otherwise it fails, the pieces before are filled, the rest
/// of the buffer is as it was, and the bus is not called again. Every byte
/// that was sent is idle. An empty buffer succeeds without a call.
pub proof fn law_read_stops_at_the_first_failure(back: Seq<u8>, read: Seq<u8>, went: spec_fn(int) -> bool, stop: int)
    requires
        back.len() == read.len() <= usize::MAX,
        0 <= stop <= chunks_of(0, read.len() as int, false, true).len(),
        forall|i: int| 0 <= i < stop ==> #[trigger] went(i),
        stop < chunks_of(0, read.len() as int, false, true).len() ==> !went(stop),
    ensures
        ({
            let pieces = chunks_of(0, read.len() as int, false, true);
            let run = pieces_run(pieces, back, read, went, 0);
            let cut = cut_after(0, read.len() as int, stop);
            &&& run.ok == (stop == pieces.len())
            &&& run.calls == stop + if run.ok { 0int } else { 1 }
            &&& run.read == back.take(cut) + read.skip(cut)
            &&& run.ok ==> run.read == back
            &&& wire(pieces.take(run.calls), Seq::empty()) == Seq::new(
                cut_after(0, read.len() as int, run.calls) as nat,
                |i: int| SD_IDLE_BYTE,
            )
        }),
{
    let pieces = chunks_of(0, read.len() as int, false, true);
    let run = pieces_run(pieces, back, read, went, 0);
    let none = Seq::<u8>::empty();
    lemma_pieces_run(pieces, back, read, went, 0, stop);
    assert(pieces.subrange(0, stop) =~= pieces.take(stop));
    lemma_first_filled(back, read, 0, read.len() as int, false, stop);
    lemma_cut_in_buffer(0, read.len() as int, false, true, stop);
    lemma_first_sent(none, 0, read.len() as int, false, true, run.calls);
    let cut = cut_after(0, read.len() as int, stop);
    assert(read.take(0) + back.subrange(0, cut) + read.skip(cut) =~= back.take(cut) + read.skip(cut));
    if stop == pieces.len() {
        assert(back.take(cut) + read.skip(cut) =~= back);
    }
}

/// A write hands the bus its buffer in order and stops at the first piece
/// that fails: what went out is a beginning of the buffer, and all of it when
/// the write succeeds. The piece that failed is the last.
pub proof fn law_write_stops_at_the_first_failure(write: Seq<u8>, went: spec_fn(int) -> bool, stop: int)
    requires
        write.len() <= usize::MAX,
        0 <= stop <= chunks_of(0, write.len() as int, true, false).len(),
        forall|i: int| 0 <= i < stop ==> #[trigger] went(i),
        stop < chunks_of(0, write.len() as int, true, false).len() ==> !went(stop),
    ensures
        ({
            let pieces = chunks_of(0, write.len() as int, true, false);
            let none = Seq::<u8>::empty();
            let run = pieces_run(pieces, none, none, went, 0);
            let cut = cut_after(0, write.len() as int, run.calls);
            &&& run.ok == (stop == pieces.len())
            &&& run.calls == stop + if run.ok { 0int } else { 1 }
            &&& wire(pieces.take(run.calls), write) == write.take(cut)
            &&& run.ok ==> cut == write.len()
        }),
{
    let pieces = chunks_of(0, write.len() as int, true, false);
    let none = Seq::<u8>::empty();
    let run = pieces_run(pieces, none, none, went, 0);
    lemma_pieces_run(pieces, none, none, went, 0, stop);
    lemma_first_sent(write, 0, write.len() as int, true, false, run.calls);
    lemma_cut_in_buffer(0, write.len() as int, true, false, run.calls);
    assert(write.subrange(0, cut_after(0, write.len() as int, run.calls)) =~= write.take(
        cut_after(0, write.len() as int, run.calls),
    ));
}

/// Where the first `count` pieces of a transfer end: in what both buffers
/// have, and past it in the longer one.
pub open spec fn transfer_cut(read_len: int, write_len: int, count: int) -> int {
    let common = common_len(read_len, write_len);
    let both = chunks_of(0, common, true, true).len() as int;
    if count <= both {
        cut_after(0, common, count)
    } else {
        cut_after(common, if read_len <= write_len { write_len } else { read_len }, count - both)
    }
}

/// The first bytes of a transfer on the bus: what is to be written, and idle
/// bytes past its end.
pub open spec fn on_the_wire(write: Seq<u8>, cut: int) -> Seq<u8> {
    Seq::new(cut as nat, |i: int| if i < write.len() { write[i] } else { SD_IDLE_BYTE })
}

/// What the first pieces of a transfer do, on the bus and in the buffer.
proof fn lemma_transfer_front(write: Seq<u8>, back: Seq<u8>, read: Seq<u8>, count: int)
    requires
        back.len() == read.len() <= usize::MAX,
        write.len() <= usize::MAX,
        0 <= count <= transfer_pieces(read.len() as int, write.len() as int).len(),
    ensures
        ({
            let pieces = transfer_pieces(read.len() as int, write.len() as int);
            let cut = transfer_cut(read.len() as int, write.len() as int, count);
            let filled = if cut <= read.len() { cut } else { read.len() as int };
            &&& 0 <= cut
            &&& count == pieces.len() ==> filled == read.len() && cut >= write.len()
            &&& read_through(pieces.take(count), back, read) == back.take(filled) + read.skip(filled)
            &&& wire(pieces.take(count), write) == on_the_wire(write, cut)
        }),
{
    let common = common_len(read.len() as int, write.len() as int);
    let both = chunks_of(0, common, true, true);
    let reads = chunks_of(common, read.len() as int, false, true);
    let writes = chunks_of(common, write.len() as int, true, false);
    let pieces = transfer_pieces(read.len() as int, write.len() as int);
    let cut = transfer_cut(read.len() as int, write.len() as int, count);
    if count <= both.len() {
        assert(pieces.take(count) =~= both.take(count));
        lemma_cut_in_buffer(0, common, true, true, count);
        lemma_first_filled(back, read, 0, common, true, count);
        lemma_first_sent(write, 0, common, true, true, count);
        assert(read.take(0) + back.subrange(0, cut) + read.skip(cut) =~= back.take(cut) + read.skip(
            cut,
        ));
        assert(write.subrange(0, cut) =~= on_the_wire(write, cut));
        if count == pieces.len() {
            assert(reads.len() == 0 && writes.len() == 0);
            assert(read.len() == common && write.len() == common);
        }
    } else {
        let left = count - both.len();
        lemma_cut_in_buffer(0, common, true, true, both.len() as int);
        lemma_first_filled(back, read, 0, common, true, both.len() as int);
        lemma_first_sent(write, 0, common, true, true, both.len() as int);
        assert(both.take(both.len() as int) =~= both);
        let middle = back.take(common) + read.skip(common);
        assert(read.take(0) + back.subrange(0, common) + read.skip(common) =~= middle);
        if read.len() > write.len() {
            assert(pieces.take(count) =~= both + reads.take(left));
            lemma_cut_in_buffer(common, read.len() as int, false, true, left);
            lemma_first_filled(back, middle, common, read.len() as int, false, left);
            lemma_first_sent(write, common, read.len() as int, false, true, left);
            lemma_read_through_both(both, reads.take(left), back, read);
            lemma_wire_both(both, reads.take(left), write);
            assert(middle.take(common) + back.subrange(common, cut) + middle.skip(cut)
                =~= back.take(cut) + read.skip(cut));
            assert(write.subrange(0, common) + Seq::new(
                (cut - common) as nat,
                |i: int| SD_IDLE_BYTE,
            ) =~= on_the_wire(write, cut));
        } else {
            assert(pieces.take(count) =~= both + writes.take(left));
            lemma_cut_in_buffer(common, write.len() as int, true, false, left);
            lemma_unread(back, middle, common, write.len() as int, left);
            lemma_first_sent(write, common, write.len() as int, true, false, left);
            lemma_read_through_both(both, writes.take(left), back, read);
            lemma_wire_both(both, writes.take(left), write);
            assert(write.subrange(0, common) + write.subrange(common, cut) =~= on_the_wire(
                write,
                cut,
            ));
        }
    }
}

/// An operation in both directions stops at the first piece that fails too,
/// whichever of its buffers is the longer: what went out is a beginning of
/// what was to be written, followed by idle bytes where the read goes on, and
/// what came back fills the buffer as far as the pieces went through. One that
/// succeeds has sent all and filled all.
pub proof fn law_transfer_stops_at_the_first_failure(write: Seq<u8>, back: Seq<u8>, read: Seq<u8>, went: spec_fn(int) -> bool, stop: int)
    requires
        back.len() == read.len() <= usize::MAX,
        write.len() <= usize::MAX,
        0 <= stop <= transfer_pieces(read.len() as int, write.len() as int).len(),
        forall|i: int| 0 <= i < stop ==> #[trigger] went(i),
        stop < transfer_pieces(read.len() as int, write.len() as int).len() ==> !went(stop),
    ensures
        ({
            let pieces = transfer_pieces(read.len() as int, write.len() as int);
            let run = pieces_run(pieces, back, read, went, 0);
            let cut = transfer_cut(read.len() as int, write.len() as int, stop);
            let filled = if cut <= read.len() { cut } else { read.len() as int };
            let sent = transfer_cut(read.len() as int, write.len() as int, run.calls);
            &&& run.ok == (stop == pieces.len())
            &&& run.calls == stop + if run.ok { 0int } else { 1 }
            &&& run.read == back.take(filled) + read.skip(filled)
            &&& wire(pieces.take(run.calls), write) == on_the_wire(write, sent)
            &&& run.ok ==> run.read == back && sent >= write.len()
        }),
{
    let pieces = transfer_pieces(read.len() as int, write.len() as int);
    let run = pieces_run(pieces, back, read, went, 0);
    lemma_pieces_run(pieces, back, read, went, 0, stop);
    assert(pieces.subrange(0, stop) =~= pieces.take(stop));
    lemma_transfer_front(write, back, read, stop);
    lemma_transfer_front(write, back, read, run.calls);
    if run.ok {
        assert(back.take(read.len() as int) + read.skip(read.len() as int) =~= back);
    }
}

/// A step of a transaction with the card.
#[derive(Clone, Copy, PartialEq, Eq, Structural, Debug)]
pub enum BusStep {
    /// Select the card.
    Select,
    /// Run one operation of the transaction.
    Run { operation: usize },
    /// Wait until the bus has sent everything.
    Flush,
    /// Release the card.
    Deselect,
    Finish { ok: bool },
}

/// A transaction in progress.
#[derive(Clone, Copy, PartialEq, Eq, Structural, Debug)]
pub struct BusTurn {
    pub operations: usize,
    pub failed: bool,
}

/// What follows a step that went well or not. Only a failed operation counts:
/// it ends the transaction, and the card is released all the same.
pub open spec fn bus_next(turn: BusTurn, step: BusStep, went: bool) -> Option<(BusTurn, BusStep)> {
    match step {
        BusStep::Select => Some(
            (
                turn,
                if turn.operations > 0 { BusStep::Run { operation: 0 } } else { BusStep::Flush },
            ),
        ),
        BusStep::Run { operation } => Some(
            if !went {
                (BusTurn { failed: true, ..turn }, BusStep::Flush)
            } else if operation + 1 < turn.operations {
                (turn, BusStep::Run { operation: (operation + 1) as usize })
            } else {
                (turn, BusStep::Flush)
            },
        ),
        BusStep::Flush => Some((turn, BusStep::Deselect)),
        BusStep::Deselect => Some((turn, BusStep::Finish { ok: !turn.failed })),
        BusStep::Finish { .. } => None,
    }
}

impl SdSpiDevice {
    /// Begins a transaction of this many operations.
    pub fn transaction(&self, operations: usize) -> (begun: (BusTurn, BusStep))
        ensures
            begun == ((BusTurn { operations, failed: false }), BusStep::Select),
    {
        (BusTurn { operations, failed: false }, BusStep::Select)
    }
}

impl BusTurn {
    /// Goes on after a step.
    pub fn advance(&mut self, step: BusStep, went: bool) -> (next: Option<BusStep>)
        ensures
            match bus_next(*old(self), step, went) {
                Some(then) => next == Some(then.1) && *final(self) == then.0,
                None => next is None && *final(self) == *old(self),
            },
    {
        match step {
            BusStep::Select => {
                if self.operations > 0 {
                    Some(BusStep::Run { operation: 0 })
                } else {
                    Some(BusStep::Flush)
                }
            },
            BusStep::Run { operation } => {
                if !went {
                    self.failed = true;
                    Some(BusStep::Flush)
                } else if self.operations > 0 && operation < self.operations - 1 {
                    Some(BusStep::Run { operation: operation + 1 })
                } else {
                    Some(BusStep::Flush)
                }
            },
            BusStep::Flush => Some(BusStep::Deselect),
            BusStep::Deselect => Some(BusStep::Finish { ok: !self.failed }),
            BusStep::Finish { .. } => None,
        }
    }
}

/// A transaction whose operations went as `went` says, from a step on: the
/// steps it takes.
pub open spec fn bus_run(turn: BusTurn, step: BusStep, went: spec_fn(int) -> bool) -> Seq<BusStep>
    decreases
            match step {
                BusStep::Select => turn.operations + 4,
                BusStep::Run { operation } => if operation < turn.operations {
                    turn.operations - operation + 3
                } else {
                    3
                },
                BusStep::Flush => 2,
                BusStep::Deselect => 1,
                BusStep::Finish { .. } => 0,
            },
{
    let ok = match step {
        BusStep::Run { operation } => went(operation as int),
        _ => true,
    };
    match bus_next(turn, step, ok) {
        Some(next) => seq![step] + bus_run(next.0, next.1, went),
        None => seq![step],
    }
}

/// How a transaction ends from the first operation still to run.
proof fn lemma_bus_run(turn: BusTurn, operation: usize, went: spec_fn(int) -> bool, stop: int)
    requires
        !turn.failed,
        operation <= stop < turn.operations,
        forall|i: int| operation <= i < stop ==> #[trigger] went(i),
        stop == turn.operations - 1 || !went(stop),
    ensures
        bus_run(turn, BusStep::Run { operation }, went) == Seq::new(
            (stop - operation + 1) as nat,
            |i: int| BusStep::Run { operation: (operation + i) as usize },
        ) + seq![BusStep::Flush, BusStep::Deselect, BusStep::Finish { ok: went(stop) }],
    decreases stop - operation,
{
    let whole = bus_run(turn, BusStep::Run { operation }, went);
    let last = seq![BusStep::Flush, BusStep::Deselect, BusStep::Finish { ok: went(stop) }];
    let runs = Seq::new(
        (stop - operation + 1) as nat,
        |i: int| BusStep::Run { operation: (operation + i) as usize },
    );
    if operation == stop {
        reveal_with_fuel(bus_run, 4);
        assert(whole =~= runs + last);
    } else {
        assert(went(operation as int));
        lemma_bus_run(turn, (operation + 1) as usize, went, stop);
        assert(whole =~= runs + last);
    }
}

/// Every transaction selects the card, runs its operations in order up to the
/// first that fails and no further, waits for the bus and releases the card;
/// it succeeds when none failed.
pub proof fn law_card_is_released_after_the_first_failure(operations: usize, went: spec_fn(int) -> bool, stop: int)
    requires
        0 <= stop < operations,
        forall|i: int| 0 <= i < stop ==> #[trigger] went(i),
        stop == operations - 1 || !went(stop),
    ensures
        bus_run((BusTurn { operations, failed: false }), BusStep::Select, went) == seq![
            BusStep::Select,
        ] + Seq::new((stop + 1) as nat, |i: int| BusStep::Run { operation: i as usize }) + seq![
            BusStep::Flush,
            BusStep::Deselect,
            BusStep::Finish { ok: went(stop) },
        ],
{
    let turn = BusTurn { operations, failed: false };
    lemma_bus_run(turn, 0, went, stop);
    let last = seq![BusStep::Flush, BusStep::Deselect, BusStep::Finish { ok: went(stop) }];
    let runs = Seq::new((stop + 1) as nat, |i: int| BusStep::Run { operation: i as usize });
    assert(bus_run(turn, BusStep::Select, went) =~= seq![BusStep::Select] + runs + last);
}

/// Whether the chunks follow one another from `from` to `to`, none empty and
/// none longer than a transfer.
pub open spec fn cover(chunks: Seq<SpiChunk>, from: int, to: int) -> bool
    decreases chunks.len(),
{
    if chunks.len() == 0 {
        from == to
    } else {
        &&& chunks[0].offset == from
        &&& 0 < chunks[0].len <= SD_SPI_CHUNK_BYTES
        &&& cover(chunks.drop_first(), from + chunks[0].len, to)
    }
}

/// The transfers cover the buffer exactly: every byte once, in order.
pub proof fn law_chunks_cover_the_buffer(from: int, to: int, sends: bool, receives: bool)
    requires
        0 <= from <= to <= usize::MAX,
    ensures
        cover(chunks_of(from, to, sends, receives), from, to),
    decreases to - from,
{
    if from < to {
        let len = if to - from < SD_SPI_CHUNK_BYTES { to - from } else { SD_SPI_CHUNK_BYTES as int };
        law_chunks_cover_the_buffer(from + len, to, sends, receives);
        assert(chunks_of(from, to, sends, receives).drop_first() =~= chunks_of(
            from + len,
            to,
            sends,
            receives,
        ));
    }
}

pub open spec fn iterations_of(ns: u32) -> u32 {
    if ns >= 100 { ns / 100 } else { 1 }
}

/// The bus is paced at least once and by one iteration for each whole hundred
/// of nanoseconds.
pub proof fn law_pace_covers_the_wait(ns: u32)
    ensures
        iterations_of(ns) >= 1,
        ns >= 100 ==> iterations_of(ns) * 100 <= ns < (iterations_of(ns) + 1) * 100,
        ns < 100 ==> iterations_of(ns) == 1,
{
}

} // verus!
