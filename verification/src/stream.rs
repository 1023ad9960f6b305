//! In-memory duplex byte stream reproducing the non-blocking socket contract:
//! FIFO reads, would-block on an empty open input, end-of-stream after the
//! input is closed, and an append-only output buffer with no backpressure.

use vstd::prelude::*;

verus! {

/// Mathematical model of the buffer pair behind a [`MemIo`] stream.
#[verifier::ext_equal]
pub struct StreamView {
    /// Bytes queued for the application to read, front first.
    pub input: Seq<u8>,
    /// Once true, the input is half-closed and never reopens.
    pub input_closed: bool,
    /// Everything the application has written, in order.
    pub output: Seq<u8>,
}

/// What a single read reports, at the model level.
pub enum ReadModel {
    /// Bytes removed from the front of the input buffer.
    Data(Seq<u8>),
    /// The input is empty and closed: end-of-stream.
    Eof,
    /// The input is empty but not closed: retry later.
    WouldBlock,
}

/// Number of bytes a read with this capacity takes from this input.
pub open spec fn read_count(input: Seq<u8>, capacity: nat) -> nat {
    if capacity <= input.len() {
        capacity
    } else {
        input.len()
    }
}

/// The stream state after one read of the given capacity.
pub open spec fn spec_read_state(s: StreamView, capacity: nat) -> StreamView {
    if s.input.len() > 0 {
        StreamView { input: s.input.skip(read_count(s.input, capacity) as int), ..s }
    } else {
        s
    }
}

/// The outcome of one read of the given capacity.
pub open spec fn spec_read_outcome(s: StreamView, capacity: nat) -> ReadModel {
    if s.input.len() > 0 {
        ReadModel::Data(s.input.take(read_count(s.input, capacity) as int))
    } else if s.input_closed {
        ReadModel::Eof
    } else {
        ReadModel::WouldBlock
    }
}

/// The outcome of a single non-blocking read.
#[derive(Debug)]
pub enum ReadOutcome {
    /// Bytes copied out of the input buffer, FIFO order.
    Data(Vec<u8>),
    /// The input is empty and was closed: end-of-stream.
    Eof,
    /// The input is empty but may still grow: no error, retry later.
    WouldBlock,
}

impl View for ReadOutcome {
    type V = ReadModel;

    open spec fn view(&self) -> ReadModel {
        match self {
            ReadOutcome::Data(d) => ReadModel::Data(d@),
            ReadOutcome::Eof => ReadModel::Eof,
            ReadOutcome::WouldBlock => ReadModel::WouldBlock,
        }
    }
}

/// In-memory stream with separate input and output buffers.
///
/// Test code appends to the input with [`MemIo::push_bytes`] and half-closes
/// it with [`MemIo::shutdown_input`]; the code under test consumes the input
/// with [`MemIo::read`] and appends to the output with [`MemIo::write`],
/// which test code then inspects non-destructively.
#[derive(Debug)]
pub struct MemIo {
    input: Vec<u8>,
    input_closed: bool,
    output: Vec<u8>,
}

impl View for MemIo {
    type V = StreamView;

    closed spec fn view(&self) -> StreamView {
        StreamView {
            input: self.input@,
            input_closed: self.input_closed,
            output: self.output@,
        }
    }
}

/// Appends every byte of `data` to the tail of `dst`.
fn append_bytes(dst: &mut Vec<u8>, data: &[u8])
    ensures
        final(dst)@ == old(dst)@ + data@,
{
    let mut i: usize = 0;
    while i < data.len()
        invariant
            i <= data@.len(),
            dst@ == old(dst)@ + data@.take(i as int),
        decreases data@.len() - i,
    {
        let b = data[i];
        dst.push(b);
        proof {
            assert(dst@ =~= old(dst)@ + data@.take(i as int + 1));
        }
        i = i + 1;
    }
    proof {
        assert(old(dst)@ + data@.take(data@.len() as int) =~= old(dst)@ + data@);
    }
}

impl MemIo {
    /// Creates a stream with empty buffers and an open input.
    pub fn new() -> (s: MemIo)
        ensures
            s@ == (StreamView {
                input: Seq::<u8>::empty(),
                input_closed: false,
                output: Seq::<u8>::empty(),
            }),
    {
        MemIo { input: Vec::new(), input_closed: false, output: Vec::new() }
    }

    /// Appends bytes to the tail of the input buffer.
    ///
    /// Pushing after [`MemIo::shutdown_input`] is a usage-contract violation,
    /// so a closed input is excluded up front.
    pub fn push_bytes(&mut self, data: &[u8])
        requires
            !old(self)@.input_closed,
        ensures
            final(self)@ == (StreamView { input: old(self)@.input + data@, ..old(self)@ }),
    {
        append_bytes(&mut self.input, data);
    }

    /// True once the input was half-closed by [`MemIo::shutdown_input`].
    pub fn input_closed(&self) -> (r: bool)
        ensures
            r == self@.input_closed,
    {
        self.input_closed
    }

    /// Marks the input as closed, so reads past the buffered bytes report
    /// end-of-stream. Irreversible.
    pub fn shutdown_input(&mut self)
        ensures
            final(self)@ == (StreamView { input_closed: true, ..old(self)@ }),
    {
        self.input_closed = true;
    }

    /// Reads up to `capacity` bytes from the front of the input buffer.
    ///
    /// With bytes available it removes and returns `min(capacity, len)` of
    /// them in FIFO order; on an empty input it reports end-of-stream when
    /// the input is closed and would-block otherwise, changing nothing.
    pub fn read(&mut self, capacity: usize) -> (r: ReadOutcome)
        ensures
            final(self)@ == spec_read_state(old(self)@, capacity as nat),
            r@ == spec_read_outcome(old(self)@, capacity as nat),
    {
        if self.input.len() > 0 {
            let n: usize = if capacity <= self.input.len() {
                capacity
            } else {
                self.input.len()
            };
            let mut taken = self.input.split_off(n);
            core::mem::swap(&mut self.input, &mut taken);
            proof {
                assert(self@ =~= spec_read_state(old(self)@, capacity as nat));
                assert(taken@ =~= old(self)@.input.take(n as int));
            }
            ReadOutcome::Data(taken)
        } else {
            if self.input_closed {
                ReadOutcome::Eof
            } else {
                ReadOutcome::WouldBlock
            }
        }
    }

    /// Appends all of `data` to the output buffer and reports how many bytes
    /// were written: always all of them, with no backpressure.
    pub fn write(&mut self, data: &[u8]) -> (n: usize)
        ensures
            n == data@.len(),
            final(self)@ == (StreamView { output: old(self)@.output + data@, ..old(self)@ }),
    {
        append_bytes(&mut self.output, data);
        data.len()
    }

    /// Does nothing: there is no buffering between [`MemIo::write`] and the
    /// output buffer.
    pub fn flush(&mut self)
        ensures
            *final(self) == *old(self),
    {
    }

    /// Non-destructive snapshot of the output buffer: the buffer keeps its
    /// bytes, and the same bytes come back until more is written.
    pub fn output_bytes(&self) -> (r: Vec<u8>)
        ensures
            r@ == self@.output,
    {
        let mut r: Vec<u8> = Vec::new();
        append_bytes(&mut r, self.output.as_slice());
        proof {
            assert(Seq::<u8>::empty() + self@.output =~= self@.output);
        }
        r
    }

    /// Non-destructive snapshot of the output buffer as text; bytes that are
    /// not valid UTF-8 are degraded lossily.
    pub fn output_str(&self) -> (r: String)
        ensures
            r@ == lossy_utf8(self@.output),
    {
        utf8_lossy(&self.output)
    }
}

/// The bytes a single read outcome carries: what a `Data` outcome holds,
/// nothing for end-of-stream or would-block.
pub open spec fn outcome_bytes(r: ReadModel) -> Seq<u8> {
    match r {
        ReadModel::Data(d) => d,
        ReadModel::Eof => Seq::<u8>::empty(),
        ReadModel::WouldBlock => Seq::<u8>::empty(),
    }
}

/// The stream state left after performing one read per capacity in `caps`,
/// in order.
pub open spec fn drain_states(s: StreamView, caps: Seq<nat>) -> StreamView
    decreases caps.len(),
{
    if caps.len() == 0 {
        s
    } else {
        drain_states(spec_read_state(s, caps[0]), caps.skip(1))
    }
}

/// All bytes returned by performing one read per capacity in `caps`, in
/// order, concatenated.
pub open spec fn drain_bytes(s: StreamView, caps: Seq<nat>) -> Seq<u8>
    decreases caps.len(),
{
    if caps.len() == 0 {
        Seq::<u8>::empty()
    } else {
        outcome_bytes(spec_read_outcome(s, caps[0])) + drain_bytes(
            spec_read_state(s, caps[0]),
            caps.skip(1),
        )
    }
}

/// Law: any sequence of reads returns the input's bytes from the front, in
/// FIFO order — the bytes handed out, concatenated in call order, followed
/// by the bytes still buffered, are exactly the input. In particular the
/// total number of bytes read never exceeds the number of bytes pushed.
pub proof fn lemma_reads_fifo(s: StreamView, caps: Seq<nat>)
    ensures
        s.input == drain_bytes(s, caps) + drain_states(s, caps).input,
        drain_bytes(s, caps).len() <= s.input.len(),
    decreases caps.len(),
{
    if caps.len() == 0 {
        assert(s.input =~= drain_bytes(s, caps) + drain_states(s, caps).input);
    } else {
        let s1 = spec_read_state(s, caps[0]);
        let b0 = outcome_bytes(spec_read_outcome(s, caps[0]));
        lemma_reads_fifo(s1, caps.skip(1));
        assert(s.input =~= b0 + s1.input);
        assert(s.input =~= drain_bytes(s, caps) + drain_states(s, caps).input);
    }
}

/// Law: one read takes exactly `min(capacity, len)` bytes off the front of a
/// non-empty input and leaves the rest buffered.
pub proof fn lemma_read_returns_min(s: StreamView, capacity: nat)
    requires
        s.input.len() > 0,
    ensures
        spec_read_outcome(s, capacity) == ReadModel::Data(
            s.input.take(read_count(s.input, capacity) as int),
        ),
        outcome_bytes(spec_read_outcome(s, capacity)).len() == read_count(s.input, capacity),
        spec_read_state(s, capacity).input == s.input.skip(read_count(s.input, capacity) as int),
        spec_read_state(s, capacity).input_closed == s.input_closed,
        spec_read_state(s, capacity).output == s.output,
{
}

/// Law: once the input is closed and empty, every read reports end-of-stream
/// and changes nothing, so every subsequent read does the same.
pub proof fn lemma_eof_repeats(s: StreamView, capacity: nat)
    requires
        s.input.len() == 0,
        s.input_closed,
    ensures
        spec_read_outcome(s, capacity) == ReadModel::Eof,
        spec_read_state(s, capacity) == s,
{
}

/// Law: a read against an empty input that is still open reports would-block
/// — not end-of-stream, and no error — and changes nothing.
pub proof fn lemma_empty_open_would_block(s: StreamView, capacity: nat)
    requires
        s.input.len() == 0,
        !s.input_closed,
    ensures
        spec_read_outcome(s, capacity) == ReadModel::WouldBlock,
        spec_read_state(s, capacity) == s,
{
}

/// Law: a closed input never reopens — reading, the only transition that
/// touches the input besides pushes (which a closed input refuses), keeps
/// the closed mark set.
pub proof fn lemma_closed_is_permanent(s: StreamView, capacity: nat)
    requires
        s.input_closed,
    ensures
        spec_read_state(s, capacity).input_closed,
{
}

/// Law: the textual output snapshot is a function of the output bytes alone,
/// so two snapshots with no write in between are the same string.
pub proof fn lemma_output_str_repeatable(output: Seq<u8>, r1: Seq<char>, r2: Seq<char>)
    requires
        r1 == lossy_utf8(output),
        r2 == lossy_utf8(output),
    ensures
        r1 == r2,
{
}

/// The character sequence that lossy UTF-8 decoding yields for these bytes.
pub uninterp spec fn lossy_utf8(bytes: Seq<u8>) -> Seq<char>;

/// Relies on String::from_utf8_lossy: the result is a function of the bytes
/// alone, and empty input decodes to the empty string.
#[verifier::external_body]
fn utf8_lossy(bytes: &Vec<u8>) -> (r: String)
    ensures
        r@ == lossy_utf8(bytes@),
        bytes@.len() == 0 ==> r@.len() == 0,
{
    String::from_utf8_lossy(bytes).into_owned()
}

} // verus!
