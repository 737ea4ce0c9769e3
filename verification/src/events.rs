//! What the transport reports back to the decision logic, and the byte
//! helpers shared by the server and the client.
use vstd::prelude::*;

verus! {

/// Result of one `read` on a connection: the number of bytes placed at the
/// front of the read buffer (zero means the peer closed its side), or a failure.
#[derive(Clone, Copy, Debug, PartialEq, Eq, Structural)]
pub enum ReadOutcome {
    Bytes(usize),
    Failed,
}

/// Result of writing a whole reply on a connection.
#[derive(Clone, Copy, Debug, PartialEq, Eq, Structural)]
pub enum WriteOutcome {
    Sent,
    Failed,
}

/// All the chunks, one after another.
pub open spec fn concat_chunks(chunks: Seq<Seq<u8>>) -> Seq<u8>
    decreases chunks.len(),
{
    if chunks.len() == 0 {
        Seq::empty()
    } else {
        concat_chunks(chunks.drop_last()) + chunks.last()
    }
}

/// Appending one chunk appends its bytes.
pub proof fn lemma_concat_chunks_push(chunks: Seq<Seq<u8>>, chunk: Seq<u8>)
    ensures
        concat_chunks(chunks.push(chunk)) == concat_chunks(chunks) + chunk,
{
    assert(chunks.push(chunk).drop_last() =~= chunks);
}

/// Copies the first `n` bytes of `buffer` into a fresh vector.
pub fn copy_prefix(buffer: &[u8], n: usize) -> (out: Vec<u8>)
    requires
        n <= buffer@.len(),
    ensures
        out@ == buffer@.subrange(0, n as int),
{
    let mut out: Vec<u8> = Vec::new();
    let mut i: usize = 0;
    while i < n
        invariant
            i <= n,
            n <= buffer@.len(),
            out@ == buffer@.subrange(0, i as int),
        decreases n - i,
    {
        out.push(buffer[i]);
        i = i + 1;
        assert(out@ =~= buffer@.subrange(0, i as int));
    }
    out
}

/// Appends the first `n` bytes of `buffer` to `acc`.
pub fn append_prefix(acc: &mut Vec<u8>, buffer: &[u8], n: usize)
    requires
        n <= buffer@.len(),
    ensures
        final(acc)@ == old(acc)@ + buffer@.subrange(0, n as int),
{
    let ghost start = acc@;
    let mut i: usize = 0;
    while i < n
        invariant
            i <= n,
            n <= buffer@.len(),
            acc@ == start + buffer@.subrange(0, i as int),
        decreases n - i,
    {
        acc.push(buffer[i]);
        i = i + 1;
        assert(acc@ =~= start + buffer@.subrange(0, i as int));
    }
}

} // verus!
