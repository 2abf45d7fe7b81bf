//! A relayed connection: a substream, and what was read from it ahead of time.

use bytes::Buf;
use vstd::prelude::*;

use crate::address::Multiaddr;

verus! {

#[verifier::external_type_specification]
#[verifier::external_body]
pub struct ExBytes(bytes::Bytes);

/// The bytes that a `bytes::Bytes` holds.
pub uninterp spec fn bytes_contents(buf: bytes::Bytes) -> Seq<u8>;

/// Calls `Buf::has_remaining`: whether bytes are left.
#[verifier::external_body]
fn has_remaining(buf: &bytes::Bytes) -> (r: bool)
    ensures
        r == (bytes_contents(*buf).len() > 0),
{
    buf.has_remaining()
}

/// Calls `Buf::remaining`: how many bytes are left.
#[verifier::external_body]
fn remaining(buf: &bytes::Bytes) -> (r: usize)
    ensures
        r == bytes_contents(*buf).len(),
{
    buf.remaining()
}

/// Calls `Deref::deref`: the bytes that are left.
#[verifier::external_body]
fn as_slice(buf: &bytes::Bytes) -> (r: &[u8])
    ensures
        r@ == bytes_contents(*buf),
{
    std::ops::Deref::deref(buf)
}

/// Calls `Buf::advance`, which drops bytes at the front. It panics if there are not as many.
#[verifier::external_body]
fn advance(buf: &mut bytes::Bytes, count: usize)
    requires
        count <= bytes_contents(*old(buf)).len(),
    ensures
        bytes_contents(*final(buf)) == bytes_contents(*old(buf)).skip(count as int),
{
    buf.advance(count)
}

/// A connection to a remote address over a substream of type `S`.
#[derive(Debug)]
pub struct Connection<S> {
    pub remote_addr: Multiaddr,
    /// Bytes that came before anything that the substream still gives.
    pub remaining_buf: bytes::Bytes,
    pub sub_stream: S,
}

/// The lengths of buffers.
pub open spec fn lengths(bufs: Seq<Vec<u8>>) -> Seq<nat> {
    bufs.map_values(|buf: Vec<u8>| buf@.len())
}

/// Where buffer `i` starts, if the buffers are filled one behind the other.
pub open spec fn offset(lens: Seq<nat>, i: int) -> nat
    decreases i,
{
    if i <= 0 {
        0
    } else {
        offset(lens, i - 1) + lens[i - 1]
    }
}

/// How many buffers, from buffer `i` on, are not empty and can be filled with the bytes that are
/// available to all of them.
pub open spec fn filled(lens: Seq<nat>, available: nat, i: int) -> nat
    decreases lens.len() - i,
{
    if 0 <= i < lens.len() && lens[i] > 0 && offset(lens, i + 1) <= available {
        1 + filled(lens, available, i + 1)
    } else {
        0
    }
}

/// The available bytes end where a buffer ends, or go beyond the buffers that can be filled.
pub open spec fn ends_at_buffer(lens: Seq<nat>, available: nat) -> bool {
    let k = filled(lens, available, 0) as int;
    k < lens.len() ==> lens[k] == 0 || offset(lens, k) == available
}

impl<S> Connection<S> {
    /// The bytes that were read ahead of time.
    pub open spec fn buffered(self) -> Seq<u8> {
        bytes_contents(self.remaining_buf)
    }

    pub fn new(remote_addr: Multiaddr, remaining_buf: bytes::Bytes, sub_stream: S) -> (r: Self)
        ensures
            r == (Connection { remote_addr, remaining_buf, sub_stream }),
    {
        Connection { remote_addr, remaining_buf, sub_stream }
    }

    pub fn remote_addr(&self) -> (r: &Multiaddr)
        ensures
            *r == self.remote_addr,
    {
        &self.remote_addr
    }

    /// Reads what was read ahead of time into a buffer, as much as it holds. `None` means that
    /// nothing is left of it, and that the substream is to be read.
    pub fn read_buffered(&mut self, buf: &mut [u8]) -> (r: Option<usize>)
        ensures
            final(self).remote_addr == old(self).remote_addr,
            final(self).sub_stream == old(self).sub_stream,
            match r {
                Some(n) => {
                    &&& old(self).buffered().len() > 0
                    &&& n == piece(old(self).buffered(), old(buf)@.len())
                    &&& final(buf)@ == old(self).buffered().take(n as int) + old(buf)@.skip(n as int)
                    &&& final(self).buffered() == old(self).buffered().skip(n as int)
                },
                None => {
                    &&& old(self).buffered().len() == 0
                    &&& final(buf)@ == old(buf)@
                    &&& *final(self) == *old(self)
                },
            },
    {
        if !has_remaining(&self.remaining_buf) {
            return None;
        }
        let available: usize = remaining(&self.remaining_buf);
        let copied: usize = if available <= buf.len() {
            available
        } else {
            buf.len()
        };
        let ghost before = buf@;
        let source = as_slice(&self.remaining_buf);
        let mut i: usize = 0;
        while i < copied
            invariant
                i <= copied <= source@.len(),
                copied <= before.len(),
                buf@ == source@.take(i as int) + before.skip(i as int),
            decreases copied - i,
        {
            buf[i] = source[i];
            i = i + 1;
            assert(buf@ =~= source@.take(i as int) + before.skip(i as int));
        }
        advance(&mut self.remaining_buf, copied);
        Some(copied)
    }

    /// Whether the bytes that were read ahead of time end where one of the buffers ends, or go
    /// beyond the buffers that [`Self::read_buffered_vectored`] fills.
    pub fn ends_at_buffer(&self, bufs: &Vec<Vec<u8>>) -> (r: bool)
        ensures
            r == ends_at_buffer(lengths(bufs@), self.buffered().len()),
    {
        let available: usize = remaining(&self.remaining_buf);
        let ghost lens = lengths(bufs@);
        let mut total: usize = 0;
        let mut i: usize = 0;
        while i < bufs.len()
            invariant
                i <= bufs@.len(),
                lens == lengths(bufs@),
                available == self.buffered().len(),
                total == offset(lens, i as int),
                total <= available,
                filled(lens, available as nat, 0) == i + filled(lens, available as nat, i as int),
            decreases bufs.len() - i,
        {
            let len: usize = bufs[i].len();
            assert(lens[i as int] == len);
            if len == 0 || total == available {
                return true;
            }
            if len > available - total {
                return false;
            }
            total = total + len;
            i = i + 1;
        }
        true
    }

    /// Reads what was read ahead of time into buffers, one behind the other, up to the first one
    /// that is empty. `None` means that nothing is left of it, and that the substream is to be read.
    pub fn read_buffered_vectored(&mut self, bufs: &mut Vec<Vec<u8>>) -> (r: Option<usize>)
        requires
            ends_at_buffer(lengths(old(bufs)@), old(self).buffered().len()),
        ensures
            final(self).remote_addr == old(self).remote_addr,
            final(self).sub_stream == old(self).sub_stream,
            match r {
                Some(n) => {
                    let lens = lengths(old(bufs)@);
                    let k = filled(lens, old(self).buffered().len(), 0) as int;
                    &&& old(self).buffered().len() > 0
                    &&& n == offset(lens, k)
                    &&& final(bufs)@.len() == old(bufs)@.len()
                    &&& forall|j: int|
                        0 <= j < k ==> (#[trigger] final(bufs)@[j])@ == old(self).buffered().subrange(
                            offset(lens, j) as int,
                            offset(lens, j + 1) as int,
                        )
                    &&& forall|j: int|
                        k <= j < final(bufs)@.len() ==> #[trigger] final(bufs)@[j] == old(bufs)@[j]
                    &&& final(self).buffered() == old(self).buffered().skip(n as int)
                },
                None => {
                    &&& old(self).buffered().len() == 0
                    &&& final(bufs)@ == old(bufs)@
                    &&& *final(self) == *old(self)
                },
            },
    {
        if !has_remaining(&self.remaining_buf) {
            return None;
        }
        let available: usize = remaining(&self.remaining_buf);
        let ghost before = bufs@;
        let ghost lens = lengths(before);
        let source = as_slice(&self.remaining_buf);
        let ghost k = filled(lens, available as nat, 0) as int;
        let mut total: usize = 0;
        let mut i: usize = 0;
        proof {
            lemma_filled(lens, available as nat, 0);
        }
        while i < bufs.len() && bufs[i].len() > 0 && total < available
            invariant
                i <= k <= bufs@.len(),
                bufs@.len() == before.len(),
                lens == lengths(before),
                source@.len() == available,
                source@ == old(self).buffered(),
                total == offset(lens, i as int),
                total <= available,
                k == i + filled(lens, available as nat, i as int),
                ends_at_buffer(lens, available as nat),
                k == filled(lens, available as nat, 0),
                forall|j: int|
                    0 <= j < i ==> (#[trigger] bufs@[j])@ == source@.subrange(
                        offset(lens, j) as int,
                        offset(lens, j + 1) as int,
                    ),
                forall|j: int| i <= j < bufs@.len() ==> #[trigger] bufs@[j] == before[j],
            decreases bufs.len() - i,
        {
            assert(bufs@[i as int] == before[i as int]);
            assert(lens[i as int] == bufs@[i as int]@.len());
            let len: usize = bufs[i].len();
            proof {
                lemma_filled(lens, available as nat, i as int);
            }
            assert(i < k);
            copy_from(&mut bufs[i], source, total);
            assert(source@.subrange(total as int, total + len) == source@.subrange(
                offset(lens, i as int) as int,
                offset(lens, i + 1) as int,
            ));
            total = total + len;
            i = i + 1;
        }
        proof {
            lemma_filled(lens, available as nat, i as int);
            if i < bufs@.len() {
                assert(bufs@[i as int] == before[i as int]);
                assert(lens[i as int] == bufs@[i as int]@.len());
            }
            assert(i == k);
        }
        advance(&mut self.remaining_buf, total);
        Some(total)
    }
}

/// A filled buffer is not empty, and ends within what is available.
proof fn lemma_filled(lens: Seq<nat>, available: nat, i: int)
    requires
        0 <= i <= lens.len(),
        offset(lens, i) <= available,
    ensures
        i + filled(lens, available, i) <= lens.len(),
        offset(lens, i + filled(lens, available, i)) <= available,
    decreases lens.len() - i,
{
    if i < lens.len() && lens[i] > 0 && offset(lens, i + 1) <= available {
        lemma_filled(lens, available, i + 1);
    }
}

/// Fills a buffer from a position of a source.
fn copy_from(buf: &mut Vec<u8>, source: &[u8], from: usize)
    requires
        from + old(buf)@.len() <= source@.len(),
    ensures
        final(buf)@ == source@.subrange(from as int, from + old(buf)@.len()),
{
    let len: usize = buf.len();
    let end: usize = source.len();
    let mut i: usize = 0;
    while i < len
        invariant
            i <= len,
            buf@.len() == len,
            from + len <= end,
            end == source@.len(),
            forall|j: int| 0 <= j < i ==> buf@[j] == source@[from + j],
        decreases len - i,
    {
        buf[i] = source[from + i];
        i = i + 1;
    }
    assert(buf@ =~= source@.subrange(from as int, from + len));
}

/// What is read, in pieces of at most these sizes, of bytes that were read ahead of time.
pub open spec fn read_in_pieces(buffered: Seq<u8>, sizes: Seq<nat>) -> Seq<u8>
    decreases sizes.len(),
{
    if sizes.len() == 0 {
        Seq::empty()
    } else {
        let n = piece(buffered, sizes[0]);
        buffered.take(n as int) + read_in_pieces(buffered.skip(n as int), sizes.drop_first())
    }
}

/// What is left after reading in pieces of at most these sizes.
pub open spec fn left_after_pieces(buffered: Seq<u8>, sizes: Seq<nat>) -> Seq<u8>
    decreases sizes.len(),
{
    if sizes.len() == 0 {
        buffered
    } else {
        left_after_pieces(
            buffered.skip(piece(buffered, sizes[0]) as int),
            sizes.drop_first(),
        )
    }
}

/// How much of the bytes a buffer of this size takes.
pub open spec fn piece(buffered: Seq<u8>, size: nat) -> nat {
    if buffered.len() <= size {
        buffered.len()
    } else {
        size
    }
}

/// Reading in pieces, however large the buffers are, loses nothing, repeats nothing and keeps the
/// order: what was read and what is left make up what was there.
pub proof fn lemma_pieces_make_up_buffer(buffered: Seq<u8>, sizes: Seq<nat>)
    ensures
        read_in_pieces(buffered, sizes) + left_after_pieces(buffered, sizes) == buffered,
    decreases sizes.len(),
{
    if sizes.len() > 0 {
        let n = piece(buffered, sizes[0]) as int;
        lemma_pieces_make_up_buffer(buffered.skip(n), sizes.drop_first());
        let rest = read_in_pieces(buffered.skip(n), sizes.drop_first());
        let left = left_after_pieces(buffered.skip(n), sizes.drop_first());
        assert(buffered.take(n) + rest + left =~= buffered.take(n) + (rest + left));
        assert(buffered.take(n) + buffered.skip(n) =~= buffered);
    } else {
        assert(Seq::<u8>::empty() + buffered =~= buffered);
    }
}

/// Reading gives what was read ahead of time, in order: what comes into the front of the buffer and
/// what is left make up what was there, and the rest of the buffer stays as it is. As much is read
/// as there is or as the buffer holds. Only when nothing is left is the substream to be read, and
/// the connection is otherwise left alone.
pub proof fn lemma_read_ahead<S>(c: &mut Connection<S>, buf: &mut [u8], r: Option<usize>)
    requires
        call_ensures(Connection::<S>::read_buffered, (c, buf), r),
    ensures
        final(c).remote_addr == old(c).remote_addr,
        final(c).sub_stream == old(c).sub_stream,
        final(buf)@.len() == old(buf)@.len(),
        r is None <==> bytes_contents(old(c).remaining_buf).len() == 0,
        r is None ==> *final(c) == *old(c) && final(buf)@ == old(buf)@,
        r matches Some(n) ==> {
            &&& n <= old(buf)@.len()
            &&& final(buf)@.take(n as int) + bytes_contents(final(c).remaining_buf)
                == bytes_contents(old(c).remaining_buf)
            &&& final(buf)@.skip(n as int) == old(buf)@.skip(n as int)
            &&& n == old(buf)@.len() || bytes_contents(final(c).remaining_buf).len() == 0
        },
{
    if let Some(n) = r {
        let before = bytes_contents(old(c).remaining_buf);
        let k = n as int;
        assert(final(buf)@.take(k) =~= before.take(k));
        assert(before.take(k) + before.skip(k) =~= before);
        assert(final(buf)@.skip(k) =~= old(buf)@.skip(k));
    }
}

/// The contents of the first buffers, one behind the other.
pub open spec fn joined(bufs: Seq<Vec<u8>>, count: int) -> Seq<u8>
    decreases count,
{
    if count <= 0 {
        Seq::empty()
    } else {
        joined(bufs, count - 1) + bufs[count - 1]@
    }
}

/// How many bytes the first buffers hold.
pub open spec fn room(bufs: Seq<Vec<u8>>, count: int) -> nat
    decreases count,
{
    if count <= 0 {
        0
    } else {
        room(bufs, count - 1) + bufs[count - 1]@.len()
    }
}

/// Buffers start where the buffers before them end.
proof fn lemma_room(bufs: Seq<Vec<u8>>, count: int)
    requires
        count <= bufs.len(),
    ensures
        room(bufs, count) == offset(lengths(bufs), count),
    decreases count,
{
    if count > 0 {
        lemma_room(bufs, count - 1);
    }
}

/// A buffer holds its piece of the source.
spec fn holds_piece(bufs: Seq<Vec<u8>>, lens: Seq<nat>, source: Seq<u8>, j: int) -> bool {
    &&& offset(lens, j + 1) <= source.len()
    &&& bufs[j]@ == source.subrange(offset(lens, j) as int, offset(lens, j + 1) as int)
}

/// Buffers that hold one piece behind the other hold it all.
proof fn lemma_joined(bufs: Seq<Vec<u8>>, lens: Seq<nat>, source: Seq<u8>, count: int)
    requires
        0 <= count <= bufs.len(),
        count <= lens.len(),
        forall|j: int| 0 <= j < count ==> #[trigger] holds_piece(bufs, lens, source, j),
    ensures
        joined(bufs, count) == source.take(offset(lens, count) as int),
        offset(lens, count) <= source.len() || count == 0,
    decreases count,
{
    if count > 0 {
        lemma_joined(bufs, lens, source, count - 1);
        let j = count - 1;
        assert(holds_piece(bufs, lens, source, j));
        assert(source.take(offset(lens, j) as int) + bufs[j]@ =~= source.take(
            offset(lens, count) as int,
        ));
    } else {
        assert(source.take(0) =~= Seq::empty());
    }
}

/// The buffers that can be filled are not empty, and are filled with what is available.
proof fn lemma_filled_each(lens: Seq<nat>, available: nat, i: int, j: int)
    requires
        0 <= i <= j < i + filled(lens, available, i),
    ensures
        j < lens.len(),
        lens[j] > 0,
        offset(lens, j + 1) <= available,
    decreases lens.len() - i,
{
    if i < lens.len() && i < j {
        lemma_filled_each(lens, available, i + 1, j);
    }
}

/// Reading into several buffers gives what was read ahead of time, in order: what comes into the
/// first buffers, one behind the other, and what is left make up what was there, and the other
/// buffers stay as they are. The first buffers are filled up to an empty buffer, the last buffer or
/// the last byte, whichever comes first. Only when nothing is left is the substream to be read.
pub proof fn lemma_read_ahead_vectored<S>(
    c: &mut Connection<S>,
    bufs: &mut Vec<Vec<u8>>,
    r: Option<usize>,
)
    requires
        ends_at_buffer(lengths(old(bufs)@), old(c).buffered().len()),
        call_ensures(Connection::<S>::read_buffered_vectored, (c, bufs), r),
    ensures
        final(c).remote_addr == old(c).remote_addr,
        final(c).sub_stream == old(c).sub_stream,
        r is None <==> bytes_contents(old(c).remaining_buf).len() == 0,
        r is None ==> *final(c) == *old(c) && final(bufs)@ == old(bufs)@,
        r matches Some(n) ==> exists|k: int|
            {
                let left = bytes_contents(final(c).remaining_buf);
                &&& 0 <= k <= old(bufs)@.len()
                &&& final(bufs)@.len() == old(bufs)@.len()
                &&& #[trigger] joined(final(bufs)@, k) + left == bytes_contents(
                    old(c).remaining_buf,
                )
                &&& n == joined(final(bufs)@, k).len()
                &&& forall|j: int|
                    0 <= j < k ==> 0 < (#[trigger] final(bufs)@[j])@.len() == old(bufs)@[j]@.len()
                &&& forall|j: int|
                    k <= j < old(bufs)@.len() ==> #[trigger] final(bufs)@[j] == old(bufs)@[j]
                &&& k < old(bufs)@.len() ==> old(bufs)@[k]@.len() == 0 || left.len() == 0
            },
{
    if let Some(n) = r {
        let source = old(c).buffered();
        let lens = lengths(old(bufs)@);
        let k = filled(lens, source.len(), 0) as int;
        lemma_filled(lens, source.len(), 0);
        assert forall|j: int| 0 <= j < k implies #[trigger] holds_piece(
            final(bufs)@,
            lens,
            source,
            j,
        ) && 0 < final(bufs)@[j]@.len() == old(bufs)@[j]@.len() by {
            lemma_filled_each(lens, source.len(), 0, j);
            assert(lens[j] == old(bufs)@[j]@.len());
        }
        assert forall|j: int| 0 <= j < k implies 0 < (#[trigger] final(bufs)@[j])@.len() == old(
            bufs,
        )@[j]@.len() by {
            assert(holds_piece(final(bufs)@, lens, source, j));
        }
        lemma_joined(final(bufs)@, lens, source, k);
        assert(source.take(n as int) + source.skip(n as int) =~= source);
        assert(joined(final(bufs)@, k) + bytes_contents(final(c).remaining_buf) == source);
        if k < lens.len() {
            assert(lens[k] == old(bufs)@[k]@.len());
        }
    }
}

/// What was read ahead of time does not end at a buffer exactly if it ends within one: the buffers
/// before that one can be filled and none of them is empty, and there is something for it, but not
/// enough to fill it.
pub proof fn lemma_ends_within_buffer<S>(c: Connection<S>, bufs: Vec<Vec<u8>>, r: bool)
    requires
        call_ensures(Connection::<S>::ends_at_buffer, (&c, &bufs), r),
    ensures
        !r <==> exists|k: int|
            {
                &&& 0 <= k < bufs@.len()
                &&& #[trigger] room(bufs@, k) < bytes_contents(c.remaining_buf).len() < room(
                    bufs@,
                    k + 1,
                )
                &&& forall|j: int| 0 <= j < k ==> (#[trigger] bufs@[j])@.len() > 0
            },
{
    let lens = lengths(bufs@);
    let available = bytes_contents(c.remaining_buf).len();
    let k = filled(lens, available, 0) as int;
    lemma_filled(lens, available, 0);
    if !r {
        lemma_room(bufs@, k);
        lemma_room(bufs@, k + 1);
        assert(offset(lens, k + 1) > available) by {
            lemma_stops(lens, available, 0);
        }
        assert forall|j: int| 0 <= j < k implies (#[trigger] bufs@[j])@.len() > 0 by {
            lemma_filled_each(lens, available, 0, j);
            assert(lens[j] == bufs@[j]@.len());
        }
        assert(room(bufs@, k) < available < room(bufs@, k + 1));
    }
    if exists|i: int|
        {
            &&& 0 <= i < bufs@.len()
            &&& #[trigger] room(bufs@, i) < available < room(bufs@, i + 1)
            &&& forall|j: int| 0 <= j < i ==> (#[trigger] bufs@[j])@.len() > 0
        } {
        let i = choose|i: int|
            {
                &&& 0 <= i < bufs@.len()
                &&& #[trigger] room(bufs@, i) < available < room(bufs@, i + 1)
                &&& forall|j: int| 0 <= j < i ==> (#[trigger] bufs@[j])@.len() > 0
            };
        lemma_room(bufs@, i);
        lemma_room(bufs@, i + 1);
        assert forall|j: int| 0 <= j < i implies #[trigger] lens[j] > 0 by {
            assert(lens[j] == bufs@[j]@.len());
        }
        assert(lens[i] == bufs@[i]@.len());
        lemma_filled_up_to(lens, available, 0, i);
    }
}

/// Behind the buffers that can be filled comes an empty one, or one that is too long.
proof fn lemma_stops(lens: Seq<nat>, available: nat, i: int)
    requires
        0 <= i,
    ensures
        ({
            let k = i + filled(lens, available, i);
            k < lens.len() ==> lens[k] == 0 || offset(lens, k + 1) > available
        }),
    decreases lens.len() - i,
{
    if i < lens.len() && lens[i] > 0 && offset(lens, i + 1) <= available {
        lemma_stops(lens, available, i + 1);
    }
}

/// The buffers up to one that is too long can be filled, if none of them is empty.
proof fn lemma_filled_up_to(lens: Seq<nat>, available: nat, i: int, k: int)
    requires
        0 <= i <= k < lens.len(),
        forall|j: int| i <= j < k ==> #[trigger] lens[j] > 0,
        offset(lens, k) <= available,
        offset(lens, k + 1) > available,
    ensures
        i + filled(lens, available, i) == k,
    decreases k - i,
{
    if i < k {
        lemma_offset_grows(lens, i + 1, k);
        lemma_filled_up_to(lens, available, i + 1, k);
    }
}

proof fn lemma_offset_grows(lens: Seq<nat>, i: int, k: int)
    requires
        0 <= i <= k,
    ensures
        offset(lens, i) <= offset(lens, k),
    decreases k - i,
{
    if i < k {
        lemma_offset_grows(lens, i, k - 1);
    }
}

/// A connection is made of its remote address, what was read ahead of time and the substream.
pub proof fn lemma_connection_is_made<S>(
    addr: Multiaddr,
    buf: bytes::Bytes,
    stream: S,
    connection: Connection<S>,
    remote: &Multiaddr,
)
    requires
        call_ensures(Connection::<S>::new, (addr, buf, stream), connection),
        call_ensures(Connection::<S>::remote_addr, (&connection,), remote),
    ensures
        *remote == addr,
        connection.remaining_buf == buf,
        connection.sub_stream == stream,
{
}

} // verus!
