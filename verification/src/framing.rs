//! The wire frame: a four-byte big-endian length, then that many payload
//! bytes.
use vstd::prelude::*;

verus! {

/// The largest payload that `read_frame` accepts.
pub const MAX_FRAME_LEN: usize = 10_000_000;

/// The number of bytes in a frame's length prefix.
pub const HEADER_LEN: usize = 4;

/// Why a frame could not be written or read.
#[derive(Debug, Clone, Copy, PartialEq, Eq)]
pub enum FrameError {
    /// The payload's length does not fit in the four-byte prefix.
    MessageTooLarge(usize),
    /// The prefix declares more than `MAX_FRAME_LEN` payload bytes.
    FrameTooLarge(usize),
    /// The source ended inside the prefix or inside the payload.
    UnexpectedEof,
}

/// The frame codec. It holds no state: a frame depends on its payload alone.
pub struct FrameCodec;

/// The four bytes that stand for `n`, most significant first.
pub open spec fn be_bytes(n: nat) -> Seq<u8> {
    seq![
        ((n / 0x100_0000) % 256) as u8,
        ((n / 0x1_0000) % 256) as u8,
        ((n / 0x100) % 256) as u8,
        (n % 256) as u8,
    ]
}

/// The number that the first four bytes of `b` stand for, most significant
/// first.
pub open spec fn be_value(b: Seq<u8>) -> nat
    recommends
        b.len() >= 4,
{
    (b[0] as nat) * 0x100_0000 + (b[1] as nat) * 0x1_0000 + (b[2] as nat) * 0x100 + (b[3] as nat)
}

/// The frame that carries `payload`.
pub open spec fn frame(payload: Seq<u8>) -> Seq<u8> {
    be_bytes(payload.len()) + payload
}

/// The frames of `payloads`, one after the other.
pub open spec fn frames(payloads: Seq<Seq<u8>>) -> Seq<u8>
    decreases payloads.len(),
{
    if payloads.len() == 0 {
        Seq::empty()
    } else {
        frame(payloads[0]) + frames(payloads.drop_first())
    }
}

/// What reading one frame from the start of `s` gives: the payload and the
/// number of bytes that the frame takes, or the reason why there is none.
pub open spec fn first_frame(s: Seq<u8>) -> Result<(Seq<u8>, nat), FrameError> {
    if s.len() < 4 {
        Err(FrameError::UnexpectedEof)
    } else if be_value(s) > MAX_FRAME_LEN {
        Err(FrameError::FrameTooLarge(be_value(s) as usize))
    } else if s.len() < 4 + be_value(s) {
        Err(FrameError::UnexpectedEof)
    } else {
        Ok((s.subrange(4, (4 + be_value(s)) as int), 4 + be_value(s)))
    }
}

/// What is left to read of `s` from the position `pos`: nothing where the
/// position is past the end.
pub open spec fn unread(s: Seq<u8>, pos: int) -> Seq<u8> {
    if 0 <= pos <= s.len() {
        s.skip(pos)
    } else {
        Seq::empty()
    }
}

/// What reading `count` frames in a row from the start of `s` gives: their
/// payloads in order and the number of bytes that they take together, or
/// the error of the first read that fails.
pub open spec fn first_frames(s: Seq<u8>, count: nat) -> Result<(Seq<Seq<u8>>, nat), FrameError>
    decreases count,
{
    if count == 0 {
        Ok((Seq::empty(), 0))
    } else {
        match first_frame(s) {
            Err(e) => Err(e),
            Ok((payload, used)) => then_frames(
                seq![payload],
                used,
                first_frames(s.skip(used as int), (count - 1) as nat),
            ),
        }
    }
}

/// The frames read so far, followed by what the further reads give.
pub open spec fn then_frames(
    done: Seq<Seq<u8>>,
    used: nat,
    further: Result<(Seq<Seq<u8>>, nat), FrameError>,
) -> Result<(Seq<Seq<u8>>, nat), FrameError> {
    match further {
        Err(e) => Err(e),
        Ok((rest, more)) => Ok((done + rest, used + more)),
    }
}

/// The payloads as byte sequences.
pub open spec fn payload_views(payloads: Seq<Vec<u8>>) -> Seq<Seq<u8>> {
    payloads.map_values(|p: Vec<u8>| p@)
}

/// The prefix of a length below 2^32 reads back as that length.
pub proof fn lemma_prefix_round_trip(n: nat)
    requires
        n <= u32::MAX,
    ensures
        be_bytes(n).len() == 4,
        be_value(be_bytes(n)) == n,
{
    let b = be_bytes(n);
    assert(b[0] as nat == (n / 0x100_0000) % 256);
    assert(b[1] as nat == (n / 0x1_0000) % 256);
    assert(b[2] as nat == (n / 0x100) % 256);
    assert(b[3] as nat == n % 256);
}

/// Reading a frame gives back the payload that was written, whatever follows
/// the frame in the stream, and takes exactly the frame's bytes.
pub proof fn lemma_frame_round_trip(payload: Seq<u8>, rest: Seq<u8>)
    requires
        payload.len() <= MAX_FRAME_LEN,
    ensures
        first_frame(frame(payload) + rest) == Ok::<(Seq<u8>, nat), FrameError>(
            (payload, 4 + payload.len()),
        ),
        (frame(payload) + rest).skip((4 + payload.len()) as int) == rest,
{
    lemma_prefix_round_trip(payload.len());
    let s = frame(payload) + rest;
    let b = be_bytes(payload.len());
    assert(s[0] == b[0] && s[1] == b[1] && s[2] == b[2] && s[3] == b[3]);
    assert(be_value(s) == payload.len());
    assert(s.subrange(4, (4 + payload.len()) as int) =~= payload);
    assert(s.skip((4 + payload.len()) as int) =~= rest);
}

/// Frames written one after the other read back as the same payloads in the
/// same order, whatever follows them in the stream, and take exactly their
/// own bytes.
pub proof fn lemma_frames_round_trip(payloads: Seq<Seq<u8>>, rest: Seq<u8>)
    requires
        forall|i: int| 0 <= i < payloads.len() ==> (#[trigger] payloads[i]).len() <= MAX_FRAME_LEN,
    ensures
        first_frames(frames(payloads) + rest, payloads.len()) == Ok::<
            (Seq<Seq<u8>>, nat),
            FrameError,
        >((payloads, frames(payloads).len())),
        (frames(payloads) + rest).skip(frames(payloads).len() as int) == rest,
    decreases payloads.len(),
{
    if payloads.len() == 0 {
        assert(payloads =~= Seq::<Seq<u8>>::empty());
        assert((frames(payloads) + rest).skip(0) =~= rest);
    } else {
        let head = payloads[0];
        let tail = payloads.drop_first();
        let after = frames(tail) + rest;
        assert(frames(payloads) + rest =~= frame(head) + after);
        lemma_frame_round_trip(head, after);
        lemma_frames_round_trip(tail, rest);
        assert(seq![head] + tail =~= payloads);
        assert((frames(payloads) + rest).skip(frames(payloads).len() as int) =~= after.skip(
            frames(tail).len() as int,
        ));
    }
}

/// After the frames that were written have been read, the stream is at its
/// end: one more read fails with an end of stream, and gives no payload.
pub proof fn lemma_frames_then_end(payloads: Seq<Seq<u8>>)
    requires
        forall|i: int| 0 <= i < payloads.len() ==> (#[trigger] payloads[i]).len() <= MAX_FRAME_LEN,
    ensures
        first_frame(frames(payloads).skip(frames(payloads).len() as int)) == Err::<
            (Seq<u8>, nat),
            FrameError,
        >(FrameError::UnexpectedEof),
        first_frames(frames(payloads), payloads.len() + 1) == Err::<
            (Seq<Seq<u8>>, nat),
            FrameError,
        >(FrameError::UnexpectedEof),
    decreases payloads.len(),
{
    if payloads.len() == 0 {
        assert(frames(payloads) =~= Seq::<u8>::empty());
    } else {
        let head = payloads[0];
        let tail = payloads.drop_first();
        lemma_frame_round_trip(head, frames(tail));
        lemma_frames_then_end(tail);
    }
}

/// What was written is read back: in a sink that held `before` and then took
/// the frames of `payloads`, reading as many frames from where they start
/// gives the payloads in their order and ends behind the last frame, and one
/// more read there finds the end of the stream.
pub proof fn lemma_read_back(before: Seq<u8>, payloads: Seq<Seq<u8>>)
    requires
        forall|i: int| 0 <= i < payloads.len() ==> (#[trigger] payloads[i]).len() <= MAX_FRAME_LEN,
    ensures
        first_frames(unread(before + frames(payloads), before.len() as int), payloads.len())
            == Ok::<(Seq<Seq<u8>>, nat), FrameError>((payloads, frames(payloads).len())),
        first_frame(
            unread(before + frames(payloads), (before.len() + frames(payloads).len()) as int),
        ) == Err::<(Seq<u8>, nat), FrameError>(FrameError::UnexpectedEof),
{
    let all = before + frames(payloads);
    assert(unread(all, before.len() as int) =~= frames(payloads) + Seq::<u8>::empty());
    lemma_frames_round_trip(payloads, Seq::empty());
    assert(unread(all, (before.len() + frames(payloads).len()) as int) =~= Seq::<u8>::empty());
}

/// Writing one more frame after others appends its frame to theirs.
pub proof fn lemma_frames_push(payloads: Seq<Seq<u8>>, last: Seq<u8>)
    ensures
        frames(payloads.push(last)) == frames(payloads) + frame(last),
    decreases payloads.len(),
{
    if payloads.len() == 0 {
        let one = payloads.push(last);
        assert(one.drop_first() =~= Seq::<Seq<u8>>::empty());
        assert(frames(one.drop_first()) =~= Seq::<u8>::empty());
        assert(one[0] == last);
        assert(frames(one) =~= frame(last));
        assert(frames(payloads) + frame(last) =~= frame(last));
    } else {
        let tail = payloads.drop_first();
        lemma_frames_push(tail, last);
        assert(payloads.push(last).drop_first() =~= tail.push(last));
        assert(frames(payloads.push(last)) =~= frames(payloads) + frame(last));
    }
}

impl FrameCodec {
    /// Appends the frame of `data` to `writer`. A payload whose length does
    /// not fit in the prefix is refused, and nothing is written.
    pub fn write_frame(writer: &mut Vec<u8>, data: &[u8]) -> (r: Result<(), FrameError>)
        ensures
            data@.len() > u32::MAX ==> r == Err::<(), FrameError>(
                FrameError::MessageTooLarge(data@.len() as usize),
            ) && final(writer)@ == old(writer)@,
            data@.len() <= u32::MAX ==> r is Ok && final(writer)@ == old(writer)@ + frame(data@),
    {
        let len: usize = data.len();
        if len > 0xFFFF_FFFF {
            return Err(FrameError::MessageTooLarge(len));
        }
        writer.push(((len / 0x100_0000) % 256) as u8);
        writer.push(((len / 0x1_0000) % 256) as u8);
        writer.push(((len / 0x100) % 256) as u8);
        writer.push((len % 256) as u8);
        assert(writer@ =~= old(writer)@ + be_bytes(len as nat));
        let mut i: usize = 0;
        while i < len
            invariant
                len == data@.len(),
                i <= len,
                writer@ == old(writer)@ + be_bytes(len as nat) + data@.subrange(0, i as int),
            decreases len - i,
        {
            writer.push(data[i]);
            i = i + 1;
            assert(data@.subrange(0, i as int) =~= data@.subrange(0, i - 1).push(data@[i - 1]));
            assert(writer@ =~= old(writer)@ + be_bytes(len as nat) + data@.subrange(0, i as int));
        }
        assert(data@.subrange(0, len as int) =~= data@);
        assert(writer@ =~= old(writer)@ + frame(data@));
        Ok(())
    }

    /// The payload length that a frame's prefix declares. Fewer than four
    /// bytes are an end of stream; a length above `MAX_FRAME_LEN` is refused.
    pub fn payload_len(header: &[u8]) -> (r: Result<usize, FrameError>)
        ensures
            header@.len() < 4 ==> r == Err::<usize, FrameError>(FrameError::UnexpectedEof),
            header@.len() >= 4 && be_value(header@) > MAX_FRAME_LEN ==> r == Err::<
                usize,
                FrameError,
            >(FrameError::FrameTooLarge(be_value(header@) as usize)),
            header@.len() >= 4 && be_value(header@) <= MAX_FRAME_LEN ==> r == Ok::<
                usize,
                FrameError,
            >(be_value(header@) as usize),
    {
        if header.len() < 4 {
            return Err(FrameError::UnexpectedEof);
        }
        let b0: u64 = header[0] as u64;
        let b1: u64 = header[1] as u64;
        let b2: u64 = header[2] as u64;
        let b3: u64 = header[3] as u64;
        let declared: u64 = b0 * 0x100_0000 + b1 * 0x1_0000 + b2 * 0x100 + b3;
        if declared > 10_000_000 {
            Err(FrameError::FrameTooLarge(declared as usize))
        } else {
            Ok(declared as usize)
        }
    }

    /// Reads one frame from `source`, starting at `*pos`, and moves `*pos`
    /// past it. On an error `*pos` stays where it was. A position past the
    /// end of the source is an end of stream.
    pub fn read_frame(source: &[u8], pos: &mut usize) -> (r: Result<Vec<u8>, FrameError>)
        ensures
            match first_frame(unread(source@, *old(pos) as int)) {
                Ok((payload, used)) => r is Ok && r->Ok_0@ == payload && *final(pos) == *old(pos)
                    + used,
                Err(e) => r == Err::<Vec<u8>, FrameError>(e) && *final(pos) == *old(pos),
            },
    {
        let start: usize = *pos;
        let total: usize = source.len();
        if start > total {
            return Err(FrameError::UnexpectedEof);
        }
        let ghost rest = source@.skip(start as int);
        if total - start < 4 {
            return Err(FrameError::UnexpectedEof);
        }
        let header = vstd::slice::slice_subrange(source, start, start + 4);
        assert(header@[0] == rest[0] && header@[1] == rest[1] && header@[2] == rest[2]
            && header@[3] == rest[3]);
        let len: usize = match FrameCodec::payload_len(header) {
            Ok(n) => n,
            Err(e) => {
                return Err(e);
            },
        };
        if total - start - 4 < len {
            return Err(FrameError::UnexpectedEof);
        }
        let body = vstd::slice::slice_subrange(source, start + 4, start + 4 + len);
        let payload = vstd::slice::slice_to_vec(body);
        assert(payload@ =~= rest.subrange(4, 4 + len));
        *pos = start + 4 + len;
        Ok(payload)
    }
    /// Appends the frames of `payloads` to `writer`, in their order. Where a
    /// payload's length does not fit in the prefix, the first such payload
    /// is reported and nothing is written.
    pub fn write_frames(writer: &mut Vec<u8>, payloads: &[Vec<u8>]) -> (r: Result<(), FrameError>)
        ensures
            match r {
                Ok(_) => (forall|i: int|
                    0 <= i < payloads@.len() ==> (#[trigger] payloads@[i])@.len() <= u32::MAX)
                    && final(writer)@ == old(writer)@ + frames(payload_views(payloads@)),
                Err(e) => final(writer)@ == old(writer)@ && exists|i: int|
                    0 <= i < payloads@.len() && (#[trigger] payloads@[i])@.len() > u32::MAX && e
                        == FrameError::MessageTooLarge(payloads@[i]@.len() as usize)
                        && forall|j: int| 0 <= j < i ==> (#[trigger] payloads@[j])@.len() <= u32::MAX,
            },
    {
        let count: usize = payloads.len();
        let mut k: usize = 0;
        while k < count
            invariant
                count == payloads@.len(),
                k <= count,
                writer@ == old(writer)@,
                forall|j: int| 0 <= j < k ==> (#[trigger] payloads@[j])@.len() <= u32::MAX,
            decreases count - k,
        {
            let len: usize = payloads[k].len();
            if len > 0xFFFF_FFFF {
                return Err(FrameError::MessageTooLarge(len));
            }
            k = k + 1;
        }
        let ghost views = payload_views(payloads@);
        let mut i: usize = 0;
        assert(views.take(0) =~= Seq::<Seq<u8>>::empty());
        assert(writer@ =~= old(writer)@ + frames(views.take(0)));
        while i < count
            invariant
                count == payloads@.len(),
                views == payload_views(payloads@),
                i <= count,
                forall|j: int| 0 <= j < count ==> (#[trigger] payloads@[j])@.len() <= u32::MAX,
                writer@ == old(writer)@ + frames(views.take(i as int)),
            decreases count - i,
        {
            let ghost before = writer@;
            let written = FrameCodec::write_frame(writer, payloads[i].as_slice());
            proof {
                assert(payloads@[i as int]@.len() <= u32::MAX);
                lemma_frames_push(views.take(i as int), views[i as int]);
                assert(views.take(i + 1) =~= views.take(i as int).push(views[i as int]));
                assert(writer@ =~= old(writer)@ + frames(views.take(i + 1)));
            }
            i = i + 1;
        }
        assert(views.take(count as int) =~= views);
        Ok(())
    }

    /// Reads `count` frames in a row from `source`, starting at `*pos`, and
    /// moves `*pos` past them. Where one of the reads fails, its error is
    /// returned and `*pos` stays where it was.
    pub fn read_frames(source: &[u8], pos: &mut usize, count: usize) -> (r: Result<
        Vec<Vec<u8>>,
        FrameError,
    >)
        ensures
            match first_frames(unread(source@, *old(pos) as int), count as nat) {
                Ok((payloads, used)) => r is Ok && payload_views(r->Ok_0@) == payloads && *final(pos) == *old(pos) + used,
                Err(e) => r == Err::<Vec<Vec<u8>>, FrameError>(e) && *final(pos) == *old(pos),
            },
    {
        let start: usize = *pos;
        let mut out: Vec<Vec<u8>> = Vec::new();
        let mut i: usize = 0;
        assert(payload_views(out@) + Seq::<Seq<u8>>::empty() =~= Seq::<Seq<u8>>::empty());
        while i < count
            invariant
                i <= count,
                start <= *pos,
                *old(pos) == start,
                first_frames(unread(source@, start as int), count as nat) == then_frames(
                    payload_views(out@),
                    (*pos - start) as nat,
                    first_frames(unread(source@, *pos as int), (count - i) as nat),
                ),
            decreases count - i,
        {
            let at: usize = *pos;
            let ghost done = payload_views(out@);
            let ghost here = unread(source@, at as int);
            match FrameCodec::read_frame(source, pos) {
                Ok(payload) => {
                    proof {
                        let used = first_frame(here)->Ok_0.1;
                        assert(here.skip(used as int) =~= unread(source@, *pos as int));
                        let further = first_frames(
                            unread(source@, *pos as int),
                            (count - i - 1) as nat,
                        );
                        assert(payload_views(out@.push(payload)) =~= done.push(payload@));
                        if further is Ok {
                            assert(done.push(payload@) + further->Ok_0.0 =~= done + (seq![
                                payload@,
                            ] + further->Ok_0.0));
                        }
                    }
                    out.push(payload);
                    i = i + 1;
                },
                Err(e) => {
                    *pos = start;
                    return Err(e);
                },
            }
        }
        assert(payload_views(out@) + Seq::<Seq<u8>>::empty() =~= payload_views(out@));
        Ok(out)
    }
}

} // verus!
