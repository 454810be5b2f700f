//! Length-prefixed frames: a 4-byte big-endian length, then that many payload bytes.
use vstd::prelude::*;

verus! {

/// The largest payload a frame may carry (16 MiB).
pub const MAX_FRAME_SIZE: usize = 16777216;

/// Ways in which encoding or decoding a frame can fail.
#[derive(Clone, Copy, Debug, PartialEq, Eq, Structural)]
pub enum FrameError {
    /// The payload handed to `write_frame` is longer than `MAX_FRAME_SIZE`.
    PayloadTooLarge,
    /// A decoded length prefix exceeds `MAX_FRAME_SIZE`.
    LengthTooLarge,
    /// The input ends inside a length prefix or inside a payload.
    Truncated,
}

/// The four big-endian bytes of `n` (for `n < 2^32`).
pub open spec fn be_bytes(n: nat) -> Seq<u8> {
    seq![
        ((n / 256 / 256 / 256) % 256) as u8,
        ((n / 256 / 256) % 256) as u8,
        ((n / 256) % 256) as u8,
        (n % 256) as u8,
    ]
}

/// The number that four big-endian bytes spell.
pub open spec fn be_value(b: Seq<u8>) -> nat
    recommends
        b.len() == 4,
{
    (((b[0] as nat * 256 + b[1] as nat) * 256 + b[2] as nat) * 256 + b[3] as nat) as nat
}

/// The wire form of one frame.
pub open spec fn encoded(payload: Seq<u8>) -> Seq<u8> {
    be_bytes(payload.len()) + payload
}

/// What reading one frame from `s`, starting at offset `pos`, yields:
/// `Ok(None)` at a clean end, the payload and the offset after it, or an error.
pub open spec fn decode_frame(s: Seq<u8>, pos: int) -> Result<Option<(Seq<u8>, int)>, FrameError>
    recommends
        0 <= pos <= s.len(),
{
    let rest = s.len() - pos;
    if rest == 0 {
        Ok(None)
    } else if rest < 4 {
        Err(FrameError::Truncated)
    } else {
        let n = be_value(s.subrange(pos, pos + 4)) as int;
        if n > MAX_FRAME_SIZE {
            Err(FrameError::LengthTooLarge)
        } else if rest - 4 < n {
            Err(FrameError::Truncated)
        } else {
            Ok(Some((s.subrange(pos + 4, pos + 4 + n), pos + 4 + n)))
        }
    }
}

pub proof fn lemma_be_round_trip(n: nat)
    requires
        n < 0x1_0000_0000,
    ensures
        be_bytes(n).len() == 4,
        be_value(be_bytes(n)) == n,
{
    let q1 = n / 256;
    let q2 = q1 / 256;
    let q3 = q2 / 256;
    assert(q3 < 256);
    assert(n == q1 * 256 + n % 256);
    assert(q1 == q2 * 256 + q1 % 256);
    assert(q2 == q3 * 256 + q2 % 256);
}

/// Length prefix of a frame carrying `len` bytes.
fn header_bytes(len: usize) -> (r: [u8; 4])
    requires
        len <= MAX_FRAME_SIZE,
    ensures
        r@ == be_bytes(len as nat),
{
    let q1 = len / 256;
    let q2 = q1 / 256;
    let q3 = q2 / 256;
    let r = [(q3 % 256) as u8, (q2 % 256) as u8, (q1 % 256) as u8, (len % 256) as u8];
    assert(r@ =~= be_bytes(len as nat));
    r
}

/// The wire form of several frames, one after another.
pub open spec fn encoded_all(fs: Seq<Seq<u8>>) -> Seq<u8>
    decreases fs.len(),
{
    if fs.len() == 0 {
        Seq::empty()
    } else {
        encoded_all(fs.drop_last()) + encoded(fs.last())
    }
}

pub proof fn lemma_encoded_all_split(fs: Seq<Seq<u8>>, i: int)
    requires
        0 <= i <= fs.len(),
    ensures
        encoded_all(fs) == encoded_all(fs.take(i)) + encoded_all(fs.skip(i)),
    decreases fs.len(),
{
    if i == fs.len() {
        assert(fs.take(i) =~= fs);
        assert(fs.skip(i) =~= Seq::<Seq<u8>>::empty());
        assert(encoded_all(fs) + Seq::<u8>::empty() =~= encoded_all(fs));
    } else {
        lemma_encoded_all_split(fs.drop_last(), i);
        assert(fs.drop_last().take(i) =~= fs.take(i));
        assert(fs.skip(i).drop_last() =~= fs.drop_last().skip(i));
        assert(fs.skip(i).last() == fs.last());
        assert(encoded_all(fs.skip(i)) == encoded_all(fs.drop_last().skip(i)) + encoded(fs.last()));
        assert(encoded_all(fs) =~= encoded_all(fs.take(i)) + encoded_all(fs.skip(i)));
    }
}

/// A frame written with `write_frame` reads back with `read_frame` as the same
/// payload, whatever bytes stand before or after it, and the reader ends up
/// just past it.
pub proof fn lemma_frame_round_trip(prefix: Seq<u8>, payload: Seq<u8>, rest: Seq<u8>)
    requires
        payload.len() <= MAX_FRAME_SIZE,
    ensures
        decode_frame(prefix + encoded(payload) + rest, prefix.len() as int) == Ok::<
            Option<(Seq<u8>, int)>,
            FrameError,
        >(Some((payload, prefix.len() + 4 + payload.len() as int))),
{
    let s = prefix + encoded(payload) + rest;
    let p = prefix.len() as int;
    lemma_be_round_trip(payload.len());
    assert(s.subrange(p, p + 4) =~= be_bytes(payload.len()));
    assert(s.subrange(p + 4, p + 4 + payload.len()) =~= payload);
}

/// Frames written one after another read back one by one, in order, each
/// reading starting where the previous one stopped; after the last frame the
/// reader sees a clean end.
pub proof fn lemma_frame_stream(fs: Seq<Seq<u8>>)
    requires
        forall|k: int| 0 <= k < fs.len() ==> (#[trigger] fs[k]).len() <= MAX_FRAME_SIZE,
    ensures
        forall|i: int|
            0 <= i < fs.len() ==> decode_frame(
                encoded_all(fs),
                #[trigger] encoded_all(fs.take(i)).len() as int,
            ) == Ok::<Option<(Seq<u8>, int)>, FrameError>(
                Some((fs[i], encoded_all(fs.take(i + 1)).len() as int)),
            ),
        decode_frame(encoded_all(fs), encoded_all(fs).len() as int) == Ok::<
            Option<(Seq<u8>, int)>,
            FrameError,
        >(None),
{
    assert forall|i: int| 0 <= i < fs.len() implies decode_frame(
        encoded_all(fs),
        #[trigger] encoded_all(fs.take(i)).len() as int,
    ) == Ok::<Option<(Seq<u8>, int)>, FrameError>(
        Some((fs[i], encoded_all(fs.take(i + 1)).len() as int)),
    ) by {
        lemma_encoded_all_split(fs, i);
        let tail = fs.skip(i);
        lemma_encoded_all_split(tail, 1);
        assert(tail.take(1).drop_last() =~= Seq::<Seq<u8>>::empty());
        assert(tail.take(1).last() == fs[i]);
        assert(encoded_all(tail.take(1).drop_last()) =~= Seq::<u8>::empty());
        assert(encoded_all(tail.take(1)) =~= encoded(fs[i]));
        assert(encoded_all(fs) =~= encoded_all(fs.take(i)) + encoded(fs[i]) + encoded_all(
            tail.skip(1),
        ));
        lemma_frame_round_trip(encoded_all(fs.take(i)), fs[i], encoded_all(tail.skip(1)));
        assert(fs.take(i + 1).drop_last() =~= fs.take(i));
        assert(fs.take(i + 1).last() == fs[i]);
        lemma_be_round_trip(fs[i].len());
    }
}

/// Appends the wire form of `payload` to `out`.
/// A payload longer than `MAX_FRAME_SIZE` is refused and nothing is written.
pub fn write_frame(out: &mut Vec<u8>, payload: &[u8]) -> (r: Result<(), FrameError>)
    ensures
        payload@.len() > MAX_FRAME_SIZE ==> r == Err::<(), FrameError>(FrameError::PayloadTooLarge)
            && final(out)@ == old(out)@,
        payload@.len() <= MAX_FRAME_SIZE ==> r is Ok && final(out)@ == old(out)@ + encoded(
            payload@,
        ),
{
    if payload.len() > MAX_FRAME_SIZE {
        return Err(FrameError::PayloadTooLarge);
    }
    let h = header_bytes(payload.len());
    let ghost start = out@;
    let mut i: usize = 0;
    while i < 4
        invariant
            i <= 4,
            out@ == start + h@.subrange(0, i as int),
        decreases 4 - i,
    {
        out.push(h[i]);
        i = i + 1;
        assert(out@ =~= start + h@.subrange(0, i as int));
    }
    let ghost mid = out@;
    let mut j: usize = 0;
    while j < payload.len()
        invariant
            j <= payload@.len(),
            out@ == mid + payload@.subrange(0, j as int),
        decreases payload@.len() - j,
    {
        out.push(payload[j]);
        j = j + 1;
        assert(out@ =~= mid + payload@.subrange(0, j as int));
    }
    assert(h@.subrange(0, 4) =~= h@);
    assert(payload@.subrange(0, payload@.len() as int) =~= payload@);
    assert(out@ =~= old(out)@ + encoded(payload@));
    Ok(())
}

/// Reads the length prefix that `header` holds, as far as the input went.
/// No bytes mean a clean end (`Ok(None)`); one to three bytes mean the input
/// ended inside the prefix; a length over `MAX_FRAME_SIZE` is refused.
pub fn frame_length(header: &[u8]) -> (r: Result<Option<usize>, FrameError>)
    requires
        header@.len() <= 4,
    ensures
        header@.len() == 0 ==> r == Ok::<Option<usize>, FrameError>(None),
        0 < header@.len() < 4 ==> r == Err::<Option<usize>, FrameError>(FrameError::Truncated),
        header@.len() == 4 && be_value(header@) > MAX_FRAME_SIZE ==> r == Err::<
            Option<usize>,
            FrameError,
        >(FrameError::LengthTooLarge),
        header@.len() == 4 && be_value(header@) <= MAX_FRAME_SIZE ==> r == Ok::<
            Option<usize>,
            FrameError,
        >(Some(be_value(header@) as usize)),
{
    if header.len() == 0 {
        return Ok(None);
    }
    if header.len() < 4 {
        return Err(FrameError::Truncated);
    }
    let n: u64 = ((header[0] as u64 * 256 + header[1] as u64) * 256 + header[2] as u64) * 256
        + header[3] as u64;
    if n > MAX_FRAME_SIZE as u64 {
        Err(FrameError::LengthTooLarge)
    } else {
        Ok(Some(n as usize))
    }
}

/// Reads one frame from `input` at offset `*pos` and moves `*pos` past it.
/// Returns `Ok(None)` when `*pos` is at the end of the input (a clean end);
/// an end anywhere inside a frame is an error, and so is a length prefix over
/// `MAX_FRAME_SIZE`, which is refused before any payload is copied.
/// On anything but a frame, `*pos` stays where it was.
pub fn read_frame(input: &[u8], pos: &mut usize) -> (r: Result<Option<Vec<u8>>, FrameError>)
    requires
        *old(pos) <= input@.len(),
    ensures
        decode_frame(input@, *old(pos) as int) == match r {
            Ok(Some(v)) => Ok(Some((v@, *final(pos) as int))),
            Ok(None) => Ok(None),
            Err(e) => Err(e),
        },
        !(r matches Ok(Some(_))) ==> *final(pos) == *old(pos),
{
    let start = *pos;
    let rest = input.len() - start;
    if rest == 0 {
        return Ok(None);
    }
    if rest < 4 {
        return Err(FrameError::Truncated);
    }
    let n: u64 = ((input[start] as u64 * 256 + input[start + 1] as u64) * 256
        + input[start + 2] as u64) * 256 + input[start + 3] as u64;
    assert(input@.subrange(start as int, start + 4)[0] == input@[start as int]);
    assert(input@.subrange(start as int, start + 4)[1] == input@[start + 1]);
    assert(input@.subrange(start as int, start + 4)[2] == input@[start + 2]);
    assert(input@.subrange(start as int, start + 4)[3] == input@[start + 3]);
    if n > MAX_FRAME_SIZE as u64 {
        return Err(FrameError::LengthTooLarge);
    }
    let len = n as usize;
    if rest - 4 < len {
        return Err(FrameError::Truncated);
    }
    let body = start + 4;
    let mut payload: Vec<u8> = Vec::with_capacity(len);
    let mut i: usize = 0;
    while i < len
        invariant
            i <= len,
            body + len <= input@.len(),
            input@.len() <= usize::MAX,
            payload@ == input@.subrange(body as int, body + i),
        decreases len - i,
    {
        payload.push(input[body + i]);
        i = i + 1;
        assert(payload@ =~= input@.subrange(body as int, body + i));
    }
    *pos = body + len;
    Ok(Some(payload))
}

} // verus!
