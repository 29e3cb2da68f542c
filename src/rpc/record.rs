//! Record marking for stream transports: a message travels as fragments,
//! each behind a four-byte header whose top bit marks the last fragment and
//! whose low 31 bits give the fragment's length.

use vstd::prelude::*;

use crate::rpc::RpcError;
use crate::xdr::{
    lemma_u32_bytes_round_trip, lemma_u32_of_prefix, u32_at, u32_bytes, u32_of, u32_to_be,
};

verus! {

pub const LAST_FRAGMENT: u32 = 0x8000_0000;

/// Largest fragment body a header can describe.
pub const MAX_FRAGMENT_LEN: u32 = 0x7fff_ffff;

/// The first complete record in `buf`: the concatenated fragment bodies and
/// the number of bytes the record took, or `None` while it is incomplete.
pub open spec fn record_parse(buf: Seq<u8>) -> Option<(Seq<u8>, nat)>
    decreases buf.len(),
{
    if buf.len() < 4 {
        None
    } else {
        let h = u32_of(buf);
        let n = (h % LAST_FRAGMENT) as int;
        if buf.len() < 4 + n {
            None
        } else if h >= LAST_FRAGMENT {
            Some((buf.subrange(4, 4 + n), (4 + n) as nat))
        } else {
            match record_parse(buf.skip(4 + n)) {
                None => None,
                Some((more, used)) => Some((buf.subrange(4, 4 + n) + more, (4 + n + used) as nat)),
            }
        }
    }
}

/// A message sent as one fragment marked last.
pub open spec fn record_bytes(msg: Seq<u8>) -> Seq<u8> {
    u32_bytes((msg.len() + LAST_FRAGMENT) as u32) + msg
}

/// The bytes of `frags` sent in order, only the final one marked last.
pub open spec fn fragments_bytes(frags: Seq<Seq<u8>>) -> Seq<u8>
    decreases frags.len(),
{
    if frags.len() == 0 {
        Seq::empty()
    } else if frags.len() == 1 {
        record_bytes(frags[0])
    } else {
        u32_bytes(frags[0].len() as u32) + frags[0] + fragments_bytes(frags.skip(1))
    }
}

pub open spec fn concat(frags: Seq<Seq<u8>>) -> Seq<u8>
    decreases frags.len(),
{
    if frags.len() == 0 {
        Seq::empty()
    } else {
        frags[0] + concat(frags.skip(1))
    }
}

/// A parsed record always takes its header and never more than is there.
pub proof fn lemma_record_parse_bounds(buf: Seq<u8>)
    ensures
        record_parse(buf) matches Some((_, used)) ==> 4 <= used <= buf.len(),
    decreases buf.len(),
{
    if buf.len() >= 4 {
        let n = (u32_of(buf) % LAST_FRAGMENT) as int;
        if buf.len() >= 4 + n && u32_of(buf) < LAST_FRAGMENT {
            lemma_record_parse_bounds(buf.skip(4 + n));
        }
    }
}

/// A fragment marked last ends the record.
pub proof fn lemma_parse_last(f: Seq<u8>, t: Seq<u8>)
    requires
        f.len() <= MAX_FRAGMENT_LEN,
    ensures
        record_parse(record_bytes(f) + t) == Some((f, (4 + f.len()) as nat)),
{
    let h = (f.len() + LAST_FRAGMENT) as u32;
    let all = record_bytes(f) + t;
    lemma_u32_bytes_round_trip(h);
    lemma_u32_of_prefix(u32_bytes(h), f + t);
    assert(all =~= u32_bytes(h) + (f + t));
    assert(all.subrange(4, 4 + f.len() as int) =~= f);
}

/// A fragment not marked last is followed by the rest of the record.
proof fn lemma_parse_more(f: Seq<u8>, t: Seq<u8>)
    requires
        f.len() <= MAX_FRAGMENT_LEN,
    ensures
        record_parse(u32_bytes(f.len() as u32) + f + t) == match record_parse(t) {
            None => None,
            Some((more, used)) => Some((f + more, (4 + f.len() + used) as nat)),
        },
{
    let h = f.len() as u32;
    let all = u32_bytes(h) + f + t;
    lemma_u32_bytes_round_trip(h);
    lemma_u32_of_prefix(u32_bytes(h), f + t);
    assert(all =~= u32_bytes(h) + (f + t));
    assert(all.subrange(4, 4 + f.len() as int) =~= f);
    assert(all.skip(4 + f.len() as int) =~= t);
}

/// However a message is split into fragments, reassembly yields the
/// concatenation of their bodies and stops right after the last one.
pub proof fn lemma_fragment_reassembly(frags: Seq<Seq<u8>>, rest: Seq<u8>)
    requires
        frags.len() >= 1,
        forall|i: int| 0 <= i < frags.len() ==> #[trigger] frags[i].len() <= MAX_FRAGMENT_LEN,
    ensures
        record_parse(fragments_bytes(frags) + rest) == Some(
            (concat(frags), fragments_bytes(frags).len()),
        ),
    decreases frags.len(),
{
    let f = frags[0];
    assert(f.len() <= MAX_FRAGMENT_LEN);
    let tail = frags.skip(1);
    if frags.len() == 1 {
        lemma_parse_last(f, rest);
        lemma_u32_bytes_round_trip((f.len() + LAST_FRAGMENT) as u32);
        assert(concat(tail) =~= Seq::<u8>::empty());
        assert(concat(frags) =~= f);
    } else {
        assert forall|i: int| 0 <= i < tail.len() implies #[trigger] tail[i].len()
            <= MAX_FRAGMENT_LEN by {
            assert(tail[i] == frags[i + 1]);
        }
        lemma_fragment_reassembly(tail, rest);
        let tb = fragments_bytes(tail);
        lemma_parse_more(f, tb + rest);
        lemma_u32_bytes_round_trip(f.len() as u32);
        assert(fragments_bytes(frags) + rest =~= u32_bytes(f.len() as u32) + f + (tb + rest));
    }
}

/// Wraps `msg` as a single fragment marked last. Fails when the message is
/// longer than a fragment header can describe.
pub fn frame_record(msg: &[u8]) -> (r: Result<Vec<u8>, RpcError>)
    ensures
        msg@.len() <= MAX_FRAGMENT_LEN ==> r is Ok && r->Ok_0@ == record_bytes(msg@),
        msg@.len() > MAX_FRAGMENT_LEN ==> r == Err::<Vec<u8>, RpcError>(RpcError::CallTooLong),
{
    if msg.len() > MAX_FRAGMENT_LEN as usize {
        return Err(RpcError::CallTooLong);
    }
    let header = u32_to_be(msg.len() as u32 + LAST_FRAGMENT);
    let mut out: Vec<u8> = Vec::new();
    out.push(header[0]);
    out.push(header[1]);
    out.push(header[2]);
    out.push(header[3]);
    let mut i: usize = 0;
    while i < msg.len()
        invariant
            i <= msg@.len(),
            out@ == header@ + msg@.take(i as int),
        decreases msg@.len() - i,
    {
        out.push(msg[i]);
        i = i + 1;
        assert(out@ =~= header@ + msg@.take(i as int));
    }
    assert(out@ =~= record_bytes(msg@));
    Ok(out)
}

/// Reassembles the first complete record at the front of `buf`: its
/// payload and the number of bytes it took, or `None` while more bytes are
/// needed.
pub fn parse_record(buf: &[u8]) -> (r: Option<(Vec<u8>, usize)>)
    ensures
        match record_parse(buf@) {
            None => r is None,
            Some((payload, used)) => match r {
                Some((v, u)) => v@ == payload && u == used,
                None => false,
            },
        },
{
    let mut payload: Vec<u8> = Vec::new();
    let mut pos: usize = 0;
    let total = buf.len();
    proof {
        assert(buf@.skip(0) =~= buf@);
        match record_parse(buf@) {
            None => {},
            Some((more, used)) => {
                assert(payload@ + more =~= more);
            },
        }
    }
    loop
        invariant
            total == buf@.len(),
            pos <= buf@.len(),
            record_parse(buf@) == match record_parse(buf@.skip(pos as int)) {
                None => None,
                Some((more, used)) => Some((payload@ + more, (pos + used) as nat)),
            },
        decreases buf@.len() - pos,
    {
        let ghost cur = buf@.skip(pos as int);
        if buf.len() - pos < 4 {
            return None;
        }
        let h = u32_at(buf, pos);
        let n: usize = (h % LAST_FRAGMENT) as usize;
        if buf.len() - pos - 4 < n {
            return None;
        }
        let ghost before = payload@;
        let start = pos + 4;
        let mut i: usize = 0;
        while i < n
            invariant
                total == buf@.len(),
                start + n <= total,
                i <= n,
                payload@ == before + buf@.subrange(start as int, start + i),
            decreases n - i,
        {
            payload.push(buf[start + i]);
            i = i + 1;
            assert(payload@ =~= before + buf@.subrange(start as int, start + i));
        }
        proof {
            assert(cur.subrange(4, 4 + n) =~= buf@.subrange(start as int, start + n));
            assert(cur.skip(4 + n) =~= buf@.skip(start + n));
            assert(payload@ =~= before + cur.subrange(4, 4 + n));
        }
        pos = start + n;
        if h >= LAST_FRAGMENT {
            return Some((payload, pos));
        }
        proof {
            match record_parse(buf@.skip(pos as int)) {
                None => {},
                Some((more, used)) => {
                    assert(before + (cur.subrange(4, 4 + n) + more) =~= payload@ + more);
                },
            }
        }
    }
}

} // verus!
