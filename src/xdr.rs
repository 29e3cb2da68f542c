//! External Data Representation: big-endian, four-byte aligned encoding of
//! integers, booleans, enums and variable-length opaque byte strings.

use vstd::prelude::*;

verus! {

/// Failures while encoding or decoding XDR data.
#[derive(Debug, Clone, Copy, PartialEq, Eq, Structural)]
pub enum CodecError {
    /// Decoding needed more bytes than the buffer holds.
    UnexpectedEof,
    /// A drop request that is not a multiple of four bytes.
    Misaligned,
    /// A boolean field held something other than 0 or 1.
    InvalidBool(i32),
    /// An opaque value longer than a 32-bit length prefix can describe.
    TooLong,
}

// ---------------------------------------------------------------------------
// Wire model
// ---------------------------------------------------------------------------

/// The four big-endian bytes of `x`.
pub open spec fn u32_bytes(x: u32) -> Seq<u8> {
    seq![
        (x / 0x1000000) as u8,
        ((x / 0x10000) % 0x100) as u8,
        ((x / 0x100) % 0x100) as u8,
        (x % 0x100) as u8,
    ]
}

/// The `u32` whose big-endian encoding starts `s`.
pub open spec fn u32_of(s: Seq<u8>) -> u32
    recommends
        s.len() >= 4,
{
    (s[0] as int * 0x1000000 + s[1] as int * 0x10000 + s[2] as int * 0x100 + s[3] as int) as u32
}

/// An `i32` travels as the `u32` with the same bits.
pub open spec fn i32_bytes(x: i32) -> Seq<u8> {
    u32_bytes(x as u32)
}

pub open spec fn i32_of(s: Seq<u8>) -> i32
    recommends
        s.len() >= 4,
{
    u32_of(s) as i32
}

/// A boolean travels as the `i32` 1 or 0.
pub open spec fn bool_bytes(b: bool) -> Seq<u8> {
    i32_bytes(if b { 1 } else { 0 })
}

/// Number of zero bytes that bring a field of `n` bytes to a multiple of four.
pub open spec fn pad_len(n: nat) -> nat {
    ((4 - n % 4) % 4) as nat
}

pub open spec fn zeros(n: nat) -> Seq<u8> {
    Seq::new(n, |i: int| 0u8)
}

/// Length prefix, the bytes themselves, then zero padding.
pub open spec fn opaque_bytes(s: Seq<u8>) -> Seq<u8> {
    u32_bytes(s.len() as u32) + s + zeros(pad_len(s.len()))
}

pub open spec fn opaque_fits(s: Seq<u8>) -> bool {
    s.len() <= u32::MAX
}

pub proof fn lemma_u32_bytes_round_trip(x: u32)
    ensures
        u32_bytes(x).len() == 4,
        u32_of(u32_bytes(x)) == x,
{
    let b = u32_bytes(x);
    assert(b[0] as int == x / 0x1000000);
    assert(b[1] as int == (x / 0x10000) % 0x100);
    assert(b[2] as int == (x / 0x100) % 0x100);
    assert(b[3] as int == x % 0x100);
    assert((x / 0x1000000) * 0x1000000 + ((x / 0x10000) % 0x100) * 0x10000 + ((x / 0x100)
        % 0x100) * 0x100 + x % 0x100 == x) by (nonlinear_arith);
}

pub proof fn lemma_u32_of_prefix(a: Seq<u8>, b: Seq<u8>)
    requires
        a.len() >= 4,
    ensures
        u32_of(a + b) == u32_of(a),
{
}

/// Decoding what was encoded gives back the value, for `u32`, `i32` (and
/// so enums) and `bool`, whatever bytes follow it.
pub proof fn lemma_scalar_round_trip(u: u32, i: i32, b: bool, rest: Seq<u8>)
    ensures
        dec_u32(u32_bytes(u) + rest) == Ok::<(u32, Seq<u8>), CodecError>((u, rest)),
        dec_i32(i32_bytes(i) + rest) == Ok::<(i32, Seq<u8>), CodecError>((i, rest)),
        dec_bool(bool_bytes(b) + rest) == Ok::<(bool, Seq<u8>), CodecError>((b, rest)),
{
    lemma_u32_bytes_round_trip(u);
    lemma_u32_bytes_round_trip(i as u32);
    lemma_u32_of_prefix(u32_bytes(u), rest);
    lemma_u32_of_prefix(i32_bytes(i), rest);
    assert((u32_bytes(u) + rest).skip(4) =~= rest);
    assert((i32_bytes(i) + rest).skip(4) =~= rest);
    assert((i as u32) as i32 == i) by (bit_vector);
    let v: i32 = if b { 1 } else { 0 };
    lemma_u32_bytes_round_trip(v as u32);
    lemma_u32_of_prefix(bool_bytes(b), rest);
    assert((bool_bytes(b) + rest).skip(4) =~= rest);
    assert((v as u32) as i32 == v) by (bit_vector);
}

/// An encoded opaque value takes its length prefix, its bytes and the
/// padding, and always ends on a four-byte boundary.
pub proof fn lemma_opaque_size(s: Seq<u8>)
    ensures
        opaque_bytes(s).len() == 4 + s.len() + (4 - s.len() % 4) % 4,
        opaque_bytes(s).len() % 4 == 0,
{
    lemma_u32_bytes_round_trip(s.len() as u32);
}

/// Decoding an encoded opaque value gives back exactly its bytes and leaves
/// whatever followed it.
pub proof fn lemma_opaque_round_trip(s: Seq<u8>, rest: Seq<u8>)
    requires
        opaque_fits(s),
    ensures
        dec_opaque(opaque_bytes(s) + rest) == Ok::<(Seq<u8>, Seq<u8>), CodecError>((s, rest)),
{
    let n = s.len() as u32;
    lemma_u32_bytes_round_trip(n);
    let all = opaque_bytes(s) + rest;
    lemma_u32_of_prefix(u32_bytes(n), s + zeros(pad_len(s.len())) + rest);
    assert(all =~= u32_bytes(n) + (s + zeros(pad_len(s.len())) + rest));
    let after = all.skip(4);
    assert(after =~= s + zeros(pad_len(s.len())) + rest);
    assert(after.take(n as int) =~= s);
    assert(after.skip(n as int + pad_len(n as nat)) =~= rest);
}

/// The big-endian `u32` at `pos` in `buf`.
pub fn u32_at(buf: &[u8], pos: usize) -> (r: u32)
    requires
        pos + 4 <= buf@.len(),
    ensures
        r == u32_of(buf@.skip(pos as int)),
{
    let b0 = buf[pos] as u32;
    let b1 = buf[pos + 1] as u32;
    let b2 = buf[pos + 2] as u32;
    let b3 = buf[pos + 3] as u32;
    b0 * 0x1000000 + b1 * 0x10000 + b2 * 0x100 + b3
}

/// Encodes `x` big-endian.
pub fn u32_to_be(x: u32) -> (r: [u8; 4])
    ensures
        r@ == u32_bytes(x),
{
    let r = [
        (x / 0x1000000) as u8,
        ((x / 0x10000) % 0x100) as u8,
        ((x / 0x100) % 0x100) as u8,
        (x % 0x100) as u8,
    ];
    assert(r@ =~= u32_bytes(x));
    r
}


// ---------------------------------------------------------------------------
// Decoding model: each decoder yields the value and what is left after it.
// ---------------------------------------------------------------------------

pub open spec fn dec_u32(s: Seq<u8>) -> Result<(u32, Seq<u8>), CodecError> {
    if s.len() < 4 {
        Err(CodecError::UnexpectedEof)
    } else {
        Ok((u32_of(s), s.skip(4)))
    }
}

pub open spec fn dec_i32(s: Seq<u8>) -> Result<(i32, Seq<u8>), CodecError> {
    if s.len() < 4 {
        Err(CodecError::UnexpectedEof)
    } else {
        Ok((i32_of(s), s.skip(4)))
    }
}

pub open spec fn dec_bool(s: Seq<u8>) -> Result<(bool, Seq<u8>), CodecError> {
    match dec_i32(s) {
        Ok((0, rest)) => Ok((false, rest)),
        Ok((1, rest)) => Ok((true, rest)),
        Ok((x, _)) => Err(CodecError::InvalidBool(x)),
        Err(e) => Err(e),
    }
}

pub open spec fn dec_opaque(s: Seq<u8>) -> Result<(Seq<u8>, Seq<u8>), CodecError> {
    match dec_u32(s) {
        Ok((n, rest)) => if rest.len() < n as nat + pad_len(n as nat) {
            Err(CodecError::UnexpectedEof)
        } else {
            Ok((rest.take(n as int), rest.skip(n as int + pad_len(n as nat))))
        },
        Err(e) => Err(e),
    }
}

/// How a single-field unpack relates its result and the buffer before and
/// after to the decoding model `d`: on success the value is returned and the
/// field consumed, on failure the error is returned and nothing consumed.
pub open spec fn unpacked_as<T>(
    d: Result<(T, Seq<u8>), CodecError>,
    r: Result<T, CodecError>,
    before: Seq<u8>,
    after: Seq<u8>,
) -> bool {
    match d {
        Ok((v, rest)) => r == Ok::<T, CodecError>(v) && after == rest,
        Err(e) => r == Err::<T, CodecError>(e) && after == before,
    }
}

// ---------------------------------------------------------------------------
// Packer
// ---------------------------------------------------------------------------

/// A write-only buffer that grows by whole XDR fields.
pub struct Packer {
    buff: Vec<u8>,
}

impl View for Packer {
    type V = Seq<u8>;

    closed spec fn view(&self) -> Seq<u8> {
        self.buff@
    }
}

impl Packer {
    pub fn new() -> (r: Self)
        ensures
            r@ == Seq::<u8>::empty(),
    {
        Packer { buff: Vec::new() }
    }

    pub fn reset(&mut self)
        ensures
            final(self)@ == Seq::<u8>::empty(),
    {
        self.buff.clear();
    }

    /// A copy of everything packed so far.
    pub fn get_buf(&self) -> (r: Vec<u8>)
        ensures
            r@ == self@,
    {
        copy_bytes(self.buff.as_slice())
    }

    fn push_bytes(&mut self, b: &[u8])
        ensures
            final(self)@ == old(self)@ + b@,
    {
        let mut i: usize = 0;
        while i < b.len()
            invariant
                i <= b@.len(),
                self@ == old(self)@ + b@.take(i as int),
            decreases b@.len() - i,
        {
            self.buff.push(b[i]);
            i = i + 1;
            assert(b@.take(i as int) =~= b@.take(i - 1) + seq![b@[i - 1]]);
            assert(self@ =~= old(self)@ + b@.take(i as int));
        }
        assert(b@.take(i as int) =~= b@);
    }

    pub fn pack_u32(&mut self, x: u32)
        ensures
            final(self)@ == old(self)@ + u32_bytes(x),
    {
        let b = u32_to_be(x);
        self.push_bytes(&b);
    }

    pub fn pack_i32(&mut self, x: i32)
        ensures
            final(self)@ == old(self)@ + i32_bytes(x),
    {
        self.pack_u32(x as u32);
    }

    pub fn pack_bool(&mut self, b: bool)
        ensures
            final(self)@ == old(self)@ + bool_bytes(b),
    {
        if b {
            self.pack_i32(1)
        } else {
            self.pack_i32(0)
        }
    }

    /// Enums travel as `i32`; which values are valid is up to the protocol.
    pub fn pack_enum(&mut self, x: i32)
        ensures
            final(self)@ == old(self)@ + i32_bytes(x),
    {
        self.pack_i32(x)
    }

    /// Length prefix, the bytes, then zeros up to the next multiple of four.
    /// Fails, packing nothing, when the length does not fit the prefix.
    pub fn pack_variable_len_opaque(&mut self, data: &[u8]) -> (r: Result<(), CodecError>)
        ensures
            opaque_fits(data@) ==> r is Ok && final(self)@ == old(self)@ + opaque_bytes(data@),
            !opaque_fits(data@) ==> r == Err::<(), CodecError>(CodecError::TooLong) && final(self)@
                == old(self)@,
    {
        if data.len() > 0xffff_ffff {
            return Err(CodecError::TooLong);
        }
        self.pack_u32(data.len() as u32);
        self.push_bytes(data);
        let pad: usize = (4 - data.len() % 4) % 4;
        let mut i: usize = 0;
        while i < pad
            invariant
                pad == pad_len(data@.len()),
                i <= pad,
                self@ == old(self)@ + u32_bytes(data@.len() as u32) + data@ + zeros(i as nat),
            decreases pad - i,
        {
            self.buff.push(0);
            i = i + 1;
            assert(self@ =~= old(self)@ + u32_bytes(data@.len() as u32) + data@ + zeros(i as nat));
        }
        assert(old(self)@ + u32_bytes(data@.len() as u32) + data@ + zeros(i as nat) =~= old(self)@
            + opaque_bytes(data@));
        Ok(())
    }
}

// ---------------------------------------------------------------------------
// Unpacker
// ---------------------------------------------------------------------------

/// A read-only buffer that shrinks from the front as fields are decoded.
/// Its view is the part not yet consumed.
pub struct Unpacker {
    buff: Vec<u8>,
    pos: usize,
}

impl View for Unpacker {
    type V = Seq<u8>;

    closed spec fn view(&self) -> Seq<u8> {
        self.buff@.skip(self.pos as int)
    }
}

impl Unpacker {
    #[verifier::type_invariant]
    spec fn inv(self) -> bool {
        self.pos <= self.buff@.len()
    }

    pub fn new() -> (r: Self)
        ensures
            r@ == Seq::<u8>::empty(),
    {
        let r = Unpacker { buff: Vec::new(), pos: 0 };
        assert(r@ =~= Seq::<u8>::empty());
        r
    }

    /// Replaces the contents with a copy of `data`.
    pub fn reset(&mut self, data: &[u8])
        ensures
            final(self)@ == data@,
    {
        self.pos = 0;
        self.buff = copy_bytes(data);
        assert(self.buff@.skip(0) =~= data@);
    }

    /// True exactly when every byte has been consumed.
    pub fn all_data_consumed(&self) -> (r: bool)
        ensures
            r == (self@.len() == 0),
    {
        proof {
            use_type_invariant(self);
        }
        self.pos == self.buff.len()
    }

    /// Discards `n` bytes. Only whole four-byte units may be dropped; on any
    /// failure nothing is consumed.
    pub fn drop(&mut self, n: usize) -> (r: Result<(), CodecError>)
        ensures
            n % 4 != 0 ==> r == Err::<(), CodecError>(CodecError::Misaligned) && final(self)@
                == old(self)@,
            n % 4 == 0 && n > old(self)@.len() ==> r == Err::<(), CodecError>(
                CodecError::UnexpectedEof,
            ) && final(self)@ == old(self)@,
            n % 4 == 0 && n <= old(self)@.len() ==> r is Ok && final(self)@ == old(self)@.skip(
                n as int,
            ),
    {
        proof {
            use_type_invariant(&*self);
        }
        if n % 4 != 0 {
            return Err(CodecError::Misaligned);
        }
        if n > self.buff.len() - self.pos {
            return Err(CodecError::UnexpectedEof);
        }
        self.pos = self.pos + n;
        assert(self@ =~= old(self)@.skip(n as int));
        Ok(())
    }

    /// The pending byte at `idx`, without consuming anything.
    pub fn peek(&self, idx: usize) -> (r: Result<u8, CodecError>)
        ensures
            idx < self@.len() ==> r == Ok::<u8, CodecError>(self@[idx as int]),
            idx >= self@.len() ==> r == Err::<u8, CodecError>(CodecError::UnexpectedEof),
    {
        proof {
            use_type_invariant(self);
        }
        if idx < self.buff.len() - self.pos {
            Ok(self.buff[self.pos + idx])
        } else {
            Err(CodecError::UnexpectedEof)
        }
    }

    /// A copy of the bytes not yet consumed.
    pub fn get_remaining_bytes(&self) -> (r: Vec<u8>)
        ensures
            r@ == self@,
    {
        proof {
            use_type_invariant(self);
        }
        let mut r: Vec<u8> = Vec::new();
        let mut i: usize = self.pos;
        while i < self.buff.len()
            invariant
                self.pos <= i <= self.buff@.len(),
                r@ == self.buff@.subrange(self.pos as int, i as int),
            decreases self.buff@.len() - i,
        {
            r.push(self.buff[i]);
            i = i + 1;
            assert(r@ =~= self.buff@.subrange(self.pos as int, i as int));
        }
        assert(r@ =~= self@);
        r
    }

    /// The `u32` at the front, if four bytes are pending; consumes nothing.
    fn front_u32(&self) -> (r: Option<u32>)
        ensures
            self@.len() < 4 ==> r is None,
            self@.len() >= 4 ==> r == Some(u32_of(self@)),
    {
        proof {
            use_type_invariant(self);
        }
        if self.buff.len() - self.pos < 4 {
            return None;
        }
        let p = self.pos;
        let b0 = self.buff[p] as u32;
        let b1 = self.buff[p + 1] as u32;
        let b2 = self.buff[p + 2] as u32;
        let b3 = self.buff[p + 3] as u32;
        Some(b0 * 0x1000000 + b1 * 0x10000 + b2 * 0x100 + b3)
    }

    /// Consumes `n` pending bytes.
    fn advance(&mut self, n: usize)
        requires
            n <= old(self)@.len(),
        ensures
            final(self)@ == old(self)@.skip(n as int),
    {
        proof {
            use_type_invariant(&*self);
        }
        let total = self.buff.len();
        assert(self@.len() == total - self.pos);
        self.pos = self.pos + n;
        assert(self@ =~= old(self)@.skip(n as int));
    }

    pub fn unpack_u32(&mut self) -> (r: Result<u32, CodecError>)
        ensures
            unpacked_as(dec_u32(old(self)@), r, old(self)@, final(self)@),
    {
        match self.front_u32() {
            Some(x) => {
                self.advance(4);
                Ok(x)
            },
            None => Err(CodecError::UnexpectedEof),
        }
    }

    pub fn unpack_i32(&mut self) -> (r: Result<i32, CodecError>)
        ensures
            unpacked_as(dec_i32(old(self)@), r, old(self)@, final(self)@),
    {
        match self.unpack_u32() {
            Ok(x) => Ok(x as i32),
            Err(e) => Err(e),
        }
    }

    /// Enums travel as `i32`; which values are valid is up to the protocol.
    pub fn unpack_enum(&mut self) -> (r: Result<i32, CodecError>)
        ensures
            unpacked_as(dec_i32(old(self)@), r, old(self)@, final(self)@),
    {
        self.unpack_i32()
    }

    /// Fails with `InvalidBool`, consuming nothing, unless the field is 0 or 1.
    pub fn unpack_bool(&mut self) -> (r: Result<bool, CodecError>)
        ensures
            unpacked_as(dec_bool(old(self)@), r, old(self)@, final(self)@),
    {
        match self.front_u32() {
            Some(x) => {
                let v = x as i32;
                if v == 0 {
                    self.advance(4);
                    Ok(false)
                } else if v == 1 {
                    self.advance(4);
                    Ok(true)
                } else {
                    Err(CodecError::InvalidBool(v))
                }
            },
            None => Err(CodecError::UnexpectedEof),
        }
    }

    /// Reads the length prefix, that many bytes, and the padding after them.
    /// On any failure nothing is consumed.
    pub fn unpack_variable_len_opaque(&mut self) -> (r: Result<Vec<u8>, CodecError>)
        ensures
            match dec_opaque(old(self)@) {
                Ok((v, rest)) => r is Ok && r->Ok_0@ == v && final(self)@ == rest,
                Err(e) => r == Err::<Vec<u8>, CodecError>(e) && final(self)@ == old(self)@,
            },
    {
        proof {
            use_type_invariant(&*self);
        }
        let n = match self.front_u32() {
            Some(n) => n,
            None => return Err(CodecError::UnexpectedEof),
        };
        let len: usize = n as usize;
        let avail = self.buff.len() - self.pos - 4;
        let pad: usize = (4 - len % 4) % 4;
        if len > avail || pad > avail - len {
            return Err(CodecError::UnexpectedEof);
        }
        let mut r: Vec<u8> = Vec::new();
        let p = self.pos + 4;
        let mut i: usize = 0;
        let total = self.buff.len();
        while i < len
            invariant
                len == n,
                total == self.buff@.len(),
                p + len + pad <= total,
                i <= len,
                r@ == self.buff@.subrange(p as int, p + i),
            decreases len - i,
        {
            r.push(self.buff[p + i]);
            i = i + 1;
            assert(r@ =~= self.buff@.subrange(p as int, p + i));
        }
        proof {
            let rest = old(self)@.skip(4);
            assert(rest =~= self.buff@.skip(p as int));
            assert(r@ =~= rest.take(n as int));
            assert(old(self)@.skip(4 + n + pad) =~= rest.skip(n as int + pad_len(n as nat)));
        }
        self.advance(4 + len + pad);
        Ok(r)
    }
}

/// A fresh vector holding the bytes of `s`.
pub fn copy_bytes(s: &[u8]) -> (r: Vec<u8>)
    ensures
        r@ == s@,
{
    let mut r: Vec<u8> = Vec::new();
    let mut i: usize = 0;
    while i < s.len()
        invariant
            i <= s@.len(),
            r@ == s@.take(i as int),
        decreases s@.len() - i,
    {
        r.push(s[i]);
        i = i + 1;
        assert(r@ =~= s@.take(i as int));
    }
    assert(s@.take(i as int) =~= s@);
    r
}

} // verus!
