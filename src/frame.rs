//! The wire frame: a 4-byte big-endian length, then a body of UTF-8 fields separated by NUL.
use vstd::prelude::*;
use vstd::utf8::{
    char_u32_cast, decode_utf8, encode_utf8, encode_utf8_decode_utf8, encode_utf8_valid_utf8,
    valid_utf8,
};

verus! {

/// Why a frame could not be built or read.
#[derive(Debug, Clone, Copy, PartialEq, Eq, Structural)]
pub enum FrameError {
    /// The body is longer than a 4-byte length can state.
    TooLong,
    /// Fewer than the 4 bytes of the length prefix.
    Truncated,
    /// The length prefix does not match the number of body bytes.
    LengthMismatch,
    /// A field is not valid UTF-8.
    InvalidUtf8,
}

/// The 4 big-endian bytes of `n`.
pub open spec fn be_bytes(n: u32) -> Seq<u8> {
    seq![(n >> 24) as u8, ((n >> 16) & 0xff) as u8, ((n >> 8) & 0xff) as u8, (n & 0xff) as u8]
}

/// The number that 4 big-endian bytes write.
pub open spec fn be_value(b0: u8, b1: u8, b2: u8, b3: u8) -> u32 {
    ((b0 as u32) << 24) | ((b1 as u32) << 16) | ((b2 as u32) << 8) | (b3 as u32)
}

/// The parts joined, with one NUL byte between two neighbours.
pub open spec fn join_nul(parts: Seq<Seq<u8>>) -> Seq<u8>
    decreases parts.len(),
{
    if parts.len() == 0 {
        seq![]
    } else if parts.len() == 1 {
        parts[0]
    } else {
        join_nul(parts.drop_last()) + seq![0u8] + parts.last()
    }
}

/// The pieces of `b` between NUL bytes; always at least one, possibly empty, piece.
pub open spec fn split_nul(b: Seq<u8>) -> Seq<Seq<u8>>
    decreases b.len(),
{
    if b.len() == 0 {
        seq![seq![]]
    } else {
        let p = split_nul(b.drop_last());
        if b.last() == 0 {
            p.push(seq![])
        } else {
            p.update(p.len() - 1, p.last().push(b.last()))
        }
    }
}

pub open spec fn no_nul_byte(b: Seq<u8>) -> bool {
    forall|i: int| 0 <= i < b.len() ==> #[trigger] b[i] != 0
}

pub open spec fn no_nul_char(s: Seq<char>) -> bool {
    forall|i: int| 0 <= i < s.len() ==> #[trigger] s[i] != '\0'
}

/// The UTF-8 bytes of each field.
pub open spec fn field_bytes(fields: Seq<Seq<char>>) -> Seq<Seq<u8>> {
    fields.map_values(|f: Seq<char>| encode_utf8(f))
}

/// The body that carries `fields`.
pub open spec fn body_of(fields: Seq<Seq<char>>) -> Seq<u8> {
    join_nul(field_bytes(fields))
}

/// The fields that a body carries, or `None` when a piece is not valid UTF-8.
pub open spec fn fields_of_body(b: Seq<u8>) -> Option<Seq<Seq<char>>> {
    let parts = split_nul(b);
    if forall|i: int| 0 <= i < parts.len() ==> valid_utf8(#[trigger] parts[i]) {
        Some(parts.map_values(|p: Seq<u8>| decode_utf8(p)))
    } else {
        None
    }
}

/// The frame that carries `fields`, or `None` when the body is too long for its prefix.
pub open spec fn frame_of(fields: Seq<Seq<char>>) -> Option<Seq<u8>> {
    let b = body_of(fields);
    if b.len() <= u32::MAX {
        Some(be_bytes(b.len() as u32) + b)
    } else {
        None
    }
}

/// What reading the frame `f` gives.
pub open spec fn fields_of_frame(f: Seq<u8>) -> Result<Seq<Seq<char>>, FrameError> {
    if f.len() < 4 {
        Err(FrameError::Truncated)
    } else if be_value(f[0], f[1], f[2], f[3]) != f.len() - 4 {
        Err(FrameError::LengthMismatch)
    } else {
        match fields_of_body(f.skip(4)) {
            Some(fields) => Ok(fields),
            None => Err(FrameError::InvalidUtf8),
        }
    }
}

proof fn lemma_be_round_trip(n: u32)
    ensures
        be_value(be_bytes(n)[0], be_bytes(n)[1], be_bytes(n)[2], be_bytes(n)[3]) == n,
{
    assert((((((n >> 24) as u8) as u32) << 24) | (((((n >> 16) & 0xff) as u8) as u32) << 16) | (
    ((((n >> 8) & 0xff) as u8) as u32) << 8) | (((n & 0xff) as u8) as u32)) == n) by (bit_vector);
}

proof fn lemma_split_nonempty(b: Seq<u8>)
    ensures
        split_nul(b).len() >= 1,
    decreases b.len(),
{
    if b.len() > 0 {
        lemma_split_nonempty(b.drop_last());
    }
}

/// Appending bytes without a NUL only lengthens the last piece.
proof fn lemma_split_extend(x: Seq<u8>, c: Seq<u8>)
    requires
        no_nul_byte(c),
    ensures
        split_nul(x + c) == split_nul(x).update(
            split_nul(x).len() - 1,
            split_nul(x).last() + c,
        ),
    decreases c.len(),
{
    lemma_split_nonempty(x);
    let s = split_nul(x);
    if c.len() == 0 {
        assert(x + c =~= x);
        assert(s.last() + c =~= s.last());
        assert(s.update(s.len() - 1, s.last() + c) =~= s);
    } else {
        let c2 = c.drop_last();
        assert(no_nul_byte(c2));
        lemma_split_extend(x, c2);
        assert((x + c).drop_last() =~= x + c2);
        assert((x + c).last() == c.last());
        assert(c[c.len() - 1] != 0);
        assert(s.last() + c2 + seq![c.last()] =~= s.last() + c);
        let p = split_nul(x + c2);
        assert(p == s.update(s.len() - 1, s.last() + c2));
        assert(p.len() == s.len());
        assert(p.last() == s.last() + c2);
        assert(split_nul(x + c) == p.update(p.len() - 1, p.last().push(c.last())));
        assert((s.last() + c2).push(c.last()) =~= s.last() + c);
        assert(split_nul(x + c) =~= s.update(s.len() - 1, s.last() + c));
    }
}

/// Splitting joined parts that hold no NUL gives the parts back.
proof fn lemma_split_join(parts: Seq<Seq<u8>>)
    requires
        parts.len() >= 1,
        forall|i: int| 0 <= i < parts.len() ==> no_nul_byte(#[trigger] parts[i]),
    ensures
        split_nul(join_nul(parts)) == parts,
    decreases parts.len(),
{
    if parts.len() == 1 {
        assert(no_nul_byte(parts[0]));
        lemma_split_extend(seq![], parts[0]);
        assert(seq![] + parts[0] =~= parts[0]);
        assert(Seq::<u8>::empty() + parts[0] =~= parts[0]);
        assert(split_nul(join_nul(parts)) =~= parts);
    } else {
        let d = parts.drop_last();
        assert forall|i: int| 0 <= i < d.len() implies no_nul_byte(#[trigger] d[i]) by {
            assert(d[i] == parts[i]);
        }
        lemma_split_join(d);
        let y = join_nul(d) + seq![0u8];
        assert(y.drop_last() =~= join_nul(d));
        assert(split_nul(y) == d.push(seq![]));
        assert(no_nul_byte(parts.last()));
        lemma_split_extend(y, parts.last());
        assert(join_nul(parts) == y + parts.last());
        assert(Seq::<u8>::empty() + parts.last() =~= parts.last());
        assert(split_nul(join_nul(parts)) =~= parts);
    }
}

/// A character other than NUL has no zero byte in its UTF-8 encoding.
proof fn lemma_scalar_no_nul(c: char)
    requires
        c != '\0',
    ensures
        no_nul_byte(vstd::utf8::encode_scalar(c as u32)),
{
    let v = c as u32;
    vstd::utf8::char_is_scalar(c);
    if v == 0 {
        char_u32_cast(c, v);
        char_u32_cast('\0', v);
    }
    assert(v != 0);
    assert(v <= 0x7f ==> ((v & 0x7f) as u8) != 0) by (bit_vector)
        requires
            v != 0,
    ;
    assert((0xC0u8 | (((v >> 6) & 0x1F) as u8)) != 0) by (bit_vector);
    assert((0xE0u8 | (((v >> 12) & 0x0F) as u8)) != 0) by (bit_vector);
    assert((0xF0u8 | (((v >> 18) & 0x7) as u8)) != 0) by (bit_vector);
    assert((0x80u8 | ((v & 0x3F) as u8)) != 0) by (bit_vector);
    assert((0x80u8 | (((v >> 6) & 0x3F) as u8)) != 0) by (bit_vector);
    assert((0x80u8 | (((v >> 12) & 0x3F) as u8)) != 0) by (bit_vector);
}

/// Text without a NUL character has no zero byte in its UTF-8 encoding.
proof fn lemma_utf8_no_nul(s: Seq<char>)
    requires
        no_nul_char(s),
    ensures
        no_nul_byte(encode_utf8(s)),
    decreases s.len(),
{
    if s.len() > 0 {
        let rest = s.drop_first();
        assert(no_nul_char(rest)) by {
            assert forall|i: int| 0 <= i < rest.len() implies #[trigger] rest[i] != '\0' by {
                assert(rest[i] == s[i + 1]);
            }
        }
        lemma_utf8_no_nul(rest);
        assert(s[0] != '\0');
        lemma_scalar_no_nul(s[0]);
        let head = vstd::utf8::encode_scalar(s[0] as u32);
        let e = encode_utf8(s);
        assert(e == head + encode_utf8(rest));
        assert forall|i: int| 0 <= i < e.len() implies #[trigger] e[i] != 0 by {
            if i < head.len() {
                assert(e[i] == head[i]);
            } else {
                assert(e[i] == encode_utf8(rest)[i - head.len()]);
            }
        }
    }
}

/// Reading the body of a list of fields without NUL gives the fields back.
pub proof fn lemma_body_round_trip(fields: Seq<Seq<char>>)
    requires
        fields.len() >= 1,
        forall|i: int| 0 <= i < fields.len() ==> no_nul_char(#[trigger] fields[i]),
    ensures
        fields_of_body(body_of(fields)) == Some(fields),
{
    let parts = field_bytes(fields);
    assert forall|i: int| 0 <= i < parts.len() implies no_nul_byte(#[trigger] parts[i]) by {
        lemma_utf8_no_nul(fields[i]);
    }
    lemma_split_join(parts);
    assert forall|i: int| 0 <= i < parts.len() implies valid_utf8(#[trigger] parts[i]) by {
        encode_utf8_valid_utf8(fields[i]);
    }
    let back = parts.map_values(|p: Seq<u8>| decode_utf8(p));
    assert forall|i: int| 0 <= i < fields.len() implies #[trigger] back[i] == fields[i] by {
        encode_utf8_decode_utf8(fields[i]);
    }
    assert(back =~= fields);
}

/// A body behind its own length prefix reads as the body alone.
proof fn lemma_frame_of_body(b: Seq<u8>)
    requires
        b.len() <= u32::MAX,
    ensures
        fields_of_frame(be_bytes(b.len() as u32) + b) == match fields_of_body(b) {
            Some(fields) => Ok(fields),
            None => Err(FrameError::InvalidUtf8),
        },
{
    let n = b.len() as u32;
    let h = be_bytes(n);
    let f = h + b;
    lemma_be_round_trip(n);
    assert(f[0] == h[0] && f[1] == h[1] && f[2] == h[2] && f[3] == h[3]);
    assert(f.skip(4) =~= b);
}

/// Framing round trip: every non-empty list of fields without a NUL character, once
/// framed, reads back as the same list.
pub proof fn lemma_frame_round_trip(fields: Seq<Seq<char>>)
    requires
        fields.len() >= 1,
        forall|i: int| 0 <= i < fields.len() ==> no_nul_char(#[trigger] fields[i]),
    ensures
        frame_of(fields) matches Some(f) ==> fields_of_frame(f) == Ok::<Seq<Seq<char>>, FrameError>(fields),
{
    let b = body_of(fields);
    if b.len() <= u32::MAX {
        lemma_frame_of_body(b);
        lemma_body_round_trip(fields);
    }
}

/// Relies on `String::from_utf8`: it accepts exactly the byte strings that are valid
/// UTF-8, and the string it returns holds the text those bytes encode.
#[verifier::external_body]
fn string_from_utf8(bytes: Vec<u8>) -> (r: Option<String>)
    ensures
        match r {
            Some(s) => valid_utf8(bytes@) && s@ == decode_utf8(bytes@),
            None => !valid_utf8(bytes@),
        },
{
    String::from_utf8(bytes).ok()
}

/// The body that carries `fields`: their UTF-8 bytes with a NUL between neighbours.
pub fn encode_body(fields: &Vec<String>) -> (r: Vec<u8>)
    ensures
        r@ == body_of(fields.deep_view()),
{
    let ghost views = fields.deep_view();
    let mut out: Vec<u8> = Vec::new();
    let mut i: usize = 0;
    while i < fields.len()
        invariant
            i <= fields.len(),
            views == fields.deep_view(),
            out@ == body_of(views.take(i as int)),
        decreases fields.len() - i,
    {
        let ghost before = out@;
        if i > 0 {
            out.push(0u8);
        }
        let bytes = fields[i].as_str().as_bytes();
        assert(bytes@ == encode_utf8(views[i as int]));
        let mut j: usize = 0;
        while j < bytes.len()
            invariant
                j <= bytes@.len(),
                i > 0 ==> out@ == before + seq![0u8] + bytes@.take(j as int),
                i == 0 ==> out@ == before + bytes@.take(j as int),
            decreases bytes@.len() - j,
        {
            out.push(bytes[j]);
            j = j + 1;
            assert(bytes@.take(j as int) =~= bytes@.take(j - 1).push(bytes@[j - 1]));
        }
        assert(bytes@.take(j as int) =~= bytes@);
        let ghost parts = field_bytes(views.take(i + 1));
        assert(parts.drop_last() =~= field_bytes(views.take(i as int)));
        assert(parts.last() == bytes@);
        if i == 0 {
            assert(views.take(0) =~= Seq::<Seq<char>>::empty());
            assert(before =~= Seq::<u8>::empty());
            assert(out@ =~= body_of(views.take(i + 1)));
        }
        i = i + 1;
    }
    assert(views.take(i as int) =~= views);
    out
}

/// Splits a body into its NUL-separated pieces.
fn split_body(body: &Vec<u8>) -> (r: Vec<Vec<u8>>)
    ensures
        r.deep_view() == split_nul(body@),
{
    let mut done: Vec<Vec<u8>> = Vec::new();
    let mut cur: Vec<u8> = Vec::new();
    let mut i: usize = 0;
    while i < body.len()
        invariant
            i <= body@.len(),
            done.deep_view().push(cur@) == split_nul(body@.take(i as int)),
        decreases body@.len() - i,
    {
        let b = body[i];
        let ghost prev = split_nul(body@.take(i as int));
        assert(body@.take(i + 1).drop_last() =~= body@.take(i as int));
        if b == 0 {
            let ghost old_done = done.deep_view();
            let piece = cur;
            assert(piece.deep_view() =~= piece@);
            done.push(piece);
            assert(done.deep_view() =~= old_done.push(piece@));
            cur = Vec::new();
            assert(done.deep_view().push(cur@) =~= prev.push(seq![]));
        } else {
            cur.push(b);
            assert(done.deep_view().push(cur@) =~= prev.update(prev.len() - 1, prev.last().push(b)));
        }
        i = i + 1;
    }
    assert(body@.take(i as int) =~= body@);
    let ghost old_done = done.deep_view();
    assert(cur.deep_view() =~= cur@);
    done.push(cur);
    assert(done.deep_view() =~= old_done.push(cur@));
    done
}

/// Reads the fields that a body carries.
pub fn decode_body(body: &Vec<u8>) -> (r: Result<Vec<String>, FrameError>)
    ensures
        match fields_of_body(body@) {
            Some(fields) => r matches Ok(v) && v.deep_view() == fields,
            None => r == Err::<Vec<String>, FrameError>(FrameError::InvalidUtf8),
        },
{
    let pieces = split_body(body);
    let ghost parts = split_nul(body@);
    let mut out: Vec<String> = Vec::new();
    let mut i: usize = 0;
    while i < pieces.len()
        invariant
            i <= pieces@.len(),
            pieces.deep_view() == parts,
            parts == split_nul(body@),
            forall|k: int| 0 <= k < i ==> valid_utf8(#[trigger] parts[k]),
            out.deep_view() == parts.take(i as int).map_values(|p: Seq<u8>| decode_utf8(p)),
        decreases pieces@.len() - i,
    {
        let piece = pieces[i].clone();
        assert(piece@ == parts[i as int]);
        match string_from_utf8(piece) {
            Some(s) => {
                let ghost old_out = out.deep_view();
                out.push(s);
                assert(out.deep_view() =~= old_out.push(s@));
                assert(out.deep_view() =~= parts.take(i + 1).map_values(|p: Seq<u8>| decode_utf8(p)));
            },
            None => {
                return Err(FrameError::InvalidUtf8);
            },
        }
        i = i + 1;
    }
    assert(parts.take(i as int) =~= parts);
    Ok(out)
}

/// Frames `fields`: the body's length as 4 big-endian bytes, then the body.
pub fn encode_frame(fields: &Vec<String>) -> (r: Result<Vec<u8>, FrameError>)
    ensures
        match frame_of(fields.deep_view()) {
            Some(f) => r matches Ok(v) && v@ == f,
            None => r == Err::<Vec<u8>, FrameError>(FrameError::TooLong),
        },
{
    let body = encode_body(fields);
    if body.len() > 4294967295 {
        return Err(FrameError::TooLong);
    }
    let n = body.len() as u32;
    let mut out: Vec<u8> = Vec::new();
    out.push((n >> 24) as u8);
    out.push(((n >> 16) & 0xff) as u8);
    out.push(((n >> 8) & 0xff) as u8);
    out.push((n & 0xff) as u8);
    let ghost head = out@;
    assert(head =~= be_bytes(n));
    let mut j: usize = 0;
    while j < body.len()
        invariant
            j <= body@.len(),
            out@ == head + body@.take(j as int),
        decreases body@.len() - j,
    {
        out.push(body[j]);
        j = j + 1;
        assert(body@.take(j as int) =~= body@.take(j - 1).push(body@[j - 1]));
    }
    assert(body@.take(j as int) =~= body@);
    Ok(out)
}

/// Reads a whole frame: checks its length prefix against its body, then reads the body.
pub fn decode_frame(frame: &Vec<u8>) -> (r: Result<Vec<String>, FrameError>)
    ensures
        match fields_of_frame(frame@) {
            Ok(fields) => r matches Ok(v) && v.deep_view() == fields,
            Err(e) => r == Err::<Vec<String>, FrameError>(e),
        },
{
    if frame.len() < 4 {
        return Err(FrameError::Truncated);
    }
    let n = ((frame[0] as u32) << 24) | ((frame[1] as u32) << 16) | ((frame[2] as u32) << 8) | (
    frame[3] as u32);
    if n as usize != frame.len() - 4 {
        return Err(FrameError::LengthMismatch);
    }
    let mut body: Vec<u8> = Vec::new();
    let mut j: usize = 4;
    while j < frame.len()
        invariant
            4 <= j <= frame@.len(),
            body@ == frame@.subrange(4, j as int),
        decreases frame@.len() - j,
    {
        body.push(frame[j]);
        j = j + 1;
        assert(frame@.subrange(4, j as int) =~= frame@.subrange(4, j - 1).push(frame@[j - 1]));
    }
    assert(frame@.subrange(4, j as int) =~= frame@.skip(4));
    decode_body(&body)
}

} // verus!
