use vstd::prelude::*;
use vstd::utf8::{decode_utf8, encode_utf8, valid_utf8};

verus! {

/// One published log record.
#[derive(Debug, PartialEq, Eq)]
pub struct LogMessage {
    pub message: String,
    pub group: String,
    pub index: String,
    pub channel_name: String,
    pub metadata: Option<String>,
}

/// A log record as text values.
pub struct LogMessageView {
    pub message: Seq<char>,
    pub group: Seq<char>,
    pub index: Seq<char>,
    pub channel_name: Seq<char>,
    pub metadata: Option<Seq<char>>,
}

pub open spec fn opt_view(o: Option<String>) -> Option<Seq<char>> {
    match o {
        Some(s) => Some(s@),
        None => None,
    }
}

impl View for LogMessage {
    type V = LogMessageView;

    open spec fn view(&self) -> LogMessageView {
        LogMessageView {
            message: self.message@,
            group: self.group@,
            index: self.index@,
            channel_name: self.channel_name@,
            metadata: opt_view(self.metadata),
        }
    }
}

/// Why a record could not be encoded.
#[derive(Debug, Clone, Copy, PartialEq, Eq, Structural)]
pub enum EncodeError {
    /// The packed record is too long for its text form to be addressed.
    TooLarge,
}

/// Why a text could not be read back as a record.
#[derive(Debug, Clone, Copy, PartialEq, Eq, Structural)]
pub enum DecodeError {
    /// The text is not the base64 form of any byte string.
    InvalidBase64,
    /// A length prefix or a field runs past the end of the bytes.
    Truncated,
    /// A text field is not valid UTF-8.
    InvalidUtf8,
    /// The presence tag of the metadata field is neither 0 nor 1.
    InvalidTag,
    /// Bytes remain after the last field.
    TrailingBytes,
}

/// Eight little-endian bytes of `n`.
pub open spec fn u64_le(n: u64) -> Seq<u8> {
    seq![
        (n & 0xff) as u8,
        ((n >> 8u64) & 0xff) as u8,
        ((n >> 16u64) & 0xff) as u8,
        ((n >> 24u64) & 0xff) as u8,
        ((n >> 32u64) & 0xff) as u8,
        ((n >> 40u64) & 0xff) as u8,
        ((n >> 48u64) & 0xff) as u8,
        ((n >> 56u64) & 0xff) as u8,
    ]
}

/// The integer held little-endian in the eight bytes of `b` from `p` on.
pub open spec fn u64_at(b: Seq<u8>, p: int) -> u64 {
    (b[p] as u64) | ((b[p + 1] as u64) << 8u64) | ((b[p + 2] as u64) << 16u64) | ((b[p
        + 3] as u64) << 24u64) | ((b[p + 4] as u64) << 32u64) | ((b[p + 5] as u64) << 40u64)
        | ((b[p + 6] as u64) << 48u64) | ((b[p + 7] as u64) << 56u64)
}

/// A text field: its UTF-8 length as eight little-endian bytes, then its UTF-8 bytes.
#[verifier::opaque]
pub open spec fn str_field(s: Seq<char>) -> Seq<u8> {
    u64_le(encode_utf8(s).len() as u64) + encode_utf8(s)
}

/// The packed form of a record: the four text fields in order, then the
/// metadata as a tag byte (0 absent, 1 present) followed by the field.
pub open spec fn wire_bytes(m: LogMessageView) -> Seq<u8> {
    str_field(m.message) + str_field(m.group) + str_field(m.index) + str_field(m.channel_name)
        + match m.metadata {
        None => seq![0u8],
        Some(t) => seq![1u8] + str_field(t),
    }
}

/// Every text field of the record has a UTF-8 length that a `u64` holds.
pub open spec fn fits_wire(m: LogMessageView) -> bool {
    &&& encode_utf8(m.message).len() <= u64::MAX
    &&& encode_utf8(m.group).len() <= u64::MAX
    &&& encode_utf8(m.index).len() <= u64::MAX
    &&& encode_utf8(m.channel_name).len() <= u64::MAX
    &&& (m.metadata matches Some(t) ==> encode_utf8(t).len() <= u64::MAX)
}

/// Reads a text field at `p`: its characters and the position after it.
pub open spec fn parse_str_at(b: Seq<u8>, p: int) -> Result<(Seq<char>, int), DecodeError> {
    if p + 8 > b.len() {
        Err(DecodeError::Truncated)
    } else {
        let n = u64_at(b, p) as int;
        if n > b.len() - (p + 8) {
            Err(DecodeError::Truncated)
        } else if !valid_utf8(b.subrange(p + 8, p + 8 + n)) {
            Err(DecodeError::InvalidUtf8)
        } else {
            Ok((decode_utf8(b.subrange(p + 8, p + 8 + n)), p + 8 + n))
        }
    }
}

/// Reads the optional metadata field at `p`.
pub open spec fn parse_opt_at(b: Seq<u8>, p: int) -> Result<(Option<Seq<char>>, int), DecodeError> {
    if p >= b.len() {
        Err(DecodeError::Truncated)
    } else if b[p] == 0 {
        Ok((None, p + 1))
    } else if b[p] == 1 {
        match parse_str_at(b, p + 1) {
            Ok((s, q)) => Ok((Some(s), q)),
            Err(e) => Err(e),
        }
    } else {
        Err(DecodeError::InvalidTag)
    }
}

/// The record that the packed bytes `b` hold, or why they hold none.
pub open spec fn parse_wire(b: Seq<u8>) -> Result<LogMessageView, DecodeError> {
    match parse_str_at(b, 0) {
        Err(e) => Err(e),
        Ok((message, at1)) => match parse_str_at(b, at1) {
            Err(e) => Err(e),
            Ok((group, at2)) => match parse_str_at(b, at2) {
                Err(e) => Err(e),
                Ok((index, at3)) => match parse_str_at(b, at3) {
                    Err(e) => Err(e),
                    Ok((channel_name, at4)) => match parse_opt_at(b, at4) {
                        Err(e) => Err(e),
                        Ok((metadata, at5)) => if at5 != b.len() {
                            Err(DecodeError::TrailingBytes)
                        } else {
                            Ok(LogMessageView { message, group, index, channel_name, metadata })
                        },
                    },
                },
            },
        },
    }
}

/// The base64 text (standard alphabet, padded) of a byte string.
pub uninterp spec fn base64_of(b: Seq<u8>) -> Seq<char>;

/// Relies on base64::encode with its default engine (standard alphabet, with
/// padding): the text depends on the bytes alone. It panics only when the
/// length of the text overflows `usize`, which the bound rules out.
#[verifier::external_body]
fn base64_encode(b: &[u8]) -> (r: String)
    requires
        b@.len() <= usize::MAX / 2,
    ensures
        r@ == base64_of(b@),
{
    base64::encode(b)
}

/// Relies on base64::decode with the default engine: the text that
/// base64::encode made of some bytes decodes to those bytes.
#[verifier::external_body]
fn base64_decode(s: &str) -> (r: Option<Vec<u8>>)
    ensures
        r is None ==> forall|b: Seq<u8>| #[trigger] base64_of(b) != s@,
        r matches Some(v) ==> forall|b: Seq<u8>| #[trigger] base64_of(b) == s@ ==> v@ == b,
{
    base64::decode(s).ok()
}

/// Relies on String::from_utf8: it accepts exactly the valid UTF-8 byte
/// strings, and the string it returns holds those bytes.
#[verifier::external_body]
fn string_from_utf8(v: Vec<u8>) -> (r: Option<String>)
    ensures
        r.is_some() == valid_utf8(v@),
        r matches Some(s) ==> s@ == decode_utf8(v@),
{
    String::from_utf8(v).ok()
}

proof fn lemma_u64_le_round_trip(n: u64)
    ensures
        u64_at(u64_le(n), 0) == n,
{
    let b = u64_le(n);
    let b0 = (n & 0xff) as u8;
    let b1 = ((n >> 8u64) & 0xff) as u8;
    let b2 = ((n >> 16u64) & 0xff) as u8;
    let b3 = ((n >> 24u64) & 0xff) as u8;
    let b4 = ((n >> 32u64) & 0xff) as u8;
    let b5 = ((n >> 40u64) & 0xff) as u8;
    let b6 = ((n >> 48u64) & 0xff) as u8;
    let b7 = ((n >> 56u64) & 0xff) as u8;
    assert(b[0] == b0 && b[1] == b1 && b[2] == b2 && b[3] == b3);
    assert(b[4] == b4 && b[5] == b5 && b[6] == b6 && b[7] == b7);
    assert((b0 as u64) | ((b1 as u64) << 8u64) | ((b2 as u64) << 16u64) | ((b3 as u64) << 24u64)
        | ((b4 as u64) << 32u64) | ((b5 as u64) << 40u64) | ((b6 as u64) << 48u64) | ((b7
        as u64) << 56u64) == n) by (bit_vector)
        requires
            b0 == (n & 0xff) as u8,
            b1 == ((n >> 8u64) & 0xff) as u8,
            b2 == ((n >> 16u64) & 0xff) as u8,
            b3 == ((n >> 24u64) & 0xff) as u8,
            b4 == ((n >> 32u64) & 0xff) as u8,
            b5 == ((n >> 40u64) & 0xff) as u8,
            b6 == ((n >> 48u64) & 0xff) as u8,
            b7 == ((n >> 56u64) & 0xff) as u8,
    ;
}

proof fn lemma_parse_field(b: Seq<u8>, p: int, s: Seq<char>)
    requires
        0 <= p,
        p + str_field(s).len() <= b.len(),
        b.subrange(p, p + str_field(s).len()) == str_field(s),
        encode_utf8(s).len() <= u64::MAX,
    ensures
        parse_str_at(b, p) == Ok::<(Seq<char>, int), DecodeError>((s, p + str_field(s).len())),
{
    broadcast use vstd::utf8::group_utf8_lib;
    reveal(str_field);
    let e = encode_utf8(s);
    let n = e.len();
    let f = str_field(s);
    let h = u64_le(n as u64);
    lemma_u64_le_round_trip(n as u64);
    assert forall|i: int| 0 <= i < 8 implies b[p + i] == h[i] by {
        assert(b[p + i] == b.subrange(p, p + f.len())[i]);
        assert(f[i] == h[i]);
    }
    assert(u64_at(b, p) == u64_at(h, 0));
    assert(b.subrange(p + 8, p + 8 + n) =~= e) by {
        assert forall|i: int| 0 <= i < n implies b.subrange(p + 8, p + 8 + n)[i] == e[i] by {
            assert(b[p + 8 + i] == b.subrange(p, p + f.len())[8 + i]);
            assert(f[8 + i] == e[i]);
        }
    }
}

/// Packing a record and reading the bytes back gives the same record, with
/// or without metadata.
#[verifier::rlimit(50)]
pub proof fn lemma_wire_round_trip(m: LogMessageView)
    requires
        fits_wire(m),
    ensures
        parse_wire(wire_bytes(m)) == Ok::<LogMessageView, DecodeError>(m),
{
    let f1 = str_field(m.message);
    let f2 = str_field(m.group);
    let f3 = str_field(m.index);
    let f4 = str_field(m.channel_name);
    let t = match m.metadata {
        None => seq![0u8],
        Some(x) => seq![1u8] + str_field(x),
    };
    let w = wire_bytes(m);
    assert(w == f1 + f2 + f3 + f4 + t);
    let at1 = f1.len() as int;
    let at2 = at1 + f2.len();
    let at3 = at2 + f3.len();
    let at4 = at3 + f4.len();
    assert(w.subrange(0, at1) =~= f1);
    assert(w.subrange(at1, at2) =~= f2);
    assert(w.subrange(at2, at3) =~= f3);
    assert(w.subrange(at3, at4) =~= f4);
    lemma_parse_field(w, 0, m.message);
    lemma_parse_field(w, at1, m.group);
    lemma_parse_field(w, at2, m.index);
    lemma_parse_field(w, at3, m.channel_name);
    assert(w[at4] == t[0]);
    match m.metadata {
        None => {
            assert(parse_opt_at(w, at4) == Ok::<(Option<Seq<char>>, int), DecodeError>((None, at4 + 1)));
        },
        Some(x) => {
            let fx = str_field(x);
            assert(w.subrange(at4 + 1, at4 + 1 + fx.len()) =~= fx);
            lemma_parse_field(w, at4 + 1, x);
        },
    }
}

fn push_u64_le(out: &mut Vec<u8>, n: u64)
    ensures
        final(out)@ == old(out)@ + u64_le(n),
{
    out.push((n & 0xff) as u8);
    out.push(((n >> 8u64) & 0xff) as u8);
    out.push(((n >> 16u64) & 0xff) as u8);
    out.push(((n >> 24u64) & 0xff) as u8);
    out.push(((n >> 32u64) & 0xff) as u8);
    out.push(((n >> 40u64) & 0xff) as u8);
    out.push(((n >> 48u64) & 0xff) as u8);
    out.push(((n >> 56u64) & 0xff) as u8);
    assert(out@ =~= old(out)@ + u64_le(n));
}

fn push_str_field(out: &mut Vec<u8>, s: &str)
    ensures
        final(out)@ == old(out)@ + str_field(s@),
{
    let b = s.as_bytes();
    push_u64_le(out, b.len() as u64);
    let ghost start = out@;
    let mut i: usize = 0;
    while i < b.len()
        invariant
            i <= b@.len(),
            out@ == start + b@.subrange(0, i as int),
        decreases b@.len() - i,
    {
        out.push(b[i]);
        i = i + 1;
        assert(out@ =~= start + b@.subrange(0, i as int));
    }
    assert(b@.subrange(0, b@.len() as int) =~= b@);
    reveal(str_field);
    assert(out@ =~= old(out)@ + str_field(s@));
}

fn read_u64_le(b: &[u8], p: usize) -> (r: u64)
    requires
        p + 8 <= b@.len(),
    ensures
        r == u64_at(b@, p as int),
{
    (b[p] as u64) | ((b[p + 1] as u64) << 8u64) | ((b[p + 2] as u64) << 16u64) | ((b[p + 3]
        as u64) << 24u64) | ((b[p + 4] as u64) << 32u64) | ((b[p + 5] as u64) << 40u64) | ((b[p
        + 6] as u64) << 48u64) | ((b[p + 7] as u64) << 56u64)
}

fn read_str_at(b: &[u8], p: usize) -> (r: Result<(String, usize), DecodeError>)
    requires
        p <= b@.len(),
    ensures
        match parse_str_at(b@, p as int) {
            Ok((s, q)) => r matches Ok((t, q2)) && t@ == s && q2 == q,
            Err(e) => r == Err::<(String, usize), DecodeError>(e),
        },
{
    if b.len() - p < 8 {
        return Err(DecodeError::Truncated);
    }
    let n = read_u64_le(b, p);
    let rest = b.len() - p - 8;
    if n > rest as u64 {
        return Err(DecodeError::Truncated);
    }
    let start = p + 8;
    let end = start + n as usize;
    let mut v: Vec<u8> = Vec::new();
    let mut i: usize = start;
    while i < end
        invariant
            start <= i <= end,
            end <= b@.len(),
            v@ == b@.subrange(start as int, i as int),
        decreases end - i,
    {
        v.push(b[i]);
        i = i + 1;
        assert(v@ =~= b@.subrange(start as int, i as int));
    }
    match string_from_utf8(v) {
        Some(t) => Ok((t, end)),
        None => Err(DecodeError::InvalidUtf8),
    }
}

impl LogMessage {
    /// The packed bytes of this record.
    pub fn wire_bytes(&self) -> (r: Vec<u8>)
        ensures
            r@ == wire_bytes(self@),
    {
        let mut out: Vec<u8> = Vec::new();
        push_str_field(&mut out, self.message.as_str());
        push_str_field(&mut out, self.group.as_str());
        push_str_field(&mut out, self.index.as_str());
        push_str_field(&mut out, self.channel_name.as_str());
        match &self.metadata {
            None => {
                out.push(0u8);
            },
            Some(t) => {
                out.push(1u8);
                push_str_field(&mut out, t.as_str());
            },
        }
        assert(out@ =~= wire_bytes(self@));
        out
    }

    /// Encodes this record for the transport: packed, then base64.
    pub fn redis_serialize(&self) -> (r: Result<String, EncodeError>)
        ensures
            wire_bytes(self@).len() <= usize::MAX / 2 ==> (r matches Ok(s) && s@ == base64_of(
                wire_bytes(self@),
            )),
            wire_bytes(self@).len() > usize::MAX / 2 ==> r == Err::<String, EncodeError>(
                EncodeError::TooLarge,
            ),
    {
        let bytes = self.wire_bytes();
        if bytes.len() > usize::MAX / 2 {
            return Err(EncodeError::TooLarge);
        }
        Ok(base64_encode(bytes.as_slice()))
    }

    /// Reads a record back from its packed bytes.
    pub fn from_wire_bytes(b: &[u8]) -> (r: Result<LogMessage, DecodeError>)
        ensures
            match parse_wire(b@) {
                Ok(m) => r matches Ok(x) && x@ == m,
                Err(e) => r == Err::<LogMessage, DecodeError>(e),
            },
    {
        let (message, at1) = read_str_at(b, 0)?;
        let (group, at2) = read_str_at(b, at1)?;
        let (index, at3) = read_str_at(b, at2)?;
        let (channel_name, at4) = read_str_at(b, at3)?;
        if at4 >= b.len() {
            return Err(DecodeError::Truncated);
        }
        let (metadata, at5) = if b[at4] == 0 {
            (None, at4 + 1)
        } else if b[at4] == 1 {
            let (t, q) = read_str_at(b, at4 + 1)?;
            (Some(t), q)
        } else {
            return Err(DecodeError::InvalidTag);
        };
        if at5 != b.len() {
            return Err(DecodeError::TrailingBytes);
        }
        Ok(LogMessage { message, group, index, channel_name, metadata })
    }

    /// Decodes a record from its transport text. Text that base64 encoding
    /// made of some bytes decodes as those bytes do; other text is refused
    /// with `InvalidBase64` wherever base64 decoding refuses it.
    pub fn redis_deserialize(data: &str) -> (r: Result<LogMessage, DecodeError>)
        ensures
            forall|b: Seq<u8>|
                #[trigger] base64_of(b) == data@ ==> match parse_wire(b) {
                    Ok(m) => r matches Ok(x) && x@ == m,
                    Err(e) => r == Err::<LogMessage, DecodeError>(e),
                },
    {
        match base64_decode(data) {
            Some(v) => LogMessage::from_wire_bytes(v.as_slice()),
            None => Err(DecodeError::InvalidBase64),
        }
    }
}

} // verus!
