//! Reading and classifying messages.
//!
//! A message is read in three levels. The generic level holds the sequence
//! number, the `type` and the whole JSON body as it was received. When the
//! type is known, the kind level reads the members of a request, an event or
//! a response. When the command of a request is known, the command level
//! reads its arguments. Each level is read once, when the message is
//! classified, and kept beside the levels below it.
use serde_json::Value;
use vstd::prelude::*;
use vstd::string::StringSliceAdditionalSpecFns;
use vstd::utf8::{
    decode_utf8, encode_scalar, encode_utf8, encode_utf8_decode_utf8, encode_utf8_first_scalar,
    encode_utf8_valid_utf8, is_char_boundary, length_of_first_scalar, pop_first_scalar,
};

use crate::dap_type::{kind_of, kind_ok, kind_read, kind_spec, Message as KindMessage, MessageKind};
use crate::header::{
    content_length_key, crlf, header_len_of, header_text, len_count, content_length_of,
    lemma_key_part, lemma_line_of, lemma_read_written_fields, parse_decimal, part_wf,
    read_fields_spec, specialize_spec, Header, HeaderFieldView,
};
use crate::json::{
    category_of, error_for, from_slice, json_error_of, json_of, parses_as_json, read_string,
    read_u64, required, slot_str, slot_u64, to_usize, Slot,
};
use crate::{io_kind_of, Error};

verus! {

/// Relies on `std::io::Error::from(ErrorKind::UnexpectedEof)`: the error has
/// that kind.
#[verifier::external_body]
fn unexpected_eof() -> (r: std::io::Error)
    ensures
        io_kind_of(r) is UnexpectedEof,
{
    std::io::Error::from(std::io::ErrorKind::UnexpectedEof)
}

/// Whether the body `v` has the members of every message: `seq` an unsigned
/// integer that fits in a `usize`, `type` a string.
pub open spec fn envelope_ok(v: Value) -> bool {
    &&& slot_u64(v, "seq"@) is Found
    &&& slot_u64(v, "seq"@)->Found_0 <= usize::MAX
    &&& slot_str(v, "type"@) is Found
}

/// Whether the body `v` reads as a message, down to the levels that its type
/// and command make known.
pub open spec fn message_ok(v: Value) -> bool {
    &&& envelope_ok(v)
    &&& match kind_spec(slot_str(v, "type"@)->Found_0) {
        None => true,
        Some(k) => kind_ok(k, v),
    }
}

/// `m` holds the generic level of the body `v`.
pub open spec fn enveloped(v: Value, m: GenericMessage) -> bool {
    &&& m.spec_seq() == slot_u64(v, "seq"@)->Found_0
    &&& m.spec_type() == slot_str(v, "type"@)->Found_0
    &&& m.spec_value() == v
}

/// `r` is the classification of the body `v`.
pub open spec fn classified(v: Value, r: Result<GenericMessage, Error>) -> bool {
    &&& r is Ok <==> message_ok(v)
    &&& r matches Ok(m) ==> enveloped(v, m) && m.spec_kind() == kind_spec(m.spec_type()) && (
    m.spec_kind() is Some ==> m.spec_kind_seq() == Some(m.spec_seq())) && (m.spec_kind_message()
        is Some ==> kind_read(v, m.spec_seq(), m.spec_kind_message()->Some_0))
    &&& r is Err ==> r->Err_0 is InvalidMessage
}

/// `r` is the classification of the bytes `b`: a body that is not JSON fails
/// as `serde_json`'s error says, one that is goes on as `classified` says.
pub open spec fn parsed(b: Seq<u8>, r: Result<GenericMessage, Error>) -> bool {
    &&& parses_as_json(b) ==> classified(json_of(b), r)
    &&& !parses_as_json(b) ==> r is Err && error_for(category_of(json_error_of(b)), r->Err_0)
}

/// A message read at the generic level, with the kind level when its type
/// is known.
pub struct GenericMessage {
    seq: usize,
    message_type: String,
    value: Value,
    kind: Option<KindMessage>,
}

impl GenericMessage {
    pub closed spec fn spec_seq(&self) -> usize {
        self.seq
    }

    pub closed spec fn spec_type(&self) -> Seq<char> {
        self.message_type@
    }

    /// The kind that the message was read as, if it was read further.
    pub closed spec fn spec_kind(&self) -> Option<MessageKind> {
        match self.kind {
            Some(m) => Some(m.kind()),
            None => None,
        }
    }

    /// The whole body, as it was received.
    pub closed spec fn spec_value(&self) -> Value {
        self.value
    }

    /// The kind level, when it was read.
    pub closed spec fn spec_kind_message(&self) -> Option<KindMessage> {
        self.kind
    }

    pub closed spec fn spec_kind_seq(&self) -> Option<usize> {
        match self.kind {
            Some(m) => Some(m.spec_seq()),
            None => None,
        }
    }

    /// The generic level, from the members `seq` and `type` as they were
    /// read out of `value`: `seq` must be an unsigned integer that fits in a
    /// `usize`, `type` a string.
    pub fn from_slots(value: Value, seq: Slot<u64>, message_type: Slot<String>) -> (r: Result<
        GenericMessage,
        Error,
    >)
        ensures
            r is Ok <==> (seq is Found && seq->Found_0 <= usize::MAX && message_type is Found),
            r matches Ok(m) ==> m.spec_seq() == seq->Found_0 && m.spec_type()
                == message_type->Found_0@ && m.spec_kind() is None && m.spec_value() == value,
            r is Err ==> r->Err_0 is InvalidMessage,
    {
        let seq = to_usize(required(seq)?)?;
        let message_type = required(message_type)?;
        Ok(GenericMessage { seq, message_type, value, kind: None })
    }

    /// The generic level alone: the body must be an object with an unsigned
    /// `seq` and a string `type`. Its kind is not read.
    pub fn try_from(value: Value) -> (r: Result<GenericMessage, Error>)
        ensures
            r is Ok <==> envelope_ok(value),
            r matches Ok(m) ==> enveloped(value, m) && m.spec_kind() is None,
            r is Err ==> r->Err_0 is InvalidMessage,
    {
        let seq = read_u64(&value, "seq");
        let message_type = read_string(&value, "type");
        GenericMessage::from_slots(value, seq, message_type)
    }

    /// Reads the kind level when the type is known; a message of a known
    /// type that lacks the members of its kind is invalid. A message of
    /// another type is kept at the generic level.
    pub fn specialize(self) -> (r: Result<GenericMessage, Error>)
        ensures
            r is Ok <==> match kind_spec(self.spec_type()) {
                None => true,
                Some(k) => kind_ok(k, self.spec_value()),
            },
            r matches Ok(m) ==> m.spec_seq() == self.spec_seq() && m.spec_type()
                == self.spec_type() && m.spec_value() == self.spec_value() && m.spec_kind()
                == kind_spec(self.spec_type()) && (m.spec_kind() is Some ==> m.spec_kind_seq()
                == Some(m.spec_seq())) && (m.spec_kind_message() is Some ==> kind_read(
                self.spec_value(),
                m.spec_seq(),
                m.spec_kind_message()->Some_0,
            )),
            r is Err ==> r->Err_0 is InvalidMessage,
    {
        match kind_of(self.message_type.as_str()) {
            None => Ok(GenericMessage { kind: None, ..self }),
            Some(kind) => match KindMessage::from_json(kind, &self.value, self.seq) {
                Ok(m) => Ok(GenericMessage { kind: Some(m), ..self }),
                Err(e) => Err(e),
            },
        }
    }

    /// Classifies a JSON body as far as its type and command are known.
    pub fn classify_value(value: Value) -> (r: Result<GenericMessage, Error>)
        ensures
            classified(value, r),
    {
        let m = GenericMessage::try_from(value)?;
        m.specialize()
    }

    /// Classifies a body as far as its type and command are known. A body
    /// that is not JSON is a bad message; one that is JSON but not a valid
    /// message is an invalid message.
    pub fn classify(input: &[u8]) -> (r: Result<GenericMessage, Error>)
        ensures
            parsed(input@, r),
    {
        match from_slice(input) {
            Ok(value) => GenericMessage::classify_value(value),
            Err(e) => Err(Error::from_json(e)),
        }
    }

    /// Reads a body at the generic level alone, without reading its kind or
    /// command further.
    pub fn parse(input: &[u8]) -> (r: Result<GenericMessage, Error>)
        ensures
            parses_as_json(input@) ==> (r is Ok <==> envelope_ok(json_of(input@))),
            parses_as_json(input@) ==> (r matches Ok(m) ==> enveloped(json_of(input@), m)
                && m.spec_kind() is None),
            parses_as_json(input@) ==> (r is Err ==> r->Err_0 is InvalidMessage),
            !parses_as_json(input@) ==> r is Err && error_for(
                category_of(json_error_of(input@)),
                r->Err_0,
            ),
    {
        match from_slice(input) {
            Ok(value) => GenericMessage::try_from(value),
            Err(e) => Err(Error::from_json(e)),
        }
    }

    /// Sequence number (also known as message ID). For protocol messages of type
    /// 'request' this ID can be used to cancel the request.
    pub fn seq(&self) -> (r: usize)
        ensures
            r == self.spec_seq(),
    {
        self.seq
    }

    /// The `type` of the message.
    pub fn message_type(&self) -> (r: &str)
        ensures
            r@ == self.spec_type(),
    {
        self.message_type.as_str()
    }

    /// The whole body, as it was received.
    pub fn value(&self) -> (r: &Value)
        ensures
            *r == self.spec_value(),
    {
        &self.value
    }

    /// The kind level, when the type is known.
    pub fn kind(&self) -> (r: Option<&KindMessage>)
        ensures
            r is Some <==> self.spec_kind() is Some,
            match self.spec_kind_message() {
                Some(k) => r is Some && *r->Some_0 == k,
                None => r is None,
            },
    {
        self.kind.as_ref()
    }
}

/// How the first frame of a text reads, before its body is classified.
pub enum FrameSpec {
    /// The header is malformed.
    BadHeader,
    /// The text ends before the body does.
    ShortBody,
    /// The body would end inside a character.
    SplitChar,
    /// The bytes of the body, and the text that follows it.
    Body(Seq<u8>, Seq<char>),
}

/// How the first frame of the text `s` reads.
pub open spec fn frame_spec(s: Seq<char>) -> FrameSpec {
    match read_fields_spec(s) {
        None => FrameSpec::BadHeader,
        Some((fs, k)) => match header_len_of(fs) {
            None => FrameSpec::BadHeader,
            Some(n) => {
                let rest = s.subrange(k as int, s.len() as int);
                let bytes = encode_utf8(rest);
                if bytes.len() < n {
                    FrameSpec::ShortBody
                } else if !is_char_boundary(bytes, n as int) {
                    FrameSpec::SplitChar
                } else {
                    FrameSpec::Body(
                        bytes.subrange(0, n as int),
                        decode_utf8(bytes.subrange(n as int, bytes.len() as int)),
                    )
                }
            },
        },
    }
}

/// The result of reading a frame, at the generic level.
pub open spec fn generic_result(r: Result<Message, Error>) -> Result<GenericMessage, Error> {
    match r {
        Ok(Message::Generic(m)) => Ok(m),
        Err(e) => Err(e),
    }
}

/// What reading a frame whose outcome is `f` returns, and leaves of the text.
pub open spec fn frame_read(f: FrameSpec, r: Result<Message, Error>, after: Seq<char>) -> bool {
    match f {
        FrameSpec::BadHeader => r matches Err(Error::BadMessage),
        FrameSpec::ShortBody => r is Err && r->Err_0 is Io && io_kind_of(r->Err_0->Io_0) is UnexpectedEof,
        FrameSpec::SplitChar => r matches Err(Error::BadMessage),
        FrameSpec::Body(body, rest) => {
            &&& after == rest
            &&& parsed(body, generic_result(r))
        },
    }
}

/// The text of a frame whose body is the text `body`: a header whose one
/// field is its length in bytes, then the body.
pub open spec fn frame_text(body: Seq<char>) -> Seq<char> {
    header_text(seq![HeaderFieldView::Len(encode_utf8(body).len() as usize)]) + body
}

proof fn lemma_encode_concat(a: Seq<char>, b: Seq<char>)
    ensures
        encode_utf8(a + b) == encode_utf8(a) + encode_utf8(b),
    decreases a.len(),
{
    if a.len() == 0 {
        assert(a + b =~= b);
    } else {
        lemma_encode_concat(a.drop_first(), b);
        assert((a + b).drop_first() =~= a.drop_first() + b);
        assert((a + b)[0] == a[0]);
        assert(encode_utf8(a + b) =~= encode_utf8(a) + encode_utf8(b));
    }
}

proof fn lemma_boundary_at_join(a: Seq<char>, b: Seq<char>)
    ensures
        is_char_boundary(encode_utf8(a + b), encode_utf8(a).len() as int),
    decreases a.len(),
{
    let bytes = encode_utf8(a + b);
    encode_utf8_valid_utf8(a + b);
    lemma_encode_concat(a, b);
    if a.len() > 0 {
        lemma_boundary_at_join(a.drop_first(), b);
        encode_utf8_first_scalar(a + b);
        assert((a + b)[0] == a[0]);
        assert((a + b).drop_first() =~= a.drop_first() + b);
        let l = length_of_first_scalar(bytes);
        assert(l == encode_scalar(a[0] as u32).len());
        assert(encode_utf8(a) =~= encode_scalar(a[0] as u32) + encode_utf8(a.drop_first()));
        assert(pop_first_scalar(bytes) =~= encode_utf8((a + b).drop_first()));
    }
}

/// A frame written for a body reads back as exactly that body, and what
/// follows the frame is left for the next read.
pub proof fn lemma_frame_read_back(body: Seq<char>, rest: Seq<char>)
    requires
        encode_utf8(body).len() <= usize::MAX,
    ensures
        frame_spec(frame_text(body) + rest) == FrameSpec::Body(encode_utf8(body), rest),
{
    let n = encode_utf8(body).len() as usize;
    let fs = seq![HeaderFieldView::Len(n)];
    let s = frame_text(body) + rest;
    assert(s =~= header_text(fs) + (body + rest));
    assert forall|i: int| 0 <= i < fs.len() implies crate::header::field_wf(#[trigger] fs[i]) by {}
    lemma_read_written_fields(fs, body + rest);
    assert(fs.drop_last() =~= Seq::<HeaderFieldView>::empty());
    assert(fs.last() == HeaderFieldView::Len(n));
    assert(len_count(Seq::<HeaderFieldView>::empty()) == 0);
    assert(len_count(fs) == 1);
    assert(content_length_of(fs) == n);
    let k = header_text(fs).len();
    assert(s.subrange(k as int, s.len() as int) =~= body + rest);
    lemma_encode_concat(body, rest);
    lemma_boundary_at_join(body, rest);
    let bytes = encode_utf8(body + rest);
    assert(bytes.subrange(0, n as int) =~= encode_utf8(body));
    assert(bytes.subrange(n as int, bytes.len() as int) =~= encode_utf8(rest));
    encode_utf8_decode_utf8(rest);
}

/// Two frames written one after the other read back one by one, in their
/// order: the first read gives the first body and leaves the second frame,
/// the second read gives the second body and leaves nothing.
pub proof fn lemma_two_frames_in_order(first: Seq<char>, second: Seq<char>)
    requires
        encode_utf8(first).len() <= usize::MAX,
        encode_utf8(second).len() <= usize::MAX,
    ensures
        frame_spec(frame_text(first) + frame_text(second)) == FrameSpec::Body(
            encode_utf8(first),
            frame_text(second),
        ),
        frame_spec(frame_text(second)) == FrameSpec::Body(encode_utf8(second), seq![]),
{
    lemma_frame_read_back(first, frame_text(second));
    lemma_frame_read_back(second, seq![]);
    assert(frame_text(second) + seq![] =~= frame_text(second));
}

/// A frame whose `Content-Length` is not a decimal number that fits in a
/// `usize` is a malformed header, whatever follows it.
pub proof fn lemma_corrupt_content_length(value: Seq<char>, rest: Seq<char>)
    requires
        part_wf(value),
        parse_decimal(value) is None,
    ensures
        frame_spec(content_length_key() + seq![':'] + value + crlf() + rest) is BadHeader,
{
    lemma_key_part();
    lemma_line_of(content_length_key(), value, rest);
    assert(specialize_spec(content_length_key(), value) is None);
    let s = content_length_key() + seq![':'] + value + crlf() + rest;
    let t = content_length_key() + seq![':'] + value + crlf();
    assert(s.subrange(0, t.len() as int) =~= t);
}

/// A dap message
pub enum Message {
    Generic(GenericMessage),
}

impl Message {
    pub open spec fn spec_seq(&self) -> usize {
        match self {
            Message::Generic(m) => m.spec_seq(),
        }
    }

    /// Reads a message from the start of `input`: a header, then a body of
    /// exactly `Content-Length` bytes, which is classified. What was read is
    /// taken off `input`.
    ///
    /// Fails with `BadMessage` on a malformed header, with `Io` when `input`
    /// ends before the body does, with `BadMessage` when the body ends inside
    /// a character or is not JSON, and with `InvalidMessage` when it is JSON
    /// but not a valid message.
    pub fn read_from<'a>(input: &mut &'a str) -> (r: Result<Message, Error>)
        ensures
            frame_read(frame_spec((*old(input))@), r, (*final(input))@),
    {
        let ghost s0 = (*input)@;
        let header = match Header::read_from(input) {
            Ok(h) => h,
            Err(e) => {
                return Err(e);
            },
        };
        let s: &'a str = *input;
        let ghost k = read_fields_spec(s0).unwrap().1;
        proof {
            let fs = read_fields_spec(s0).unwrap().0;
            assert(header_len_of(fs) == Some(header.len));
            assert(s@ == s0.subrange(k as int, s0.len() as int));
            assert(s.spec_bytes() == encode_utf8(s@));
        }
        if s.as_bytes().len() < header.len {
            *input = "";
            return Err(Error::Io(unexpected_eof()));
        }
        if !s.is_char_boundary(header.len) {
            return Err(Error::BadMessage);
        }
        let (body, rest) = s.split_at(header.len);
        proof {
            let bytes = s.spec_bytes();
            vstd::utf8::encode_utf8_decode_utf8(rest@);
            assert(rest@ == decode_utf8(bytes.subrange(header.len as int, bytes.len() as int)));
        }
        *input = rest;
        match GenericMessage::classify(body.as_bytes()) {
            Ok(generic) => Ok(Message::from(generic)),
            Err(e) => Err(e),
        }
    }

    /// Sequence number (also known as message ID). For protocol messages of type
    /// 'request' this ID can be used to cancel the request.
    pub fn seq(&self) -> (r: usize)
        ensures
            r == self.spec_seq(),
    {
        match self {
            Message::Generic(msg) => msg.seq(),
        }
    }
}

impl From<GenericMessage> for Message {
    fn from(msg: GenericMessage) -> (r: Message)
        ensures
            r == Message::Generic(msg),
    {
        Message::Generic(msg)
    }
}

impl vstd::std_specs::convert::FromSpecImpl<GenericMessage> for Message {
    open spec fn obeys_from_spec() -> bool {
        true
    }

    open spec fn from_spec(msg: GenericMessage) -> Message {
        Message::Generic(msg)
    }
}

} // verus!
