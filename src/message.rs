//! The envelope of one RPC message: an op-code byte, then the serialized
//! payload for the op codes that carry one.
use vstd::prelude::*;
use vstd::slice::slice_subrange;

verus! {

/// What a message means on its stream.
#[derive(Clone, Copy, Debug, PartialEq, Eq, Structural)]
pub enum OpCode {
    /// The start of a message.
    RequestStart,
    /// This message carries more data on the stream.
    Continuation,
    /// This message carries no data and the stream is complete.
    EndOfStream,
    /// The client asks to terminate the channel.
    EndOfChannel,
}

/// Why bytes are not a message.
#[derive(Clone, Copy, Debug, PartialEq, Eq, Structural)]
pub enum Error {
    /// The first byte is no op code.
    InvalidOpCode(u8),
    /// An op code that carries no data was followed by bytes.
    OpCodeShouldHaveNoData,
}

impl OpCode {
    /// The byte that stands for the op code.
    pub open spec fn code(self) -> u8 {
        match self {
            OpCode::RequestStart => 0,
            OpCode::Continuation => 1,
            OpCode::EndOfStream => 2,
            OpCode::EndOfChannel => 3,
        }
    }

    /// Whether a message with this op code carries a payload.
    pub open spec fn carries_data(self) -> bool {
        self == OpCode::RequestStart || self == OpCode::Continuation
    }

    /// The byte that stands for the op code.
    pub fn as_u8(self) -> (r: u8)
        ensures
            r == self.code(),
    {
        match self {
            OpCode::RequestStart => 0,
            OpCode::Continuation => 1,
            OpCode::EndOfStream => 2,
            OpCode::EndOfChannel => 3,
        }
    }

    /// The op code that `val` stands for.
    pub fn from_u8(val: u8) -> (r: Result<OpCode, Error>)
        ensures
            val <= 3 ==> r is Ok && r->Ok_0.code() == val,
            val > 3 ==> r == Err::<OpCode, Error>(Error::InvalidOpCode(val)),
    {
        match val {
            0 => Ok(OpCode::RequestStart),
            1 => Ok(OpCode::Continuation),
            2 => Ok(OpCode::EndOfStream),
            3 => Ok(OpCode::EndOfChannel),
            _ => Err(Error::InvalidOpCode(val)),
        }
    }
}

/// The op code with byte `b`, when there is one.
pub open spec fn op_code_of(b: u8) -> Option<OpCode> {
    if b == 0 {
        Some(OpCode::RequestStart)
    } else if b == 1 {
        Some(OpCode::Continuation)
    } else if b == 2 {
        Some(OpCode::EndOfStream)
    } else if b == 3 {
        Some(OpCode::EndOfChannel)
    } else {
        None
    }
}

/// The bytes of a message with op code `op` and payload `data`.
pub open spec fn message_bytes(op: OpCode, data: Option<Seq<u8>>) -> Seq<u8> {
    match data {
        Some(d) => seq![op.code()] + d,
        None => seq![op.code()],
    }
}

/// What the non-empty bytes `b` decode to: the op code and its payload, or
/// why they are no message.
pub open spec fn parse_message(b: Seq<u8>) -> Result<(OpCode, Option<Seq<u8>>), Error> {
    match op_code_of(b[0]) {
        None => Err(Error::InvalidOpCode(b[0])),
        Some(op) => if op.carries_data() {
            Ok((op, Some(b.skip(1))))
        } else if b.len() > 1 {
            Err(Error::OpCodeShouldHaveNoData)
        } else {
            Ok((op, None))
        },
    }
}

/// One message with its payload still serialized.
pub struct GipcMessage {
    pub op_code: OpCode,
    pub data: Option<Vec<u8>>,
}

impl GipcMessage {
    /// The payload's bytes, if any.
    pub open spec fn data_view(&self) -> Option<Seq<u8>> {
        match self.data {
            Some(d) => Some(d@),
            None => None,
        }
    }

    /// Whether the payload is there exactly when the op code carries one.
    pub open spec fn well_formed(&self) -> bool {
        self.data is Some == self.op_code.carries_data()
    }

    /// Decodes the bytes of one message.
    pub fn from_bytes(data: &[u8]) -> (r: Result<GipcMessage, Error>)
        requires
            data@.len() >= 1,
        ensures
            parse_message(data@) is Ok ==> r is Ok && (r->Ok_0.op_code, r->Ok_0.data_view())
                == parse_message(data@)->Ok_0,
            parse_message(data@) is Err ==> r is Err && r->Err_0 == parse_message(data@)->Err_0,
            r is Ok ==> r->Ok_0.well_formed(),
    {
        let op_code = OpCode::from_u8(data[0])?;
        let rest = slice_subrange(data, 1, data.len());
        assert(rest@ =~= data@.skip(1));
        match op_code {
            OpCode::RequestStart | OpCode::Continuation => {
                let mut payload: Vec<u8> = Vec::new();
                payload.extend_from_slice(rest);
                assert(payload@ =~= rest@);
                Ok(GipcMessage { op_code, data: Some(payload) })
            },
            OpCode::EndOfStream | OpCode::EndOfChannel => {
                if rest.len() > 0 {
                    return Err(Error::OpCodeShouldHaveNoData);
                }
                Ok(GipcMessage { op_code, data: None })
            },
        }
    }

    /// Encodes the message: its op code, then its payload if it has one.
    pub fn to_bytes(&self) -> (r: Vec<u8>)
        ensures
            r@ == message_bytes(self.op_code, self.data_view()),
    {
        let mut bytes: Vec<u8> = Vec::new();
        bytes.push(self.op_code.as_u8());
        match &self.data {
            Some(payload) => {
                bytes.extend_from_slice(payload.as_slice());
            },
            None => {},
        }
        assert(bytes@ =~= message_bytes(self.op_code, self.data_view()));
        bytes
    }
}

/// A well-formed message decodes from its own bytes to itself.
pub proof fn lemma_message_round_trip(op: OpCode, data: Option<Seq<u8>>)
    requires
        data is Some == op.carries_data(),
    ensures
        parse_message(message_bytes(op, data)) == Ok::<(OpCode, Option<Seq<u8>>), Error>((op, data)),
{
    let b = message_bytes(op, data);
    if let Some(d) = data {
        assert(b.skip(1) =~= d);
    }
}

} // verus!
