//! The eight packet types of the wire protocol and their header encoding.
//!
//! On the wire a packet starts with a one-byte type tag; the four named
//! types follow it with a one-byte name length and the name itself.  Names
//! are carried as their raw wire bytes (UTF-8 in practice) and are at most
//! 255 bytes long.

use vstd::prelude::*;
use vstd::string::StringExecFns;

use crate::error::{Error, ErrorCode};

verus! {

/// A packet's type, together with the inline name that the named types
/// carry.
#[derive(Debug)]
pub enum PacketType {
    /// A named request message.
    CmdRequest(Vec<u8>),
    /// An unnamed response message for a request.
    CmdResponse,
    /// An unnamed response if the requested command is unknown.
    CmdUnknown,
    /// A named event registration request.
    EventRegister(Vec<u8>),
    /// A named event deregistration request.
    EventUnregister(Vec<u8>),
    /// An unnamed response for successful event (de-)registration.
    EventConfirm,
    /// An unnamed response if event (de-)registration failed.
    EventUnknown,
    /// A named event message.
    Event(Vec<u8>),
}

/// The mathematical model of a [`PacketType`]: the same eight variants with
/// the name as a byte sequence.
pub enum PacketTypeV {
    CmdRequest(Seq<u8>),
    CmdResponse,
    CmdUnknown,
    EventRegister(Seq<u8>),
    EventUnregister(Seq<u8>),
    EventConfirm,
    EventUnknown,
    Event(Seq<u8>),
}

impl View for PacketType {
    type V = PacketTypeV;

    open spec fn view(&self) -> PacketTypeV {
        match self {
            PacketType::CmdRequest(name) => PacketTypeV::CmdRequest(name@),
            PacketType::CmdResponse => PacketTypeV::CmdResponse,
            PacketType::CmdUnknown => PacketTypeV::CmdUnknown,
            PacketType::EventRegister(name) => PacketTypeV::EventRegister(name@),
            PacketType::EventUnregister(name) => PacketTypeV::EventUnregister(name@),
            PacketType::EventConfirm => PacketTypeV::EventConfirm,
            PacketType::EventUnknown => PacketTypeV::EventUnknown,
            PacketType::Event(name) => PacketTypeV::Event(name@),
        }
    }
}

/// True for the tags of the four types that carry a name on the wire.
pub open spec fn is_named_tag(t: u8) -> bool {
    t == 0 || t == 3 || t == 4 || t == 7
}

/// The named packet type with tag `t` carrying `name`.
pub open spec fn named_type(t: u8, name: Seq<u8>) -> PacketTypeV
    recommends
        is_named_tag(t),
{
    if t == 0 {
        PacketTypeV::CmdRequest(name)
    } else if t == 3 {
        PacketTypeV::EventRegister(name)
    } else if t == 4 {
        PacketTypeV::EventUnregister(name)
    } else {
        PacketTypeV::Event(name)
    }
}

impl PacketTypeV {
    /// The one-byte tag of each packet type on the wire.
    pub open spec fn tag(self) -> u8 {
        match self {
            PacketTypeV::CmdRequest(_) => 0,
            PacketTypeV::CmdResponse => 1,
            PacketTypeV::CmdUnknown => 2,
            PacketTypeV::EventRegister(_) => 3,
            PacketTypeV::EventUnregister(_) => 4,
            PacketTypeV::EventConfirm => 5,
            PacketTypeV::EventUnknown => 6,
            PacketTypeV::Event(_) => 7,
        }
    }

    /// The inline name, for the four named types.
    pub open spec fn name(self) -> Option<Seq<u8>> {
        match self {
            PacketTypeV::CmdRequest(name) => Some(name),
            PacketTypeV::EventRegister(name) => Some(name),
            PacketTypeV::EventUnregister(name) => Some(name),
            PacketTypeV::Event(name) => Some(name),
            _ => None,
        }
    }

    /// Well-formed: a name fits in its one-byte length prefix.
    pub open spec fn wf(self) -> bool {
        match self.name() {
            Some(name) => name.len() <= 255,
            None => true,
        }
    }

    /// The header encoding: the tag, then for named types the name length
    /// and the name.
    pub open spec fn spec_marshal(self) -> Seq<u8> {
        match self.name() {
            Some(name) => seq![self.tag(), name.len() as u8] + name,
            None => seq![self.tag()],
        }
    }
}

/// Decodes a packet-type header from the front of `s`: the decoded type and
/// the number of bytes it occupied, or `None` on truncated input or a tag
/// outside the eight known ones.
pub open spec fn spec_unmarshal(s: Seq<u8>) -> Option<(PacketTypeV, int)> {
    if s.len() == 0 {
        None
    } else {
        let t = s[0];
        if t == 1 {
            Some((PacketTypeV::CmdResponse, 1))
        } else if t == 2 {
            Some((PacketTypeV::CmdUnknown, 1))
        } else if t == 5 {
            Some((PacketTypeV::EventConfirm, 1))
        } else if t == 6 {
            Some((PacketTypeV::EventUnknown, 1))
        } else if is_named_tag(t) {
            if s.len() < 2 {
                None
            } else {
                let n = s[1] as int;
                if s.len() < 2 + n {
                    None
                } else {
                    Some((named_type(t, s.subrange(2, 2 + n)), 2 + n))
                }
            }
        } else {
            None
        }
    }
}

/// Decoding inverts encoding: a well-formed header followed by anything
/// decodes back to the same packet type, consuming exactly the header.
pub proof fn lemma_marshal_round_trip(t: PacketTypeV, rest: Seq<u8>)
    requires
        t.wf(),
    ensures
        spec_unmarshal(t.spec_marshal() + rest) == Some(
            (t, t.spec_marshal().len() as int),
        ),
{
    let s = t.spec_marshal() + rest;
    match t.name() {
        Some(name) => {
            assert(s[0] == t.tag());
            assert(s[1] == name.len() as u8);
            assert(s.subrange(2, 2 + name.len() as int) =~= name);
        },
        None => {
            assert(s[0] == t.tag());
        },
    }
}

impl PacketTypeV {
    /// The display name of each packet type.  The inline name, a byte
    /// string, is not rendered.
    pub open spec fn describe_spec(self) -> Seq<char> {
        match self {
            PacketTypeV::CmdRequest(_) => "CMD_REQUEST"@,
            PacketTypeV::CmdResponse => "CMD_RESPONSE"@,
            PacketTypeV::CmdUnknown => "CMD_UNKNOWN"@,
            PacketTypeV::EventRegister(_) => "EVENT_REGISTER"@,
            PacketTypeV::EventUnregister(_) => "EVENT_UNREGISTER"@,
            PacketTypeV::EventConfirm => "EVENT_CONFIRM"@,
            PacketTypeV::EventUnknown => "EVENT_UNKNOWN"@,
            PacketTypeV::Event(_) => "EVENT"@,
        }
    }
}

impl PacketType {
    /// Well-formed: a name fits in its one-byte length prefix.
    pub open spec fn wf(&self) -> bool {
        self@.wf()
    }

    /// The inline name, for the four named types.
    pub fn name(&self) -> (r: Option<&Vec<u8>>)
        ensures
            match r {
                Some(name) => self@.name() == Some(name@),
                None => self@.name() is None,
            },
    {
        match self {
            PacketType::CmdRequest(name) => Some(name),
            PacketType::EventRegister(name) => Some(name),
            PacketType::EventUnregister(name) => Some(name),
            PacketType::Event(name) => Some(name),
            _ => None,
        }
    }

    /// The display name of this packet type.
    pub fn describe(&self) -> (r: String)
        ensures
            r@ == self@.describe_spec(),
    {
        match self {
            PacketType::CmdRequest(_) => String::from_str("CMD_REQUEST"),
            PacketType::CmdResponse => String::from_str("CMD_RESPONSE"),
            PacketType::CmdUnknown => String::from_str("CMD_UNKNOWN"),
            PacketType::EventRegister(_) => String::from_str("EVENT_REGISTER"),
            PacketType::EventUnregister(_) => String::from_str("EVENT_UNREGISTER"),
            PacketType::EventConfirm => String::from_str("EVENT_CONFIRM"),
            PacketType::EventUnknown => String::from_str("EVENT_UNKNOWN"),
            PacketType::Event(_) => String::from_str("EVENT"),
        }
    }

    /// The one-byte tag of this packet type on the wire.
    pub fn tag(&self) -> (r: u8)
        ensures
            r == self@.tag(),
    {
        match self {
            PacketType::CmdRequest(_) => 0,
            PacketType::CmdResponse => 1,
            PacketType::CmdUnknown => 2,
            PacketType::EventRegister(_) => 3,
            PacketType::EventUnregister(_) => 4,
            PacketType::EventConfirm => 5,
            PacketType::EventUnknown => 6,
            PacketType::Event(_) => 7,
        }
    }

    /// Appends the header encoding of this packet type to `buf`.
    pub fn marshal(&self, buf: &mut Vec<u8>)
        requires
            self.wf(),
        ensures
            final(buf)@ == old(buf)@ + self@.spec_marshal(),
    {
        let tag = self.tag();
        buf.push(tag);
        match self {
            PacketType::CmdRequest(name)
            | PacketType::EventRegister(name)
            | PacketType::EventUnregister(name)
            | PacketType::Event(name) => {
                buf.push(name.len() as u8);
                let mut i: usize = 0;
                while i < name.len()
                    invariant
                        i <= name@.len() <= 255,
                        self@.name() == Some(name@),
                        self@.wf(),
                        buf@ == old(buf)@ + seq![self@.tag(), name@.len() as u8]
                            + name@.subrange(0, i as int),
                    decreases name@.len() - i,
                {
                    buf.push(name[i]);
                    assert(name@.subrange(0, i + 1 as int) =~= name@.subrange(0, i as int).push(
                        name@[i as int],
                    ));
                    i = i + 1;
                }
                assert(name@.subrange(0, i as int) =~= name@);
                assert(buf@ =~= old(buf)@ + self@.spec_marshal());
            },
            _ => {
                assert(buf@ =~= old(buf)@ + self@.spec_marshal());
            },
        }
    }

    /// Decodes a packet-type header from the front of `input`, returning the
    /// remaining bytes and the decoded type.
    pub fn unmarshal(input: &[u8]) -> (r: Result<(&[u8], PacketType), Error>)
        ensures
            r is Ok <==> spec_unmarshal(input@) is Some,
            r matches Ok(res) ==> spec_unmarshal(input@) == Some(
                (res.1@, input@.len() - res.0@.len()),
            ),
            r matches Ok(res) ==> res.0@ == input@.subrange(
                input@.len() - res.0@.len(),
                input@.len() as int,
            ),
            r matches Ok(res) ==> res.1.wf(),
            r matches Err(e) ==> e.spec_code() is InvalidData,
    {
        if input.len() == 0 {
            return Err(Error::data(ErrorCode::InvalidData("truncated packet header".to_owned())));
        }
        let tag = input[0];
        if tag == 1 || tag == 2 || tag == 5 || tag == 6 {
            let packet_type = if tag == 1 {
                PacketType::CmdResponse
            } else if tag == 2 {
                PacketType::CmdUnknown
            } else if tag == 5 {
                PacketType::EventConfirm
            } else {
                PacketType::EventUnknown
            };
            let rest = vstd::slice::slice_subrange(input, 1, input.len());
            Ok((rest, packet_type))
        } else if tag == 0 || tag == 3 || tag == 4 || tag == 7 {
            if input.len() < 2 {
                return Err(Error::data(
                    ErrorCode::InvalidData("truncated packet name length".to_owned()),
                ));
            }
            let name_len = input[1] as usize;
            if input.len() < 2 + name_len {
                return Err(Error::data(ErrorCode::InvalidData("truncated packet name".to_owned())));
            }
            let name = vstd::slice::slice_to_vec(vstd::slice::slice_subrange(input, 2, 2 + name_len));
            let packet_type = if tag == 0 {
                PacketType::CmdRequest(name)
            } else if tag == 3 {
                PacketType::EventRegister(name)
            } else if tag == 4 {
                PacketType::EventUnregister(name)
            } else {
                PacketType::Event(name)
            };
            let rest = vstd::slice::slice_subrange(input, 2 + name_len, input.len());
            Ok((rest, packet_type))
        } else {
            Err(Error::data(ErrorCode::InvalidData("unknown packet type".to_owned())))
        }
    }
}

} // verus!
