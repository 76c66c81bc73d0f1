//! The remote-debugging packet format: JSON packets framed like the
//! protocol's frames, and bulk packets whose header names an actor, a
//! type and a byte count.

use vstd::prelude::*;
use vstd::utf8::*;
use vstd::slice::*;
use crate::codec::{find_byte, find_byte_exec, frame_bytes, bytes_to_string, write_frame_bytes};
use crate::digits::{dec_digits, dec_string_val, is_dec_string, parse_u64_dec};
use crate::error::MarionetteError;
use crate::json::{JsonData, json_ser, json_to_bytes, json_key, json_str_bytes, obj_lookup,
    parse_json, push_key, push_json_str, push_str_bytes, push_bytes};
use crate::messages::spec_opt_str_field;

verus! {

/// One packet of the remote-debugging stream.
#[derive(Debug, PartialEq)]
pub enum Packet {
    /// A JSON document, framed as `length:payload`.
    Json(JsonData),
    /// Raw bytes for an actor: `bulk <actor> <type> <length>:payload`.
    BulkData(String, String, Vec<u8>),
}

/// The bytes `bulk`.
pub open spec fn bulk_tag() -> Seq<u8> {
    seq![98u8, 117u8, 108u8, 107u8]
}

/// What the front of a read buffer holds.
pub enum PacketScanSpec {
    Incomplete,
    Invalid,
    /// A JSON packet: its text and the bytes it occupied.
    Json(Seq<char>, int),
    /// A bulk packet: actor, type, payload, and the bytes it occupied.
    Bulk(Seq<char>, Seq<char>, Seq<u8>, int),
}

/// A bulk packet's header, after the leading tag: an actor token, a
/// type token and a decimal byte count, separated by single spaces;
/// anything between the count's token and the colon is ignored.
pub open spec fn scan_bulk_spec(b: Seq<u8>, c: int, prefix: Seq<u8>) -> PacketScanSpec {
    let i1 = find_byte(prefix, 32);
    let tok0 = if i1 < 0 {
        prefix
    } else {
        prefix.subrange(0, i1)
    };
    if tok0 != bulk_tag() || i1 < 0 {
        PacketScanSpec::Invalid
    } else {
        let rest1 = prefix.skip(i1 + 1);
        let i2 = find_byte(rest1, 32);
        if i2 < 0 {
            PacketScanSpec::Invalid
        } else {
            let actor = rest1.subrange(0, i2);
            let rest2 = rest1.skip(i2 + 1);
            let i3 = find_byte(rest2, 32);
            if i3 < 0 {
                PacketScanSpec::Invalid
            } else {
                let typ = rest2.subrange(0, i3);
                let rest3 = rest2.skip(i3 + 1);
                let i4 = find_byte(rest3, 32);
                let lenb = if i4 < 0 {
                    rest3
                } else {
                    rest3.subrange(0, i4)
                };
                if !valid_utf8(actor) || !valid_utf8(typ) {
                    PacketScanSpec::Invalid
                } else if !is_dec_string(lenb) || dec_string_val(lenb) > usize::MAX {
                    PacketScanSpec::Invalid
                } else {
                    let len = dec_string_val(lenb) as int;
                    if b.len() < c + 1 + len {
                        PacketScanSpec::Incomplete
                    } else {
                        PacketScanSpec::Bulk(
                            decode_utf8(actor),
                            decode_utf8(typ),
                            b.subrange(c + 1, c + 1 + len),
                            c + 1 + len,
                        )
                    }
                }
            }
        }
    }
}

/// The packet at the front of `b`, if any: a prefix beginning with
/// `bulk` is a bulk header, anything else is read as a frame whose
/// payload must be UTF-8 text.
pub open spec fn scan_packet_spec(b: Seq<u8>) -> PacketScanSpec {
    let c = find_byte(b, 58);
    if c < 0 {
        PacketScanSpec::Incomplete
    } else {
        let prefix = b.subrange(0, c);
        if prefix.len() >= 4 && prefix.subrange(0, 4) == bulk_tag() {
            scan_bulk_spec(b, c, prefix)
        } else {
            if !is_dec_string(prefix) || dec_string_val(prefix) > usize::MAX {
                PacketScanSpec::Invalid
            } else {
                let len = dec_string_val(prefix) as int;
                if b.len() < c + 1 + len {
                    PacketScanSpec::Incomplete
                } else {
                    let payload = b.subrange(c + 1, c + 1 + len);
                    if valid_utf8(payload) {
                        PacketScanSpec::Json(decode_utf8(payload), c + 1 + len)
                    } else {
                        PacketScanSpec::Invalid
                    }
                }
            }
        }
    }
}

/// Whether the first four bytes are the bulk tag.
fn starts_with_bulk(p: &[u8]) -> (r: bool)
    ensures
        r == (p@.len() >= 4 && p@.subrange(0, 4) == bulk_tag()),
{
    if p.len() < 4 {
        return false;
    }
    let r = p[0] == 98 && p[1] == 117 && p[2] == 108 && p[3] == 107;
    proof {
        assert(p@.subrange(0, 4)[0] == p@[0]);
        assert(p@.subrange(0, 4)[1] == p@[1]);
        assert(p@.subrange(0, 4)[2] == p@[2]);
        assert(p@.subrange(0, 4)[3] == p@[3]);
        if r {
            assert(p@.subrange(0, 4) =~= bulk_tag());
        }
    }
    r
}

/// Read one packet from the front of a buffer.  A truncated or
/// malformed buffer is a framing error; a JSON payload that does not
/// parse is a JSON error, and one that parses yields exactly its tree.
#[verifier::rlimit(30)]
pub fn readpacket(buf: &[u8]) -> (r: Result<(Packet, usize), MarionetteError>)
    ensures
        match scan_packet_spec(buf@) {
            PacketScanSpec::Incomplete => r matches Err(e) && e == MarionetteError::Frame,
            PacketScanSpec::Invalid => r matches Err(e) && e == MarionetteError::Frame,
            PacketScanSpec::Json(text, used) => (match crate::json::spec_parse_json(text) {
                Some(d) => {
                    &&& r matches Ok(p)
                    &&& p.0 == Packet::Json(d)
                    &&& p.1 == used
                },
                None => r matches Err(e) && e == MarionetteError::JSON,
            }),
            PacketScanSpec::Bulk(a, t, d, used) => {
                &&& r matches Ok(p)
                &&& p.1 == used
                &&& p.0 matches Packet::BulkData(xa, xt, xd)
                &&& xa@ == a
                &&& xt@ == t
                &&& xd@ == d
            },
        },
{
    let c = match find_byte_exec(buf, 58) {
        Some(c) => c,
        None => {
            return Err(MarionetteError::Frame);
        },
    };
    let prefix = slice_subrange(buf, 0, c);
    if starts_with_bulk(prefix) {
        let i1 = match find_byte_exec(prefix, 32) {
            Some(i1) => i1,
            None => {
                // the whole prefix is one token; with nothing after it
                // there is no actor, and a longer token is not `bulk`
                return Err(MarionetteError::Frame);
            },
        };
        if i1 != 4 {
            proof {
                let tok0 = prefix@.subrange(0, i1 as int);
                if i1 < 4 {
                    assert(tok0.len() < 4);
                } else {
                    assert(tok0.len() > 4);
                }
            }
            return Err(MarionetteError::Frame);
        }
        proof {
            assert(prefix@.subrange(0, 4) =~= bulk_tag());
        }
        let rest1 = slice_subrange(prefix, 5, prefix.len());
        proof {
            assert(rest1@ =~= prefix@.skip(5));
        }
        let i2 = match find_byte_exec(rest1, 32) {
            Some(i2) => i2,
            None => {
                return Err(MarionetteError::Frame);
            },
        };
        let actor_b = slice_subrange(rest1, 0, i2);
        proof {
            assert(actor_b@ =~= rest1@.subrange(0, i2 as int));
        }
        let rest2 = slice_subrange(rest1, i2 + 1, rest1.len());
        proof {
            assert(rest2@ =~= rest1@.skip(i2 + 1));
        }
        let i3 = match find_byte_exec(rest2, 32) {
            Some(i3) => i3,
            None => {
                return Err(MarionetteError::Frame);
            },
        };
        let typ_b = slice_subrange(rest2, 0, i3);
        let rest3 = slice_subrange(rest2, i3 + 1, rest2.len());
        proof {
            assert(typ_b@ =~= rest2@.subrange(0, i3 as int));
            assert(rest3@ =~= rest2@.skip(i3 + 1));
        }
        let lenb = match find_byte_exec(rest3, 32) {
            Some(i4) => slice_subrange(rest3, 0, i4),
            None => rest3,
        };
        let actor = match bytes_to_string(slice_to_vec(actor_b)) {
            Some(s) => s,
            None => {
                return Err(MarionetteError::Frame);
            },
        };
        let typ = match bytes_to_string(slice_to_vec(typ_b)) {
            Some(s) => s,
            None => {
                return Err(MarionetteError::Frame);
            },
        };
        let len_u64 = match parse_u64_dec(lenb) {
            Some(v) => v,
            None => {
                return Err(MarionetteError::Frame);
            },
        };
        if len_u64 > usize::MAX as u64 {
            return Err(MarionetteError::Frame);
        }
        let len = len_u64 as usize;
        if buf.len() - c - 1 < len {
            return Err(MarionetteError::Frame);
        }
        let data = slice_to_vec(slice_subrange(buf, c + 1, c + 1 + len));
        Ok((Packet::BulkData(actor, typ, data), c + 1 + len))
    } else {
        let len_u64 = match parse_u64_dec(prefix) {
            Some(v) => v,
            None => {
                return Err(MarionetteError::Frame);
            },
        };
        if len_u64 > usize::MAX as u64 {
            return Err(MarionetteError::Frame);
        }
        let len = len_u64 as usize;
        if buf.len() - c - 1 < len {
            return Err(MarionetteError::Frame);
        }
        let payload = slice_to_vec(slice_subrange(buf, c + 1, c + 1 + len));
        let text = match bytes_to_string(payload) {
            Some(s) => s,
            None => {
                return Err(MarionetteError::Frame);
            },
        };
        match parse_json(text.as_str()) {
            Some(d) => Ok((Packet::Json(d), c + 1 + len)),
            None => Err(MarionetteError::JSON),
        }
    }
}

/// The bytes of a bulk packet.
pub open spec fn ser_bulk(actor: Seq<char>, typ: Seq<char>, data: Seq<u8>) -> Seq<u8> {
    bulk_tag() + seq![32u8] + encode_utf8(actor) + seq![32u8] + encode_utf8(typ) + seq![32u8]
        + dec_digits(data.len()) + seq![58u8] + data
}

/// Write one packet: a JSON packet as a frame around its document, a
/// bulk packet as its header and raw payload.
pub fn sendpacket(p: &Packet) -> (r: Vec<u8>)
    ensures
        match *p {
            Packet::Json(d) => r@ == frame_bytes(json_ser(d)),
            Packet::BulkData(a, t, d) => r@ == ser_bulk(a@, t@, d@),
        },
{
    match p {
        Packet::Json(d) => {
            let payload = json_to_bytes(d);
            write_frame_bytes(payload.as_slice())
        },
        Packet::BulkData(a, t, d) => {
            let mut out: Vec<u8> = Vec::new();
            out.push(98);
            out.push(117);
            out.push(108);
            out.push(107);
            out.push(32);
            push_str_bytes(&mut out, a.as_str());
            out.push(32);
            push_str_bytes(&mut out, t.as_str());
            out.push(32);
            crate::digits::push_dec(&mut out, d.len() as u64);
            out.push(58);
            push_bytes(&mut out, d.as_slice());
            proof {
                assert(out@ =~= ser_bulk(a@, t@, d@));
            }
            out
        },
    }
}

/// A reply on the debugging stream: the actor it is from, and an error
/// code and message when it reports a failure.
#[derive(Debug, PartialEq)]
pub struct ServerPacket {
    pub from: String,
    pub error: Option<String>,
    pub message: Option<String>,
}

/// What a server packet decodes from: `from` is mandatory, the error
/// fields optional.
pub open spec fn spec_server_packet(d: JsonData) -> Option<ServerPacket> {
    match d {
        JsonData::Obj(e) => match obj_lookup(e@, "from"@) {
            Some(JsonData::Str(f)) => match (
                spec_opt_str_field(e@, "error"@),
                spec_opt_str_field(e@, "message"@),
            ) {
                (Some(err), Some(msg)) => Some(ServerPacket { from: f, error: err, message: msg }),
                _ => None,
            },
            _ => None,
        },
        _ => None,
    }
}

impl ServerPacket {
    pub fn from_json(d: &JsonData) -> (r: Option<ServerPacket>)
        ensures
            r == spec_server_packet(*d),
    {
        match d {
            JsonData::Obj(e) => {
                let f = match crate::json::obj_get(e, "from") {
                    Some(JsonData::Str(s)) => s.clone(),
                    _ => {
                        return None;
                    },
                };
                let err = match crate::messages::opt_str_field(e, "error") {
                    Some(x) => x,
                    None => {
                        return None;
                    },
                };
                let msg = match crate::messages::opt_str_field(e, "message") {
                    Some(x) => x,
                    None => {
                        return None;
                    },
                };
                Some(ServerPacket { from: f, error: err, message: msg })
            },
            _ => None,
        }
    }
}

/// The request that lists the server's tabs.  It always goes to the
/// root actor.
#[derive(Debug, PartialEq)]
pub struct ListTabsRequest {}

/// The exact bytes a list-tabs request serializes to.
pub open spec fn ser_list_tabs() -> Seq<u8> {
    seq![123u8] + json_key("to"@) + json_str_bytes("root"@) + seq![44u8] + json_key("type"@)
        + json_str_bytes("listTabs"@) + seq![125u8]
}

impl ListTabsRequest {
    pub fn new() -> (r: ListTabsRequest)
        ensures
            r == (ListTabsRequest {  }),
    {
        ListTabsRequest {  }
    }

    pub fn write_json(&self, out: &mut Vec<u8>)
        ensures
            final(out)@ == old(out)@ + ser_list_tabs(),
    {
        out.push(123);
        push_key(out, "to");
        push_json_str(out, "root");
        out.push(44);
        push_key(out, "type");
        push_json_str(out, "listTabs");
        out.push(125);
        proof {
            assert(out@ =~= old(out)@ + ser_list_tabs());
        }
    }
}

/// The mutable state a remote-debugging session tracks.  The stream's
/// replies do not feed anything back into it yet.
#[derive(Debug, PartialEq)]
pub struct RemoteState {}

} // verus!
