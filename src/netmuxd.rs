//! Messages to the local device multiplexer: a 16-byte header of four
//! little-endian 32-bit words (total size, version, message type, tag)
//! followed by an XML property list.

use vstd::prelude::*;

verus! {

/// Version, message type and tag written into every request header.
pub const REQUEST_HEADER_WORD: u32 = 69;

/// Length of a packet header.
pub const HEADER_LEN: usize = 16;

/// `Result` value of a successful answer.
pub const RESULT_SUCCESS: u64 = 1;

/// The XML property list of a dictionary that maps each key to its string
/// value, in the given order; `None` when serialisation fails.
pub uninterp spec fn plist_xml_of(fields: Seq<(Seq<char>, Seq<char>)>) -> Option<Seq<u8>>;

/// The unsigned integer stored under `key` in the dictionary that the
/// property list `payload` holds, if it holds one there.
pub uninterp spec fn plist_unsigned_of(payload: Seq<u8>, key: Seq<char>) -> Option<u64>;

/// The characters of each key and value.
pub open spec fn field_texts(fields: Seq<(String, String)>) -> Seq<(Seq<char>, Seq<char>)> {
    fields.map_values(|f: (String, String)| (f.0@, f.1@))
}

/// Relies on `plist::to_writer_xml` to serialise a `plist::Dictionary` of
/// string values built from `fields`.
#[verifier::external_body]
fn plist_xml(fields: &Vec<(String, String)>) -> (r: Option<Vec<u8>>)
    ensures
        match r {
            Some(b) => plist_xml_of(field_texts(fields@)) == Some(b@),
            None => plist_xml_of(field_texts(fields@)) is None,
        },
{
    let dict: plist::Dictionary = fields.iter().map(
        |(k, v)| (k.clone(), plist::Value::String(v.clone())),
    ).collect();
    let mut buf: Vec<u8> = Vec::new();
    match plist::to_writer_xml(&mut buf, &dict) {
        Ok(()) => Some(buf),
        Err(_) => None,
    }
}

/// Relies on `plist::from_bytes` to read a `plist::Dictionary`, on
/// `Dictionary::get` to look up `key`, and on `Integer::as_unsigned`.
#[verifier::external_body]
fn plist_unsigned(payload: &[u8], key: &str) -> (r: Option<u64>)
    ensures
        r == plist_unsigned_of(payload@, key@),
{
    match plist::from_bytes::<plist::Dictionary>(payload) {
        Ok(d) => match d.get(key) {
            Some(plist::Value::Integer(i)) => i.as_unsigned(),
            _ => None,
        },
        Err(_) => None,
    }
}

/// The four little-endian bytes of `v`.
pub open spec fn le32(v: nat) -> Seq<u8> {
    seq![
        (v % 256) as u8,
        ((v / 256) % 256) as u8,
        ((v / 65536) % 256) as u8,
        ((v / 16777216) % 256) as u8,
    ]
}

/// The number whose little-endian bytes are `b[at..at + 4]`.
pub open spec fn read_le32(b: Seq<u8>, at: int) -> nat {
    (b[at] + 256 * b[at + 1] + 65536 * b[at + 2] + 16777216 * b[at + 3]) as nat
}

/// A packet around `payload`.
pub open spec fn frame(payload: Seq<u8>, version: u32, message: u32, tag: u32) -> Seq<u8> {
    le32((payload.len() + 16) as nat) + le32(version as nat) + le32(message as nat) + le32(
        tag as nat,
    ) + payload
}

/// The header fields of a packet.
#[derive(PartialEq, Eq, Structural, Clone, Copy, Debug)]
pub struct PacketHeader {
    pub size: u32,
    pub version: u32,
    pub message: u32,
    pub tag: u32,
}

fn push_le32(out: &mut Vec<u8>, v: u32)
    ensures
        final(out)@ == old(out)@ + le32(v as nat),
{
    out.push((v % 256) as u8);
    out.push((v / 256 % 256) as u8);
    out.push((v / 65536 % 256) as u8);
    out.push((v / 16777216 % 256) as u8);
    assert(final(out)@ =~= old(out)@ + le32(v as nat));
}

/// Puts the header in front of `payload`; `None` when the packet would be
/// too long for its size field.
pub fn encode_packet(payload: &Vec<u8>, version: u32, message: u32, tag: u32) -> (r: Option<Vec<u8>>)
    ensures
        r is Some <==> payload@.len() + 16 <= u32::MAX,
        r matches Some(b) ==> b@ == frame(payload@, version, message, tag),
{
    if payload.len() > (u32::MAX - 16) as usize {
        return None;
    }
    let size = (payload.len() + 16) as u32;
    let mut out: Vec<u8> = Vec::new();
    push_le32(&mut out, size);
    push_le32(&mut out, version);
    push_le32(&mut out, message);
    push_le32(&mut out, tag);
    let mut k: usize = 0;
    while k < payload.len()
        invariant
            k <= payload@.len(),
            out@ == le32(size as nat) + le32(version as nat) + le32(message as nat) + le32(tag as nat)
                + payload@.take(k as int),
        decreases payload@.len() - k,
    {
        out.push(payload[k]);
        assert(payload@.take(k + 1) == payload@.take(k as int).push(payload@[k as int]));
        k = k + 1;
    }
    assert(payload@.take(k as int) =~= payload@);
    Some(out)
}

/// The little-endian number in `b[at..at + 4]`.
pub fn read_u32_le(b: &[u8], at: usize) -> (r: u32)
    requires
        at + 4 <= b@.len(),
    ensures
        r == read_le32(b@, at as int),
{
    let b0 = b[at] as u32;
    let b1 = b[at + 1] as u32;
    let b2 = b[at + 2] as u32;
    let b3 = b[at + 3] as u32;
    assert(b0 + 256 * b1 + 65536 * b2 + 16777216 * b3 <= u32::MAX) by (nonlinear_arith)
        requires
            b0 <= 255,
            b1 <= 255,
            b2 <= 255,
            b3 <= 255,
    ;
    b0 + 256 * b1 + 65536 * b2 + 16777216 * b3
}

/// For a first read of exactly one header's length, the number of bytes
/// still to read, which the size field gives; `None` for any other length.
pub fn follow_up_length(first: &Vec<u8>) -> (r: Option<u32>)
    ensures
        first@.len() == 16 ==> r == Some(read_le32(first@, 0) as u32),
        first@.len() != 16 ==> r is None,
{
    if first.len() == HEADER_LEN {
        Some(read_u32_le(first.as_slice(), 0))
    } else {
        None
    }
}

/// Splits a packet into its header and payload; `None` when `bytes` is
/// shorter than a header, the size field is under a header's length, or the
/// size field exceeds the bytes there are.
pub fn decode_packet(bytes: &Vec<u8>) -> (r: Option<(PacketHeader, Vec<u8>)>)
    ensures
        r is Some <==> (bytes@.len() >= 16 && 16 <= read_le32(bytes@, 0) <= bytes@.len()),
        r matches Some((h, p)) ==> {
            &&& h.size == read_le32(bytes@, 0)
            &&& h.version == read_le32(bytes@, 4)
            &&& h.message == read_le32(bytes@, 8)
            &&& h.tag == read_le32(bytes@, 12)
            &&& p@ == bytes@.subrange(16, h.size as int)
        },
{
    if bytes.len() < HEADER_LEN {
        return None;
    }
    let b = bytes.as_slice();
    let size = read_u32_le(b, 0);
    if (size as usize) < HEADER_LEN || (size as usize) > bytes.len() {
        return None;
    }
    let h = PacketHeader {
        size,
        version: read_u32_le(b, 4),
        message: read_u32_le(b, 8),
        tag: read_u32_le(b, 12),
    };
    let mut p: Vec<u8> = Vec::new();
    let mut k: usize = 16;
    while k < size as usize
        invariant
            16 <= k <= size <= bytes@.len(),
            p@ == bytes@.subrange(16, k as int),
        decreases size - k,
    {
        p.push(bytes[k]);
        assert(bytes@.subrange(16, k + 1) == bytes@.subrange(16, k as int).push(bytes@[k as int]));
        k = k + 1;
    }
    Some((h, p))
}

/// The fields that announce a device at `ip` to the multiplexer.
pub open spec fn add_device_fields(ip: Seq<char>, udid: Seq<char>) -> Seq<(Seq<char>, Seq<char>)> {
    seq![
        ("MessageType"@, "AddDevice"@),
        ("ConnectionType"@, "Network"@),
        ("ServiceName"@, "_apple-mobdev2._tcp.local"@),
        ("IPAddress"@, ip),
        ("DeviceID"@, udid),
    ]
}

/// The fields that withdraw a device from the multiplexer.
pub open spec fn remove_device_fields(udid: Seq<char>) -> Seq<(Seq<char>, Seq<char>)> {
    seq![("MessageType"@, "RemoveDevice"@), ("DeviceID"@, udid)]
}

/// A request packet holding the property list of `fields`.
pub open spec fn request_packet(fields: Seq<(Seq<char>, Seq<char>)>) -> Option<Seq<u8>> {
    match plist_xml_of(fields) {
        Some(p) => if p.len() + 16 <= u32::MAX {
            Some(frame(p, REQUEST_HEADER_WORD, REQUEST_HEADER_WORD, REQUEST_HEADER_WORD))
        } else {
            None
        },
        None => None,
    }
}

fn field(k: &str, v: String) -> (r: (String, String))
    ensures
        r.0@ == k@,
        r.1@ == v@,
{
    (String::from_str(k), v)
}

fn request_from(fields: &Vec<(String, String)>) -> (r: Option<Vec<u8>>)
    ensures
        match r {
            Some(b) => request_packet(field_texts(fields@)) == Some(b@),
            None => request_packet(field_texts(fields@)) is None,
        },
{
    match plist_xml(fields) {
        Some(p) => encode_packet(&p, REQUEST_HEADER_WORD, REQUEST_HEADER_WORD, REQUEST_HEADER_WORD),
        None => None,
    }
}

/// The packet that announces device `udid` at address `ip`.
pub fn add_device_request(ip: &str, udid: &str) -> (r: Option<Vec<u8>>)
    ensures
        match r {
            Some(b) => request_packet(add_device_fields(ip@, udid@)) == Some(b@),
            None => request_packet(add_device_fields(ip@, udid@)) is None,
        },
{
    let mut fields: Vec<(String, String)> = Vec::new();
    fields.push(field("MessageType", String::from_str("AddDevice")));
    fields.push(field("ConnectionType", String::from_str("Network")));
    fields.push(field("ServiceName", String::from_str("_apple-mobdev2._tcp.local")));
    fields.push(field("IPAddress", ip.to_owned()));
    fields.push(field("DeviceID", udid.to_owned()));
    assert(field_texts(fields@) =~= add_device_fields(ip@, udid@));
    request_from(&fields)
}

/// The packet that withdraws device `udid`.
pub fn remove_device_request(udid: &str) -> (r: Option<Vec<u8>>)
    ensures
        match r {
            Some(b) => request_packet(remove_device_fields(udid@)) == Some(b@),
            None => request_packet(remove_device_fields(udid@)) is None,
        },
{
    let mut fields: Vec<(String, String)> = Vec::new();
    fields.push(field("MessageType", String::from_str("RemoveDevice")));
    fields.push(field("DeviceID", udid.to_owned()));
    assert(field_texts(fields@) =~= remove_device_fields(udid@));
    request_from(&fields)
}

/// Whether an answer's `Result` field says success.
pub fn registration_accepted(result: Option<u64>) -> (r: bool)
    ensures
        r == (result == Some(RESULT_SUCCESS)),
{
    match result {
        Some(v) => v == RESULT_SUCCESS,
        None => false,
    }
}

/// Whether the multiplexer's answer `response` (header and payload) is a
/// well-formed packet whose property list has `Result` 1.
pub fn add_device_succeeded(response: &Vec<u8>) -> (r: bool)
    ensures
        r == (response@.len() >= 16 && 16 <= read_le32(response@, 0) <= response@.len()
            && plist_unsigned_of(response@.subrange(16, read_le32(response@, 0) as int), "Result"@)
            == Some(RESULT_SUCCESS)),
{
    match decode_packet(response) {
        Some((_, payload)) => registration_accepted(plist_unsigned(payload.as_slice(), "Result")),
        None => false,
    }
}

} // verus!
