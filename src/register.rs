//! The computations behind device registration: the address a device is
//! given, and which earlier tunnel peer it replaces.

use vstd::prelude::*;
use sha2::Digest;
use vstd::string::StringSliceAdditionalSpecFns;

verus! {

/// For a property list `payload` that holds a dictionary, the string stored
/// under `key` if there is one there; `None` when `payload` is not such a
/// property list.
pub uninterp spec fn plist_string_of(payload: Seq<u8>, key: Seq<char>) -> Option<Option<Seq<char>>>;

/// Relies on `plist::from_bytes` to read a `plist::Dictionary` and on
/// `Dictionary::get` to look up `key`.
#[verifier::external_body]
fn plist_string(payload: &[u8], key: &str) -> (r: Option<Option<String>>)
    ensures
        match r {
            Some(Some(v)) => plist_string_of(payload@, key@) == Some(Some(v@)),
            Some(None) => plist_string_of(payload@, key@) == Some(None::<Seq<char>>),
            None => plist_string_of(payload@, key@) is None,
        },
{
    match plist::from_bytes::<plist::Dictionary>(payload) {
        Ok(d) => match d.get(key) {
            Some(plist::Value::String(v)) => Some(Some(v.clone())),
            _ => Some(None),
        },
        Err(_) => None,
    }
}

/// Why an uploaded pairing record was refused.
#[derive(PartialEq, Eq, Structural, Clone, Copy, Debug)]
pub enum RecordError {
    /// The body is not a property-list dictionary.
    BadPlist,
    /// The dictionary has no `UDID` string.
    NoUdid,
}

/// The device id of an uploaded pairing record: its `UDID` string.
pub fn pairing_record_udid(body: &[u8]) -> (r: Result<String, RecordError>)
    ensures
        match plist_string_of(body@, "UDID"@) {
            None => r == Err::<String, RecordError>(RecordError::BadPlist),
            Some(None) => r == Err::<String, RecordError>(RecordError::NoUdid),
            Some(Some(u)) => r matches Ok(v) && v@ == u,
        },
{
    match plist_string(body, "UDID") {
        None => Err(RecordError::BadPlist),
        Some(None) => Err(RecordError::NoUdid),
        Some(Some(u)) => Ok(u),
    }
}

/// The SHA-256 digest of `data`.
pub uninterp spec fn sha256_of(data: Seq<u8>) -> Seq<u8>;

/// Relies on `sha2::Sha256::digest`, whose output is 32 bytes.
#[verifier::external_body]
fn sha256(data: &[u8]) -> (r: Vec<u8>)
    ensures
        r@ == sha256_of(data@),
        r@.len() == 32,
{
    sha2::Sha256::digest(data).to_vec()
}

/// The big-endian 16-bit word in `b[at..at + 2]`.
pub open spec fn be16(b: Seq<u8>, at: int) -> u16 {
    (b[at] * 256 + b[at + 1]) as u16
}

/// A locally assigned address (`fd00::/64`) whose interface half is the
/// first eight bytes of `digest`.
pub open spec fn interface_address(digest: Seq<u8>) -> Seq<u16> {
    seq![0xfd00u16, 0, 0, 0, be16(digest, 0), be16(digest, 2), be16(digest, 4), be16(digest, 6)]
}

/// The address for the digest of a device id: `fd00::` followed by its
/// first eight bytes.
pub fn interface_segments(digest: &Vec<u8>) -> (r: [u16; 8])
    requires
        digest@.len() >= 8,
    ensures
        r@ == interface_address(digest@),
{
    let w0 = digest[0] as u16 * 256 + digest[1] as u16;
    let w1 = digest[2] as u16 * 256 + digest[3] as u16;
    let w2 = digest[4] as u16 * 256 + digest[5] as u16;
    let w3 = digest[6] as u16 * 256 + digest[7] as u16;
    let r: [u16; 8] = [0xfd00, 0, 0, 0, w0, w1, w2, w3];
    assert(r@ =~= interface_address(digest@));
    r
}

/// The tunnel address of device `udid`, from the SHA-256 digest of its id:
/// the same id always gets the same address.
pub fn generate_ipv6_from_udid(udid: &str) -> (r: [u16; 8])
    ensures
        r@ == interface_address(sha256_of(udid.spec_bytes())),
{
    let digest = sha256(udid.as_bytes());
    interface_segments(&digest)
}

/// The IPv4-mapped IPv6 address (`::ffff:a.b.c.d`) of an IPv4 address.
pub open spec fn mapped_address(o: Seq<u8>) -> Seq<u16> {
    seq![0u16, 0, 0, 0, 0, 0xffff, (o[0] * 256 + o[1]) as u16, (o[2] * 256 + o[3]) as u16]
}

/// The IPv4-mapped IPv6 address of `octets`.
pub fn ipv4_mapped(octets: [u8; 4]) -> (r: [u16; 8])
    ensures
        r@ == mapped_address(octets@),
{
    let hi = octets[0] as u16 * 256 + octets[1] as u16;
    let lo = octets[2] as u16 * 256 + octets[3] as u16;
    let r: [u16; 8] = [0, 0, 0, 0, 0, 0xffff, hi, lo];
    assert(r@ =~= mapped_address(octets@));
    r
}

/// How devices are given an address.
#[derive(PartialEq, Eq, Structural, Clone, Copy, Debug)]
pub enum RegisterMode {
    /// A WireGuard peer with an address derived from the device id.
    Wireguard,
    /// The address the request came from.
    Direct,
}

/// The mode for the configured number: 1 and 2; anything else is unknown.
pub fn register_mode(n: u8) -> (r: Option<RegisterMode>)
    ensures
        r == if n == 1 {
            Some(RegisterMode::Wireguard)
        } else if n == 2 {
            Some(RegisterMode::Direct)
        } else {
            None::<RegisterMode>
        },
{
    if n == 1 {
        Some(RegisterMode::Wireguard)
    } else if n == 2 {
        Some(RegisterMode::Direct)
    } else {
        None
    }
}

/// A tunnel peer: the first address it may use, if any, and its public key.
#[derive(Debug)]
pub struct PeerInfo {
    pub first_allowed_ip: Option<String>,
    pub public_key: String,
}

/// The key of the last peer in `peers` whose first allowed address is `ip`.
pub open spec fn last_peer_with(peers: Seq<PeerInfo>, ip: Seq<char>) -> Option<String>
    decreases peers.len(),
{
    if peers.len() == 0 {
        None
    } else {
        let p = peers.last();
        if p.first_allowed_ip matches Some(a) && a@ == ip {
            Some(p.public_key)
        } else {
            last_peer_with(peers.drop_last(), ip)
        }
    }
}

/// The peer that a re-registering device replaces: the last one whose first
/// allowed address is the device's old address. None when there was no
/// old address (`ip` empty).
pub fn stale_peer_key(peers: &Vec<PeerInfo>, ip: &str) -> (r: Option<String>)
    ensures
        r == if ip@.len() == 0 {
            None::<String>
        } else {
            last_peer_with(peers@, ip@)
        },
{
    if ip.unicode_len() == 0 {
        return None;
    }
    let target = ip.to_owned();
    let mut k: usize = peers.len();
    assert(peers@.take(k as int) =~= peers@);
    while k > 0
        invariant
            k <= peers@.len(),
            target@ == ip@,
            ip@.len() > 0,
            last_peer_with(peers@, ip@) == last_peer_with(peers@.take(k as int), ip@),
        decreases k,
    {
        let ghost t = peers@.take(k as int);
        assert(t.drop_last() == peers@.take(k - 1));
        let p = &peers[k - 1];
        match &p.first_allowed_ip {
            Some(a) => {
                if *a == target {
                    return Some(p.public_key.clone());
                }
            },
            None => {},
        }
        k = k - 1;
    }
    None
}

} // verus!
