//! Stable device identities and display names.
use std::collections::hash_map::DefaultHasher;
use std::hash::Hasher;
use vstd::prelude::*;
use vstd::std_specs::hash::DefaultHasherAdditionalSpecFns;
use vstd::string::StringExecFns;
use vstd::utf8::{encode_utf8, encode_utf8_decode_utf8};

verus! {

/// Identifier of a physical device, derived from its immutable attributes.
#[derive(Clone, Copy, Debug, PartialEq, Eq, Structural, Hash, PartialOrd, Ord)]
pub struct CameraId(pub u64);

impl CameraId {
    /// The raw 64-bit value of the identifier.
    pub fn value(self) -> (r: u64)
        ensures
            r == self.0,
    {
        self.0
    }
}

/// What a device reports about itself when it is enumerated.
#[derive(Clone, Debug, PartialEq, Eq)]
pub struct DeviceInfo {
    pub serial_number: String,
    pub model_name: String,
    pub guid: String,
    pub user_defined_name: Option<String>,
}

/// The sequence of writes that the identity hash consumes: each field's UTF-8
/// encoding, closed by `0xff`, a byte that never occurs in UTF-8.
pub open spec fn identity_input(serial: Seq<char>, model: Seq<char>, guid: Seq<char>) -> Seq<Seq<u8>> {
    seq![
        encode_utf8(serial), seq![0xffu8],
        encode_utf8(model), seq![0xffu8],
        encode_utf8(guid), seq![0xffu8],
    ]
}

/// The identity of a device with the given serial number, model name and bus GUID.
pub open spec fn identity_of(serial: Seq<char>, model: Seq<char>, guid: Seq<char>) -> u64 {
    DefaultHasher::spec_finish(identity_input(serial, model, guid))
}

/// Identity of a device, in terms of its view.
pub open spec fn info_identity(info: DeviceInfo) -> u64 {
    identity_of(info.serial_number@, info.model_name@, info.guid@)
}

fn write_field(h: &mut DefaultHasher, s: &String)
    ensures
        final(h)@ == old(h)@.push(encode_utf8(s@)).push(seq![0xffu8]),
{
    h.write(s.as_str().as_bytes());
    let sep: Vec<u8> = vec![0xffu8];
    h.write(sep.as_slice());
    assert(sep@ =~= seq![0xffu8]);
}

/// Computes the stable identity of a device from its serial number, model
/// name and bus GUID; the user-defined name plays no part.
pub fn identity(info: &DeviceInfo) -> (id: CameraId)
    ensures
        id.0 == info_identity(*info),
{
    let mut h = DefaultHasher::new();
    write_field(&mut h, &info.serial_number);
    write_field(&mut h, &info.model_name);
    write_field(&mut h, &info.guid);
    assert(h@ =~= identity_input(info.serial_number@, info.model_name@, info.guid@));
    CameraId(h.finish())
}

/// Identity is a function of the three identifying attributes alone: two
/// devices that agree on serial number, model name and GUID get the same
/// identity, whatever else they report.
pub proof fn lemma_identity_deterministic(a: DeviceInfo, b: DeviceInfo)
    requires
        a.serial_number@ == b.serial_number@,
        a.model_name@ == b.model_name@,
        a.guid@ == b.guid@,
    ensures
        info_identity(a) == info_identity(b),
{
}

/// Devices that differ in serial number, model name or GUID present
/// different inputs to the identity hash; whether the 64-bit results differ
/// too is up to the hash.
pub proof fn lemma_identity_input_distinguishes(
    s1: Seq<char>, m1: Seq<char>, g1: Seq<char>,
    s2: Seq<char>, m2: Seq<char>, g2: Seq<char>,
)
    requires
        s1 != s2 || m1 != m2 || g1 != g2,
    ensures
        identity_input(s1, m1, g1) != identity_input(s2, m2, g2),
{
    if identity_input(s1, m1, g1) == identity_input(s2, m2, g2) {
        assert(identity_input(s1, m1, g1)[0] == identity_input(s2, m2, g2)[0]);
        assert(identity_input(s1, m1, g1)[2] == identity_input(s2, m2, g2)[2]);
        assert(identity_input(s1, m1, g1)[4] == identity_input(s2, m2, g2)[4]);
        encode_utf8_decode_utf8(s1);
        encode_utf8_decode_utf8(s2);
        encode_utf8_decode_utf8(m1);
        encode_utf8_decode_utf8(m2);
        encode_utf8_decode_utf8(g1);
        encode_utf8_decode_utf8(g2);
    }
}

/// The name shown for a device: its user-defined name when present and
/// non-empty, its model name otherwise.
pub open spec fn base_name(info: DeviceInfo) -> Seq<char> {
    match info.user_defined_name {
        Some(n) => if n@.len() > 0 { n@ } else { info.model_name@ },
        None => info.model_name@,
    }
}

/// `base_name` followed by the serial number in parentheses.
pub open spec fn display_name_of(info: DeviceInfo) -> Seq<char> {
    base_name(info) + " ("@ + info.serial_number@ + ")"@
}

/// The display name of a device, as `display_name_of` states it.
pub fn display_name(info: &DeviceInfo) -> (r: String)
    ensures
        r@ == display_name_of(*info),
{
    let base: &str = match &info.user_defined_name {
        Some(n) => if n.as_str().unicode_len() > 0 { n.as_str() } else { info.model_name.as_str() },
        None => info.model_name.as_str(),
    };
    let r = String::from_str(base).concat(" (").concat(info.serial_number.as_str()).concat(")");
    r
}

} // verus!
