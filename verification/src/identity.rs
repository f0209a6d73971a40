//! The identity under which a host reports: its name, a hardware address or
//! a stand-in derived from the name, and a description of its system.

use vstd::prelude::*;
use vstd::std_specs::hash::DefaultHasherAdditionalSpecFns;
use std::collections::hash_map::DefaultHasher;
use std::hash::Hasher;
use crate::text::{optional_text, push_text};

verus! {

/// The digits of the hexadecimal notation, in lowercase.
pub open spec fn hex_digits() -> Seq<char> {
    "0123456789abcdef"@
}

/// The two lowercase hexadecimal digits of a byte.
pub open spec fn hex_pair_of(byte: u8) -> Seq<char> {
    seq![hex_digits()[byte as int / 16], hex_digits()[byte as int % 16]]
}

/// Six octets in the notation of a hardware address: lowercase hexadecimal
/// pairs with colons between them.
pub open spec fn mac_text_of(octets: Seq<u8>) -> Seq<char>
    recommends
        octets.len() == 6,
{
    hex_pair_of(octets[0]) + seq![':'] + hex_pair_of(octets[1]) + seq![':'] + hex_pair_of(
        octets[2],
    ) + seq![':'] + hex_pair_of(octets[3]) + seq![':'] + hex_pair_of(octets[4]) + seq![':']
        + hex_pair_of(octets[5])
}

/// Appends the two lowercase hexadecimal digits of a byte to a text.
pub fn push_hex_pair(text: &mut String, byte: u8)
    ensures
        final(text)@ == old(text)@ + hex_pair_of(byte),
{
    proof {
        reveal_strlit("0123456789abcdef");
    }
    let digits = "0123456789abcdef";
    let high = digits.get_char((byte / 16) as usize);
    let low = digits.get_char((byte % 16) as usize);
    text.push(high);
    text.push(low);
    assert(text@ =~= old(text)@ + hex_pair_of(byte));
}

/// Writes six octets in the notation of a hardware address.
pub fn format_mac(octets: &[u8; 6]) -> (text: String)
    ensures
        text@ == mac_text_of(octets@),
{
    let mut text = String::new();
    push_hex_pair(&mut text, octets[0]);
    text.push(':');
    push_hex_pair(&mut text, octets[1]);
    text.push(':');
    push_hex_pair(&mut text, octets[2]);
    text.push(':');
    push_hex_pair(&mut text, octets[3]);
    text.push(':');
    push_hex_pair(&mut text, octets[4]);
    text.push(':');
    push_hex_pair(&mut text, octets[5]);
    assert(text@ =~= mac_text_of(octets@));
    text
}

/// Whether a character is a hexadecimal digit, in either case.
pub open spec fn is_hex_digit(c: char) -> bool {
    ('0' <= c && c <= '9') || ('a' <= c && c <= 'f') || ('A' <= c && c <= 'F')
}

/// Whether a text has the shape of a hardware address: six pairs of
/// hexadecimal digits with colons between them.
pub open spec fn is_mac_text(text: Seq<char>) -> bool {
    &&& text.len() == 17
    &&& forall|i: int|
        0 <= i < 17 ==> if i % 3 == 2 {
            text[i] == ':'
        } else {
            is_hex_digit(#[trigger] text[i])
        }
}

/// Both digits of a byte's pair are hexadecimal digits.
pub proof fn lemma_hex_pair(byte: u8)
    ensures
        hex_pair_of(byte).len() == 2,
        is_hex_digit(hex_pair_of(byte)[0]),
        is_hex_digit(hex_pair_of(byte)[1]),
{
    reveal_strlit("0123456789abcdef");
    let digits = hex_digits();
    assert(digits.len() == 16);
    assert forall|d: int| 0 <= d < 16 implies is_hex_digit(#[trigger] digits[d]) by {}
}

/// Six octets written as a hardware address have the shape of one.
pub proof fn lemma_mac_text_shape(octets: Seq<u8>)
    requires
        octets.len() == 6,
    ensures
        is_mac_text(mac_text_of(octets)),
{
    lemma_hex_pair(octets[0]);
    lemma_hex_pair(octets[1]);
    lemma_hex_pair(octets[2]);
    lemma_hex_pair(octets[3]);
    lemma_hex_pair(octets[4]);
    lemma_hex_pair(octets[5]);
    let text = mac_text_of(octets);
    assert(text.len() == 17);
    assert(text[0] == hex_pair_of(octets[0])[0]);
    assert(text[1] == hex_pair_of(octets[0])[1]);
    assert(text[3] == hex_pair_of(octets[1])[0]);
    assert(text[4] == hex_pair_of(octets[1])[1]);
    assert(text[6] == hex_pair_of(octets[2])[0]);
    assert(text[7] == hex_pair_of(octets[2])[1]);
    assert(text[9] == hex_pair_of(octets[3])[0]);
    assert(text[10] == hex_pair_of(octets[3])[1]);
    assert(text[12] == hex_pair_of(octets[4])[0]);
    assert(text[13] == hex_pair_of(octets[4])[1]);
    assert(text[15] == hex_pair_of(octets[5])[0]);
    assert(text[16] == hex_pair_of(octets[5])[1]);
}

/// The byte of `hash` that stands `shift` bits above its lowest bit.
pub open spec fn hash_octet(hash: u64, shift: u64) -> u8 {
    ((hash >> shift) & 0xff) as u8
}

/// The octets of the stand-in address made from a hash: its lower 48 bits,
/// the highest of these bytes first, with the first octet forced to say
/// "locally administered" (bit 1 set) and "unicast" (bit 0 clear).
pub open spec fn pseudo_octets_of(hash: u64) -> Seq<u8> {
    seq![
        (hash_octet(hash, 40) | 0x02) & 0xfe,
        hash_octet(hash, 32),
        hash_octet(hash, 24),
        hash_octet(hash, 16),
        hash_octet(hash, 8),
        hash_octet(hash, 0),
    ]
}

/// The byte of `hash` that stands `shift` bits above its lowest bit.
pub(crate) fn octet_at(hash: u64, shift: u64) -> (octet: u8)
    requires
        shift < 64,
    ensures
        octet == hash_octet(hash, shift),
{
    let masked: u64 = (hash >> shift) & 0xff;
    assert(masked < 256) by (bit_vector)
        requires
            masked == (hash >> shift) & 0xff,
    ;
    masked as u8
}

/// Makes the octets of the stand-in address from a hash.
pub fn pseudo_mac_octets(hash: u64) -> (octets: [u8; 6])
    ensures
        octets@ == pseudo_octets_of(hash),
        octets[0] & 0x02 == 0x02,
        octets[0] & 0x01 == 0,
{
    let top: u8 = octet_at(hash, 40);
    let first: u8 = (top | 0x02) & 0xfe;
    assert(first & 0x02 == 0x02 && first & 0x01 == 0) by (bit_vector)
        requires
            first == (top | 0x02) & 0xfe,
    ;
    let octets = [
        first,
        octet_at(hash, 32),
        octet_at(hash, 24),
        octet_at(hash, 16),
        octet_at(hash, 8),
        octet_at(hash, 0),
    ];
    assert(octets@ =~= pseudo_octets_of(hash));
    octets
}

/// The writes that hashing a text with `Hash::hash` makes to a hasher.
pub uninterp spec fn text_hash_writes(text: Seq<char>) -> Seq<Seq<u8>>;

/// `Hash::hash` of `str`, on the standard hasher: feeds the text to the
/// hasher. What is written depends on the text alone, and comes behind what
/// the hasher was fed before.
#[verifier::external_body]
fn feed_text(hasher: &mut DefaultHasher, text: &str)
    ensures
        final(hasher)@ == old(hasher)@ + text_hash_writes(text@),
{
    std::hash::Hash::hash(text, hasher)
}

/// The stable 64-bit hash of a host name: what the standard hasher, freshly
/// made, gives after it was fed the name.
pub open spec fn hostname_hash_of(hostname: Seq<char>) -> u64 {
    DefaultHasher::spec_finish(text_hash_writes(hostname))
}

/// The stand-in address made from a hash, in the notation of a hardware
/// address.
pub open spec fn pseudo_mac_of_hash(hash: u64) -> Seq<char> {
    mac_text_of(pseudo_octets_of(hash))
}

/// The stand-in address of a host, which depends on its name alone.
pub open spec fn pseudo_mac_of(hostname: Seq<char>) -> Seq<char> {
    pseudo_mac_of_hash(hostname_hash_of(hostname))
}

/// The stand-in address is a matter of the host's name alone: hosts of one
/// name have one address. Its first octet has its second-lowest bit set and
/// its lowest bit clear, so that the second digit of the address is one of
/// `2`, `6`, `a` and `e`.
pub proof fn lemma_pseudo_mac_is_stable_and_local(first: Seq<char>, second: Seq<char>)
    requires
        first == second,
    ensures
        pseudo_mac_of(first) == pseudo_mac_of(second),
        pseudo_octets_of(hostname_hash_of(first))[0] & 0x02 == 0x02,
        pseudo_octets_of(hostname_hash_of(first))[0] & 0x01 == 0,
        is_mac_text(pseudo_mac_of(first)),
        pseudo_mac_of(first)[1] == '2' || pseudo_mac_of(first)[1] == '6' || pseudo_mac_of(first)[1]
            == 'a' || pseudo_mac_of(first)[1] == 'e',
{
    let hash = hostname_hash_of(first);
    let top = hash_octet(hash, 40);
    let octet = pseudo_octets_of(hash)[0];
    assert(octet == (top | 0x02) & 0xfe);
    assert(octet & 0x02 == 0x02 && octet & 0x01 == 0 && (octet % 16 == 2 || octet % 16 == 6
        || octet % 16 == 10 || octet % 16 == 14)) by (bit_vector)
        requires
            octet == (top | 0x02) & 0xfe,
    ;
    lemma_mac_text_shape(pseudo_octets_of(hash));
    reveal_strlit("0123456789abcdef");
    assert(pseudo_mac_of(first)[1] == hex_pair_of(octet)[1]);
}

/// Computes the stable hash of a host name.
pub fn hash_hostname(hostname: &str) -> (hash: u64)
    ensures
        hash == hostname_hash_of(hostname@),
{
    let mut hasher = DefaultHasher::new();
    feed_text(&mut hasher, hostname);
    assert(hasher@ =~= text_hash_writes(hostname@));
    hasher.finish()
}

/// Writes the stand-in address that belongs to a hash.
pub fn pseudo_mac_from_hash(hash: u64) -> (mac: String)
    ensures
        mac@ == pseudo_mac_of_hash(hash),
        is_mac_text(mac@),
{
    let octets = pseudo_mac_octets(hash);
    proof {
        lemma_mac_text_shape(octets@);
    }
    format_mac(&octets)
}

/// Derives the stand-in address of a host from its name. The same name
/// gives the same address, in every run.
pub fn derive_pseudo_mac(hostname: &str) -> (mac: String)
    ensures
        mac@ == pseudo_mac_of(hostname@),
        is_mac_text(mac@),
{
    pseudo_mac_from_hash(hash_hostname(hostname))
}

/// The identity that a host sends with every heartbeat.
pub struct SystemInfo {
    pub hostname: String,
    pub mac_address: String,
    pub os_info: String,
}

/// A `SystemInfo` as plain values.
pub struct SystemInfoView {
    pub hostname: Seq<char>,
    pub mac_address: Seq<char>,
    pub os_info: Seq<char>,
}

impl View for SystemInfo {
    type V = SystemInfoView;

    open spec fn view(&self) -> SystemInfoView {
        SystemInfoView {
            hostname: self.hostname@,
            mac_address: self.mac_address@,
            os_info: self.os_info@,
        }
    }
}

/// The address under which a host reports: its hardware address where one
/// was found, else the stand-in that its name gives.
pub open spec fn reported_mac_of(hostname: Seq<char>, hardware: Option<Seq<char>>) -> Seq<char> {
    match hardware {
        Some(mac) => mac,
        None => pseudo_mac_of(hostname),
    }
}

/// The description of a system: its distribution and its architecture,
/// with a space between them.
pub open spec fn os_descriptor_of(distro: Seq<char>, arch: Seq<char>) -> Seq<char> {
    distro + seq![' '] + arch
}

/// The identity made of what the system said of itself.
pub open spec fn system_info_of(
    hostname: Seq<char>,
    distro: Seq<char>,
    arch: Seq<char>,
    hardware: Option<Seq<char>>,
) -> SystemInfoView {
    SystemInfoView {
        hostname,
        mac_address: reported_mac_of(hostname, hardware),
        os_info: os_descriptor_of(distro, arch),
    }
}

/// Chooses the address under which a host reports.
pub fn resolve_mac_address(hostname: &str, hardware: Option<String>) -> (mac: String)
    ensures
        mac@ == reported_mac_of(hostname@, optional_text(hardware)),
{
    match hardware {
        Some(mac) => mac,
        None => derive_pseudo_mac(hostname),
    }
}

/// Puts a host's identity together from what the system said of itself.
pub fn assemble_system_info(
    hostname: String,
    distro: &str,
    arch: &str,
    hardware: Option<String>,
) -> (info: SystemInfo)
    ensures
        info@ == system_info_of(hostname@, distro@, arch@, optional_text(hardware)),
{
    let mut os_info = String::new();
    push_text(&mut os_info, distro);
    os_info.push(' ');
    push_text(&mut os_info, arch);
    assert(os_info@ =~= os_descriptor_of(distro@, arch@));
    let mac_address = resolve_mac_address(hostname.as_str(), hardware);
    SystemInfo { hostname, mac_address, os_info }
}

/// `whoami::hostname`: the host's name as the operating system gives it, in
/// ASCII lowercase. Nothing is promised of the name.
#[allow(deprecated)]
#[verifier::external_body]
fn os_hostname() -> (hostname: String) {
    whoami::hostname()
}

/// `whoami::distro`: the name of the operating system's distribution.
/// Nothing is promised of the name.
#[verifier::external_body]
fn os_distro() -> (distro: String) {
    whoami::distro()
}

/// `whoami::arch`, written out: the architecture of the processor. Nothing
/// is promised of the text. The call takes no argument; it gives up only
/// where the operating system refuses to name its machine.
#[verifier::external_body]
fn os_arch() -> (arch: String) {
    whoami::arch().to_string()
}

/// `mac_address::get_mac_address`, written out with the crate's `Display`:
/// the address of the first network device that has one, or nothing where
/// none was found or the lookup failed. An address comes as six pairs of
/// hexadecimal digits with colons between them.
#[verifier::external_body]
fn hardware_mac() -> (mac: Option<String>)
    ensures
        mac matches Some(text) ==> is_mac_text(text@),
{
    match mac_address::get_mac_address() {
        Ok(Some(address)) => Some(address.to_string()),
        Ok(None) => None,
        Err(_) => None,
    }
}

/// Reads the host's identity from the system. The address is the hardware
/// address where the system has one, else the stand-in derived from the
/// host's name; either way it has the shape of a hardware address.
pub fn get_system_info() -> (info: SystemInfo)
    ensures
        is_mac_text(info@.mac_address),
        exists|distro: Seq<char>, arch: Seq<char>|
            info@.os_info == os_descriptor_of(distro, arch),
{
    let hostname = os_hostname();
    let distro = os_distro();
    let arch = os_arch();
    let hardware = hardware_mac();
    let info = assemble_system_info(hostname, distro.as_str(), arch.as_str(), hardware);
    proof {
        assert(info@.os_info == os_descriptor_of(distro@, arch@));
        lemma_mac_text_shape(pseudo_octets_of(hostname_hash_of(info@.hostname)));
    }
    info
}

} // verus!
