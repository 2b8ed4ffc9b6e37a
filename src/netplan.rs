use vstd::prelude::*;

use crate::text::{
    decimal, hex2, hex_char, lemma_decimal_injective, lemma_hex2_injective, lemma_middle_equal,
    push_decimal, push_hex2, push_text,
};

verus! {

/// Length of the network prefix of the point-to-point subnet of a VM.
pub const PREFIX_LEN: u8 = 30;

/// An IPv4 address in dotted-quad text.
pub open spec fn dotted(a: u8, b: u8, c: u8, d: u8) -> Seq<char> {
    decimal(a as nat) + seq!['.'] + decimal(b as nat) + seq!['.'] + decimal(c as nat) + seq!['.']
        + decimal(d as nat)
}

/// Text that is an IPv4 address in dotted-quad form.
pub open spec fn is_ipv4_text(s: Seq<char>) -> bool {
    exists|a: u8, b: u8, c: u8, d: u8| s == dotted(a, b, c, d)
}

/// A hexadecimal digit of either case.
pub open spec fn is_hex_char(c: char) -> bool {
    ('0' <= c && c <= '9') || ('a' <= c && c <= 'f') || ('A' <= c && c <= 'F')
}

/// Text that is a MAC address: six pairs of hexadecimal digits joined by colons.
pub open spec fn is_mac_text(s: Seq<char>) -> bool {
    &&& s.len() == 17
    &&& forall|i: int| 0 <= i < 17 ==> if i % 3 == 2 {
        s[i] == ':'
    } else {
        is_hex_char(#[trigger] s[i])
    }
}

/// Host side of the /30 subnet of VM `id`: 172.16.id.1.
pub open spec fn host_ip_of(id: u8) -> Seq<char> {
    dotted(172, 16, id, 1)
}

/// Guest side of the /30 subnet of VM `id`: 172.16.id.2.
pub open spec fn guest_ip_of(id: u8) -> Seq<char> {
    dotted(172, 16, id, 2)
}

/// The fixed first four octets of every guest MAC address.
pub open spec fn mac_prefix() -> Seq<char> {
    seq!['0', '6', ':', '0', '0', ':', 'A', 'C', ':', '1', '0', ':']
}

/// The guest MAC address of VM `id`: 06:00:AC:10:<id in hex>:02.
pub open spec fn mac_of(id: u8) -> Seq<char> {
    mac_prefix() + hex2(id) + seq![':', '0', '2']
}

/// Name of the tap interface of VM `id`: tap-inet-<id>.
pub open spec fn tap_name_of(id: u8) -> Seq<char> {
    seq!['t', 'a', 'p', '-', 'i', 'n', 'e', 't', '-'] + decimal(id as nat)
}

/// The name given to VM `id` when none is chosen: fc-<id in hex>.
pub open spec fn default_name_of(id: u8) -> Seq<char> {
    seq!['f', 'c', '-'] + hex2(id)
}

fn push_dotted(s: &mut String, a: u8, b: u8, c: u8, d: u8)
    ensures
        final(s)@ == old(s)@ + dotted(a, b, c, d),
{
    push_decimal(s, a);
    s.push('.');
    push_decimal(s, b);
    s.push('.');
    push_decimal(s, c);
    s.push('.');
    push_decimal(s, d);
    assert(final(s)@ =~= old(s)@ + dotted(a, b, c, d));
}

/// The host address of VM `id`.
pub fn host_address(id: u8) -> (r: String)
    ensures
        r@ == host_ip_of(id),
        is_ipv4_text(r@),
{
    let mut s = String::new();
    push_dotted(&mut s, 172, 16, id, 1);
    assert(s@ =~= host_ip_of(id));
    s
}

/// The guest address of VM `id`.
pub fn guest_address(id: u8) -> (r: String)
    ensures
        r@ == guest_ip_of(id),
        is_ipv4_text(r@),
{
    let mut s = String::new();
    push_dotted(&mut s, 172, 16, id, 2);
    assert(s@ =~= guest_ip_of(id));
    s
}

proof fn lemma_hex_char_is_hex(d: nat)
    requires
        d < 16,
    ensures
        is_hex_char(hex_char(d)),
{
}

/// The guest MAC address of VM `id`.
pub fn mac_address(id: u8) -> (r: String)
    ensures
        r@ == mac_of(id),
        is_mac_text(r@),
{
    let mut s = String::new();
    push_text(&mut s, "06:00:AC:10:");
    proof {
        reveal_strlit("06:00:AC:10:");
    }
    push_hex2(&mut s, id);
    push_text(&mut s, ":02");
    proof {
        reveal_strlit(":02");
        assert(s@ =~= mac_of(id));
        lemma_hex_char_is_hex((id / 16) as nat);
        lemma_hex_char_is_hex((id % 16) as nat);
        assert(s@[12] == hex_char((id / 16) as nat));
        assert(s@[13] == hex_char((id % 16) as nat));
    }
    s
}

/// The tap interface name of VM `id`.
pub fn tap_name(id: u8) -> (r: String)
    ensures
        r@ == tap_name_of(id),
{
    let mut s = String::new();
    push_text(&mut s, "tap-inet-");
    push_decimal(&mut s, id);
    proof {
        reveal_strlit("tap-inet-");
        assert(s@ =~= tap_name_of(id));
    }
    s
}

/// The name of VM `id` when the caller chose none.
pub fn default_name(id: u8) -> (r: String)
    ensures
        r@ == default_name_of(id),
{
    let mut s = String::new();
    push_text(&mut s, "fc-");
    push_hex2(&mut s, id);
    proof {
        reveal_strlit("fc-");
        assert(s@ =~= default_name_of(id));
    }
    s
}

/// Different VMs get different host addresses, guest addresses, MAC addresses and tap names.
pub proof fn lemma_network_plan_distinct(a: u8, b: u8)
    requires
        a != b,
    ensures
        host_ip_of(a) != host_ip_of(b),
        guest_ip_of(a) != guest_ip_of(b),
        mac_of(a) != mac_of(b),
        tap_name_of(a) != tap_name_of(b),
{
    let p = decimal(172) + seq!['.'] + decimal(16) + seq!['.'];
    let one = seq!['.'] + decimal(1);
    let two = seq!['.'] + decimal(2);
    assert(host_ip_of(a) =~= p + decimal(a as nat) + one);
    assert(host_ip_of(b) =~= p + decimal(b as nat) + one);
    assert(guest_ip_of(a) =~= p + decimal(a as nat) + two);
    assert(guest_ip_of(b) =~= p + decimal(b as nat) + two);
    if host_ip_of(a) == host_ip_of(b) {
        lemma_middle_equal(p, decimal(a as nat), decimal(b as nat), one);
        lemma_decimal_injective(a as nat, b as nat);
    }
    if guest_ip_of(a) == guest_ip_of(b) {
        lemma_middle_equal(p, decimal(a as nat), decimal(b as nat), two);
        lemma_decimal_injective(a as nat, b as nat);
    }
    if mac_of(a) == mac_of(b) {
        lemma_middle_equal(mac_prefix(), hex2(a), hex2(b), seq![':', '0', '2']);
        lemma_hex2_injective(a, b);
    }
    let t = seq!['t', 'a', 'p', '-', 'i', 'n', 'e', 't', '-'];
    let e = Seq::<char>::empty();
    assert(tap_name_of(a) =~= t + decimal(a as nat) + e);
    assert(tap_name_of(b) =~= t + decimal(b as nat) + e);
    if tap_name_of(a) == tap_name_of(b) {
        lemma_middle_equal(t, decimal(a as nat), decimal(b as nat), e);
        lemma_decimal_injective(a as nat, b as nat);
    }
}

} // verus!
