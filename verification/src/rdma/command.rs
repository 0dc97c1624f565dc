//! The `LO.*` command vocabulary, independent of any RESP client.

use vstd::prelude::*;
use vstd::string::StrSliceExecFns;
#[allow(unused_imports)]
use vstd::utf8::encode_utf8;

use crate::hex;
#[allow(unused_imports)]
use crate::hex::hex_text;
#[allow(unused_imports)]
use crate::resp::byte_strings;
#[allow(unused_imports)]
use crate::hex::{hex_bytes, hex_round_trips};
#[allow(unused_imports)]
use crate::text::{same_letter, spelling_goes_by_characters, spells};
use crate::text::spells_out;

verus! {

/// An `LO.*` command: its name, and its arguments in wire order.
#[derive(Debug, Clone, PartialEq, Eq)]
pub struct RdmaCommand {
    name: &'static str,
    arguments: Vec<Vec<u8>>,
}

/// The mathematical form of an [`RdmaCommand`].
pub struct RdmaCommandView {
    pub name: Seq<char>,
    pub arguments: Seq<Seq<u8>>,
}

impl View for RdmaCommand {
    type V = RdmaCommandView;

    closed spec fn view(&self) -> RdmaCommandView {
        RdmaCommandView { name: self.name@, arguments: byte_strings(self.arguments@) }
    }
}

impl RdmaCommand {
    /// The command name, as sent.
    pub fn name(&self) -> (name: &'static str)
        ensures
            name@ == self@.name,
    {
        self.name
    }

    /// The arguments, in the order they go on the wire.
    pub fn arguments(&self) -> (arguments: &[Vec<u8>])
        ensures
            byte_strings(arguments@) == self@.arguments,
    {
        self.arguments.as_slice()
    }
}

/// `LO.HELLO` with the client's fabric address in hexadecimal.
pub open spec fn hello_layout(client_address: Seq<u8>) -> RdmaCommandView {
    RdmaCommandView {
        name: "LO.HELLO"@,
        arguments: seq![encode_utf8(hex_text(client_address))],
    }
}

/// `LO.HELLO <client-address>`
pub fn hello(client_address: &[u8]) -> (command: RdmaCommand)
    ensures
        command@ == hello_layout(client_address@),
{
    let mut arguments: Vec<Vec<u8>> = Vec::new();
    arguments.push(hex::encode(client_address).as_str().as_bytes_vec());
    assert(byte_strings(arguments@) =~= hello_layout(client_address@).arguments);
    RdmaCommand { name: "LO.HELLO", arguments }
}

/// Whether a command of this name is a transfer.
pub open spec fn is_transfer(name: Seq<u8>) -> bool {
    spells(name, "LO.GET"@) || spells(name, "LO.SET"@)
}

/// Whether a command of this name needs the connection's session open first: whether
/// it is a transfer.
pub fn needs_session(name: &[u8]) -> (needed: bool)
    ensures
        needed == is_transfer(name@),
        needed <==> name@.len() == 6 && is_letter(name@[0], 'l') && is_letter(name@[1], 'o')
            && name@[2] == '.' as u8 && (is_letter(name@[3], 'g') || is_letter(name@[3], 's'))
            && is_letter(name@[4], 'e') && is_letter(name@[5], 't'),
{
    proof {
        reveal_strlit("LO.GET");
        reveal_strlit("LO.SET");
        transfers_are_lo_get_and_lo_set(name@);
    }
    spells_out(name, "LO.GET") || spells_out(name, "LO.SET")
}

/// Whether a byte is this small letter or its capital.
pub open spec fn is_letter(byte: u8, letter: char) -> bool {
    byte == letter as u8 || byte == letter as u8 - ('a' as u8 - 'A' as u8)
}

/// The transfers are the commands `lo.get` and `lo.set`, six bytes, in any mixture of
/// capitals, and no other command is one.
pub proof fn transfers_are_lo_get_and_lo_set(name: Seq<u8>)
    ensures
        is_transfer(name) <==> name.len() == 6 && is_letter(name[0], 'l') && is_letter(name[1], 'o')
            && name[2] == '.' as u8 && (is_letter(name[3], 'g') || is_letter(name[3], 's'))
            && is_letter(name[4], 'e') && is_letter(name[5], 't'),
{
    reveal_strlit("LO.GET");
    reveal_strlit("LO.SET");
    spelling_goes_by_characters(name, "LO.GET"@);
    spelling_goes_by_characters(name, "LO.SET"@);
    if is_transfer(name) {
        assert(same_letter(name[0], 'L' as u8));
        assert(same_letter(name[1], 'O' as u8));
        assert(same_letter(name[2], '.' as u8));
        assert(same_letter(name[3], 'G' as u8) || same_letter(name[3], 'S' as u8));
        assert(same_letter(name[4], 'E' as u8));
        assert(same_letter(name[5], 'T' as u8));
    }
}

/// A name that does not start with `lo.`, in some mixture of capitals, is no transfer's.
pub proof fn ordinary_names_are_no_transfer(name: Seq<u8>)
    requires
        !(name.len() >= 3 && is_letter(name[0], 'l') && is_letter(name[1], 'o') && name[2]
            == '.' as u8),
    ensures
        !is_transfer(name),
{
    transfers_are_lo_get_and_lo_set(name);
}

/// A handshake is `LO.HELLO` with one argument, from which the client's address is read
/// back.
pub proof fn a_handshake_carries_the_address_alone(client_address: Seq<u8>)
    ensures
        hello_layout(client_address).name == "LO.HELLO"@,
        hello_layout(client_address).arguments.len() == 1,
        hex_bytes(hello_layout(client_address).arguments[0]) == Some(client_address),
        hello_layout(client_address).arguments[0] == encode_utf8(hex_text(client_address)),
{
    hex_round_trips(client_address);
}

} // verus!
