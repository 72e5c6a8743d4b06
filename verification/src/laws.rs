//! What holds of every registry, whatever came before.
//!
//! Each law is stated over `Registry`, the model in which the contracts of
//! `Env` are written, and is proved from the definitions there.

use vstd::prelude::*;
use vstd::utf8::{
    encode_utf8, encode_utf8_decode_utf8, encode_utf8_valid_utf8, is_ascii_chars,
    is_ascii_chars_encode_utf8, is_char_boundary, is_char_boundary_iff_is_leading_byte,
    is_char_boundary_start_end_of_seq,
};

use crate::address::parsed_url;
use crate::error::{ErrorKind, SkippyError};
use crate::registry::Registry;
use crate::text::framed;
use crate::transport::{Adapter, DialView, ExchangeView, Handshake, TcpPhy, TCP_PREFIX};

verus! {

/// Connecting keeps a registry well formed, whether or not a transport was
/// added.
pub proof fn law_connect_keeps_wf(
    before: Registry,
    dial: DialView,
    handshake: Handshake,
    after: Registry,
    index: Result<usize, SkippyError>,
)
    requires
        before.wf(),
        before.connects(dial, handshake, after, index),
    ensures
        after.wf(),
{
    if index is Ok {
        assert(after.slots.dom() =~= before.slots.dom().insert(before.vacant));
    }
}

/// Disconnecting keeps a registry well formed.
pub proof fn law_disconnect_keeps_wf(before: Registry, index: usize)
    requires
        before.wf(),
    ensures
        before.disconnect(index).wf(),
{
    assert(before.disconnect(index).slots.dom() =~= before.slots.dom().remove(index));
}

/// The number of live transports grows by one with each connect that
/// succeeds and shrinks by one with each disconnect of a live handle.
/// Nothing else changes it.
pub proof fn law_size_follows_connects_and_disconnects(
    before: Registry,
    dial: DialView,
    handshake: Handshake,
    after: Registry,
    issued: Result<usize, SkippyError>,
    index: usize,
)
    requires
        before.wf(),
        before.connects(dial, handshake, after, issued),
    ensures
        issued is Ok ==> after.slots.len() == before.slots.len() + 1,
        issued is Err ==> after.slots.len() == before.slots.len(),
        before.slots.contains_key(index) ==> before.disconnect(index).slots.len()
            == before.slots.len() - 1,
        !before.slots.contains_key(index) ==> before.disconnect(index).slots.len()
            == before.slots.len(),
{
    if issued is Ok {
        assert(after.slots.dom() =~= before.slots.dom().insert(before.vacant));
    }
    assert(before.disconnect(index).slots.dom() =~= before.slots.dom().remove(index));
}

/// A handle that `connect` has just issued is stale once it is
/// disconnected: a command on it fails with `DeviceDisconnected`.
pub proof fn law_connect_disconnect_command(
    before: Registry,
    dial: DialView,
    handshake: Handshake,
    connected: Registry,
    index: usize,
    raw: Seq<char>,
)
    requires
        before.connects(dial, handshake, connected, Ok(index)),
    ensures
        connected.command(index, raw) is Ok,
        connected.disconnect(index).command(index, raw) == Err::<ExchangeView, SkippyError>(
            SkippyError::DeviceDisconnected,
        ),
        SkippyError::DeviceDisconnected.spec_kind() == ErrorKind::StaleHandle,
{
}

/// After a disconnect, a command on the same handle fails with
/// `DeviceDisconnected`, whatever the registry held before.
pub proof fn law_command_after_disconnect_is_stale(before: Registry, index: usize, raw: Seq<char>)
    ensures
        before.disconnect(index).command(index, raw) == Err::<ExchangeView, SkippyError>(
            SkippyError::DeviceDisconnected,
        ),
{
}

/// An address that is no URL is refused as `UnsupportedAddress`, and one
/// whose scheme is not `tcp` as `UnsupportedProtocol`. Both are failures of
/// configuration, and both come from `Env::dial`, which has no registry to
/// change.
pub proof fn law_unsupported_address_is_refused(addr: Seq<char>)
    ensures
        parsed_url(addr) is None ==> Adapter::spec_dial(parsed_url(addr)) == Err::<
            DialView,
            SkippyError,
        >(SkippyError::UnsupportedAddress),
        parsed_url(addr) matches Some(url) && url.0 != "tcp"@ ==> Adapter::spec_dial(
            parsed_url(addr),
        ) == Err::<DialView, SkippyError>(SkippyError::UnsupportedProtocol),
        SkippyError::UnsupportedAddress.spec_kind() == ErrorKind::Configuration,
        SkippyError::UnsupportedProtocol.spec_kind() == ErrorKind::Configuration,
{
}

/// Of a URL text made of ASCII characters, the target of a stream socket is
/// what follows the first `TCP_PREFIX` characters. A shorter text of ASCII
/// characters has no target.
pub proof fn law_ascii_endpoint(text: Seq<char>)
    requires
        is_ascii_chars(text),
    ensures
        text.len() >= TCP_PREFIX ==> TcpPhy::spec_endpoint(text) == Some(
            text.skip(TCP_PREFIX as int),
        ),
        text.len() < TCP_PREFIX ==> TcpPhy::spec_endpoint(text) is None,
{
    let bytes = encode_utf8(text);
    let cut = TCP_PREFIX as int;
    is_ascii_chars_encode_utf8(text);
    encode_utf8_valid_utf8(text);
    if text.len() >= TCP_PREFIX {
        if text.len() == TCP_PREFIX {
            is_char_boundary_start_end_of_seq(bytes);
        } else {
            assert(bytes[cut] == text[cut] as u8);
            is_char_boundary_iff_is_leading_byte(bytes, cut);
        }
        let rest = text.skip(cut);
        assert(is_ascii_chars(rest)) by {
            assert forall|i: int| 0 <= i < rest.len() implies '\0' <= #[trigger] rest[i]
                <= '\u{7f}' by {
                assert(rest[i] == text[i + cut]);
            }
        }
        is_ascii_chars_encode_utf8(rest);
        assert(bytes.skip(cut) =~= encode_utf8(rest)) by {
            assert forall|i: int| 0 <= i < rest.len() implies bytes.skip(cut)[i] == encode_utf8(
                rest,
            )[i] by {
                assert(rest[i] == text[i + cut]);
                assert(bytes[i + cut] == text[i + cut] as u8);
            }
        }
        encode_utf8_decode_utf8(rest);
    } else {
        assert(!is_char_boundary(bytes, cut));
    }
}

/// A connection that could not be established gives `ConnectFailed`, a
/// failure of connection, and leaves the registry as it was.
pub proof fn law_failed_handshake_allocates_nothing(
    before: Registry,
    dial: DialView,
    handshake: Handshake,
    after: Registry,
    index: Result<usize, SkippyError>,
)
    requires
        before.connects(dial, handshake, after, index),
        handshake != Handshake::Established,
    ensures
        index == Err::<usize, SkippyError>(SkippyError::ConnectFailed),
        SkippyError::ConnectFailed.spec_kind() == ErrorKind::Connection,
        after == before,
{
}

/// An established connection gets a handle, unless the registry has given
/// out its last link number: how many transports it holds is no reason to
/// refuse one.
pub proof fn law_established_connect_succeeds(
    before: Registry,
    dial: DialView,
    after: Registry,
    index: Result<usize, SkippyError>,
)
    requires
        before.connects(dial, Handshake::Established, after, index),
        before.serial < u64::MAX,
    ensures
        index == Ok::<usize, SkippyError>(before.vacant),
        after.slots.contains_key(before.vacant),
        after.slots[before.vacant].spec_link() == before.serial,
{
}

/// Whatever fails in `connect`, the registry stays as it was.
pub proof fn law_failed_connect_allocates_nothing(
    before: Registry,
    dial: DialView,
    handshake: Handshake,
    after: Registry,
    index: Result<usize, SkippyError>,
)
    requires
        before.connects(dial, handshake, after, index),
        index is Err,
    ensures
        after == before,
        index->Err_0.spec_kind() == ErrorKind::Connection,
{
}

/// Two connects in a row give handles to different slots, and a command on
/// either handle goes to the connection that was opened for it.
pub proof fn law_successive_connects_are_distinct(
    before: Registry,
    first_dial: DialView,
    first_handshake: Handshake,
    between: Registry,
    first: usize,
    second_dial: DialView,
    second_handshake: Handshake,
    after: Registry,
    second: usize,
    raw: Seq<char>,
)
    requires
        before.connects(first_dial, first_handshake, between, Ok(first)),
        between.connects(second_dial, second_handshake, after, Ok(second)),
    ensures
        first != second,
        after.command(first, raw) matches Ok(exchange) && exchange.link == before.serial,
        after.command(second, raw) matches Ok(exchange) && exchange.link == between.serial,
        before.serial != between.serial,
{
}

/// In a well-formed registry, commands on handles to different live slots
/// go to different connections.
pub proof fn law_distinct_handles_route_apart(
    registry: Registry,
    first: usize,
    second: usize,
    raw: Seq<char>,
)
    requires
        registry.wf(),
        registry.slots.contains_key(first),
        registry.slots.contains_key(second),
        first != second,
    ensures
        registry.command(first, raw) is Ok,
        registry.command(second, raw) is Ok,
        registry.command(first, raw)->Ok_0.link != registry.command(second, raw)->Ok_0.link,
{
    assert(registry.slots[first].spec_link() != registry.slots[second].spec_link());
}

/// The connect that follows the disconnect of a live handle takes the same
/// slot. A command on the old handle then goes to the new transport, whose
/// link number no earlier transport had.
pub proof fn law_reused_slot_routes_to_new_occupant(
    before: Registry,
    index: usize,
    dial: DialView,
    handshake: Handshake,
    after: Registry,
    issued: usize,
    raw: Seq<char>,
)
    requires
        before.wf(),
        before.slots.contains_key(index),
        before.disconnect(index).connects(dial, handshake, after, Ok(issued)),
    ensures
        issued == index,
        after.command(index, raw) == Ok::<ExchangeView, SkippyError>(
            ExchangeView { link: before.serial, request: framed(raw) },
        ),
        before.slots[index].spec_link() != before.serial,
{
}

/// Disconnecting a handle whose slot is vacant changes nothing, so a second
/// disconnect of the same handle changes nothing either.
pub proof fn law_disconnect_is_idempotent(before: Registry, index: usize)
    ensures
        !before.slots.contains_key(index) ==> before.disconnect(index) == before,
        before.disconnect(index).disconnect(index) == before.disconnect(index),
{
    if !before.slots.contains_key(index) {
        assert(before.disconnect(index) =~= before);
    }
    assert(before.disconnect(index).disconnect(index) =~= before.disconnect(index));
}

} // verus!
