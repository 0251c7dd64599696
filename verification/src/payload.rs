//! The body of a heartbeat signal, and the timestamp it carries.

use vstd::prelude::*;
use crate::protocol::DecodeError;

verus! {

/// The body of a signal as it came off the bus: the signature that the sender
/// declared, the marshalled bytes, and their byte order.
#[derive(Debug, PartialEq, Eq)]
pub struct SignalBody {
    pub signature: String,
    pub bytes: Vec<u8>,
    pub big_endian: bool,
}

/// What zvariant reads when it is asked for one unsigned 64-bit integer from
/// D-Bus data with the given signature, bytes and byte order: the integer, or
/// `None` where it reports an error.
pub uninterp spec fn unmarshalled_u64(signature: Seq<char>, bytes: Seq<u8>, big_endian: bool) -> Option<u64>;

/// The timestamp that a heartbeat body carries, or the decode error that it
/// gives rise to.
pub open spec fn timestamp_of(body: SignalBody) -> Result<u64, DecodeError> {
    match unmarshalled_u64(body.signature@, body.bytes@, body.big_endian) {
        Some(timestamp) => Ok(timestamp),
        None => Err(DecodeError),
    }
}

/// Trusted: calls `zvariant::serialized::Data::deserialize_for_dynamic_signature`
/// for a `u64`, on data in the D-Bus format that starts on an 8-byte boundary,
/// and hands back the integer, or `None` for an error.
/// `zbus::message::Body::deserialize` makes the same call on the data and the
/// signature of a message's body. Nothing is claimed of the result but that
/// it depends on the three arguments alone.
#[verifier::external_body]
fn unmarshal_u64(signature: &str, bytes: &[u8], big_endian: bool) -> (value: Option<u64>)
    ensures
        value == unmarshalled_u64(signature@, bytes@, big_endian),
{
    let endian = if big_endian { zbus::zvariant::Endian::Big } else { zbus::zvariant::Endian::Little };
    let context = zbus::zvariant::serialized::Context::new_dbus(endian, 0);
    let data = zbus::zvariant::serialized::Data::new(bytes, context);
    match data.deserialize_for_dynamic_signature::<&str, u64>(signature) {
        Ok((value, _)) => Some(value),
        Err(_) => None,
    }
}

/// Reads the timestamp out of a heartbeat body.
pub fn deserialize_heartbeat(body: &SignalBody) -> (decoded: Result<u64, DecodeError>)
    ensures
        decoded == timestamp_of(*body),
{
    match unmarshal_u64(body.signature.as_str(), body.bytes.as_slice(), body.big_endian) {
        Some(timestamp) => Ok(timestamp),
        None => Err(DecodeError),
    }
}

} // verus!
