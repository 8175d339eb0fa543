//! What the service takes from its environment.
use crate::text::{blank, law_trimming_ignores_padding, trim, trimmed, white_space};
use vstd::prelude::*;

verus! {

/// Environment variable that holds the lamp's address.
pub const DEVICE_ADDRESS_ENV: &'static str = "GARAGE_BEAM_DEVICE_ADDRESS";

/// The lamp's address is not configured.
#[derive(Debug, Clone, Copy, PartialEq, Eq, Structural)]
pub struct MissingAddress;

impl MissingAddress {
    /// The message that goes with the error.
    pub fn message(&self) -> (message: String)
        ensures
            message@ == DEVICE_ADDRESS_ENV@ + " must be set to the lamp peripheral address"@,
    {
        DEVICE_ADDRESS_ENV.to_owned().concat(" must be set to the lamp peripheral address")
    }
}

/// The address that a value configures, if it configures one.
pub open spec fn configured(value: Option<Seq<char>>) -> Option<Seq<char>> {
    match value {
        Some(raw) => if trimmed(raw).len() > 0 {
            Some(trimmed(raw))
        } else {
            None
        },
        None => None,
    }
}

/// The lamp's address, without the white space around it. There is no default: a
/// value that is missing or blank is an error.
pub fn address_from(value: Option<&str>) -> (address: Result<String, MissingAddress>)
    ensures
        match address {
            Ok(address) => value is Some && trimmed(value->0@).len() > 0 && address@ == trimmed(
                value->0@,
            ),
            Err(_) => value is None || trimmed(value->0@).len() == 0,
        },
        (match address {
            Ok(address) => Some(address@),
            Err(_) => None,
        }) == configured(
            match value {
                Some(raw) => Some(raw@),
                None => None,
            },
        ),
{
    match value {
        None => Err(MissingAddress),
        Some(raw) => {
            let address = trim(raw);
            if address.unicode_len() == 0 {
                Err(MissingAddress)
            } else {
                Ok(address.to_owned())
            }
        },
    }
}

/// The log filter that applies unless the operator sets another: this service's own
/// events, and everyone's warnings.
pub fn default_filter() -> (filter: &'static str)
    ensures
        filter@ == "garage_beam=info,warn"@,
{
    "garage_beam=info,warn"
}

/// Whatever stands between white space is taken as it is, whatever its length and
/// characters; white space alone, and nothing at all, configure no address.
pub proof fn law_address_is_what_stands_between_white_space(
    before: Seq<char>,
    address: Seq<char>,
    after: Seq<char>,
)
    requires
        blank(before),
        blank(after),
    ensures
        address.len() > 0 && !white_space(address[0]) && !white_space(address.last())
            ==> configured(Some(before + address + after)) == Some(address),
        configured(Some(before)) is None,
        configured(None) is None,
{
    law_trimming_ignores_padding(before, address, after);
    law_trimming_ignores_padding(before, Seq::<char>::empty(), Seq::<char>::empty());
    assert(before + Seq::<char>::empty() + Seq::<char>::empty() =~= before);
}

} // verus!
