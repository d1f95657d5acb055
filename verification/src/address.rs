//! Bitcoin addresses read from strings, taken as checked without a network
//! check.

use core::str::FromStr;

use vstd::prelude::*;

use bitcoin::address::NetworkUnchecked;
use bitcoin::Address;

verus! {

/// A bitcoin address, held as an opaque value: no contract looks into it.
#[verifier::external_body]
pub struct BitcoinAddress {
    pub inner: Address,
}

/// A bitcoin address taken as checked without a network check, with the text
/// that bitcoin displays for it.
pub struct UncheckedAddress {
    address: BitcoinAddress,
    text: String,
}

impl UncheckedAddress {
    /// The text that bitcoin displays for the address.
    pub closed spec fn spec_text(&self) -> Seq<char> {
        self.text@
    }

    /// Returns the text that bitcoin displays for the address.
    pub fn text(&self) -> (text: &String)
        ensures
            text@ == self.spec_text(),
    {
        &self.text
    }

    /// Returns the address.
    pub fn address(self) -> BitcoinAddress {
        self.address
    }
}

/// Whether bitcoin's `Address::<NetworkUnchecked>::from_str` accepts the
/// string.
pub uninterp spec fn address_parses(s: Seq<char>) -> bool;

/// The text that bitcoin displays (`to_string`) for the address that
/// `Address::<NetworkUnchecked>::from_str` reads from the string, taken as
/// checked.
pub uninterp spec fn parsed_address_text(s: Seq<char>) -> Seq<char>;

/// Calls bitcoin's `Address::<NetworkUnchecked>::from_str` and, on success,
/// `assume_checked` and `to_string`. The contract claims that the result is
/// present exactly when the string parses, and that it holds the parsed
/// address with its displayed text.
#[verifier::external_body]
pub fn parse_address_unchecked(s: &str) -> (res: Option<UncheckedAddress>)
    ensures
        res is Some <==> address_parses(s@),
        res matches Some(a) ==> a.spec_text() == parsed_address_text(s@),
{
    match Address::<NetworkUnchecked>::from_str(s) {
        Ok(unchecked) => {
            let checked = unchecked.assume_checked();
            let text = checked.to_string();
            Some(UncheckedAddress { address: BitcoinAddress { inner: checked }, text })
        },
        Err(_) => None,
    }
}

/// Why a string could not be read as an address.
#[derive(Clone, Debug, PartialEq, Eq)]
pub enum AddressError {
    /// The string is not an address that bitcoin parses.
    InvalidAddress,
}

/// Reads an address from a string, without a network check.
pub fn address_from_str(s: &str) -> (res: Result<UncheckedAddress, AddressError>)
    ensures
        res is Ok <==> address_parses(s@),
        res matches Ok(a) ==> a.spec_text() == parsed_address_text(s@),
        res matches Err(e) ==> e == AddressError::InvalidAddress,
{
    match parse_address_unchecked(s) {
        Some(address) => Ok(address),
        None => Err(AddressError::InvalidAddress),
    }
}

} // verus!
