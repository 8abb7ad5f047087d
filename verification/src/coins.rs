//! The coin-type table: a fixed map from numeric coin-type codes (per the
//! SLIP-0044 registry) to display currency names.  An unmapped code comes
//! back unchanged, so the lookup never fails.

use vstd::prelude::*;
use vstd::string::StringExecFns;
use crate::strutil::str_eq;

verus! {

/// The display name of a coin-type code: the fixed table entry when the
/// code is mapped, the code itself otherwise.
pub open spec fn coin_name(code: Seq<char>) -> Seq<char> {
    if code == "0"@ {
        "Bitcoin"@
    } else if code == "2"@ {
        "Litecoin"@
    } else if code == "22"@ {
        "Monacoin"@
    } else if code == "60"@ {
        "Ethereum"@
    } else if code == "61"@ {
        "Ethereum Classic"@
    } else if code == "137"@ {
        "Rootstock"@
    } else if code == "144"@ {
        "Ripple"@
    } else if code == "145"@ {
        "Bitcoin Cash"@
    } else if code == "714"@ {
        "Binance"@
    } else {
        code
    }
}

/// Maps a coin-type code to its display name; an unmapped code is returned
/// unchanged.
pub fn decode_coin_type(coin_type: String) -> (r: String)
    ensures
        r@ == coin_name(coin_type@),
{
    let s = coin_type.as_str();
    if str_eq(s, "0") {
        String::from_str("Bitcoin")
    } else if str_eq(s, "2") {
        String::from_str("Litecoin")
    } else if str_eq(s, "22") {
        String::from_str("Monacoin")
    } else if str_eq(s, "60") {
        String::from_str("Ethereum")
    } else if str_eq(s, "61") {
        String::from_str("Ethereum Classic")
    } else if str_eq(s, "137") {
        String::from_str("Rootstock")
    } else if str_eq(s, "144") {
        String::from_str("Ripple")
    } else if str_eq(s, "145") {
        String::from_str("Bitcoin Cash")
    } else if str_eq(s, "714") {
        String::from_str("Binance")
    } else {
        coin_type
    }
}

} // verus!
