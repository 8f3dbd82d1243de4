//! Values computed for the GUI shell's command handlers: the greeting
//! text and the backend base URL derived from the allocated port.

use vstd::prelude::*;
use vstd::string::*;
use crate::decimal::decimal_chars;
use crate::decimal::u16_to_decimal;

verus! {

/// The greeting returned for a name.
pub fn greet(name: &str) -> (r: String)
    ensures
        r@ == "Hello, "@ + name@ + "! You've been greeted from Rust!"@,
{
    let mut s = String::from_str("Hello, ");
    s.append(name);
    s.append("! You've been greeted from Rust!");
    proof {
        assert(s@ =~= "Hello, "@ + name@ + "! You've been greeted from Rust!"@);
    }
    s
}

/// The loopback URL under which the backend serves on `port`.
pub fn backend_url(port: u16) -> (r: String)
    ensures
        r@ == "http://127.0.0.1:"@ + decimal_chars(port as nat),
{
    let mut s = String::from_str("http://127.0.0.1:");
    let digits = u16_to_decimal(port);
    s.append(digits.as_str());
    proof {
        assert(s@ =~= "http://127.0.0.1:"@ + decimal_chars(port as nat));
    }
    s
}

} // verus!
