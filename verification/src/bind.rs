//! Where the server listens.

use vstd::prelude::*;

verus! {

/// The port of the server.
pub const PORT: u16 = 3000;

/// The address to bind, as text: the first argument after the program's
/// name, or the loopback address when there is none.
pub open spec fn bind_addr_of(args: Seq<String>) -> Seq<char> {
    if args.len() > 1 {
        args[1]@
    } else {
        "127.0.0.1"@
    }
}

/// Picks the address to bind from the command line, `args[0]` being the
/// program's name. The text is handed over as it stands; whether it is an IP
/// address is for the caller to find out when it binds.
pub fn check_bind_addr_args(args: &Vec<String>) -> (addr: String)
    ensures
        addr@ == bind_addr_of(args@),
{
    if args.len() > 1 {
        args[1].clone()
    } else {
        "127.0.0.1".to_owned()
    }
}

} // verus!
