//! World-protocol frames as they cross the proxy, after header decryption.
use vstd::prelude::*;

verus! {

/// A client-to-server world packet.
#[derive(Clone, Debug)]
pub struct ClientFrame {
    pub opcode: u32,
    pub body: Vec<u8>,
}

/// A server-to-client world packet.
#[derive(Clone, Debug)]
pub struct ServerFrame {
    pub opcode: u16,
    pub body: Vec<u8>,
}

/// The body length of a client frame whose header announces `size` bytes (opcode included);
/// `None` where the size cannot even hold the four-byte opcode.
pub fn client_body_len(size: u16) -> (r: Option<usize>)
    ensures
        size < 4 <==> r is None,
        r matches Some(n) ==> n == size - 4,
{
    if size < 4 {
        None
    } else {
        Some((size - 4) as usize)
    }
}

/// The body length of a server frame whose header announces `size` bytes (opcode included);
/// `None` where the size cannot even hold the two-byte opcode.
pub fn server_body_len(size: u32) -> (r: Option<usize>)
    ensures
        size < 2 <==> r is None,
        r matches Some(n) ==> n == size - 2,
{
    if size < 2 {
        None
    } else {
        Some((size - 2) as usize)
    }
}

} // verus!
