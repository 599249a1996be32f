//! The surface of the RPC layer that generated service code is written
//! against. Its dispatch lives outside this library; these are the names and
//! shapes it uses.
use std::marker::PhantomData;
use vstd::prelude::*;

verus! {

/// The context of one call on the server side.
pub struct RpcContext {}

/// A client's channel to a server.
pub struct Channel {}

/// The shape of a method's calls.
#[derive(Clone, Copy, Debug, PartialEq, Eq, Structural)]
pub enum MethodType {
    Unary,
}

/// Options of one call.
pub struct CallOption {}

/// A set of methods served together.
pub struct Service {}

/// The client side of a service.
pub struct Client {}

/// Why a call failed.
#[derive(Clone, Copy, Debug, PartialEq, Eq, Structural)]
pub enum Error {
    /// No decoder is available for the message type.
    Horse,
}

pub type Result<T> = core::result::Result<T, Error>;

/// Writes a message into `buf`. Nothing is written yet: `buf` is unchanged.
pub fn pb_ser<T>(_msg: &T, buf: &mut Vec<u8>)
    ensures
        final(buf)@ == old(buf)@,
{
}

/// Reads a message from `bytes`. No decoder exists yet, so every input fails.
pub fn pb_de<T>(_bytes: &[u8]) -> (r: Result<T>)
    ensures
        r is Err && r->Err_0 == Error::Horse,
{
    Err(Error::Horse)
}

/// Where a server sends the response of a unary call.
pub struct UnarySink<T> {
    dummy: PhantomData<T>,
}

/// Where a client receives the response of a unary call.
pub struct ClientUnaryReceiver<T> {
    dummy: PhantomData<T>,
}

} // verus!
