//! The handler of the requests that are made to a chain.

use std::marker::PhantomData;

use bytes::Bytes;
use vstd::prelude::*;

use crate::errors::{Error, Failure};
use crate::http::Element;

verus! {

/// The methods that a server offers, by their names: a `jsonrpc_core::IoHandler`.
#[verifier::external_body]
#[derive(Debug)]
pub struct MethodTable {
    pub io: jsonrpc_core::IoHandler,
}

/// `bytes::Bytes`: a sequence of bytes.
#[verifier::external_type_specification]
#[verifier::external_body]
pub struct ExBytes(bytes::Bytes);

/// `std::io::Error`: an error of the operating system or of the code around it.
#[verifier::external_type_specification]
#[verifier::external_body]
pub struct ExIoError(std::io::Error);

/// The names of the methods in a table.
pub uninterp spec fn method_names(table: MethodTable) -> Set<Seq<char>>;

/// The bytes that a `Bytes` holds.
pub uninterp spec fn bytes_content(bytes: Bytes) -> Seq<u8>;

/// The methods that a chain offers: none so far.
pub trait Rpc: Sized + Send + Sync + 'static {

}

/// The service behind the methods of a chain. `V` is the handle through which its
/// virtual machine is shared.
#[derive(Clone, Debug)]
pub struct ChainService<V> {
    pub vm: V,
}

impl<V> ChainService<V> {
    /// Returns the service of the machine `vm`.
    pub fn new(vm: V) -> (service: Self)
        ensures
            service.vm == vm,
    {
        ChainService { vm }
    }
}

impl<V: Send + Sync + 'static> Rpc for ChainService<V> {

}

/// Handles the requests that are made to the service `T`.
#[derive(Debug)]
pub struct ChainHandler<T> {
    pub handler: MethodTable,
    pub _marker: PhantomData<T>,
}

impl<T: Clone> Clone for ChainHandler<T> {
    fn clone(&self) -> (handler: Self)
        ensures
            handler.methods() == self.methods(),
    {
        ChainHandler { handler: self.handler.clone(), _marker: PhantomData }
    }
}

/// A request that is being handled.
#[derive(Debug, PartialEq, Eq)]
pub enum HandleRequest<'a, E> {
    /// Waits for the JSON-RPC request that the bytes encode.
    Decode { req: &'a Bytes },
    /// Waits for the response of the handler to this request.
    Respond { request: String },
    /// Has come to an end, with the body and the headers of the response.
    Finished(Result<(Bytes, Vec<Element>), Failure<E>>),
}

/// What a [`HandleRequest`] waits for.
#[derive(Debug, PartialEq, Eq)]
pub enum RequestEvent<E> {
    /// The request was decoded, or could not be decoded.
    Decoded(Result<String, E>),
    /// The handler has dealt with the request, and gave this response.
    Responded(Option<String>),
}

impl<'a, E> HandleRequest<'a, E> {
    /// The request waits for this event.
    pub open spec fn awaits(self, event: RequestEvent<E>) -> bool {
        match event {
            RequestEvent::Decoded(_) => self is Decode,
            RequestEvent::Responded(_) => self is Respond,
        }
    }

    /// An event that the request waits for takes it to `next`. A response becomes
    /// the body, without headers; that there is none is an error.
    pub open spec fn steps_to(self, event: RequestEvent<E>, next: Self) -> bool {
        match event {
            RequestEvent::Decoded(Ok(request)) => next == (Self::Respond { request }),
            RequestEvent::Decoded(Err(error)) => next == Self::Finished(
                Err(Failure::Outside(error)),
            ),
            RequestEvent::Responded(Some(response)) => {
                next matches HandleRequest::Finished(Ok((body, headers))) && bytes_content(body)
                    == vstd::utf8::encode_utf8(response@) && headers@.len() == 0
            },
            RequestEvent::Responded(None) => next == Self::Finished(
                Err(Failure::Refused(Error::Request)),
            ),
        }
    }

    /// How many events the request can still take.
    pub open spec fn steps_left(self) -> nat {
        match self {
            HandleRequest::Decode { .. } => 2,
            HandleRequest::Respond { .. } => 1,
            HandleRequest::Finished(_) => 0,
        }
    }

    /// Hands the request an event that it waits for.
    pub fn resume(self, event: RequestEvent<E>) -> (request: Self)
        requires
            self.awaits(event),
        ensures
            self.steps_to(event, request),
            request.steps_left() < self.steps_left(),
    {
        match event {
            RequestEvent::Decoded(Ok(request)) => HandleRequest::Respond { request },
            RequestEvent::Decoded(Err(error)) => HandleRequest::Finished(
                Err(Failure::Outside(error)),
            ),
            RequestEvent::Responded(Some(response)) => HandleRequest::Finished(
                Ok((bytes_from_string(response), Vec::new())),
            ),
            RequestEvent::Responded(None) => HandleRequest::Finished(
                Err(Failure::Refused(Error::Request)),
            ),
        }
    }
}

impl<T> ChainHandler<T> {
    /// The names under which the handler offers methods.
    pub open spec fn methods(self) -> Set<Seq<char>> {
        method_names(self.handler)
    }

    /// Starts to handle the request `req`.
    pub fn request<'a, E>(&self, req: &'a Bytes, _headers: &[Element]) -> (request: HandleRequest<
        'a,
        E,
    >)
        ensures
            request matches HandleRequest::Decode { req: handed } && handed == req,
    {
        HandleRequest::Decode { req }
    }
}

impl<T: Rpc> ChainHandler<T> {
    /// Returns a handler that offers the methods of `service`, of which there are
    /// none yet.
    pub fn new(service: T) -> (handler: Self)
        ensures
            handler.methods() == Set::<Seq<char>>::empty(),
    {
        let mut handler = MethodTable::new();
        handler.extend_with(service);
        ChainHandler { handler, _marker: PhantomData }
    }
}

/// An error in the form that a JSON-RPC response carries.
#[derive(Debug, PartialEq, Eq)]
pub struct RpcError {
    pub code: i64,
    pub message: String,
    pub data: Option<String>,
}

/// The code of an internal error.
pub open spec fn internal_error_code() -> int {
    -32603
}

/// Returns an internal error with the text that `e` is displayed as. That text is
/// not spelled out: for an error of the operating system it depends on the machine.
pub fn create_jsonrpc_error(e: std::io::Error) -> (error: RpcError)
    ensures
        error.code == internal_error_code(),
        vstd::string::to_string_from_display_ensures::<std::io::Error>(&e, error.message),
        error.data is None,
{
    let mut error = new_internal_error();
    error.message = e.to_string();
    error
}

/// Calls `jsonrpc_core::Error::new` with `jsonrpc_core::ErrorCode::InternalError`
/// and takes the result apart. Trusted: it has the code of an internal error, the
/// text `Internal error`, and no data.
#[verifier::external_body]
fn new_internal_error() -> (error: RpcError)
    ensures
        error.code == internal_error_code(),
        error.message@ == "Internal error"@,
        error.data is None,
{
    let error = jsonrpc_core::Error::new(jsonrpc_core::ErrorCode::InternalError);
    RpcError {
        code: error.code.code(),
        message: error.message,
        data: error.data.map(|data| data.to_string()),
    }
}

impl MethodTable {
    /// Calls `jsonrpc_core::IoHandler::new`. Trusted: the table holds no methods.
    #[verifier::external_body]
    fn new() -> (table: MethodTable)
        ensures
            method_names(table) == Set::<Seq<char>>::empty(),
    {
        MethodTable { io: jsonrpc_core::IoHandler::new() }
    }

    /// Calls `jsonrpc_core::MetaIoHandler::extend_with` on the methods that
    /// `jsonrpc_core::IoDelegate::new` holds for `service`. Trusted: such a delegate
    /// holds none, so the table keeps the methods that it had.
    #[verifier::external_body]
    fn extend_with<T: Rpc>(&mut self, service: T)
        ensures
            method_names(*final(self)) == method_names(*old(self)),
    {
        self.io.extend_with(jsonrpc_core::IoDelegate::new(std::sync::Arc::new(service)))
    }
}

impl Clone for MethodTable {
    /// Calls `clone` on a `jsonrpc_core::IoHandler`. Trusted: the copy holds the same
    /// methods.
    #[verifier::external_body]
    fn clone(&self) -> (table: MethodTable)
        ensures
            method_names(table) == method_names(*self),
    {
        MethodTable { io: self.io.clone() }
    }
}

/// Calls `bytes::Bytes::from` on a text. Trusted: the result holds the text in
/// UTF-8.
#[verifier::external_body]
fn bytes_from_string(text: String) -> (bytes: Bytes)
    ensures
        bytes_content(bytes) == vstd::utf8::encode_utf8(text@),
{
    Bytes::from(text)
}

} // verus!
