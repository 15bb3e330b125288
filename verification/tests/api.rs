use bytes::Bytes;
use sui_subnet::api::chain_handlers::{
    create_jsonrpc_error, ChainHandler, ChainService, HandleRequest, RequestEvent, RpcError,
};
use sui_subnet::errors::{Error, Failure};
use sui_subnet::http::Element;

type Failed = &'static str;

fn handler() -> ChainHandler<ChainService<u8>> {
    ChainHandler::new(ChainService::new(1))
}

#[test]
fn a_service_holds_its_machine() {
    assert_eq!(ChainService::new(5u8).vm, 5);
}

#[test]
fn the_handler_offers_no_methods() {
    let request = r#"{"jsonrpc": "2.0", "method": "ping", "params": [], "id": 1}"#;
    let response = r#"{"jsonrpc":"2.0","error":{"code":-32601,"message":"Method not found"},"id":1}"#;
    let handler = handler();
    assert_eq!(handler.handler.io.handle_request_sync(request), Some(response.to_string()));
    let copy = handler.clone();
    assert_eq!(copy.handler.io.handle_request_sync(request), Some(response.to_string()));
    assert_eq!(copy.handler.io.iter().count(), 0);
}

#[test]
fn a_request_is_answered() {
    let req = Bytes::from_static(b"raw");
    let headers = [Element { key: "key".to_string(), values: vec![] }];
    let request: HandleRequest<Failed> = handler().request(&req, &headers);
    assert_eq!(request, HandleRequest::Decode { req: &req });
    let request = request.resume(RequestEvent::Decoded(Ok("decoded".to_string())));
    assert_eq!(request, HandleRequest::Respond { request: "decoded".to_string() });
    let request = request.resume(RequestEvent::Responded(Some("\u{e4}1".to_string())));
    let body = Bytes::from_static(&[0xc3, 0xa4, 0x31]);
    assert_eq!(request, HandleRequest::Finished(Ok((body, vec![]))));
}

#[test]
fn a_request_without_response_is_an_error() {
    let req = Bytes::new();
    let request: HandleRequest<Failed> = handler().request(&req, &[]);
    let request = request.resume(RequestEvent::Decoded(Ok(String::new())));
    let request = request.resume(RequestEvent::Responded(None));
    assert_eq!(request, HandleRequest::Finished(Err(Failure::Refused(Error::Request))));
}

#[test]
fn a_request_that_cannot_be_decoded_is_an_error() {
    let req = Bytes::from_static(b"raw");
    let request: HandleRequest<Failed> = handler().request(&req, &[]);
    let request = request.resume(RequestEvent::Decoded(Err("garbage")));
    assert_eq!(request, HandleRequest::Finished(Err(Failure::Outside("garbage"))));
}

#[test]
fn an_error_is_reported_as_internal() {
    let error = std::io::Error::new(std::io::ErrorKind::Other, "disk on fire");
    let expected = RpcError { code: -32603, message: "disk on fire".to_string(), data: None };
    assert_eq!(create_jsonrpc_error(error), expected);
}
