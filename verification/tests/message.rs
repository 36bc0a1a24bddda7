use rls::json::{parse, JsonValue, Member};
use rls::jsonrpc::{Error, Id};
use rls::server::message::send;
use rls::server::{
    Ack, ExitNotification, InitializeRequest, NoParams, NoResponse, Notification, RawMessage,
    Reply, Request, ShutdownRequest,
};
use std::marker::PhantomData;

fn raw(method: &str, id: Option<Id>, params: JsonValue) -> RawMessage {
    RawMessage { method: method.to_string(), id, params }
}

#[test]
fn object_without_method_is_no_message() {
    assert_eq!(RawMessage::parse("{\"jsonrpc\":\"2.0\",\"id\":1,\"result\":null}"), Ok(None));
    assert_eq!(RawMessage::parse("{}"), Ok(None));
    assert_eq!(RawMessage::parse("{\"id\":true,\"params\":7}"), Ok(None));
}

#[test]
fn json_that_is_no_object_is_no_message() {
    assert_eq!(RawMessage::parse("[1, 2]"), Ok(None));
    assert_eq!(RawMessage::parse("42"), Ok(None));
    assert_eq!(RawMessage::parse("\"method\""), Ok(None));
    assert_eq!(RawMessage::parse("null"), Ok(None));
}

#[test]
fn bare_params_are_an_invalid_request() {
    for params in ["\"text\"", "7", "true", "false", "-1.5"] {
        let text = format!("{{\"jsonrpc\":\"2.0\",\"method\":\"m\",\"params\":{}}}", params);
        assert_eq!(RawMessage::parse(&text), Err(Error::InvalidRequest));
    }
}

#[test]
fn method_that_is_no_string_is_an_invalid_request() {
    assert_eq!(RawMessage::parse("{\"method\": 1}"), Err(Error::InvalidRequest));
    assert_eq!(RawMessage::parse("{\"method\": null}"), Err(Error::InvalidRequest));
    assert_eq!(RawMessage::parse("{\"method\": [\"exit\"]}"), Err(Error::InvalidRequest));
}

#[test]
fn malformed_json_is_a_parse_error() {
    assert_eq!(RawMessage::parse("not json"), Err(Error::ParseError));
    assert_eq!(RawMessage::parse("{\"method\": \"exit\""), Err(Error::ParseError));
    assert_eq!(RawMessage::parse(""), Err(Error::ParseError));
}

#[test]
fn structured_params_are_kept_as_they_are() {
    let message = RawMessage::parse("{\"method\":\"m\",\"params\":{\"a\":[1,2]}}").unwrap().unwrap();
    assert_eq!(message, raw("m", None, parse("{\"a\":[1,2]}").unwrap()));
    let message = RawMessage::parse("{\"method\":\"m\",\"params\":[1,\"x\"]}").unwrap().unwrap();
    assert_eq!(message, raw("m", None, parse("[1,\"x\"]").unwrap()));
}

#[test]
fn missing_and_null_params_become_null() {
    let message = RawMessage::parse("{\"method\":\"m\"}").unwrap().unwrap();
    assert_eq!(message, raw("m", None, JsonValue::Null));
    let message = RawMessage::parse("{\"method\":\"m\",\"params\":null}").unwrap().unwrap();
    assert_eq!(message, raw("m", None, JsonValue::Null));
}

#[test]
fn id_is_read_in_every_shape() {
    let id_of = |id: &str| {
        RawMessage::parse(&format!("{{\"method\":\"m\",\"id\":{}}}", id)).unwrap().unwrap().id
    };
    assert_eq!(id_of("1"), Some(Id::Num(1)));
    assert_eq!(id_of("\"42\""), Some(Id::Str("42".to_string())));
    assert_eq!(id_of("\"abc\""), Some(Id::Str("abc".to_string())));
    assert_eq!(id_of("null"), Some(Id::Null));
    assert_eq!(id_of("true"), Some(Id::Unparseable));
    assert_eq!(id_of("-4"), Some(Id::Unparseable));
    assert_eq!(id_of("{}"), Some(Id::Unparseable));
    let message = RawMessage::parse("{\"method\":\"m\"}").unwrap().unwrap();
    assert_eq!(message.id, None);
}

#[test]
fn envelope_is_read_from_a_tree() {
    let value = JsonValue::Object(vec![
        Member { key: "params".to_string(), value: JsonValue::Array(vec![]) },
        Member { key: "method".to_string(), value: JsonValue::String("a".to_string()) },
        Member { key: "method".to_string(), value: JsonValue::String("b".to_string()) },
        Member { key: "id".to_string(), value: JsonValue::Number("5".to_string()) },
    ]);
    assert_eq!(
        RawMessage::from_json(value),
        Ok(Some(raw("a", Some(Id::Num(5)), JsonValue::Array(vec![]))))
    );
}

#[test]
fn string_id_of_digits_makes_a_request() {
    let message = raw("shutdown", Some(Id::Str("42".to_string())), JsonValue::Null);
    let request = message.parse_as_request::<ShutdownRequest>();
    assert_eq!(request, Ok(Request { id: 42, params: NoParams, _action: PhantomData }));
}

#[test]
fn string_id_without_a_number_makes_no_request() {
    let message = raw("shutdown", Some(Id::Str("abc".to_string())), JsonValue::Null);
    assert_eq!(message.parse_as_request::<ShutdownRequest>(), Err(Error::InvalidRequest));
}

#[test]
fn request_needs_an_id() {
    assert_eq!(
        raw("shutdown", None, JsonValue::Null).parse_as_request::<ShutdownRequest>(),
        Err(Error::InvalidRequest)
    );
    assert_eq!(
        raw("shutdown", Some(Id::Null), JsonValue::Null).parse_as_request::<ShutdownRequest>(),
        Err(Error::InvalidRequest)
    );
    assert_eq!(
        raw("shutdown", Some(Id::Unparseable), JsonValue::Null)
            .parse_as_request::<ShutdownRequest>(),
        Err(Error::InvalidRequest)
    );
    assert_eq!(
        raw("shutdown", Some(Id::Num(9)), JsonValue::Null).parse_as_request::<ShutdownRequest>(),
        Ok(Request { id: 9, params: NoParams, _action: PhantomData })
    );
}

#[test]
fn request_needs_parameters_that_the_action_takes() {
    let message = raw("initialize", Some(Id::Num(1)), JsonValue::Null);
    assert_eq!(message.parse_as_request::<InitializeRequest>(), Err(Error::InvalidRequest));
    let message = raw("initialize", Some(Id::Num(1)), parse("{\"rootPath\": 3}").unwrap());
    assert_eq!(message.parse_as_request::<InitializeRequest>(), Err(Error::InvalidRequest));
    let message = raw("initialize", Some(Id::Num(1)), parse("{}").unwrap());
    assert!(message.parse_as_request::<InitializeRequest>().is_ok());
}

#[test]
fn notification_takes_no_notice_of_the_id() {
    let message = raw("exit", Some(Id::Unparseable), parse("[1]").unwrap());
    assert_eq!(
        message.parse_as_notification::<ExitNotification>(),
        Ok(Notification { params: NoParams, _action: PhantomData })
    );
}

#[test]
fn request_is_written_with_version_method_and_params() {
    let request: Request<ShutdownRequest> = Request { id: 7, params: NoParams, _action: PhantomData };
    let json = request.to_json();
    assert_eq!(json.get("jsonrpc"), Some(&JsonValue::String("2.0".to_string())));
    assert_eq!(json.get("id"), Some(&JsonValue::Number("7".to_string())));
    assert_eq!(json.get("method"), Some(&JsonValue::String("shutdown".to_string())));
    assert_eq!(json.get("params"), Some(&JsonValue::Null));
    assert_eq!(
        request.to_string(),
        "{\"id\":7,\"jsonrpc\":\"2.0\",\"method\":\"shutdown\",\"params\":null}"
    );
}

#[test]
fn notification_is_written_with_version_method_and_params() {
    let notification: Notification<ExitNotification> =
        Notification { params: NoParams, _action: PhantomData };
    let json = notification.to_json();
    assert_eq!(json.get("jsonrpc"), Some(&JsonValue::String("2.0".to_string())));
    assert_eq!(json.get("id"), None);
    assert_eq!(json.get("method"), Some(&JsonValue::String("exit".to_string())));
    assert_eq!(notification.to_string(), "{\"jsonrpc\":\"2.0\",\"method\":\"exit\",\"params\":null}");
}

#[test]
fn written_request_is_read_back() {
    let request: Request<ShutdownRequest> = Request { id: 31, params: NoParams, _action: PhantomData };
    let message = RawMessage::parse(&request.to_string()).unwrap().unwrap();
    assert_eq!(message, raw("shutdown", Some(Id::Num(31)), JsonValue::Null));
    assert_eq!(message.parse_as_request::<ShutdownRequest>(), Ok(request));
}

#[test]
fn response_goes_out_under_the_id_of_its_request() {
    assert_eq!(
        send(&Ack, 5),
        Some(Reply::Success { id: 5, result: JsonValue::Object(vec![]) })
    );
    assert_eq!(send(&NoResponse, 5), None);
}

#[test]
fn replies_are_written_as_json() {
    let success = Reply::Success { id: 2, result: JsonValue::Object(vec![]) };
    assert_eq!(success.to_string(), "{\"id\":2,\"jsonrpc\":\"2.0\",\"result\":{}}");
    let failure = Reply::Failure { id: Id::Null, error: Error::ParseError };
    assert_eq!(
        failure.to_string(),
        "{\"error\":{\"code\":-32700,\"message\":\"Parse error\"},\"id\":null,\"jsonrpc\":\"2.0\"}"
    );
    let failure = Reply::Failure { id: Id::Str("a".to_string()), error: Error::InvalidRequest };
    assert_eq!(
        failure.to_string(),
        "{\"error\":{\"code\":-32600,\"message\":\"Invalid request\"},\"id\":\"a\",\"jsonrpc\":\"2.0\"}"
    );
}
