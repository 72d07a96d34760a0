use wimc_client::provider::Provider;
use wimc_client::transport::Exchange;
use wimc_client::WimcError;

use wjp::Values;

fn reply(text: &str) -> Exchange {
    Exchange::Reply(String::from(text))
}

#[test]
fn store_reply_carries_the_assigned_id() {
    let r = Provider::store(reply("{\"result\":5,\"error\":null}"));
    assert_eq!(r, Ok(5u128));
}

#[test]
fn store_reply_with_text_payload_is_an_error() {
    let r = Provider::store(reply("{\"result\":\"Hello\",\"error\":null}"));
    assert_eq!(r, Err(WimcError));
}

#[test]
fn store_reply_without_envelope_keys_is_an_error() {
    let r = Provider::store(reply("{\"value\":5}"));
    assert_eq!(r, Err(WimcError));
}

#[test]
fn echo_reply_hands_the_text_back() {
    let r = Provider::echo(reply("{\"result\":\"Hello\",\"error\":null}"));
    assert_eq!(r, Ok(String::from("Hello")));
}

#[test]
fn echo_reply_with_failure_envelope_is_an_error() {
    let r = Provider::echo(reply("{\"result\":null,\"error\":\"kind\"}"));
    assert_eq!(r, Err(WimcError));
}

#[test]
fn echo_reply_with_malformed_text_is_an_error() {
    let r = Provider::echo(reply("not an envelope"));
    assert_eq!(r, Err(WimcError));
}

#[test]
fn get_reply_hands_the_stored_text_back() {
    let r = Provider::get(reply("{\"result\":\"Hello\",\"error\":null}"));
    assert_eq!(r, Ok(String::from("Hello")));
}

#[test]
fn get_reply_with_number_payload_is_an_error() {
    let r = Provider::get(reply("{\"result\":7,\"error\":null}"));
    assert_eq!(r, Err(WimcError));
}

#[test]
fn ping_true_on_success_envelope() {
    assert!(Provider::ping(reply("{\"result\":\"Pong\",\"error\":null}")));
}

#[test]
fn ping_false_on_failure_envelope() {
    assert!(!Provider::ping(reply("{\"result\":null,\"error\":\"kind\"}")));
}

#[test]
fn ping_false_on_malformed_reply() {
    assert!(!Provider::ping(reply("Pong")));
}

#[test]
fn replies_cut_short_inside_a_literal_are_rejected() {
    assert!(!Provider::ping(reply("\"")));
    assert!(!Provider::ping(reply("{\"result")));
    assert_eq!(Provider::echo(reply("{\"result")), Err(WimcError));
    assert_eq!(Provider::store(reply("{\"result\":5,\"err")), Err(WimcError));
    assert_eq!(Provider::query(reply("{\"result\":[\"a")), Err(WimcError));
    assert_eq!(Provider::get(reply("{\"result\":\"a\\")), Err(WimcError));
}

#[test]
fn escaped_quotes_inside_a_reply_text_are_kept() {
    let r = Provider::echo(reply("{\"result\":\"a\\\"b\",\"error\":null}"));
    assert_eq!(r, Ok(String::from("a\"b")));
}

#[test]
fn ping_false_on_every_transport_failure() {
    assert!(!Provider::ping(Exchange::NoConnection));
    assert!(!Provider::ping(Exchange::SendFailed));
    assert!(!Provider::ping(Exchange::NoReply));
}

#[test]
fn every_operation_fails_when_the_server_is_down() {
    assert_eq!(Provider::store(Exchange::NoConnection), Err(WimcError));
    assert_eq!(Provider::get(Exchange::NoConnection), Err(WimcError));
    assert_eq!(Provider::echo(Exchange::NoConnection), Err(WimcError));
    assert_eq!(Provider::query(Exchange::NoConnection), Err(WimcError));
    assert!(Provider::query_raw(Exchange::NoConnection).is_err());
    assert_eq!(Provider::remove(Exchange::NoConnection), Err(WimcError));
    assert_eq!(Provider::cleanup(Exchange::NoConnection), Err(WimcError));
    assert!(!Provider::ping(Exchange::NoConnection));
}

#[test]
fn fire_and_confirm_succeeds_once_the_request_was_written() {
    assert_eq!(Provider::remove(Exchange::NoReply), Ok(()));
    assert_eq!(Provider::cleanup(Exchange::NoReply), Ok(()));
    assert_eq!(Provider::remove(Exchange::SendFailed), Err(WimcError));
    assert_eq!(Provider::cleanup(Exchange::SendFailed), Err(WimcError));
}

#[test]
fn query_reply_keeps_all_texts_in_order() {
    let r = Provider::query(reply("{\"result\":[\"a\",\"b\"],\"error\":null}"));
    assert_eq!(r, Ok(vec![String::from("a"), String::from("b")]));
}

#[test]
fn query_reply_drops_elements_that_are_no_text() {
    let r = Provider::query(reply("{\"result\":[\"a\",5,\"b\",null],\"error\":null}"));
    assert_eq!(r, Ok(vec![String::from("a"), String::from("b")]));
}

#[test]
fn query_reply_with_non_list_payload_is_an_error() {
    let r = Provider::query(reply("{\"result\":\"a\",\"error\":null}"));
    assert_eq!(r, Err(WimcError));
}

#[test]
fn query_raw_hands_the_opaque_elements_out() {
    let r = Provider::query_raw(reply("{\"result\":[\"a\",5],\"error\":null}"));
    let list = r.expect("a well-formed list reply");
    assert_eq!(list.len(), 2);
    assert_eq!(list[0].get_string(), Some(String::from("a")));
    assert_eq!(list[1].get_number(), Some(5.0));
}

#[test]
fn store_request_round_trips_through_the_wire_codec() {
    let req = Provider::store_request(Values::String(String::from("Hello")), None, vec!["Hello"]);
    let text = Provider::encode_request(&req);
    assert!(text.starts_with('{'));
    assert!(text.ends_with('}'));
    let back = <wimcm::WIMCInput as wjp::Deserialize>::deserialize_str(text.as_str())
        .expect("an encoded request parses back");
    assert_eq!(back.get_method(), &wimcm::WIMCMethods::Store);
    assert_eq!(back.get_params(), &vec![String::from("Hello")]);
    assert_eq!(back.get_payload().get_string(), Some(String::from("Hello")));
}

#[test]
fn store_request_with_expiry_adds_one_parameter() {
    let till = wbdl::Date::now_unchecked().add_year();
    let req =
        Provider::store_request(Values::String(String::from("Hello")), Some(till), vec!["Hello"]);
    let text = Provider::encode_request(&req);
    let back = <wimcm::WIMCInput as wjp::Deserialize>::deserialize_str(text.as_str())
        .expect("an encoded request parses back");
    assert_eq!(back.get_params().len(), 2);
    assert_eq!(back.get_params()[0], String::from("Hello"));
}

#[test]
fn get_request_names_the_identifier() {
    let req = Provider::get_request(42);
    let text = Provider::encode_request(&req);
    let back = <wimcm::WIMCInput as wjp::Deserialize>::deserialize_str(text.as_str())
        .expect("an encoded request parses back");
    assert_eq!(back.get_method(), &wimcm::WIMCMethods::Get);
    assert_eq!(back.get_payload().get_number(), Some(42.0));
}

#[test]
fn remove_request_names_the_identifier() {
    let req = Provider::remove_request(7);
    let text = Provider::encode_request(&req);
    let back = <wimcm::WIMCInput as wjp::Deserialize>::deserialize_str(text.as_str())
        .expect("an encoded request parses back");
    assert_eq!(back.get_method(), &wimcm::WIMCMethods::Remove);
    assert_eq!(back.get_payload().get_number(), Some(7.0));
}

#[test]
fn query_request_carries_the_tags() {
    let req = Provider::query_request(vec!["Hello"]);
    let text = Provider::encode_request(&req);
    let back = <wimcm::WIMCInput as wjp::Deserialize>::deserialize_str(text.as_str())
        .expect("an encoded request parses back");
    assert_eq!(back.get_method(), &wimcm::WIMCMethods::Query);
    assert_eq!(back.get_params(), &vec![String::from("Hello")]);
}

#[test]
fn echo_request_splits_the_message_on_spaces() {
    let req = Provider::echo_request("Hello World");
    let text = Provider::encode_request(&req);
    let back = <wimcm::WIMCInput as wjp::Deserialize>::deserialize_str(text.as_str())
        .expect("an encoded request parses back");
    assert_eq!(back.get_method(), &wimcm::WIMCMethods::Echo);
    assert_eq!(
        back.get_params(),
        &vec![String::from("Hello"), String::from("World")]
    );
}

#[test]
fn ping_and_cleanup_requests_name_their_method() {
    let ping = Provider::ping_request();
    let ping_text = Provider::encode_request(&ping);
    let ping_back = <wimcm::WIMCInput as wjp::Deserialize>::deserialize_str(ping_text.as_str())
        .expect("an encoded request parses back");
    assert_eq!(ping_back.get_method(), &wimcm::WIMCMethods::Ping);

    let cleanup = Provider::cleanup_request();
    let cleanup_text = Provider::encode_request(&cleanup);
    let cleanup_back =
        <wimcm::WIMCInput as wjp::Deserialize>::deserialize_str(cleanup_text.as_str())
            .expect("an encoded request parses back");
    assert_eq!(cleanup_back.get_method(), &wimcm::WIMCMethods::Cleanup);
}

#[test]
fn scenario_store_get_query_remove() {
    // One conforming session, replies as the server would send them:
    // store "Hello" -> id 5; get 5 -> "Hello"; query ["Hello"] -> ["Hello"];
    // remove 5 -> confirmed; a later get finds nothing.
    let id = Provider::store(reply("{\"result\":5,\"error\":null}"));
    assert_eq!(id, Ok(5u128));
    let got = Provider::get(reply("{\"result\":\"Hello\",\"error\":null}"));
    assert_eq!(got, Ok(String::from("Hello")));
    let found = Provider::query(reply("{\"result\":[\"Hello\"],\"error\":null}"));
    assert_eq!(found, Ok(vec![String::from("Hello")]));
    let removed = Provider::remove(Exchange::NoReply);
    assert_eq!(removed, Ok(()));
    let after = Provider::get(reply("{\"result\":null,\"error\":\"kind\"}"));
    assert_eq!(after, Err(WimcError));
}
