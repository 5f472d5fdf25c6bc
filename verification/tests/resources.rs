use termii_rust::common::switch::campaign::PhoneBookCreateUpdateRequest;
use termii_rust::common::switch::messaging::{Channel, MessageBulkRequest, MessageRequest, MessageType};
use termii_rust::common::switch::number::NumberMessageRequest;
use termii_rust::common::switch::sender_id::SenderIDRequest;
use termii_rust::common::switch::templates::{TemplatesData, TemplatesRequest};
use termii_rust::common::token::in_app_token::{InAppTokenMessageType, InAppTokenRequest};
use termii_rust::common::token::request::{
    RequestTokenChannel, RequestTokenMessageType, RequestTokenPinType, RequestTokenRequest,
};
use termii_rust::common::token::verify::VerifyTokenRequest;
use termii_rust::http::client::{HttpClient, Method};
use termii_rust::rest::insights::{Balance, History, Insights, Search, Status};
use termii_rust::rest::switch::{Campaign, Messaging, Number, SenderID, Switch, Templates};
use termii_rust::rest::termii::{Termii, DEFAULT_TIMEOUT};
use termii_rust::rest::token::{InAppToken, RequestToken, Token, VerifyToken};

const KEY: &str = "secret-key";

fn client() -> HttpClient {
    HttpClient::new(20).unwrap()
}

fn address(path: &str) -> String {
    format!("https://api.ng.termii.com/api/{}", path)
}

#[test]
fn balance_get_puts_the_key_in_the_query() {
    let balance = Balance::new(KEY, client());
    let request = balance.get().unwrap();
    assert_eq!(request.method, Method::Get);
    assert_eq!(request.url, address("get-balance"));
    assert_eq!(request.timeout, 20);
    assert_eq!(request.params, Some(vec![("api_key", KEY)]));
    assert_eq!(request.data, None);
}

#[test]
fn history_get_defaults_to_page_one() {
    let history = History::new(KEY, client());
    let request = history.get(None).unwrap();
    assert_eq!(request.method, Method::Get);
    assert_eq!(request.url, address("sms/inbox"));
    assert_eq!(request.params, Some(vec![("api_key", KEY), ("page", "1")]));
    assert_eq!(request.data, None);
}

#[test]
fn history_get_passes_the_page_on() {
    let history = History::new(KEY, client());
    let request = history.get(Some("4")).unwrap();
    assert_eq!(request.params, Some(vec![("api_key", KEY), ("page", "4")]));
    let request = history._get("not a number").unwrap();
    assert_eq!(request.url, address("sms/inbox"));
    assert_eq!(request.params, Some(vec![("api_key", KEY), ("page", "not a number")]));
}

#[test]
fn search_get_names_the_number() {
    let search = Search::new(KEY, client());
    let request = search.get("2348000000000").unwrap();
    assert_eq!(request.method, Method::Get);
    assert_eq!(request.url, address("check/dnd"));
    assert_eq!(request.params, Some(vec![("api_key", KEY), ("phone_number", "2348000000000")]));
    assert_eq!(request.data, None);
}

#[test]
fn status_get_names_number_and_country() {
    let status = Status::new(KEY, client());
    let request = status.get("2348000000000", "NG").unwrap();
    assert_eq!(request.method, Method::Get);
    assert_eq!(request.url, address("insight/number/query"));
    assert_eq!(
        request.params,
        Some(vec![("api_key", KEY), ("phone_number", "2348000000000"), ("country_code", "NG")])
    );
    assert_eq!(request.data, None);
}

#[test]
fn campaign_get_lists_phonebooks() {
    let campaign = Campaign::new(KEY, client());
    let request = campaign.get(Some("2")).unwrap();
    assert_eq!(request.method, Method::Get);
    assert_eq!(request.url, address("phonebooks"));
    assert_eq!(request.params, Some(vec![("api_key", KEY), ("page", "2")]));
    let request = campaign.get(None).unwrap();
    assert_eq!(request.params, Some(vec![("api_key", KEY), ("page", "1")]));
    let request = campaign._get("7").unwrap();
    assert_eq!(request.params, Some(vec![("api_key", KEY), ("page", "7")]));
}

#[test]
fn campaign_create_puts_the_key_in_the_body() {
    let campaign = Campaign::new(KEY, client());
    let payload = PhoneBookCreateUpdateRequest::new(String::from("Friends"), String::from("People I know"));
    let request = campaign.create(payload).unwrap();
    assert_eq!(request.method, Method::Post);
    assert_eq!(request.url, address("phonebooks"));
    assert_eq!(request.params, None);
    let body = request.data.unwrap();
    assert_eq!(body.api_key.as_deref(), Some(KEY));
    assert_eq!(body.phonebook_name, "Friends");
    assert_eq!(body.description, "People I know");
}

#[test]
fn campaign_update_names_the_phonebook_in_the_path() {
    let campaign = Campaign::new(KEY, client());
    let payload = PhoneBookCreateUpdateRequest::new(String::from("Friends"), String::from("Renamed"));
    let request = campaign.update("f9c28de9", payload).unwrap();
    assert_eq!(request.method, Method::Patch);
    assert_eq!(request.url, address("phonebooks/f9c28de9"));
    assert_eq!(request.params, None);
    let body = request.data.unwrap();
    assert_eq!(body.api_key.as_deref(), Some(KEY));
    assert_eq!(body.description, "Renamed");
}

#[test]
fn campaign_delete_carries_nothing() {
    let campaign = Campaign::new(KEY, client());
    let request = campaign.delete("f9c28de9").unwrap();
    assert_eq!(request.method, Method::Delete);
    assert_eq!(request.url, address("phonebooks/f9c28de9"));
    assert_eq!(request.params, None);
    assert_eq!(request.data, None);
}

#[test]
fn messaging_send_stamps_the_key() {
    let messaging = Messaging::new(KEY, client());
    let message = MessageRequest::new(
        String::from("2348000000000"),
        String::from("Org"),
        String::from("Hello"),
        MessageType::Plain,
        Channel::Dnd,
    );
    let request = messaging.send(message).unwrap();
    assert_eq!(request.method, Method::Post);
    assert_eq!(request.url, address("sms/send"));
    assert_eq!(request.params, None);
    let body = request.data.unwrap();
    assert_eq!(body.api_key.as_deref(), Some(KEY));
    assert_eq!(body.to, "2348000000000");
    assert_eq!(body.from, "Org");
    assert_eq!(body.sms, "Hello");
    assert_eq!(body.message_type, MessageType::Plain);
    assert_eq!(body.channel, Channel::Dnd);
    assert!(body.media.is_none());
}

#[test]
fn messaging_send_bulk_stamps_the_key() {
    let messaging = Messaging::new(KEY, client());
    let message = MessageBulkRequest::new(
        vec![String::from("2348000000000"), String::from("2348000000001")],
        String::from("Org"),
        String::from("Hello"),
        MessageType::Plain,
        Channel::Generic,
    );
    let request = messaging.send_bulk(message).unwrap();
    assert_eq!(request.method, Method::Post);
    assert_eq!(request.url, address("sms/send/bulk"));
    assert_eq!(request.params, None);
    let body = request.data.unwrap();
    assert_eq!(body.api_key.as_deref(), Some(KEY));
    assert_eq!(body.to, vec!["2348000000000", "2348000000001"]);
    assert_eq!(body.channel, Channel::Generic);
}

#[test]
fn number_send_stamps_the_key() {
    let number = Number::new(KEY, client());
    let message = NumberMessageRequest::new(String::from("2348000000000"), String::from("Hello"));
    let request = number.send(message).unwrap();
    assert_eq!(request.method, Method::Post);
    assert_eq!(request.url, address("sms/number/send"));
    assert_eq!(request.params, None);
    let body = request.data.unwrap();
    assert_eq!(body.api_key.as_deref(), Some(KEY));
    assert_eq!(body.to, "2348000000000");
    assert_eq!(body.sms, "Hello");
}

#[test]
fn sender_id_get_lists_sender_ids() {
    let sender_id = SenderID::new(KEY, client());
    let request = sender_id.get(None).unwrap();
    assert_eq!(request.method, Method::Get);
    assert_eq!(request.url, address("sender-id"));
    assert_eq!(request.params, Some(vec![("api_key", KEY), ("page", "1")]));
    let request = sender_id._get("3").unwrap();
    assert_eq!(request.params, Some(vec![("api_key", KEY), ("page", "3")]));
}

#[test]
fn sender_id_request_stamps_the_key() {
    let sender_id = SenderID::new(KEY, client());
    let payload =
        SenderIDRequest::new(String::from("Org"), String::from("Your code is 1234"), String::from("Org Ltd"));
    let request = sender_id.request(payload).unwrap();
    assert_eq!(request.method, Method::Post);
    assert_eq!(request.url, address("sender-id/request"));
    assert_eq!(request.params, None);
    let body = request.data.unwrap();
    assert_eq!(body.api_key.as_deref(), Some(KEY));
    assert_eq!(body.sender_id, "Org");
    assert_eq!(body.usecase, "Your code is 1234");
    assert_eq!(body.company, "Org Ltd");
}

#[test]
fn templates_send_stamps_the_key() {
    let templates = Templates::new(KEY, client());
    let data = TemplatesData::new(String::from("Shop"), String::from("1234"), String::from("10 minutes"));
    let payload = TemplatesRequest::new(
        String::from("2348000000000"),
        String::from("device"),
        String::from("template"),
        data,
    );
    let request = templates.send(payload).unwrap();
    assert_eq!(request.method, Method::Post);
    assert_eq!(request.url, address("send/templates"));
    assert_eq!(request.params, None);
    let body = request.data.unwrap();
    assert_eq!(body.api_key.as_deref(), Some(KEY));
    assert_eq!(body.phone_number, "2348000000000");
    assert_eq!(body.device_id, "device");
    assert_eq!(body.template_id, "template");
    assert_eq!(body.data.product_name, "Shop");
    assert_eq!(body.data.otp, "1234");
    assert_eq!(body.data.expiry_time, "10 minutes");
}

#[test]
fn in_app_token_send_stamps_the_key() {
    let in_app = InAppToken::new(KEY, client());
    let payload =
        InAppTokenRequest::new(String::from("2348000000000"), InAppTokenMessageType::NUMERIC, 3, 10, 6);
    let request = in_app.send(payload).unwrap();
    assert_eq!(request.method, Method::Post);
    assert_eq!(request.url, address("sms/otp/generate"));
    assert_eq!(request.params, None);
    let body = request.data.unwrap();
    assert_eq!(body.api_key.as_deref(), Some(KEY));
    assert_eq!(body.phone_number, "2348000000000");
    assert_eq!(body.pin_type, InAppTokenMessageType::NUMERIC);
    assert_eq!(body.pin_attempts, 3);
    assert_eq!(body.pin_time_to_live, 10);
    assert_eq!(body.pin_length, 6);
}

fn token_request() -> RequestTokenRequest {
    RequestTokenRequest::new(
        RequestTokenMessageType::ALPHANUMERIC,
        String::from("2348000000000"),
        String::from("Org"),
        RequestTokenChannel::Generic,
        3,
        50,
        6,
        String::from("< 1234 >"),
        String::from("Your pin is < 1234 >"),
        RequestTokenPinType::NUMERIC,
    )
}

#[test]
fn request_token_send_stamps_the_key() {
    let request_token = RequestToken::new(KEY, client());
    let request = request_token.send(token_request()).unwrap();
    assert_eq!(request.method, Method::Post);
    assert_eq!(request.url, address("sms/otp/send"));
    assert_eq!(request.params, None);
    let body = request.data.unwrap();
    assert_eq!(body.api_key.as_deref(), Some(KEY));
    assert_eq!(body.message_type, RequestTokenMessageType::ALPHANUMERIC);
    assert_eq!(body.to, "2348000000000");
    assert_eq!(body.from, "Org");
    assert_eq!(body.channel, RequestTokenChannel::Generic);
    assert_eq!(body.pin_attempts, 3);
    assert_eq!(body.pin_time_to_live, 50);
    assert_eq!(body.pin_length, 6);
    assert_eq!(body.pin_placeholder, "< 1234 >");
    assert_eq!(body.message_text, "Your pin is < 1234 >");
    assert_eq!(body.pin_type, RequestTokenPinType::NUMERIC);
}

#[test]
fn verify_token_send_stamps_the_key() {
    let verify_token = VerifyToken::new(KEY, client());
    let payload = VerifyTokenRequest::new(String::from("pin-id"), String::from("1234"));
    let request = verify_token.send(payload).unwrap();
    assert_eq!(request.method, Method::Post);
    assert_eq!(request.url, address("sms/otp/verify"));
    assert_eq!(request.params, None);
    let body = request.data.unwrap();
    assert_eq!(body.api_key.as_deref(), Some(KEY));
    assert_eq!(body.pin_id, "pin-id");
    assert_eq!(body.pin, "1234");
}

#[test]
fn key_already_on_a_body_is_replaced() {
    let number = Number::new(KEY, client());
    let mut message = NumberMessageRequest::new(String::from("2348000000000"), String::from("Hello"));
    message.api_key = Some(String::from("someone else's"));
    let request = number.send(message).unwrap();
    assert_eq!(request.data.unwrap().api_key.as_deref(), Some(KEY));
}

#[test]
fn deadline_of_the_client_is_on_every_request() {
    let slow = HttpClient::new(90).unwrap();
    assert_eq!(Balance::new(KEY, slow).get().unwrap().timeout, 90);
    assert_eq!(Campaign::new(KEY, slow).delete("x").unwrap().timeout, 90);
    let message = NumberMessageRequest::new(String::from("1"), String::from("2"));
    assert_eq!(Number::new(KEY, slow).send(message).unwrap().timeout, 90);
}

#[test]
fn facades_hand_key_and_client_to_every_part() {
    let shared = HttpClient::new(7).unwrap();
    let insights = Insights::new(KEY, shared);
    assert_eq!(insights.api_key, KEY);
    assert_eq!(insights.client.timeout(), 7);
    assert_eq!(insights.balance.get().unwrap().params, Some(vec![("api_key", KEY)]));
    assert_eq!(insights.history.get(None).unwrap().timeout, 7);
    assert_eq!(insights.search.get("1").unwrap().timeout, 7);
    assert_eq!(insights.status.get("1", "NG").unwrap().timeout, 7);

    let switch = Switch::new(KEY, shared);
    assert_eq!(switch.api_key, KEY);
    assert_eq!(switch.sender_id.get(None).unwrap().params, Some(vec![("api_key", KEY), ("page", "1")]));
    assert_eq!(switch.campaign.delete("x").unwrap().timeout, 7);
    let message = NumberMessageRequest::new(String::from("1"), String::from("2"));
    assert_eq!(switch.number.send(message).unwrap().data.unwrap().api_key.as_deref(), Some(KEY));

    let token = Token::new(KEY, shared);
    assert_eq!(token.api_key, KEY);
    let payload = VerifyTokenRequest::new(String::from("pin-id"), String::from("1234"));
    let request = token.verify_token.send(payload).unwrap();
    assert_eq!(request.timeout, 7);
    assert_eq!(request.data.unwrap().api_key.as_deref(), Some(KEY));
    assert_eq!(token.request_token.send(token_request()).unwrap().timeout, 7);
}

#[test]
fn root_client_uses_the_default_deadline() {
    assert_eq!(DEFAULT_TIMEOUT, 20);
    let termii = Termii::new(KEY);
    assert_eq!(termii.api_key, KEY);
    assert_eq!(termii.client.timeout(), 20);
    let request = termii.insights.balance.get().unwrap();
    assert_eq!(request.timeout, 20);
    assert_eq!(request.params, Some(vec![("api_key", KEY)]));
    let message = NumberMessageRequest::new(String::from("1"), String::from("2"));
    let request = termii.switch.number.send(message).unwrap();
    assert_eq!(request.timeout, 20);
    assert_eq!(request.data.unwrap().api_key.as_deref(), Some(KEY));
    let payload = VerifyTokenRequest::new(String::from("pin-id"), String::from("1234"));
    let request = termii.token.verify_token.send(payload).unwrap();
    assert_eq!(request.data.unwrap().api_key.as_deref(), Some(KEY));
}
