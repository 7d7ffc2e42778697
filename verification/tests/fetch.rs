use binance_btc_bot::error::{FetchError, Field, Missing};
use binance_btc_bot::fetch::{
    get_latest_operation, status_is_success, HttpReply, CELL_MARKER, ROW_MARKER, SOURCE_URL,
};
use binance_btc_bot::snapshot::BinanceInfo;

const PAGE: &str = "<table><tr class=\"trb\"><td>800001</td><td>2024-01-02</td><td>x</td>\
    <td>1.0</td><td>y</td><td>13.3</td></tr></table>";

fn answer(status: u16, body: &str) -> HttpReply {
    HttpReply::Answer { status, body: Ok(body.to_string()) }
}

#[test]
fn the_fixed_page_and_markers() {
    assert_eq!(
        SOURCE_URL,
        "https://bitinfocharts.com/ru/bitcoin/address/34xp4vRoCGJym3xR7yCVPFHoCNxv4Twseo"
    );
    assert_eq!(ROW_MARKER, "tr.trb");
    assert_eq!(CELL_MARKER, "td");
}

#[test]
fn success_is_two_hundred_to_two_ninety_nine() {
    assert!(!status_is_success(0));
    assert!(!status_is_success(199));
    assert!(status_is_success(200));
    assert!(status_is_success(204));
    assert!(status_is_success(299));
    assert!(!status_is_success(300));
    assert!(!status_is_success(404));
    assert!(!status_is_success(500));
}

#[test]
fn no_answer_is_a_transport_error() {
    let reply = HttpReply::NoAnswer { cause: "dns error".to_string() };
    assert_eq!(get_latest_operation(reply), Err(FetchError::Transport("dns error".to_string())));
}

#[test]
fn an_error_status_is_reported_with_its_code() {
    assert_eq!(get_latest_operation(answer(404, PAGE)), Err(FetchError::HttpStatus(404)));
    assert_eq!(get_latest_operation(answer(500, "")), Err(FetchError::HttpStatus(500)));
    assert_eq!(get_latest_operation(answer(301, PAGE)), Err(FetchError::HttpStatus(301)));
    let unread = HttpReply::Answer { status: 503, body: Err("reset".to_string()) };
    assert_eq!(get_latest_operation(unread), Err(FetchError::HttpStatus(503)));
}

#[test]
fn an_unreadable_body_is_a_body_error() {
    let reply = HttpReply::Answer { status: 200, body: Err("reset by peer".to_string()) };
    assert_eq!(get_latest_operation(reply), Err(FetchError::BodyRead("reset by peer".to_string())));
}

#[test]
fn a_good_answer_gives_the_operation() {
    assert_eq!(
        get_latest_operation(answer(200, PAGE)),
        Ok(BinanceInfo::new(800001, "2024-01-02".to_string(), "1.0".to_string(), "13.3".to_string()))
    );
}

#[test]
fn a_good_answer_without_the_row_is_a_structure_error() {
    assert_eq!(
        get_latest_operation(answer(200, "<p>maintenance</p>")),
        Err(FetchError::Structure(Missing::Row))
    );
}

#[test]
fn a_good_answer_with_a_short_row_names_the_field() {
    let page = "<table><tr class=\"trb\"><td>800001</td><td>2024-01-02</td><td>x</td>\
        <td>1.0</td></tr></table>";
    assert_eq!(
        get_latest_operation(answer(200, page)),
        Err(FetchError::Structure(Missing::Cell(Field::Balance)))
    );
}

#[test]
fn a_good_answer_with_a_bad_height_is_a_parse_error() {
    let page = "<table><tr class=\"trb\"><td>n/a</td><td>2024-01-02</td><td>x</td>\
        <td>1.0</td><td>y</td><td>13.3</td></tr></table>";
    assert_eq!(get_latest_operation(answer(200, page)), Err(FetchError::Parse(Field::BlockHeight)));
}
