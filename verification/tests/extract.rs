use binance_btc_bot::error::{FetchError, Field, Missing};
use binance_btc_bot::extract::{
    extract_operation, operation_from_cells, operation_from_rows, CellLayout,
};
use binance_btc_bot::snapshot::BinanceInfo;

fn cells(texts: &[Option<&str>]) -> Vec<Vec<String>> {
    texts.iter().map(|text| text.iter().map(|text| text.to_string()).collect()).collect()
}

fn info(height: i128, date: &str, amount: &str, balance: &str) -> BinanceInfo {
    BinanceInfo::new(height, date.to_string(), amount.to_string(), balance.to_string())
}

const PAGE: &str = "<html><body><h1>Address</h1>\
    <table><tr><th>Block</th><th>Time</th></tr>\
    <tr class=\"trb\"><td><a href=\"/block/800001\">800001</a></td>\
    <td class=\"utc\">2024-01-02 10:20:30 UTC</td><td><img src=\"x.png\"></td>\
    <td><span class=\"text-success\">+1.0 BTC</span> (42,000.00 USD)</td><td></td>\
    <td>13.3</td><td>559,000 USD</td></tr>\
    <tr class=\"trb\"><td>800000</td><td>2024-01-01</td><td>-</td><td>0.5</td><td>-</td>\
    <td>12.3</td></tr></table></body></html>";

#[test]
fn layouts_hold_their_positions() {
    assert_eq!(
        CellLayout::interleaved(),
        CellLayout { block_height: 0, block_creation_date: 1, transfer_amount: 3, balance: 5 }
    );
    assert_eq!(
        CellLayout::consecutive(),
        CellLayout { block_height: 0, block_creation_date: 1, transfer_amount: 2, balance: 3 }
    );
}

#[test]
fn reads_the_interleaved_positions() {
    let row = cells(&[Some("800000"), Some("2024-01-01"), Some("a"), Some("0.5"), Some("b"), Some("12.3")]);
    assert_eq!(
        operation_from_cells(&row, &CellLayout::interleaved()),
        Ok(info(800000, "2024-01-01", "0.5", "12.3"))
    );
}

#[test]
fn reads_the_consecutive_positions() {
    let row = cells(&[Some("800000"), Some("2024-01-01"), Some("0.5"), Some("12.3")]);
    assert_eq!(
        operation_from_cells(&row, &CellLayout::consecutive()),
        Ok(info(800000, "2024-01-01", "0.5", "12.3"))
    );
}

#[test]
fn skipped_cells_need_no_text() {
    let row = cells(&[Some("1"), Some("d"), None, Some("a"), None, Some("b"), None]);
    assert_eq!(operation_from_cells(&row, &CellLayout::interleaved()), Ok(info(1, "d", "a", "b")));
}

#[test]
fn keeps_the_texts_verbatim() {
    let row = cells(&[Some("-12"), Some("  2024 "), Some(""), Some("+0.50000000 BTC"), None, Some("012.300")]);
    let seen = operation_from_cells(&row, &CellLayout::interleaved()).unwrap();
    assert_eq!(seen.block_height(), -12);
    assert_eq!(seen.block_creation_date(), "  2024 ");
    assert_eq!(seen.transfer_amount(), "+0.50000000 BTC");
    assert_eq!(seen.balance(), "012.300");
}

#[test]
fn the_first_text_of_a_cell_counts() {
    let row = vec![
        vec!["800001".to_string(), " (confirmed)".to_string()],
        vec!["2024-01-02".to_string()],
        vec!["+1.0 BTC".to_string(), " (42,000.00 USD)".to_string()],
        vec!["13.3".to_string(), "BTC".to_string(), "!".to_string()],
    ];
    assert_eq!(
        operation_from_cells(&row, &CellLayout::consecutive()),
        Ok(info(800001, "2024-01-02", "+1.0 BTC", "13.3"))
    );
}

#[test]
fn names_the_missing_cell() {
    let layout = CellLayout::interleaved();
    assert_eq!(
        operation_from_cells(&cells(&[]), &layout),
        Err(FetchError::Structure(Missing::Cell(Field::BlockHeight)))
    );
    assert_eq!(
        operation_from_cells(&cells(&[Some("1")]), &layout),
        Err(FetchError::Structure(Missing::Cell(Field::BlockCreationDate)))
    );
    assert_eq!(
        operation_from_cells(&cells(&[Some("1"), Some("d"), Some("x")]), &layout),
        Err(FetchError::Structure(Missing::Cell(Field::TransferAmount)))
    );
    assert_eq!(
        operation_from_cells(&cells(&[Some("1"), Some("d"), Some("x"), Some("a"), Some("y")]), &layout),
        Err(FetchError::Structure(Missing::Cell(Field::Balance)))
    );
}

#[test]
fn names_the_missing_text() {
    let layout = CellLayout::consecutive();
    assert_eq!(
        operation_from_cells(&cells(&[None, Some("d"), Some("a"), Some("b")]), &layout),
        Err(FetchError::Structure(Missing::Text(Field::BlockHeight)))
    );
    assert_eq!(
        operation_from_cells(&cells(&[Some("1"), None, Some("a"), Some("b")]), &layout),
        Err(FetchError::Structure(Missing::Text(Field::BlockCreationDate)))
    );
    assert_eq!(
        operation_from_cells(&cells(&[Some("1"), Some("d"), None, Some("b")]), &layout),
        Err(FetchError::Structure(Missing::Text(Field::TransferAmount)))
    );
    assert_eq!(
        operation_from_cells(&cells(&[Some("1"), Some("d"), Some("a"), None]), &layout),
        Err(FetchError::Structure(Missing::Text(Field::Balance)))
    );
}

#[test]
fn rejects_a_block_height_that_is_no_number() {
    let row = cells(&[Some("800 000"), Some("d"), Some("a"), Some("b")]);
    assert_eq!(
        operation_from_cells(&row, &CellLayout::consecutive()),
        Err(FetchError::Parse(Field::BlockHeight))
    );
}

#[test]
fn the_first_failure_decides() {
    let row = cells(&[Some("x"), None]);
    assert_eq!(
        operation_from_cells(&row, &CellLayout::consecutive()),
        Err(FetchError::Parse(Field::BlockHeight))
    );
    let row = cells(&[Some("1"), None]);
    assert_eq!(
        operation_from_cells(&row, &CellLayout::consecutive()),
        Err(FetchError::Structure(Missing::Text(Field::BlockCreationDate)))
    );
}

#[test]
fn no_row_is_row_not_found() {
    assert_eq!(
        operation_from_rows(&Vec::new(), &CellLayout::interleaved()),
        Err(FetchError::Structure(Missing::Row))
    );
}

#[test]
fn only_the_first_row_counts() {
    let rows = vec![
        cells(&[Some("2"), Some("d2"), Some("a2"), Some("b2")]),
        cells(&[Some("1"), Some("d1"), Some("a1"), Some("b1")]),
    ];
    assert_eq!(
        operation_from_rows(&rows, &CellLayout::consecutive()),
        Ok(info(2, "d2", "a2", "b2"))
    );
    let rows = vec![cells(&[Some("2"), Some("d2")]), cells(&[Some("1"), Some("d1"), Some("a1"), Some("b1")])];
    assert_eq!(
        operation_from_rows(&rows, &CellLayout::consecutive()),
        Err(FetchError::Structure(Missing::Cell(Field::TransferAmount)))
    );
}

#[test]
fn extracts_from_a_page() {
    assert_eq!(
        extract_operation(PAGE, "tr.trb", "td", &CellLayout::interleaved()),
        Ok(info(800001, "2024-01-02 10:20:30 UTC", "+1.0 BTC", "13.3"))
    );
}

#[test]
fn extracts_with_the_consecutive_layout() {
    let page = "<table><tr class=\"trb\"><td>800000</td><td>2024-01-01</td><td>0.5</td>\
        <td>12.3</td></tr></table>";
    assert_eq!(
        extract_operation(page, "tr.trb", "td", &CellLayout::consecutive()),
        Ok(info(800000, "2024-01-01", "0.5", "12.3"))
    );
    assert_eq!(
        extract_operation(page, "tr.trb", "td", &CellLayout::interleaved()),
        Err(FetchError::Structure(Missing::Cell(Field::Balance)))
    );
}

#[test]
fn a_page_without_the_row_is_row_not_found() {
    let page = "<html><body><table><tr class=\"other\"><td>1</td></tr></table></body></html>";
    assert_eq!(
        extract_operation(page, "tr.trb", "td", &CellLayout::interleaved()),
        Err(FetchError::Structure(Missing::Row))
    );
    assert_eq!(
        extract_operation("", "tr.trb", "td", &CellLayout::interleaved()),
        Err(FetchError::Structure(Missing::Row))
    );
    assert_eq!(
        extract_operation("tr.trb", "tr.trb", "td", &CellLayout::interleaved()),
        Err(FetchError::Structure(Missing::Row))
    );
}

#[test]
fn a_cell_without_text_is_named() {
    let page = "<table><tr class=\"trb\"><td>800000</td><td><b></b></td><td>0.5</td>\
        <td>12.3</td></tr></table>";
    assert_eq!(
        extract_operation(page, "tr.trb", "td", &CellLayout::consecutive()),
        Err(FetchError::Structure(Missing::Text(Field::BlockCreationDate)))
    );
}

#[test]
fn a_row_without_cells_lacks_the_first_cell() {
    let page = "<table><tr class=\"trb\"></tr><tr class=\"trb\"><td>1</td><td>d</td>\
        <td>a</td><td>b</td></tr></table>";
    assert_eq!(
        extract_operation(page, "tr.trb", "td", &CellLayout::consecutive()),
        Err(FetchError::Structure(Missing::Cell(Field::BlockHeight)))
    );
}

#[test]
fn the_first_text_may_lie_deep_in_the_cell() {
    let page = "<table><tr class=\"trb\"><td><a href=\"#\"><b>5</b></a> blocks</td>\
        <td><i></i><span>d</span>e</td><td>a<br>c</td><td><p>b</p></td></tr></table>";
    assert_eq!(
        extract_operation(page, "tr.trb", "td", &CellLayout::consecutive()),
        Ok(info(5, "d", "a", "b"))
    );
}

#[test]
fn white_space_is_text_too() {
    let page = "<table><tr class=\"trb\"><td> <a>5</a></td><td>d</td><td>a</td><td>b</td>\
        </tr></table>";
    assert_eq!(
        extract_operation(page, "tr.trb", "td", &CellLayout::consecutive()),
        Err(FetchError::Parse(Field::BlockHeight))
    );
}

#[test]
fn a_bad_marker_is_reported() {
    assert_eq!(
        extract_operation(PAGE, "tr..trb", "td", &CellLayout::interleaved()),
        Err(FetchError::Marker)
    );
    assert_eq!(
        extract_operation(PAGE, "tr.trb", "<td>", &CellLayout::interleaved()),
        Err(FetchError::Marker)
    );
}

#[test]
fn other_markers_find_other_rows() {
    let page = "<div class=\"row\"><span>7</span><span>d</span><span>a</span><span>b</span></div>";
    assert_eq!(
        extract_operation(page, "div.row", "span", &CellLayout::consecutive()),
        Ok(info(7, "d", "a", "b"))
    );
}
