//! From the answer of the site to the latest operation.

use crate::error::{FetchError, FetchErrorView};
use crate::extract::{
    extract_operation, operation_in_selection, outcome_view, CellLayout,
};
use crate::markup::selected_cell_texts;
use crate::snapshot::{BinanceInfo, BinanceInfoView};
use vstd::prelude::*;

verus! {

/// The page of the watched address.
pub const SOURCE_URL: &'static str =
    "https://bitinfocharts.com/ru/bitcoin/address/34xp4vRoCGJym3xR7yCVPFHoCNxv4Twseo";

/// Seconds after which a request for the page is given up.
pub const REQUEST_TIMEOUT_SECS: u64 = 30;

/// The selector of the rows that show a transaction.
pub const ROW_MARKER: &'static str = "tr.trb";

/// The selector of the data cells of such a row.
pub const CELL_MARKER: &'static str = "td";

/// What came of one GET request, as the caller that made it reports it.
#[derive(Debug)]
pub enum HttpReply {
    /// The request failed before any status arrived.
    NoAnswer { cause: String },
    /// The site answered with `status`; `body` is the text of the answer, or
    /// why it could not be read.
    Answer { status: u16, body: Result<String, String> },
}

/// What an `HttpReply` holds, as mathematical values.
pub ghost enum HttpReplyView {
    NoAnswer { cause: Seq<char> },
    Answer { status: u16, body: Result<Seq<char>, Seq<char>> },
}

impl View for HttpReply {
    type V = HttpReplyView;

    open spec fn view(&self) -> HttpReplyView {
        match self {
            HttpReply::NoAnswer { cause } => HttpReplyView::NoAnswer { cause: cause@ },
            HttpReply::Answer { status, body } => HttpReplyView::Answer {
                status: *status,
                body: match body {
                    Ok(text) => Ok(text@),
                    Err(cause) => Err(cause@),
                },
            },
        }
    }
}

/// Whether a status stands for success: 200 to 299.
pub open spec fn is_success(status: u16) -> bool {
    200 <= status <= 299
}

/// The layout of the transaction row on the watched page.
pub open spec fn page_layout() -> CellLayout {
    CellLayout { block_height: 0, block_creation_date: 1, transfer_amount: 3, balance: 5 }
}

/// The latest operation that a reply shows. A request without an answer is a
/// transport error; a status outside 200 to 299 is reported with its code,
/// whatever the body; an unreadable body comes next; and a body that was read
/// is searched for the first transaction row.
pub open spec fn latest_operation(reply: HttpReplyView) -> Result<BinanceInfoView, FetchErrorView> {
    match reply {
        HttpReplyView::NoAnswer { cause } => Err(FetchErrorView::Transport(cause)),
        HttpReplyView::Answer { status, body } => if !is_success(status) {
            Err(FetchErrorView::HttpStatus(status))
        } else {
            match body {
                Err(cause) => Err(FetchErrorView::BodyRead(cause)),
                Ok(markup) => operation_in_selection(
                    selected_cell_texts(markup, ROW_MARKER@, CELL_MARKER@),
                    page_layout(),
                ),
            }
        },
    }
}

/// Whether `status` stands for success.
pub fn status_is_success(status: u16) -> (success: bool)
    ensures
        success == is_success(status),
{
    200 <= status && status <= 299
}

/// Reads the latest operation of the watched address from the reply to the
/// request for its page.
pub fn get_latest_operation(reply: HttpReply) -> (outcome: Result<BinanceInfo, FetchError>)
    ensures
        outcome_view(outcome) == latest_operation(reply@),
{
    match reply {
        HttpReply::NoAnswer { cause } => Err(FetchError::Transport(cause)),
        HttpReply::Answer { status, body } => {
            if !status_is_success(status) {
                return Err(FetchError::HttpStatus(status));
            }
            match body {
                Err(cause) => Err(FetchError::BodyRead(cause)),
                Ok(markup) => extract_operation(
                    markup.as_str(),
                    ROW_MARKER,
                    CELL_MARKER,
                    &CellLayout::interleaved(),
                ),
            }
        },
    }
}

} // verus!
