//! Why the latest operation could not be had.

use crate::decimal::{decimal_string, decimal_text};
use vstd::prelude::*;

verus! {

/// One of the four values that are read from the transaction row.
#[derive(Debug, Clone, Copy, PartialEq, Eq, Structural)]
pub enum Field {
    BlockHeight,
    BlockCreationDate,
    TransferAmount,
    Balance,
}

/// The part of the expected table structure that the page lacks.
#[derive(Debug, Clone, Copy, PartialEq, Eq, Structural)]
pub enum Missing {
    /// No row carries the marker of the latest transaction.
    Row,
    /// The row has no cell at the position of this field.
    Cell(Field),
    /// The cell of this field holds no text.
    Text(Field),
}

/// A failed attempt to get the latest operation. Every one of them is
/// transient to the polling loop: it reports the failure and polls again.
#[derive(Debug, PartialEq, Eq)]
pub enum FetchError {
    /// The request did not reach the site or got no answer.
    Transport(String),
    /// The site answered with a status outside 200 to 299.
    HttpStatus(u16),
    /// The answer arrived but its body could not be read.
    BodyRead(String),
    /// A marker that should find the row or its cells is no selector.
    Marker,
    /// The page does not have the expected table structure.
    Structure(Missing),
    /// The text of this field is not what the field has to hold.
    Parse(Field),
}

/// What a `FetchError` holds, as mathematical values.
pub ghost enum FetchErrorView {
    Transport(Seq<char>),
    HttpStatus(u16),
    BodyRead(Seq<char>),
    Marker,
    Structure(Missing),
    Parse(Field),
}

impl View for FetchError {
    type V = FetchErrorView;

    open spec fn view(&self) -> FetchErrorView {
        match self {
            FetchError::Transport(cause) => FetchErrorView::Transport(cause@),
            FetchError::HttpStatus(code) => FetchErrorView::HttpStatus(*code),
            FetchError::BodyRead(cause) => FetchErrorView::BodyRead(cause@),
            FetchError::Marker => FetchErrorView::Marker,
            FetchError::Structure(missing) => FetchErrorView::Structure(*missing),
            FetchError::Parse(field) => FetchErrorView::Parse(*field),
        }
    }
}

/// The name of a field in messages.
pub open spec fn field_name(field: Field) -> Seq<char> {
    match field {
        Field::BlockHeight => "block height"@,
        Field::BlockCreationDate => "block creation date"@,
        Field::TransferAmount => "transfer amount"@,
        Field::Balance => "balance"@,
    }
}

/// The message that names what the page lacks.
pub open spec fn missing_description(missing: Missing) -> Seq<char> {
    match missing {
        Missing::Row => "row not found"@,
        Missing::Cell(field) => "failed to find "@ + field_name(field) + " cell"@,
        Missing::Text(field) => "failed to find "@ + field_name(field),
    }
}

/// The human-readable cause of a failed attempt.
pub open spec fn error_description(error: FetchErrorView) -> Seq<char> {
    match error {
        FetchErrorView::Transport(cause) => "failed to reach bitinfocharts.com: "@ + cause,
        FetchErrorView::HttpStatus(code) => "fetching bitinfocharts.com failed with HTTP code: "@
            + decimal_text(code as int),
        FetchErrorView::BodyRead(cause) => "failed to read the response body: "@ + cause,
        FetchErrorView::Marker => "failed to parse the cells selector"@,
        FetchErrorView::Structure(missing) => missing_description(missing),
        FetchErrorView::Parse(field) => "failed to parse "@ + field_name(field),
    }
}

impl Field {
    /// The name of the field in messages.
    pub fn name(self) -> (name: &'static str)
        ensures
            name@ == field_name(self),
    {
        match self {
            Field::BlockHeight => "block height",
            Field::BlockCreationDate => "block creation date",
            Field::TransferAmount => "transfer amount",
            Field::Balance => "balance",
        }
    }
}

impl Missing {
    /// The message that names what the page lacks.
    pub fn describe(self) -> (message: String)
        ensures
            message@ == missing_description(self),
    {
        match self {
            Missing::Row => String::from_str("row not found"),
            Missing::Cell(field) => String::from_str("failed to find ").concat(field.name()).concat(
                " cell",
            ),
            Missing::Text(field) => String::from_str("failed to find ").concat(field.name()),
        }
    }
}

impl FetchError {
    /// The human-readable cause of the failure, for the log.
    pub fn describe(&self) -> (message: String)
        ensures
            message@ == error_description(self@),
    {
        match self {
            FetchError::Transport(cause) => String::from_str(
                "failed to reach bitinfocharts.com: ",
            ).concat(cause.as_str()),
            FetchError::HttpStatus(code) => {
                let number = decimal_string(*code as i128);
                String::from_str("fetching bitinfocharts.com failed with HTTP code: ").concat(
                    number.as_str(),
                )
            },
            FetchError::BodyRead(cause) => String::from_str(
                "failed to read the response body: ",
            ).concat(cause.as_str()),
            FetchError::Marker => String::from_str("failed to parse the cells selector"),
            FetchError::Structure(missing) => missing.describe(),
            FetchError::Parse(field) => String::from_str("failed to parse ").concat(field.name()),
        }
    }
}

} // verus!
