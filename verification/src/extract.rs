//! Picking the latest operation out of the cells of the transaction table.

use crate::decimal::{decimal_value, parse_decimal};
use crate::error::{FetchError, FetchErrorView, Field, Missing};
use crate::markup::{select_cell_texts, selected_cell_texts};
use crate::snapshot::{BinanceInfo, BinanceInfoView};
use vstd::prelude::*;

verus! {

/// The texts of one cell, in the order of the page. A cell may hold none.
pub type CellTexts = Seq<Seq<char>>;

/// The cells of one row, in the order of the page.
pub type RowTexts = Seq<CellTexts>;

/// At which position among the cells of the row each field stands.
#[derive(Debug, Clone, Copy, PartialEq, Eq, Structural)]
pub struct CellLayout {
    pub block_height: usize,
    pub block_creation_date: usize,
    pub transfer_amount: usize,
    pub balance: usize,
}

impl CellLayout {
    /// The layout in which a cell that is not read follows the date and
    /// another the amount: the fields stand at 0, 1, 3 and 5.
    pub fn interleaved() -> (layout: CellLayout)
        ensures
            layout == (CellLayout {
                block_height: 0,
                block_creation_date: 1,
                transfer_amount: 3,
                balance: 5,
            }),
    {
        CellLayout { block_height: 0, block_creation_date: 1, transfer_amount: 3, balance: 5 }
    }

    /// The layout in which the four fields are the first four cells.
    pub fn consecutive() -> (layout: CellLayout)
        ensures
            layout == (CellLayout {
                block_height: 0,
                block_creation_date: 1,
                transfer_amount: 2,
                balance: 3,
            }),
    {
        CellLayout { block_height: 0, block_creation_date: 1, transfer_amount: 2, balance: 3 }
    }

    /// The position of `field` in this layout.
    pub open spec fn position(self, field: Field) -> int {
        match field {
            Field::BlockHeight => self.block_height as int,
            Field::BlockCreationDate => self.block_creation_date as int,
            Field::TransferAmount => self.transfer_amount as int,
            Field::Balance => self.balance as int,
        }
    }
}

/// The text of `field` in a row: the first text of the cell at the field's
/// position. A row too short for that position lacks the cell; a cell
/// without any text lacks the text.
pub open spec fn field_text(cells: RowTexts, layout: CellLayout, field: Field) -> Result<
    Seq<char>,
    FetchErrorView,
> {
    let at = layout.position(field);
    if at >= cells.len() {
        Err(FetchErrorView::Structure(Missing::Cell(field)))
    } else {
        if cells[at].len() == 0 {
            Err(FetchErrorView::Structure(Missing::Text(field)))
        } else {
            Ok(cells[at][0])
        }
    }
}

/// The operation that a row shows. The fields are taken in the order block
/// height, date, amount, balance, and the first one that fails decides the
/// error; the block height has to be a decimal integer, the other three
/// texts are kept as they are.
pub open spec fn operation_in_row(cells: RowTexts, layout: CellLayout) -> Result<
    BinanceInfoView,
    FetchErrorView,
> {
    match field_text(cells, layout, Field::BlockHeight) {
        Err(error) => Err(error),
        Ok(height_text) => match decimal_value(height_text) {
            None => Err(FetchErrorView::Parse(Field::BlockHeight)),
            Some(height) => match field_text(cells, layout, Field::BlockCreationDate) {
                Err(error) => Err(error),
                Ok(date) => match field_text(cells, layout, Field::TransferAmount) {
                    Err(error) => Err(error),
                    Ok(amount) => match field_text(cells, layout, Field::Balance) {
                        Err(error) => Err(error),
                        Ok(balance) => Ok(
                            BinanceInfoView {
                                block_height: height as int,
                                block_creation_date: date,
                                transfer_amount: amount,
                                balance,
                            },
                        ),
                    },
                },
            },
        },
    }
}

/// The operation that the first of the matching rows shows.
pub open spec fn operation_in_rows(rows: Seq<RowTexts>, layout: CellLayout) -> Result<
    BinanceInfoView,
    FetchErrorView,
> {
    if rows.len() == 0 {
        Err(FetchErrorView::Structure(Missing::Row))
    } else {
        operation_in_row(rows[0], layout)
    }
}

/// The operation in what a page query found: the markers have to be
/// selectors, and then the rows decide.
pub open spec fn operation_in_selection(found: Option<Seq<RowTexts>>, layout: CellLayout) -> Result<
    BinanceInfoView,
    FetchErrorView,
> {
    match found {
        None => Err(FetchErrorView::Marker),
        Some(rows) => operation_in_rows(rows, layout),
    }
}

/// An outcome of the extraction, as mathematical values.
pub open spec fn outcome_view(outcome: Result<BinanceInfo, FetchError>) -> Result<
    BinanceInfoView,
    FetchErrorView,
> {
    match outcome {
        Ok(info) => Ok(info@),
        Err(error) => Err(error@),
    }
}

/// The text of `field` in the row `cells`, or what the row lacks.
fn text_of_field<'a>(cells: &'a Vec<Vec<String>>, layout: &CellLayout, field: Field) -> (text:
    Result<&'a String, FetchError>)
    ensures
        match text {
            Ok(text) => field_text(cells.deep_view(), *layout, field) == Ok::<
                Seq<char>,
                FetchErrorView,
            >(text@),
            Err(error) => field_text(cells.deep_view(), *layout, field) == Err::<
                Seq<char>,
                FetchErrorView,
            >(error@),
        },
{
    let at = match field {
        Field::BlockHeight => layout.block_height,
        Field::BlockCreationDate => layout.block_creation_date,
        Field::TransferAmount => layout.transfer_amount,
        Field::Balance => layout.balance,
    };
    if at >= cells.len() {
        return Err(FetchError::Structure(Missing::Cell(field)));
    }
    let texts = &cells[at];
    if texts.len() == 0 {
        return Err(FetchError::Structure(Missing::Text(field)));
    }
    Ok(&texts[0])
}

/// Reads the operation from the cells of the transaction row.
pub fn operation_from_cells(cells: &Vec<Vec<String>>, layout: &CellLayout) -> (outcome: Result<
    BinanceInfo,
    FetchError,
>)
    ensures
        outcome_view(outcome) == operation_in_row(cells.deep_view(), *layout),
{
    let height_text = match text_of_field(cells, layout, Field::BlockHeight) {
        Ok(text) => text,
        Err(error) => return Err(error),
    };
    let height = match parse_decimal(height_text.as_str()) {
        Some(height) => height,
        None => return Err(FetchError::Parse(Field::BlockHeight)),
    };
    let date = match text_of_field(cells, layout, Field::BlockCreationDate) {
        Ok(text) => text,
        Err(error) => return Err(error),
    };
    let amount = match text_of_field(cells, layout, Field::TransferAmount) {
        Ok(text) => text,
        Err(error) => return Err(error),
    };
    let balance = match text_of_field(cells, layout, Field::Balance) {
        Ok(text) => text,
        Err(error) => return Err(error),
    };
    Ok(BinanceInfo::new(height, date.clone(), amount.clone(), balance.clone()))
}

/// Reads the operation from the first of the rows that carry the marker.
pub fn operation_from_rows(rows: &Vec<Vec<Vec<String>>>, layout: &CellLayout) -> (outcome:
    Result<BinanceInfo, FetchError>)
    ensures
        outcome_view(outcome) == operation_in_rows(rows.deep_view(), *layout),
{
    if rows.len() == 0 {
        return Err(FetchError::Structure(Missing::Row));
    }
    operation_from_cells(&rows[0], layout)
}

/// Finds the rows of `markup` that match `row_marker`, the cells of each that
/// match `cell_marker`, and reads the operation from the first row.
pub fn extract_operation(
    markup: &str,
    row_marker: &str,
    cell_marker: &str,
    layout: &CellLayout,
) -> (outcome: Result<BinanceInfo, FetchError>)
    ensures
        outcome_view(outcome) == operation_in_selection(
            selected_cell_texts(markup@, row_marker@, cell_marker@),
            *layout,
        ),
{
    match select_cell_texts(markup, row_marker, cell_marker) {
        Err(_) => Err(FetchError::Marker),
        Ok(rows) => operation_from_rows(&rows, layout),
    }
}

} // verus!
