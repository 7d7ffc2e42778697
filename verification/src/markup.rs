//! The HTML query that the `scraper` crate answers: which rows of a page
//! match a selector, and which texts their cells hold.

use vstd::prelude::*;

verus! {

/// The error of `scraper::Selector::parse`. Nothing is read from it.
#[verifier::external_type_specification]
#[verifier::external_body]
pub struct ExSelectorErrorKind(scraper::error::SelectorErrorKind);

/// What `scraper` finds in `markup`, parsed as an HTML fragment, for a pair of
/// selectors. `None` when one of the two is not a selector that
/// `scraper::Selector::parse` accepts. Otherwise one entry for each element
/// that `scraper::Html::select` yields for `rows`, in the order in which it
/// yields them; the entry has one item for each element below that row that
/// `scraper::ElementRef::select` yields for `cells`, again in its order; and
/// the item holds the texts that `scraper::ElementRef::text` yields for that
/// cell, all of them and in its order.
pub uninterp spec fn selected_cell_texts(
    markup: Seq<char>,
    rows: Seq<char>,
    cells: Seq<char>,
) -> Option<Seq<Seq<Seq<Seq<char>>>>>;

/// Parses the two selectors with `scraper::Selector::parse` and `markup` with
/// `scraper::Html::parse_fragment`, then walks `Html::select` for the rows,
/// `ElementRef::select` for the cells of each row and `ElementRef::text` for
/// the texts of each cell, and copies every text. Nothing of this is proved.
/// The contract claims only that the outcome is a function of the three
/// texts: an error where a selector is refused, else the table that
/// `selected_cell_texts` names.
#[verifier::external_body]
pub(crate) fn select_cell_texts(markup: &str, rows: &str, cells: &str) -> (found: Result<
    Vec<Vec<Vec<String>>>,
    scraper::error::SelectorErrorKind,
>)
    ensures
        match found {
            Ok(table) => selected_cell_texts(markup@, rows@, cells@) == Some(table.deep_view()),
            Err(_) => selected_cell_texts(markup@, rows@, cells@) is None,
        },
{
    let rows = scraper::Selector::parse(rows)?;
    let cells = scraper::Selector::parse(cells)?;
    let page = scraper::Html::parse_fragment(markup);
    Ok(
        page.select(&rows).map(
            |row| row.select(&cells).map(|cell| cell.text().map(String::from).collect()).collect(),
        ).collect(),
    )
}

} // verus!
