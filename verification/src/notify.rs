//! The message that announces a new transaction.

use crate::decimal::{decimal_string, decimal_text};
use crate::snapshot::{BinanceInfo, BinanceInfoView};
use vstd::prelude::*;

verus! {

/// What stands in the message before the block height.
pub open spec fn heading() -> Seq<char> {
    "На сайте появилась новая транзакция!\nБлок: "@
}

/// What stands between the block height and the date.
pub open spec fn date_label() -> Seq<char> {
    "\nДата: "@
}

/// What stands between the date and the amount.
pub open spec fn amount_label() -> Seq<char> {
    "\nСумма: "@
}

/// What stands between the amount and the balance.
pub open spec fn balance_label() -> Seq<char> {
    "\nТекущий баланс: "@
}

/// What stands behind the balance.
pub open spec fn currency() -> Seq<char> {
    " BTC"@
}

/// The message about `info`: the fixed template with the block height in
/// decimal and the three texts exactly as they were observed.
pub open spec fn notification_text(info: BinanceInfoView) -> Seq<char> {
    heading() + decimal_text(info.block_height) + date_label() + info.block_creation_date
        + amount_label() + info.transfer_amount + balance_label() + info.balance + currency()
}

/// Where in the message about `info` the transfer amount starts.
pub open spec fn amount_offset(info: BinanceInfoView) -> int {
    (heading().len() + decimal_text(info.block_height).len() + date_label().len()
        + info.block_creation_date.len() + amount_label().len()) as int
}

/// Where in the message about `info` the balance starts.
pub open spec fn balance_offset(info: BinanceInfoView) -> int {
    amount_offset(info) + info.transfer_amount.len() + balance_label().len()
}

/// Renders the message about `info`.
pub fn render_notification(info: &BinanceInfo) -> (text: String)
    ensures
        text@ == notification_text(info@),
{
    let height = decimal_string(info.block_height());
    let mut text = String::from_str("На сайте появилась новая транзакция!\nБлок: ");
    text.append(height.as_str());
    text.append("\nДата: ");
    text.append(info.block_creation_date());
    text.append("\nСумма: ");
    text.append(info.transfer_amount());
    text.append("\nТекущий баланс: ");
    text.append(info.balance());
    text.append(" BTC");
    text
}

/// The message holds the transfer amount and the balance character for
/// character, each at its place in the template.
pub proof fn lemma_notification_keeps_texts(info: BinanceInfoView)
    ensures
        notification_text(info).subrange(
            amount_offset(info),
            amount_offset(info) + info.transfer_amount.len(),
        ) == info.transfer_amount,
        notification_text(info).subrange(
            balance_offset(info),
            balance_offset(info) + info.balance.len(),
        ) == info.balance,
        balance_offset(info) + info.balance.len() + currency().len() == notification_text(
            info,
        ).len(),
{
    let text = notification_text(info);
    assert(text.subrange(amount_offset(info), amount_offset(info) + info.transfer_amount.len())
        =~= info.transfer_amount);
    assert(text.subrange(balance_offset(info), balance_offset(info) + info.balance.len())
        =~= info.balance);
}

} // verus!
