//! The latest transaction of the watched address, as the page showed it.

use vstd::prelude::*;

verus! {

/// One observation of the latest transaction. The three texts are kept as
/// the page displayed them; only the block height is read as a number.
#[derive(Debug)]
pub struct BinanceInfo {
    block_height: i128,
    block_creation_date: String,
    transfer_amount: String,
    balance: String,
}

/// What a `BinanceInfo` holds, as mathematical values.
pub ghost struct BinanceInfoView {
    pub block_height: int,
    pub block_creation_date: Seq<char>,
    pub transfer_amount: Seq<char>,
    pub balance: Seq<char>,
}

impl View for BinanceInfo {
    type V = BinanceInfoView;

    closed spec fn view(&self) -> BinanceInfoView {
        BinanceInfoView {
            block_height: self.block_height as int,
            block_creation_date: self.block_creation_date@,
            transfer_amount: self.transfer_amount@,
            balance: self.balance@,
        }
    }
}

impl BinanceInfo {
    /// An observation made of the four given values.
    pub fn new(
        block_height: i128,
        block_creation_date: String,
        transfer_amount: String,
        balance: String,
    ) -> (info: BinanceInfo)
        ensures
            info@ == (BinanceInfoView {
                block_height: block_height as int,
                block_creation_date: block_creation_date@,
                transfer_amount: transfer_amount@,
                balance: balance@,
            }),
    {
        BinanceInfo { block_height, block_creation_date, transfer_amount, balance }
    }

    /// The height of the block that holds the transaction.
    pub fn block_height(&self) -> (height: i128)
        ensures
            height == self@.block_height,
    {
        self.block_height
    }

    /// The creation date of that block, as displayed.
    pub fn block_creation_date(&self) -> (date: &str)
        ensures
            date@ == self@.block_creation_date,
    {
        self.block_creation_date.as_str()
    }

    /// The transferred amount, as displayed.
    pub fn transfer_amount(&self) -> (amount: &str)
        ensures
            amount@ == self@.transfer_amount,
    {
        self.transfer_amount.as_str()
    }

    /// The balance after the transaction, as displayed.
    pub fn balance(&self) -> (balance: &str)
        ensures
            balance@ == self@.balance,
    {
        self.balance.as_str()
    }
}

impl Clone for BinanceInfo {
    fn clone(&self) -> (copy: BinanceInfo)
        ensures
            copy@ == self@,
    {
        BinanceInfo {
            block_height: self.block_height,
            block_creation_date: self.block_creation_date.clone(),
            transfer_amount: self.transfer_amount.clone(),
            balance: self.balance.clone(),
        }
    }
}

impl PartialEq for BinanceInfo {
    fn eq(&self, other: &BinanceInfo) -> (same: bool) {
        self.block_height == other.block_height
            && self.block_creation_date == other.block_creation_date
            && self.transfer_amount == other.transfer_amount
            && self.balance == other.balance
    }
}

impl vstd::std_specs::cmp::PartialEqSpecImpl for BinanceInfo {
    open spec fn obeys_eq_spec() -> bool {
        true
    }

    /// Two observations are equal when all four of their values are.
    open spec fn eq_spec(&self, other: &BinanceInfo) -> bool {
        self@ == other@
    }
}

impl Eq for BinanceInfo {

}

} // verus!
