use vstd::prelude::*;
use crate::text::byte_len;
use crate::validation::{
    amount_check, check_recipient, check_send_amount, check_spendable, insufficient_funds_text, recipient_check,
    AmountReading,
};

verus! {

/// The state of the send dialog: its step, the error shown, the recipient and amount chosen
/// so far, and the asset sent.
pub struct SignTransaction {
    pub step: u8,
    pub error: Option<String>,
    pub recipient: Option<String>,
    pub amount: Option<String>,
    pub asset: String,
}

/// The recipient step's Next button: a valid recipient entry is kept (cleaned) and the dialog
/// moves to step 2 with no error; otherwise only the error changes.
pub fn confirm_recipient(send: &mut SignTransaction, input: &str)
    requires
        byte_len(input@) <= usize::MAX,
    ensures
        final(send).asset == old(send).asset && final(send).amount == old(send).amount,
        match recipient_check(input@) {
            Ok(addr) => final(send).recipient.deep_view() == Some(addr) && final(send).step == 2
                && final(send).error is None,
            Err(e) => final(send).error.deep_view() == Some(e.spec_message()) && final(send).step == old(send).step
                && final(send).recipient == old(send).recipient,
        },
{
    match check_recipient(input) {
        Ok(addr) => {
            send.recipient = Some(addr);
            send.error = None;
            send.step = 2;
        },
        Err(e) => {
            send.error = Some(e.message());
        },
    }
}

/// The amount step's Next button. `reading` is how the trimmed entry parses, `exceeds`
/// whether it is above the balance less the reserve, `available` the balance as shown, and
/// `formatted` the amount as it is to be sent (six decimals at most). A refusal sets only the
/// error, in the order of the checks; an accepted amount is kept as `formatted`, the error is
/// cleared and the dialog moves to step 3.
pub fn confirm_amount(
    send: &mut SignTransaction,
    amount: &str,
    reading: AmountReading,
    exceeds: bool,
    available: &str,
    asset_label: &str,
    formatted: String,
)
    ensures
        final(send).asset == old(send).asset && final(send).recipient == old(send).recipient,
        match amount_check(amount@, reading) {
            Err(e) => final(send).error.deep_view() == Some(e.spec_message()) && final(send).step == old(send).step
                && final(send).amount == old(send).amount,
            Ok(()) => if exceeds {
                final(send).error.deep_view() == Some(insufficient_funds_text(old(send).asset@, available@, asset_label@))
                    && final(send).step == old(send).step && final(send).amount == old(send).amount
            } else {
                final(send).amount.deep_view() == Some(formatted@) && final(send).step == 3 && final(send).error is None
            },
        },
{
    match check_send_amount(amount, reading) {
        Err(e) => {
            send.error = Some(e.message());
        },
        Ok(()) => {
            match check_spendable(exceeds, send.asset.as_str(), available, asset_label) {
                Err(m) => {
                    send.error = Some(m);
                },
                Ok(()) => {
                    send.amount = Some(formatted);
                    send.step = 3;
                    send.error = None;
                },
            }
        },
    }
}

} // verus!
