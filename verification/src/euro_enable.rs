use vstd::prelude::*;
use crate::commands::WSCommand;
use crate::euro_modify::BufferManager;
use crate::text::{concat_text, trim, trimmed};
use crate::trustline::{TrustlineStateView, TrustlineStore};

verus! {

/// What the confirm button of the trustline form decides, before anything is sent.
pub open spec fn trustline_decision(passphrase: Seq<char>, seed: Seq<char>, has_wallet: bool, reserve_covered: bool) -> Result<(Option<Seq<char>>, Option<Seq<char>>), Seq<char>> {
    let p = trimmed(passphrase);
    let s = trimmed(seed);
    if p.len() == 0 && s.len() == 0 {
        Err("Either passphrase or seed must be provided."@)
    } else if p.len() != 0 && s.len() != 0 {
        Err("Provide only one: passphrase or seed."@)
    } else if !has_wallet {
        Err("No wallet selected"@)
    } else if !reserve_covered {
        Err("Insufficient XRP balance (0.20 XRP reserve + fee required)"@)
    } else if p.len() != 0 {
        Ok((Some(p), None))
    } else {
        Ok((None, Some(s)))
    }
}

/// Checks the trustline form and builds the request that enables the EUROP trustline.
/// `reserve_covered` tells whether the XRP balance covers the 0.20 XRP reserve and the fee.
/// On a refusal the form's error is set (and stored) and no request is returned; otherwise
/// the form is left as it was and the request carries the one trimmed credential given.
pub fn validate_and_submit_transaction(
    buffer_manager: &mut BufferManager,
    wallet: Option<String>,
    reserve_covered: bool,
    storage: &mut TrustlineStore,
) -> (r: Option<WSCommand>)
    requires
        old(storage).wf(),
    ensures
        final(storage).wf(),
        final(buffer_manager).id() == old(buffer_manager).id(),
        match trustline_decision(old(buffer_manager)@.passphrase, old(buffer_manager)@.seed, wallet is Some, reserve_covered) {
            Err(msg) => r is None
                && final(buffer_manager)@ == (TrustlineStateView { error: Some(msg), ..old(buffer_manager)@ })
                && final(storage)@ == old(storage)@.insert(final(buffer_manager).id(), final(buffer_manager)@),
            Ok((p, s)) => *final(buffer_manager) == *old(buffer_manager) && final(storage)@ == old(storage)@
                && (r matches Some(c) && c.command@ == "submit_transaction"@
                && c.wallet.deep_view() == wallet.deep_view()
                && c.passphrase.deep_view() == p && c.seed.deep_view() == s
                && c.tx_type.deep_view() == Some("trustset_euro"@)
                && c.recipient is None && c.amount is None && c.bip39 is None && c.trustline_limit is None
                && c.fee is None && c.taker_pays is None && c.taker_gets is None && c.flags is None
                && c.wallet_type is None),
        },
{
    let p = trim(buffer_manager.passphrase());
    let s = trim(buffer_manager.seed());
    let p_empty = p.as_str().is_empty();
    let s_empty = s.as_str().is_empty();
    if p_empty && s_empty {
        buffer_manager.set_error(Some("Either passphrase or seed must be provided.".to_owned()), storage);
        return None;
    }
    if !p_empty && !s_empty {
        buffer_manager.set_error(Some("Provide only one: passphrase or seed.".to_owned()), storage);
        return None;
    }
    if wallet.is_none() {
        buffer_manager.set_error(Some("No wallet selected".to_owned()), storage);
        return None;
    }
    if !reserve_covered {
        buffer_manager.set_error(Some("Insufficient XRP balance (0.20 XRP reserve + fee required)".to_owned()), storage);
        return None;
    }
    let (passphrase, seed) = if !p_empty { (Some(p), None) } else { (None, Some(s)) };
    Some(WSCommand {
        command: "submit_transaction".to_owned(),
        wallet,
        recipient: None,
        amount: None,
        passphrase,
        seed,
        bip39: None,
        trustline_limit: None,
        fee: None,
        tx_type: Some("trustset_euro".to_owned()),
        taker_pays: None,
        taker_gets: None,
        flags: None,
        wallet_type: None,
    })
}

/// Records how handing the request to the backend went (`send_error` is the reason it
/// failed, if it did): on failure the form shows
/// "Failed to send command: " and the reason; on success it is marked done, its
/// credentials are emptied and its error cleared. The form is stored either way.
pub fn record_submit_result(buffer_manager: &mut BufferManager, send_error: Option<String>, storage: &mut TrustlineStore)
    requires
        old(storage).wf(),
    ensures
        final(storage).wf(),
        final(buffer_manager).id() == old(buffer_manager).id(),
        final(storage)@ == old(storage)@.insert(final(buffer_manager).id(), final(buffer_manager)@),
        send_error matches Some(e) ==> final(buffer_manager)@ == (TrustlineStateView { error: Some("Failed to send command: "@ + e@), ..old(buffer_manager)@ }),
        send_error is None ==> final(buffer_manager)@ == (TrustlineStateView {
            done: true,
            passphrase: Seq::empty(),
            seed: Seq::empty(),
            error: None,
            ..old(buffer_manager)@
        }),
{
    match &send_error {
        Some(e) => {
            let msg = concat_text("Failed to send command: ", e.as_str());
            let ghost m = msg@;
            let err = Some(msg);
            assert(err.deep_view() == Some(m));
            buffer_manager.set_error(err, storage);
        },
        None => {
            buffer_manager.set_done(true, storage);
            buffer_manager.update_passphrase("", storage);
            buffer_manager.update_seed("", storage);
            buffer_manager.set_error(None, storage);
            proof {
                reveal_strlit("");
                assert(""@ =~= Seq::<char>::empty());
            }
        },
    }
}

/// A request is only ever built with exactly one credential, and only with a wallet and
/// the reserve covered.
pub proof fn law_trustline_one_credential(passphrase: Seq<char>, seed: Seq<char>, has_wallet: bool, reserve_covered: bool)
    ensures
        trustline_decision(passphrase, seed, has_wallet, reserve_covered) matches Ok((p, s))
            ==> has_wallet && reserve_covered && (p is Some != s is Some),
{
}

/// Each credential goes into its own field: a request carries the passphrase only as the
/// trimmed passphrase that was entered, and the seed only as the trimmed seed that was
/// entered; with only a passphrase entered (and a wallet and the reserve) the request carries
/// that passphrase and no seed, and with only a seed, that seed and no passphrase.
pub proof fn law_trustline_credentials_in_place(passphrase: Seq<char>, seed: Seq<char>, has_wallet: bool, reserve_covered: bool)
    ensures
        trustline_decision(passphrase, seed, has_wallet, reserve_covered) matches Ok((p, s)) ==> {
            &&& p is Some ==> p == Some(trimmed(passphrase)) && trimmed(passphrase).len() > 0
            &&& s is Some ==> s == Some(trimmed(seed)) && trimmed(seed).len() > 0
        },
        has_wallet && reserve_covered && trimmed(passphrase).len() > 0 && trimmed(seed).len() == 0
            ==> trustline_decision(passphrase, seed, has_wallet, reserve_covered)
                == Ok::<(Option<Seq<char>>, Option<Seq<char>>), Seq<char>>((Some(trimmed(passphrase)), None)),
        has_wallet && reserve_covered && trimmed(passphrase).len() == 0 && trimmed(seed).len() > 0
            ==> trustline_decision(passphrase, seed, has_wallet, reserve_covered)
                == Ok::<(Option<Seq<char>>, Option<Seq<char>>), Seq<char>>((None, Some(trimmed(seed)))),
{
}

} // verus!
