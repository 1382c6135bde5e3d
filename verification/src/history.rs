use vstd::prelude::*;
use crate::context::{Balance, CallContextView, Timestamp};
use crate::model::MetaAdsView;

verus! {

/// One call of an operation that can change the ledger, with the call
/// context that the host supplied and the arguments.
pub enum Call {
    MakeCreative {
        ctx: CallContextView,
        name: Seq<char>,
        content: Seq<char>,
        creative_id: u64,
        nft_cid: Option<Seq<char>>,
    },
    MakeAdSpot {
        ctx: CallContextView,
        adspot_id: u64,
        price: Balance,
        name: Seq<char>,
        publisher_earn: Option<u64>,
        show_kind: Option<Seq<char>>,
    },
    DoAgreement {
        ctx: CallContextView,
        playback_id: u64,
        adspot_id: u64,
        creative_id: u64,
        start_time: Timestamp,
        end_time: Timestamp,
    },
    TransferFunds { ctx: CallContextView, playback_id: u64 },
}

impl MetaAdsView {
    /// The ledger after `call`.
    pub open spec fn step(self, call: Call) -> MetaAdsView {
        match call {
            Call::MakeCreative { ctx, name, content, creative_id, nft_cid } => {
                self.after_make_creative(ctx, name, content, creative_id, nft_cid)
            },
            Call::MakeAdSpot { ctx, adspot_id, price, name, publisher_earn, show_kind } => {
                self.after_make_adspot(ctx, adspot_id, price, name, publisher_earn, show_kind)
            },
            Call::DoAgreement { ctx, playback_id, adspot_id, creative_id, start_time, end_time } => {
                self.after_do_agreement(
                    ctx,
                    playback_id,
                    adspot_id,
                    creative_id,
                    start_time,
                    end_time,
                )
            },
            Call::TransferFunds { ctx, playback_id } => self.after_transfer_funds(ctx, playback_id),
        }
    }

    /// The amount that `call` orders out of the escrow of the agreement
    /// `playback_id`.
    pub open spec fn released(self, call: Call, playback_id: u64) -> nat {
        match call {
            Call::TransferFunds { ctx, playback_id: settled_id } => {
                if settled_id == playback_id {
                    match self.transfer_funds(ctx, playback_id) {
                        Ok(Some(transfer)) => transfer.amount as nat,
                        _ => 0,
                    }
                } else {
                    0
                }
            },
            _ => 0,
        }
    }

    /// The ledger after `calls`, made one after the other.
    pub open spec fn run(self, calls: Seq<Call>) -> MetaAdsView
        decreases calls.len(),
    {
        if calls.len() == 0 {
            self
        } else {
            self.run(calls.drop_last()).step(calls.last())
        }
    }

    /// All that `calls`, made one after the other, order out of the escrow of
    /// the agreement `playback_id`.
    pub open spec fn total_released(self, calls: Seq<Call>, playback_id: u64) -> nat
        decreases calls.len(),
    {
        if calls.len() == 0 {
            0
        } else {
            self.total_released(calls.drop_last(), playback_id) + self.run(
                calls.drop_last(),
            ).released(calls.last(), playback_id)
        }
    }

    /// Whether the agreement `playback_id` is stored and settled.
    pub open spec fn is_settled(self, playback_id: u64) -> bool {
        self.presentations.contains_key(playback_id) && self.presentations[playback_id].transfered
    }

    /// One call keeps the invariant.
    pub proof fn lemma_step_wf(self, call: Call)
        requires
            self.wf(),
        ensures
            self.step(call).wf(),
    {
        match call {
            Call::MakeCreative { ctx, name, content, creative_id, nft_cid } => {
                self.lemma_make_creative_wf(ctx, name, content, creative_id, nft_cid);
            },
            Call::MakeAdSpot { ctx, adspot_id, price, name, publisher_earn, show_kind } => {
                self.lemma_make_adspot_wf(ctx, adspot_id, price, name, publisher_earn, show_kind);
            },
            Call::DoAgreement { ctx, playback_id, adspot_id, creative_id, start_time, end_time } => {
                self.lemma_do_agreement_wf(
                    ctx,
                    playback_id,
                    adspot_id,
                    creative_id,
                    start_time,
                    end_time,
                );
            },
            Call::TransferFunds { ctx, playback_id } => {
                self.lemma_transfer_funds_wf(ctx, playback_id);
            },
        }
    }
}

} // verus!
