use vstd::prelude::*;
use crate::ad_spot::AdSpotView;
use crate::context::{Balance, CallContextView, Timestamp};
use crate::creative::CreativeView;
use crate::error::{ContractError, RecordKind};
use crate::presentation::{PresentationView, Transfer, TransferView};

verus! {

/// The ledger as a mathematical value: three maps from id to record.
#[verifier::ext_equal]
pub struct MetaAdsView {
    pub creatives: Map<u64, CreativeView>,
    pub presentations: Map<u64, PresentationView>,
    pub ad_spots: Map<u64, AdSpotView>,
}

/// The record stored under `id`, or the report that there is none of this kind.
pub open spec fn lookup<R>(records: Map<u64, R>, id: u64, kind: RecordKind) -> Result<
    R,
    ContractError,
> {
    if records.contains_key(id) {
        Ok(records[id])
    } else {
        Err(ContractError::NotFound(kind))
    }
}

/// The record stored under `id`, if there is one.
pub open spec fn find<R>(records: Map<u64, R>, id: u64) -> Option<R> {
    if records.contains_key(id) {
        Some(records[id])
    } else {
        None
    }
}

/// The result of a settlement with the transfer, if there is one, taken by its view.
pub open spec fn settlement_view(r: Result<Option<Transfer>, ContractError>) -> Result<
    Option<TransferView>,
    ContractError,
> {
    match r {
        Ok(Some(t)) => Ok(Some(t@)),
        Ok(None) => Ok(None),
        Err(e) => Err(e),
    }
}

impl MetaAdsView {
    /// The ledger without any record.
    pub open spec fn empty() -> MetaAdsView {
        MetaAdsView { creatives: Map::empty(), presentations: Map::empty(), ad_spots: Map::empty() }
    }

    /// The agreement `p` refers to a creative and an ad spot that are stored,
    /// its advertiser owns the creative, and it carries the spot's owner and
    /// terms and a deposit that covers the spot's price.
    pub open spec fn binds(self, p: PresentationView) -> bool {
        &&& self.creatives.contains_key(p.creative_id)
        &&& self.creatives[p.creative_id].owner_account_id == p.advertiser_account_id
        &&& self.ad_spots.contains_key(p.adspot_id)
        &&& self.ad_spots[p.adspot_id].owner_account_id == p.publisher_account_id
        &&& self.ad_spots[p.adspot_id].name == p.ad_spot_name
        &&& self.ad_spots[p.adspot_id].publisher_earn == p.publisher_earn
        &&& self.ad_spots[p.adspot_id].show_kind == p.show_kind
        &&& self.ad_spots[p.adspot_id].price <= p.advertiser_cost
    }

    /// The ledger's invariant: finitely many records, each well formed and
    /// stored under its own id, and each agreement bound to stored records.
    pub open spec fn wf(self) -> bool {
        &&& self.creatives.dom().finite()
        &&& self.ad_spots.dom().finite()
        &&& self.presentations.dom().finite()
        &&& forall|id: u64| #[trigger]
            self.creatives.contains_key(id) ==> self.creatives[id].creative_id == id
                && self.creatives[id].wf()
        &&& forall|id: u64| #[trigger]
            self.ad_spots.contains_key(id) ==> self.ad_spots[id].adspot_id == id
                && self.ad_spots[id].wf()
        &&& forall|id: u64| #[trigger]
            self.presentations.contains_key(id) ==> self.presentations[id].playback_id == id
                && self.presentations[id].wf() && self.binds(self.presentations[id])
    }

    /// The outcome of registering a creative for the caller of `ctx`.
    pub open spec fn make_creative(
        self,
        ctx: CallContextView,
        name: Seq<char>,
        content: Seq<char>,
        creative_id: u64,
        nft_cid: Option<Seq<char>>,
    ) -> Result<CreativeView, ContractError> {
        CreativeView::register(
            ctx,
            name,
            content,
            creative_id,
            nft_cid,
            self.creatives.contains_key(creative_id),
        )
    }

    /// The ledger after an attempt to register a creative.
    pub open spec fn after_make_creative(
        self,
        ctx: CallContextView,
        name: Seq<char>,
        content: Seq<char>,
        creative_id: u64,
        nft_cid: Option<Seq<char>>,
    ) -> MetaAdsView {
        match self.make_creative(ctx, name, content, creative_id, nft_cid) {
            Ok(creative) => MetaAdsView {
                creatives: self.creatives.insert(creative_id, creative),
                ..self
            },
            Err(_) => self,
        }
    }

    /// The outcome of registering an ad spot for the caller of `ctx`.
    pub open spec fn make_adspot(
        self,
        ctx: CallContextView,
        adspot_id: u64,
        price: Balance,
        name: Seq<char>,
        publisher_earn: Option<u64>,
        show_kind: Option<Seq<char>>,
    ) -> Result<AdSpotView, ContractError> {
        AdSpotView::register(
            ctx,
            adspot_id,
            price,
            name,
            publisher_earn,
            show_kind,
            self.ad_spots.contains_key(adspot_id),
        )
    }

    /// The ledger after an attempt to register an ad spot.
    pub open spec fn after_make_adspot(
        self,
        ctx: CallContextView,
        adspot_id: u64,
        price: Balance,
        name: Seq<char>,
        publisher_earn: Option<u64>,
        show_kind: Option<Seq<char>>,
    ) -> MetaAdsView {
        match self.make_adspot(ctx, adspot_id, price, name, publisher_earn, show_kind) {
            Ok(spot) => MetaAdsView { ad_spots: self.ad_spots.insert(adspot_id, spot), ..self },
            Err(_) => self,
        }
    }

    /// The outcome of signing an agreement for the caller of `ctx`, with the
    /// deposit attached to the call.
    pub open spec fn do_agreement(
        self,
        ctx: CallContextView,
        playback_id: u64,
        adspot_id: u64,
        creative_id: u64,
        start_time: Timestamp,
        end_time: Timestamp,
    ) -> Result<PresentationView, ContractError> {
        PresentationView::sign(
            ctx,
            playback_id,
            adspot_id,
            creative_id,
            start_time,
            end_time,
            find(self.creatives, creative_id),
            find(self.ad_spots, adspot_id),
            self.presentations.contains_key(playback_id),
        )
    }

    /// The ledger after an attempt to sign an agreement.
    pub open spec fn after_do_agreement(
        self,
        ctx: CallContextView,
        playback_id: u64,
        adspot_id: u64,
        creative_id: u64,
        start_time: Timestamp,
        end_time: Timestamp,
    ) -> MetaAdsView {
        match self.do_agreement(ctx, playback_id, adspot_id, creative_id, start_time, end_time) {
            Ok(presentation) => MetaAdsView {
                presentations: self.presentations.insert(playback_id, presentation),
                ..self
            },
            Err(_) => self,
        }
    }

    /// The outcome of settling the agreement `playback_id` at the time of
    /// `ctx`: the transfer that pays the publisher, nothing where there is no
    /// such agreement, or the guard that forbids the settlement.
    pub open spec fn transfer_funds(self, ctx: CallContextView, playback_id: u64) -> Result<
        Option<TransferView>,
        ContractError,
    > {
        PresentationView::settle_stored(ctx, playback_id, find(self.presentations, playback_id))
    }

    /// The ledger after an attempt to settle the agreement `playback_id`.
    pub open spec fn after_transfer_funds(self, ctx: CallContextView, playback_id: u64) -> MetaAdsView {
        if self.transfer_funds(ctx, playback_id) matches Ok(Some(_)) {
            MetaAdsView {
                presentations: self.presentations.insert(
                    playback_id,
                    self.presentations[playback_id].settled(),
                ),
                ..self
            }
        } else {
            self
        }
    }

    /// Registering a creative keeps the invariant.
    pub proof fn lemma_make_creative_wf(
        self,
        ctx: CallContextView,
        name: Seq<char>,
        content: Seq<char>,
        creative_id: u64,
        nft_cid: Option<Seq<char>>,
    )
        requires
            self.wf(),
        ensures
            self.after_make_creative(ctx, name, content, creative_id, nft_cid).wf(),
    {
    }

    /// Registering an ad spot keeps the invariant.
    pub proof fn lemma_make_adspot_wf(
        self,
        ctx: CallContextView,
        adspot_id: u64,
        price: Balance,
        name: Seq<char>,
        publisher_earn: Option<u64>,
        show_kind: Option<Seq<char>>,
    )
        requires
            self.wf(),
        ensures
            self.after_make_adspot(ctx, adspot_id, price, name, publisher_earn, show_kind).wf(),
    {
        AdSpotView::lemma_register_wf(
            ctx,
            adspot_id,
            price,
            name,
            publisher_earn,
            show_kind,
            self.ad_spots.contains_key(adspot_id),
        );
    }

    /// Signing an agreement keeps the invariant.
    pub proof fn lemma_do_agreement_wf(
        self,
        ctx: CallContextView,
        playback_id: u64,
        adspot_id: u64,
        creative_id: u64,
        start_time: Timestamp,
        end_time: Timestamp,
    )
        requires
            self.wf(),
        ensures
            self.after_do_agreement(
                ctx,
                playback_id,
                adspot_id,
                creative_id,
                start_time,
                end_time,
            ).wf(),
    {
    }

    /// Settling an agreement keeps the invariant.
    pub proof fn lemma_transfer_funds_wf(self, ctx: CallContextView, playback_id: u64)
        requires
            self.wf(),
        ensures
            self.after_transfer_funds(ctx, playback_id).wf(),
    {
    }
}

} // verus!
