use vstd::prelude::*;
use std::collections::HashMap;
use crate::ad_spot::AdSpot;
use crate::context::{opt_text, Balance, CallContext, Timestamp};
use crate::creative::Creative;
use crate::error::{outcome_view, ContractError, RecordKind};
use crate::model::{lookup, settlement_view, MetaAdsView};
use crate::presentation::{Presentation, Transfer};
use crate::store::{records_view, RecordStore};

verus! {

/// The ledger: every creative, ad spot and agreement, each under its id.
/// Records are added and never removed; only a settlement changes one.
pub struct MetaAdsContract {
    creatives: RecordStore<Creative>,
    presentations: RecordStore<Presentation>,
    ad_spots: RecordStore<AdSpot>,
}

impl View for MetaAdsContract {
    type V = MetaAdsView;

    closed spec fn view(&self) -> MetaAdsView {
        MetaAdsView {
            creatives: self.creatives@,
            presentations: self.presentations@,
            ad_spots: self.ad_spots@,
        }
    }
}

impl Default for MetaAdsContract {
    /// The ledger without any record.
    fn default() -> (contract: Self)
        ensures
            contract.wf(),
            contract@ == MetaAdsView::empty(),
    {
        let contract = MetaAdsContract {
            creatives: RecordStore::new(),
            presentations: RecordStore::new(),
            ad_spots: RecordStore::new(),
        };
        assert(contract@ =~= MetaAdsView::empty());
        contract
    }
}

impl MetaAdsContract {
    /// The ledger's invariant holds.
    pub open spec fn wf(&self) -> bool {
        self@.wf()
    }

    /// Sets the ledger up, once: `state_exists` says whether the host holds a
    /// ledger's state already, and then nothing is set up.
    pub fn initialize(state_exists: bool) -> (result: Result<MetaAdsContract, ContractError>)
        ensures
            state_exists <==> result == Err::<MetaAdsContract, ContractError>(
                ContractError::AlreadyInitialized,
            ),
            !state_exists <==> result is Ok,
            result matches Ok(contract) ==> contract.wf() && contract@ == MetaAdsView::empty(),
    {
        if state_exists {
            Err(ContractError::AlreadyInitialized)
        } else {
            Ok(MetaAdsContract::default())
        }
    }

    /// Registers the creative `creative_id` for the caller of `ctx` and
    /// returns the stored record.
    pub fn make_creative(
        &mut self,
        ctx: &CallContext,
        name: String,
        content: String,
        creative_id: u64,
        nft_cid: Option<String>,
    ) -> (result: Result<Creative, ContractError>)
        requires
            old(self).wf(),
        ensures
            final(self).wf(),
            outcome_view(result) == old(self)@.make_creative(
                ctx@,
                name@,
                content@,
                creative_id,
                opt_text(nft_cid),
            ),
            final(self)@ == old(self)@.after_make_creative(
                ctx@,
                name@,
                content@,
                creative_id,
                opt_text(nft_cid),
            ),
    {
        proof {
            old(self)@.lemma_make_creative_wf(ctx@, name@, content@, creative_id, opt_text(nft_cid));
        }
        let taken: bool = self.creatives.contains(creative_id);
        match Creative::register(ctx, name, content, creative_id, nft_cid, taken) {
            Ok(creative) => {
                self.creatives.insert_if_absent(creative_id, creative.clone());
                Ok(creative)
            },
            Err(e) => Err(e),
        }
    }

    /// Registers the ad spot `adspot_id` for the caller of `ctx`, priced at
    /// `price` whole units, and returns the stored record.
    pub fn make_adspot(
        &mut self,
        ctx: &CallContext,
        adspot_id: u64,
        price: Balance,
        name: String,
        publisher_earn: Option<u64>,
        show_kind: Option<String>,
    ) -> (result: Result<AdSpot, ContractError>)
        requires
            old(self).wf(),
        ensures
            final(self).wf(),
            outcome_view(result) == old(self)@.make_adspot(
                ctx@,
                adspot_id,
                price,
                name@,
                publisher_earn,
                opt_text(show_kind),
            ),
            final(self)@ == old(self)@.after_make_adspot(
                ctx@,
                adspot_id,
                price,
                name@,
                publisher_earn,
                opt_text(show_kind),
            ),
    {
        proof {
            old(self)@.lemma_make_adspot_wf(
                ctx@,
                adspot_id,
                price,
                name@,
                publisher_earn,
                opt_text(show_kind),
            );
        }
        let taken: bool = self.ad_spots.contains(adspot_id);
        match AdSpot::register(ctx, adspot_id, price, name, publisher_earn, show_kind, taken) {
            Ok(ad_spot) => {
                self.ad_spots.insert_if_absent(adspot_id, ad_spot.clone());
                Ok(ad_spot)
            },
            Err(e) => Err(e),
        }
    }

    /// Signs the agreement `playback_id` for the caller of `ctx`: the spot
    /// `adspot_id` shows the creative `creative_id` from `start_time` to
    /// `end_time`, and the deposit attached to the call goes into escrow.
    /// Returns the stored record; a refusal leaves the ledger as it was.
    pub fn do_agreement(
        &mut self,
        ctx: &CallContext,
        playback_id: u64,
        adspot_id: u64,
        creative_id: u64,
        start_time: Timestamp,
        end_time: Timestamp,
    ) -> (result: Result<Presentation, ContractError>)
        requires
            old(self).wf(),
        ensures
            final(self).wf(),
            outcome_view(result) == old(self)@.do_agreement(
                ctx@,
                playback_id,
                adspot_id,
                creative_id,
                start_time,
                end_time,
            ),
            final(self)@ == old(self)@.after_do_agreement(
                ctx@,
                playback_id,
                adspot_id,
                creative_id,
                start_time,
                end_time,
            ),
            result is Err ==> final(self)@ == old(self)@,
    {
        proof {
            old(self)@.lemma_do_agreement_wf(
                ctx@,
                playback_id,
                adspot_id,
                creative_id,
                start_time,
                end_time,
            );
        }
        let taken: bool = self.presentations.contains(playback_id);
        let signed = Presentation::sign(
            ctx,
            playback_id,
            adspot_id,
            creative_id,
            start_time,
            end_time,
            self.creatives.get(creative_id),
            self.ad_spots.get(adspot_id),
            taken,
        );
        match signed {
            Ok(presentation) => {
                self.presentations.insert_if_absent(playback_id, presentation.clone());
                Ok(presentation)
            },
            Err(e) => Err(e),
        }
    }

    /// Settles the agreement `playback_id` at the time of `ctx`, for the
    /// platform itself and for no other caller. Once the display window has
    /// closed, and only once, this marks the agreement as settled and returns
    /// the transfer that pays the publisher the deposit less the fee. Returns
    /// nothing where there is no such agreement.
    pub fn transfer_funds(&mut self, ctx: &CallContext, playback_id: u64) -> (result: Result<
        Option<Transfer>,
        ContractError,
    >)
        requires
            old(self).wf(),
        ensures
            final(self).wf(),
            settlement_view(result) == old(self)@.transfer_funds(ctx@, playback_id),
            final(self)@ == old(self)@.after_transfer_funds(ctx@, playback_id),
            !(result matches Ok(Some(_))) ==> final(self)@ == old(self)@,
    {
        proof {
            old(self)@.lemma_transfer_funds_wf(ctx@, playback_id);
        }
        let stored: Option<Presentation> = match self.presentations.get(playback_id) {
            Some(presentation) => Some(presentation.clone()),
            None => None,
        };
        match Presentation::settle_stored(ctx, playback_id, stored) {
            Ok(Some((presentation, transfer))) => {
                self.presentations.replace(playback_id, presentation);
                Ok(Some(transfer))
            },
            Ok(None) => Ok(None),
            Err(e) => Err(e),
        }
    }

    /// Every creative, by id.
    pub fn fetch_all_creatives(&self) -> (all: HashMap<u64, Creative>)
        ensures
            records_view(all@) == self@.creatives,
    {
        self.creatives.list()
    }

    /// The creative stored under `id`.
    pub fn fetch_creative_by_id(&self, id: u64) -> (result: Result<Creative, ContractError>)
        ensures
            outcome_view(result) == lookup(self@.creatives, id, RecordKind::Creative),
    {
        match self.creatives.get(id) {
            Some(creative) => Ok(creative.clone()),
            None => Err(ContractError::NotFound(RecordKind::Creative)),
        }
    }

    /// Every agreement, by id.
    pub fn fetch_all_presentations(&self) -> (all: HashMap<u64, Presentation>)
        ensures
            records_view(all@) == self@.presentations,
    {
        self.presentations.list()
    }

    /// The agreement stored under `id`.
    pub fn fetch_presentation_by_id(&self, id: u64) -> (result: Result<
        Presentation,
        ContractError,
    >)
        ensures
            outcome_view(result) == lookup(self@.presentations, id, RecordKind::Presentation),
    {
        match self.presentations.get(id) {
            Some(presentation) => Ok(presentation.clone()),
            None => Err(ContractError::NotFound(RecordKind::Presentation)),
        }
    }

    /// Every ad spot, by id.
    pub fn fetch_all_adspots(&self) -> (all: HashMap<u64, AdSpot>)
        ensures
            records_view(all@) == self@.ad_spots,
    {
        self.ad_spots.list()
    }

    /// The ad spot stored under `id`.
    pub fn fetch_adspot_by_id(&self, id: u64) -> (result: Result<AdSpot, ContractError>)
        ensures
            outcome_view(result) == lookup(self@.ad_spots, id, RecordKind::AdSpot),
    {
        match self.ad_spots.get(id) {
            Some(ad_spot) => Ok(ad_spot.clone()),
            None => Err(ContractError::NotFound(RecordKind::AdSpot)),
        }
    }
}

} // verus!
