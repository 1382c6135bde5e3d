use vstd::prelude::*;
use crate::ad_spot::{AdSpot, AdSpotView};
use crate::context::{opt_text, AccountId, Balance, CallContext, CallContextView, Timestamp};
use crate::creative::{Creative, CreativeView};
use crate::error::{outcome_view, Claim, ContractError, InputFault, RecordKind};

verus! {

/// The platform keeps one part in `FEE_DIVISOR` of every deposit, rounded down.
pub const FEE_DIVISOR: Balance = 10;

/// The agreement between an advertiser and a publisher to show one creative
/// in one ad spot during a fixed window, together with the escrowed deposit.
#[derive(Debug, PartialEq, Eq)]
pub struct Presentation {
    pub playback_id: u64,
    pub adspot_id: u64,
    pub creative_id: u64,
    /// The deposit that the advertiser attached.
    pub advertiser_cost: Balance,
    pub start_time: Timestamp,
    pub end_time: Timestamp,
    /// Whether the publisher's share has been released.
    pub transfered: bool,
    pub advertiser_account_id: AccountId,
    pub publisher_account_id: AccountId,
    /// The spot's name, publisher share and display format when the agreement was signed.
    pub ad_spot_name: String,
    pub publisher_earn: Option<u64>,
    pub show_kind: Option<String>,
    /// The platform's account, which keeps the fee.
    pub entertainment: AccountId,
    /// The part of the deposit that the platform keeps.
    pub entertainment_fee: Balance,
    /// `"signed"` until the funds are released, `"success"` afterwards.
    pub status: String,
}

/// An agreement as a mathematical value.
pub struct PresentationView {
    pub playback_id: u64,
    pub adspot_id: u64,
    pub creative_id: u64,
    pub advertiser_cost: Balance,
    pub start_time: Timestamp,
    pub end_time: Timestamp,
    pub transfered: bool,
    pub advertiser_account_id: Seq<char>,
    pub publisher_account_id: Seq<char>,
    pub ad_spot_name: Seq<char>,
    pub publisher_earn: Option<u64>,
    pub show_kind: Option<Seq<char>>,
    pub entertainment: Seq<char>,
    pub entertainment_fee: Balance,
    pub status: Seq<char>,
}

/// The order to move `amount` out of escrow to `receiver_id`.
#[derive(Debug, PartialEq, Eq)]
pub struct Transfer {
    pub receiver_id: AccountId,
    pub amount: Balance,
}

/// A transfer order as a mathematical value.
pub struct TransferView {
    pub receiver_id: Seq<char>,
    pub amount: Balance,
}

impl View for Presentation {
    type V = PresentationView;

    open spec fn view(&self) -> PresentationView {
        PresentationView {
            playback_id: self.playback_id,
            adspot_id: self.adspot_id,
            creative_id: self.creative_id,
            advertiser_cost: self.advertiser_cost,
            start_time: self.start_time,
            end_time: self.end_time,
            transfered: self.transfered,
            advertiser_account_id: self.advertiser_account_id@,
            publisher_account_id: self.publisher_account_id@,
            ad_spot_name: self.ad_spot_name@,
            publisher_earn: self.publisher_earn,
            show_kind: opt_text(self.show_kind),
            entertainment: self.entertainment@,
            entertainment_fee: self.entertainment_fee,
            status: self.status@,
        }
    }
}

impl View for Transfer {
    type V = TransferView;

    open spec fn view(&self) -> TransferView {
        TransferView { receiver_id: self.receiver_id@, amount: self.amount }
    }
}

impl Clone for Presentation {
    fn clone(&self) -> (p: Self)
        ensures
            p == *self,
    {
        Presentation {
            playback_id: self.playback_id,
            adspot_id: self.adspot_id,
            creative_id: self.creative_id,
            advertiser_cost: self.advertiser_cost,
            start_time: self.start_time,
            end_time: self.end_time,
            transfered: self.transfered,
            advertiser_account_id: self.advertiser_account_id.clone(),
            publisher_account_id: self.publisher_account_id.clone(),
            ad_spot_name: self.ad_spot_name.clone(),
            publisher_earn: self.publisher_earn,
            show_kind: self.show_kind.clone(),
            entertainment: self.entertainment.clone(),
            entertainment_fee: self.entertainment_fee,
            status: self.status.clone(),
        }
    }
}

impl Clone for Transfer {
    fn clone(&self) -> (t: Self)
        ensures
            t == *self,
    {
        Transfer { receiver_id: self.receiver_id.clone(), amount: self.amount }
    }
}

/// The status of an agreement whose funds are still in escrow.
pub open spec fn status_signed() -> Seq<char> {
    "signed"@
}

/// The status of an agreement whose funds have been released.
pub open spec fn status_success() -> Seq<char> {
    "success"@
}

/// The two statuses are different texts.
pub proof fn lemma_statuses_differ()
    ensures
        status_signed() != status_success(),
        status_signed().len() == 6,
        status_success().len() == 7,
{
    reveal_strlit("signed");
    reveal_strlit("success");
    assert(status_signed().len() == 6);
    assert(status_success().len() == 7);
}

/// The part of `deposit` that the platform keeps.
pub open spec fn platform_fee(deposit: Balance) -> Balance {
    deposit / FEE_DIVISOR
}

/// What a lookup found, taken by its view.
pub open spec fn opt_view<T: View>(o: Option<T>) -> Option<T::V> {
    match o {
        Some(t) => Some(t@),
        None => None,
    }
}

impl PresentationView {
    /// What every stored agreement satisfies: a proper window, the fixed fee,
    /// and a status that goes with the settlement flag.
    pub open spec fn wf(self) -> bool {
        &&& self.playback_id > 0
        &&& self.adspot_id > 0
        &&& self.creative_id > 0
        &&& self.start_time < self.end_time
        &&& self.entertainment_fee == platform_fee(self.advertiser_cost)
        &&& self.status == if self.transfered {
            status_success()
        } else {
            status_signed()
        }
    }

    /// What the publisher receives at settlement: the deposit less the fee.
    pub open spec fn publisher_payout(self) -> nat {
        if self.entertainment_fee <= self.advertiser_cost {
            (self.advertiser_cost - self.entertainment_fee) as nat
        } else {
            0
        }
    }

    /// The outcome of signing an agreement for the caller of `ctx`, who books
    /// the spot found as `adspot` for the creative found as `creative` with
    /// the deposit attached to the call. The first check that fails decides
    /// the error; `taken` says whether the playback id is in use already.
    pub open spec fn sign(
        ctx: CallContextView,
        playback_id: u64,
        adspot_id: u64,
        creative_id: u64,
        start_time: Timestamp,
        end_time: Timestamp,
        creative: Option<CreativeView>,
        adspot: Option<AdSpotView>,
        taken: bool,
    ) -> Result<PresentationView, ContractError> {
        if playback_id == 0 {
            Err(ContractError::InvalidInput(InputFault::PlaybackId))
        } else if adspot_id == 0 {
            Err(ContractError::InvalidInput(InputFault::AdSpotId))
        } else if creative_id == 0 {
            Err(ContractError::InvalidInput(InputFault::CreativeId))
        } else if start_time < ctx.now() {
            Err(ContractError::InvalidInput(InputFault::StartTime))
        } else if end_time <= ctx.now() {
            Err(ContractError::InvalidInput(InputFault::EndTime))
        } else if end_time <= start_time {
            Err(ContractError::InvalidInput(InputFault::TimeRange))
        } else if creative is None {
            Err(ContractError::NotFound(RecordKind::Creative))
        } else if adspot is None {
            Err(ContractError::NotFound(RecordKind::AdSpot))
        } else if ctx.attached_deposit < adspot->0.price {
            Err(
                ContractError::InsufficientDeposit {
                    attached: ctx.attached_deposit,
                    required: adspot->0.price,
                },
            )
        } else if creative->0.owner_account_id != ctx.predecessor_account_id {
            Err(ContractError::Unauthorized(Claim::CreativeOwner))
        } else if taken {
            Err(ContractError::Conflict(RecordKind::Presentation))
        } else {
            Ok(
                PresentationView {
                    playback_id,
                    adspot_id,
                    creative_id,
                    advertiser_cost: ctx.attached_deposit,
                    start_time,
                    end_time,
                    transfered: false,
                    advertiser_account_id: ctx.predecessor_account_id,
                    publisher_account_id: adspot->0.owner_account_id,
                    ad_spot_name: adspot->0.name,
                    publisher_earn: adspot->0.publisher_earn,
                    show_kind: adspot->0.show_kind,
                    entertainment: ctx.current_account_id,
                    entertainment_fee: platform_fee(ctx.attached_deposit),
                    status: status_signed(),
                },
            )
        }
    }

    /// The agreement once its funds have been released.
    pub open spec fn settled(self) -> PresentationView {
        PresentationView { transfered: true, status: status_success(), ..self }
    }

    /// The outcome of settling this agreement at the time of `ctx`: the
    /// transfer to issue, or the guard that forbids it.
    pub open spec fn settle(self, ctx: CallContextView) -> Result<TransferView, ContractError> {
        if self.transfered {
            Err(ContractError::AlreadySettled)
        } else if ctx.now() < self.end_time {
            Err(ContractError::WindowNotElapsed)
        } else {
            Ok(
                TransferView {
                    receiver_id: self.publisher_account_id,
                    amount: self.publisher_payout() as Balance,
                },
            )
        }
    }

    /// The agreement after an attempt to settle it at the time of `ctx`.
    pub open spec fn after_settle(self, ctx: CallContextView) -> PresentationView {
        if self.settle(ctx) is Ok {
            self.settled()
        } else {
            self
        }
    }

    /// The outcome of settling, at the time of `ctx`, what a lookup of
    /// `playback_id` found: the transfer that pays the publisher, nothing
    /// where nothing is stored, or the guard that forbids the settlement.
    /// Only the platform itself may settle.
    pub open spec fn settle_stored(
        ctx: CallContextView,
        playback_id: u64,
        stored: Option<PresentationView>,
    ) -> Result<Option<TransferView>, ContractError> {
        if !ctx.by_platform() {
            Err(ContractError::Unauthorized(Claim::Platform))
        } else if playback_id == 0 {
            Err(ContractError::InvalidInput(InputFault::PlaybackId))
        } else {
            match stored {
                None => Ok(None),
                Some(presentation) => match presentation.settle(ctx) {
                    Ok(transfer) => Ok(Some(transfer)),
                    Err(e) => Err(e),
                },
            }
        }
    }
}

/// What a settlement hands back, taken by its view: the transfer, with the
/// settled agreement where there is one.
pub open spec fn settled_view(r: Result<Option<(Presentation, Transfer)>, ContractError>) -> Result<
    Option<(PresentationView, TransferView)>,
    ContractError,
> {
    match r {
        Ok(Some((presentation, transfer))) => Ok(Some((presentation@, transfer@))),
        Ok(None) => Ok(None),
        Err(e) => Err(e),
    }
}

impl Presentation {
    /// Checks a booking and builds the agreement that the caller of `ctx`
    /// signs under `playback_id`, with the deposit attached to the call in
    /// escrow. `creative` and `adspot` are what the lookups of `creative_id`
    /// and `adspot_id` found; `taken` says whether the playback id is in use.
    pub fn sign(
        ctx: &CallContext,
        playback_id: u64,
        adspot_id: u64,
        creative_id: u64,
        start_time: Timestamp,
        end_time: Timestamp,
        creative: Option<&Creative>,
        adspot: Option<&AdSpot>,
        taken: bool,
    ) -> (result: Result<Presentation, ContractError>)
        ensures
            outcome_view(result) == PresentationView::sign(
                ctx@,
                playback_id,
                adspot_id,
                creative_id,
                start_time,
                end_time,
                opt_view(creative),
                opt_view(adspot),
                taken,
            ),
    {
        if playback_id == 0 {
            return Err(ContractError::InvalidInput(InputFault::PlaybackId));
        }
        if adspot_id == 0 {
            return Err(ContractError::InvalidInput(InputFault::AdSpotId));
        }
        if creative_id == 0 {
            return Err(ContractError::InvalidInput(InputFault::CreativeId));
        }
        let time: Timestamp = ctx.now();
        if start_time < time {
            return Err(ContractError::InvalidInput(InputFault::StartTime));
        }
        if end_time <= time {
            return Err(ContractError::InvalidInput(InputFault::EndTime));
        }
        if end_time <= start_time {
            return Err(ContractError::InvalidInput(InputFault::TimeRange));
        }
        let creative: &Creative = match creative {
            Some(creative) => creative,
            None => {
                return Err(ContractError::NotFound(RecordKind::Creative));
            },
        };
        let adspot: &AdSpot = match adspot {
            Some(adspot) => adspot,
            None => {
                return Err(ContractError::NotFound(RecordKind::AdSpot));
            },
        };
        let deposit: Balance = ctx.attached_deposit;
        if deposit < adspot.price {
            return Err(
                ContractError::InsufficientDeposit { attached: deposit, required: adspot.price },
            );
        }
        if creative.owner_account_id != ctx.predecessor_account_id {
            return Err(ContractError::Unauthorized(Claim::CreativeOwner));
        }
        if taken {
            return Err(ContractError::Conflict(RecordKind::Presentation));
        }
        let fee: Balance = deposit / FEE_DIVISOR;
        Ok(
            Presentation {
                playback_id,
                adspot_id,
                creative_id,
                advertiser_cost: deposit,
                start_time,
                end_time,
                transfered: false,
                advertiser_account_id: ctx.predecessor_account_id.clone(),
                publisher_account_id: adspot.owner_account_id.clone(),
                ad_spot_name: adspot.name.clone(),
                publisher_earn: adspot.publisher_earn,
                show_kind: adspot.show_kind.clone(),
                entertainment: ctx.current_account_id.clone(),
                entertainment_fee: fee,
                status: "signed".to_owned(),
            },
        )
    }

    /// Settles the agreement at the time of `ctx`: where no guard forbids it,
    /// marks the agreement as settled and returns the transfer that pays the
    /// publisher; otherwise leaves it as it is.
    fn settle(&mut self, ctx: &CallContext) -> (result: Result<Transfer, ContractError>)
        requires
            old(self).entertainment_fee <= old(self).advertiser_cost,
        ensures
            outcome_view(result) == old(self)@.settle(ctx@),
            final(self)@ == old(self)@.after_settle(ctx@),
    {
        if self.transfered {
            return Err(ContractError::AlreadySettled);
        }
        if ctx.now() < self.end_time {
            return Err(ContractError::WindowNotElapsed);
        }
        let total_funds: Balance = self.advertiser_cost - self.entertainment_fee;
        let receiver_id: AccountId = self.publisher_account_id.clone();
        self.transfered = true;
        self.status = "success".to_owned();
        Ok(Transfer { receiver_id, amount: total_funds })
    }

    /// Settles, at the time of `ctx`, what a lookup of `playback_id` found,
    /// for the platform itself and for no other caller. Returns the settled
    /// agreement, which is to replace the stored one, with the transfer that
    /// pays the publisher; or nothing where nothing is stored under the id.
    pub fn settle_stored(ctx: &CallContext, playback_id: u64, stored: Option<Presentation>) -> (result:
        Result<Option<(Presentation, Transfer)>, ContractError>)
        requires
            stored matches Some(p) ==> p.entertainment_fee <= p.advertiser_cost,
        ensures
            settled_view(result) == match PresentationView::settle_stored(
                ctx@,
                playback_id,
                opt_view(stored),
            ) {
                Ok(Some(transfer)) => Ok(Some((stored->0@.settled(), transfer))),
                Ok(None) => Ok(None),
                Err(e) => Err(e),
            },
    {
        if !ctx.by_platform() {
            return Err(ContractError::Unauthorized(Claim::Platform));
        }
        if playback_id == 0 {
            return Err(ContractError::InvalidInput(InputFault::PlaybackId));
        }
        match stored {
            None => Ok(None),
            Some(presentation) => {
                let mut presentation: Presentation = presentation;
                match presentation.settle(ctx) {
                    Ok(transfer) => Ok(Some((presentation, transfer))),
                    Err(e) => Err(e),
                }
            },
        }
    }
}

} // verus!
