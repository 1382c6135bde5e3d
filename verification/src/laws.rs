use vstd::prelude::*;
use crate::ad_spot::{AdSpotView, ONE_NEAR};
use crate::context::{Balance, CallContextView, Timestamp, MAX_NAME_LEN};
use crate::creative::CreativeView;
use crate::error::{Claim, ContractError, RecordKind};
use crate::history::Call;
use crate::model::{lookup, MetaAdsView};
use crate::presentation::{
    lemma_statuses_differ, platform_fee, status_signed, status_success, TransferView,
};

verus! {

/// Registering a creative under an unused id with a proper name and content
/// succeeds, the record holds the arguments and the caller as owner, and a
/// lookup of the id then returns that record.
pub proof fn law_registered_creative_is_found(
    s: MetaAdsView,
    ctx: CallContextView,
    name: Seq<char>,
    content: Seq<char>,
    creative_id: u64,
    nft_cid: Option<Seq<char>>,
)
    requires
        creative_id > 0,
        0 < name.len() <= MAX_NAME_LEN,
        content.len() > 0,
        !s.creatives.contains_key(creative_id),
    ensures
        s.make_creative(ctx, name, content, creative_id, nft_cid) == Ok::<
            CreativeView,
            ContractError,
        >(
            CreativeView {
                creative_id,
                name,
                content,
                nft_cid,
                owner_account_id: ctx.predecessor_account_id,
            },
        ),
        lookup(
            s.after_make_creative(ctx, name, content, creative_id, nft_cid).creatives,
            creative_id,
            RecordKind::Creative,
        ) == s.make_creative(ctx, name, content, creative_id, nft_cid),
{
}

/// Registering an ad spot under an unused id with a proper name and a
/// positive price that can be scaled succeeds, the record holds the scaled
/// price and the caller as owner, and a lookup of the id then returns that
/// record.
pub proof fn law_registered_adspot_is_found(
    s: MetaAdsView,
    ctx: CallContextView,
    adspot_id: u64,
    price: Balance,
    name: Seq<char>,
    publisher_earn: Option<u64>,
    show_kind: Option<Seq<char>>,
)
    requires
        adspot_id > 0,
        0 < price,
        price * ONE_NEAR <= Balance::MAX,
        0 < name.len() <= MAX_NAME_LEN,
        !s.ad_spots.contains_key(adspot_id),
    ensures
        s.make_adspot(ctx, adspot_id, price, name, publisher_earn, show_kind) == Ok::<
            AdSpotView,
            ContractError,
        >(
            AdSpotView {
                adspot_id,
                owner_account_id: ctx.predecessor_account_id,
                price: (price * ONE_NEAR) as Balance,
                name,
                publisher_earn,
                show_kind,
            },
        ),
        lookup(
            s.after_make_adspot(ctx, adspot_id, price, name, publisher_earn, show_kind).ad_spots,
            adspot_id,
            RecordKind::AdSpot,
        ) == s.make_adspot(ctx, adspot_id, price, name, publisher_earn, show_kind),
{
}

/// Once a creative is stored under an id, every further registration under
/// that id fails and changes nothing, so the first record stays; with a
/// proper name and content the failure is the conflict.
pub proof fn law_creative_registered_once(
    s: MetaAdsView,
    ctx: CallContextView,
    name: Seq<char>,
    content: Seq<char>,
    creative_id: u64,
    nft_cid: Option<Seq<char>>,
)
    requires
        s.wf(),
        s.creatives.contains_key(creative_id),
    ensures
        s.make_creative(ctx, name, content, creative_id, nft_cid) is Err,
        s.after_make_creative(ctx, name, content, creative_id, nft_cid) == s,
        0 < name.len() <= MAX_NAME_LEN && content.len() > 0 ==> s.make_creative(
            ctx,
            name,
            content,
            creative_id,
            nft_cid,
        ) == Err::<CreativeView, ContractError>(ContractError::Conflict(RecordKind::Creative)),
{
}

/// Once an ad spot is stored under an id, every further registration under
/// that id fails and changes nothing, so the first record stays; with a
/// proper name and price the failure is the conflict.
pub proof fn law_adspot_registered_once(
    s: MetaAdsView,
    ctx: CallContextView,
    adspot_id: u64,
    price: Balance,
    name: Seq<char>,
    publisher_earn: Option<u64>,
    show_kind: Option<Seq<char>>,
)
    requires
        s.wf(),
        s.ad_spots.contains_key(adspot_id),
    ensures
        s.make_adspot(ctx, adspot_id, price, name, publisher_earn, show_kind) is Err,
        s.after_make_adspot(ctx, adspot_id, price, name, publisher_earn, show_kind) == s,
        0 < price && price * ONE_NEAR <= Balance::MAX && 0 < name.len() <= MAX_NAME_LEN
            ==> s.make_adspot(ctx, adspot_id, price, name, publisher_earn, show_kind) == Err::<
            AdSpotView,
            ContractError,
        >(ContractError::Conflict(RecordKind::AdSpot)),
{
}

/// Signing an agreement is all or nothing: a refusal, whatever its reason,
/// leaves every store as it was, and a success adds the one agreement under
/// its id and touches nothing else.
pub proof fn law_agreement_is_atomic(
    s: MetaAdsView,
    ctx: CallContextView,
    playback_id: u64,
    adspot_id: u64,
    creative_id: u64,
    start_time: Timestamp,
    end_time: Timestamp,
)
    requires
        s.wf(),
    ensures
        ({
            let outcome = s.do_agreement(
                ctx,
                playback_id,
                adspot_id,
                creative_id,
                start_time,
                end_time,
            );
            let after = s.after_do_agreement(
                ctx,
                playback_id,
                adspot_id,
                creative_id,
                start_time,
                end_time,
            );
            &&& after.creatives == s.creatives
            &&& after.ad_spots == s.ad_spots
            &&& outcome is Err ==> after == s && after.presentations.len()
                == s.presentations.len()
            &&& outcome matches Ok(p) ==> {
                &&& !s.presentations.contains_key(playback_id)
                &&& after.presentations == s.presentations.insert(playback_id, p)
                &&& after.presentations.len() == s.presentations.len() + 1
            }
        }),
{
}

/// An agreement is signed exactly when the ids are positive, the window lies
/// ahead and is not empty, the creative and the spot are stored, the deposit
/// covers the price, the caller owns the creative and the playback id is
/// unused. The signed agreement holds the whole deposit, a tenth of it
/// (rounded down) as the platform's fee, the spot's owner as publisher, and
/// is not settled.
pub proof fn law_agreement_terms(
    s: MetaAdsView,
    ctx: CallContextView,
    playback_id: u64,
    adspot_id: u64,
    creative_id: u64,
    start_time: Timestamp,
    end_time: Timestamp,
)
    ensures
        ({
            let outcome = s.do_agreement(
                ctx,
                playback_id,
                adspot_id,
                creative_id,
                start_time,
                end_time,
            );
            &&& outcome is Ok <==> {
                &&& playback_id > 0 && adspot_id > 0 && creative_id > 0
                &&& ctx.now() <= start_time < end_time
                &&& s.creatives.contains_key(creative_id)
                &&& s.ad_spots.contains_key(adspot_id)
                &&& s.ad_spots[adspot_id].price <= ctx.attached_deposit
                &&& s.creatives[creative_id].owner_account_id == ctx.predecessor_account_id
                &&& !s.presentations.contains_key(playback_id)
            }
            &&& outcome matches Ok(p) ==> {
                &&& p.playback_id == playback_id
                &&& p.advertiser_cost == ctx.attached_deposit
                &&& p.entertainment_fee == ctx.attached_deposit / 10
                &&& p.entertainment_fee + p.publisher_payout() == p.advertiser_cost
                &&& p.publisher_account_id == s.ad_spots[adspot_id].owner_account_id
                &&& p.advertiser_account_id == ctx.predecessor_account_id
                &&& p.entertainment == ctx.current_account_id
                &&& !p.transfered
                &&& p.status == status_signed()
            }
        }),
{
}

/// In every state that the ledger can reach, each agreement's fee and the
/// publisher's payout add up to the deposit, the fee being a tenth of the
/// deposit rounded down; and an agreement is settled exactly when its status
/// is the one of success.
pub proof fn law_fee_and_payout_make_up_the_deposit(s: MetaAdsView, playback_id: u64)
    requires
        s.wf(),
        s.presentations.contains_key(playback_id),
    ensures
        ({
            let p = s.presentations[playback_id];
            &&& p.entertainment_fee + p.publisher_payout() == p.advertiser_cost
            &&& p.entertainment_fee == platform_fee(p.advertiser_cost)
            &&& p.transfered <==> p.status == status_success()
            &&& !p.transfered <==> p.status == status_signed()
        }),
{
    lemma_statuses_differ();
}

/// The first settlement of an agreement whose window has closed succeeds
/// for the platform: it orders the transfer of the deposit less the fee to
/// the publisher and marks the agreement as settled, changing nothing else
/// in the ledger.
pub proof fn law_settlement_pays_the_publisher(
    s: MetaAdsView,
    ctx: CallContextView,
    playback_id: u64,
)
    requires
        s.wf(),
        ctx.by_platform(),
        s.presentations.contains_key(playback_id),
        !s.presentations[playback_id].transfered,
        s.presentations[playback_id].end_time <= ctx.now(),
    ensures
        ({
            let p = s.presentations[playback_id];
            let after = s.after_transfer_funds(ctx, playback_id);
            &&& s.transfer_funds(ctx, playback_id) == Ok::<Option<TransferView>, ContractError>(
                Some(
                    TransferView {
                        receiver_id: p.publisher_account_id,
                        amount: (p.advertiser_cost - p.entertainment_fee) as Balance,
                    },
                ),
            )
            &&& p.advertiser_cost - p.entertainment_fee == p.publisher_payout()
            &&& after.presentations == s.presentations.insert(playback_id, p.settled())
            &&& after.presentations[playback_id].transfered
            &&& after.presentations[playback_id].status == status_success()
            &&& after.creatives == s.creatives
            &&& after.ad_spots == s.ad_spots
        }),
{
}

/// A settlement pays at most once: after a settlement that ordered a
/// transfer, every further settlement of the same agreement, at whatever
/// time, is refused and changes nothing; the platform is told that the
/// agreement is settled already.
pub proof fn law_settles_once(
    s: MetaAdsView,
    first: CallContextView,
    second: CallContextView,
    playback_id: u64,
)
    requires
        s.wf(),
        s.transfer_funds(first, playback_id) matches Ok(Some(_)),
    ensures
        ({
            let after = s.after_transfer_funds(first, playback_id);
            &&& after.transfer_funds(second, playback_id) is Err
            &&& second.by_platform() ==> after.transfer_funds(second, playback_id) == Err::<
                Option<TransferView>,
                ContractError,
            >(ContractError::AlreadySettled)
            &&& after.after_transfer_funds(second, playback_id) == after
        }),
{
}

/// A settlement before the end of the display window is refused and changes
/// nothing; the platform is told of the open window unless the agreement is
/// settled already.
pub proof fn law_no_settlement_before_the_end(
    s: MetaAdsView,
    ctx: CallContextView,
    playback_id: u64,
)
    requires
        s.wf(),
        s.presentations.contains_key(playback_id),
        ctx.now() < s.presentations[playback_id].end_time,
    ensures
        s.transfer_funds(ctx, playback_id) is Err,
        ctx.by_platform() && !s.presentations[playback_id].transfered ==> s.transfer_funds(
            ctx,
            playback_id,
        ) == Err::<Option<TransferView>, ContractError>(ContractError::WindowNotElapsed),
        s.after_transfer_funds(ctx, playback_id) == s,
{
}

/// Settling a positive id under which no agreement is stored is no error for
/// the platform: it orders no transfer and changes nothing.
pub proof fn law_settling_nothing(s: MetaAdsView, ctx: CallContextView, playback_id: u64)
    requires
        ctx.by_platform(),
        playback_id > 0,
        !s.presentations.contains_key(playback_id),
    ensures
        s.transfer_funds(ctx, playback_id) == Ok::<Option<TransferView>, ContractError>(None),
        s.after_transfer_funds(ctx, playback_id) == s,
{
}

/// Nobody but the platform itself can settle: for every other caller the
/// settlement is refused, whatever the id and the time, and changes nothing.
pub proof fn law_settlement_is_reserved(s: MetaAdsView, ctx: CallContextView, playback_id: u64)
    requires
        !ctx.by_platform(),
    ensures
        s.transfer_funds(ctx, playback_id) == Err::<Option<TransferView>, ContractError>(
            ContractError::Unauthorized(Claim::Platform),
        ),
        s.after_transfer_funds(ctx, playback_id) == s,
{
}

/// Whatever calls are made on a ledger that satisfies the invariant, the
/// ledger that results satisfies it too.
pub proof fn law_invariant_holds_forever(s: MetaAdsView, calls: Seq<Call>)
    requires
        s.wf(),
    ensures
        s.run(calls).wf(),
    decreases calls.len(),
{
    if calls.len() > 0 {
        law_invariant_holds_forever(s, calls.drop_last());
        s.run(calls.drop_last()).lemma_step_wf(calls.last());
    }
}

/// Every state that a ledger reaches from the empty one satisfies the
/// invariant.
pub proof fn law_reachable_ledgers_are_well_formed(calls: Seq<Call>)
    ensures
        MetaAdsView::empty().run(calls).wf(),
{
    law_invariant_holds_forever(MetaAdsView::empty(), calls);
}

/// Records are never removed and never rewritten: whatever calls are made, a
/// stored creative and a stored ad spot stay as they are, and a stored
/// agreement stays as it is but for being settled.
pub proof fn law_records_are_kept(s: MetaAdsView, calls: Seq<Call>, id: u64)
    requires
        s.wf(),
    ensures
        s.creatives.contains_key(id) ==> s.run(calls).creatives.contains_key(id) && s.run(
            calls,
        ).creatives[id] == s.creatives[id],
        s.ad_spots.contains_key(id) ==> s.run(calls).ad_spots.contains_key(id) && s.run(
            calls,
        ).ad_spots[id] == s.ad_spots[id],
        s.presentations.contains_key(id) ==> s.run(calls).presentations.contains_key(id) && (s.run(
            calls,
        ).presentations[id] == s.presentations[id] || s.run(calls).presentations[id]
            == s.presentations[id].settled()),
        s.is_settled(id) ==> s.run(calls).presentations[id] == s.presentations[id],
    decreases calls.len(),
{
    if calls.len() > 0 {
        law_records_are_kept(s, calls.drop_last(), id);
        law_invariant_holds_forever(s, calls.drop_last());
        if s.is_settled(id) {
            lemma_statuses_differ();
            assert(s.presentations[id].settled() == s.presentations[id]);
        }
    }
}

/// No agreement pays twice: whatever calls are made, in whatever order and at
/// whatever times, all the transfers that they order for one agreement add up
/// to nothing or to that agreement's one payout, the deposit less the fee;
/// to nothing exactly when the agreement was settled before or is not settled
/// afterwards.
pub proof fn law_one_payout_per_agreement(s: MetaAdsView, calls: Seq<Call>, playback_id: u64)
    requires
        s.wf(),
    ensures
        s.total_released(calls, playback_id) == if s.run(calls).is_settled(playback_id)
            && !s.is_settled(playback_id) {
            s.run(calls).presentations[playback_id].publisher_payout()
        } else {
            0
        },
        s.is_settled(playback_id) ==> s.run(calls).is_settled(playback_id),
    decreases calls.len(),
{
    if calls.len() > 0 {
        let before = s.run(calls.drop_last());
        law_one_payout_per_agreement(s, calls.drop_last(), playback_id);
        law_invariant_holds_forever(s, calls.drop_last());
        before.lemma_step_wf(calls.last());
    }
}

} // verus!
