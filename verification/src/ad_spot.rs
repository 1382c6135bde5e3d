use vstd::prelude::*;
use vstd::string::StrSliceExecFns;
use crate::context::{opt_text, AccountId, Balance, CallContext, CallContextView, MAX_NAME_LEN};
use crate::error::{outcome_view, ContractError, InputFault, RecordKind};

verus! {

/// One unit of currency in the smallest denomination: prices are entered in
/// whole units and stored scaled by this factor.
pub const ONE_NEAR: Balance = 1_000_000_000_000_000_000_000_000;

/// A publisher's priced inventory slot. It never changes once it is stored.
#[derive(Debug, PartialEq, Eq)]
pub struct AdSpot {
    pub adspot_id: u64,
    pub owner_account_id: AccountId,
    pub price: Balance,
    pub name: String,
    pub publisher_earn: Option<u64>,
    pub show_kind: Option<String>,
}

/// An ad spot as a mathematical value.
pub struct AdSpotView {
    pub adspot_id: u64,
    pub owner_account_id: Seq<char>,
    pub price: Balance,
    pub name: Seq<char>,
    pub publisher_earn: Option<u64>,
    pub show_kind: Option<Seq<char>>,
}

impl View for AdSpot {
    type V = AdSpotView;

    open spec fn view(&self) -> AdSpotView {
        AdSpotView {
            adspot_id: self.adspot_id,
            owner_account_id: self.owner_account_id@,
            price: self.price,
            name: self.name@,
            publisher_earn: self.publisher_earn,
            show_kind: opt_text(self.show_kind),
        }
    }
}

impl Clone for AdSpot {
    fn clone(&self) -> (s: Self)
        ensures
            s == *self,
    {
        AdSpot {
            adspot_id: self.adspot_id,
            owner_account_id: self.owner_account_id.clone(),
            price: self.price,
            name: self.name.clone(),
            publisher_earn: self.publisher_earn,
            show_kind: self.show_kind.clone(),
        }
    }
}

impl AdSpotView {
    /// What every stored ad spot satisfies: the price is a positive whole
    /// number of units.
    pub open spec fn wf(self) -> bool {
        &&& self.adspot_id > 0
        &&& self.price > 0
        &&& self.price % ONE_NEAR == 0
        &&& 0 < self.name.len() <= MAX_NAME_LEN
    }

    /// The outcome of registering an ad spot for the caller of `ctx` at
    /// `price` whole units: the first check that fails decides the error, and
    /// `taken` says whether the id is in use already.
    pub open spec fn register(
        ctx: CallContextView,
        adspot_id: u64,
        price: Balance,
        name: Seq<char>,
        publisher_earn: Option<u64>,
        show_kind: Option<Seq<char>>,
        taken: bool,
    ) -> Result<AdSpotView, ContractError> {
        if adspot_id == 0 {
            Err(ContractError::InvalidInput(InputFault::AdSpotId))
        } else if price == 0 {
            Err(ContractError::InvalidInput(InputFault::Price))
        } else if name.len() == 0 {
            Err(ContractError::InvalidInput(InputFault::EmptyName))
        } else if name.len() > MAX_NAME_LEN {
            Err(ContractError::InvalidInput(InputFault::LongName))
        } else if price * ONE_NEAR > Balance::MAX {
            Err(ContractError::InvalidInput(InputFault::PriceRange))
        } else if taken {
            Err(ContractError::Conflict(RecordKind::AdSpot))
        } else {
            Ok(
                AdSpotView {
                    adspot_id,
                    owner_account_id: ctx.predecessor_account_id,
                    price: (price * ONE_NEAR) as Balance,
                    name,
                    publisher_earn,
                    show_kind,
                },
            )
        }
    }

    /// A registered ad spot is well formed.
    pub proof fn lemma_register_wf(
        ctx: CallContextView,
        adspot_id: u64,
        price: Balance,
        name: Seq<char>,
        publisher_earn: Option<u64>,
        show_kind: Option<Seq<char>>,
        taken: bool,
    )
        ensures
            Self::register(ctx, adspot_id, price, name, publisher_earn, show_kind, taken) matches Ok(
                spot,
            ) ==> spot.wf() && spot.adspot_id == adspot_id && spot.price == price * ONE_NEAR,
    {
        if Self::register(ctx, adspot_id, price, name, publisher_earn, show_kind, taken) is Ok {
            assert(price * ONE_NEAR >= ONE_NEAR) by (nonlinear_arith)
                requires
                    price >= 1,
            ;
            assert((price * ONE_NEAR) % (ONE_NEAR as int) == 0) by (nonlinear_arith);
        }
    }
}

impl AdSpot {
    /// Checks the arguments and builds the ad spot that the caller of `ctx`
    /// registers under `adspot_id`, priced at `price` whole units; `taken`
    /// says whether that id is in use.
    pub fn register(
        ctx: &CallContext,
        adspot_id: u64,
        price: Balance,
        name: String,
        publisher_earn: Option<u64>,
        show_kind: Option<String>,
        taken: bool,
    ) -> (result: Result<AdSpot, ContractError>)
        ensures
            outcome_view(result) == AdSpotView::register(
                ctx@,
                adspot_id,
                price,
                name@,
                publisher_earn,
                opt_text(show_kind),
                taken,
            ),
    {
        if adspot_id == 0 {
            return Err(ContractError::InvalidInput(InputFault::AdSpotId));
        }
        if price == 0 {
            return Err(ContractError::InvalidInput(InputFault::Price));
        }
        if name.as_str().is_empty() {
            return Err(ContractError::InvalidInput(InputFault::EmptyName));
        }
        if name.as_str().unicode_len() > MAX_NAME_LEN {
            return Err(ContractError::InvalidInput(InputFault::LongName));
        }
        let scaled: Balance = match price.checked_mul(ONE_NEAR) {
            Some(scaled) => scaled,
            None => {
                return Err(ContractError::InvalidInput(InputFault::PriceRange));
            },
        };
        if taken {
            return Err(ContractError::Conflict(RecordKind::AdSpot));
        }
        Ok(
            AdSpot {
                adspot_id,
                owner_account_id: ctx.predecessor_account_id.clone(),
                price: scaled,
                name,
                publisher_earn,
                show_kind,
            },
        )
    }
}

} // verus!
