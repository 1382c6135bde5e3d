use vstd::prelude::*;
use vstd::string::StrSliceExecFns;
use crate::context::{opt_text, AccountId, CallContext, CallContextView, MAX_NAME_LEN};
use crate::error::{outcome_view, ContractError, InputFault, RecordKind};

verus! {

/// An advertiser's reusable ad asset. It never changes once it is stored.
#[derive(Debug, PartialEq, Eq)]
pub struct Creative {
    pub creative_id: u64,
    pub name: String,
    pub content: String,
    pub nft_cid: Option<String>,
    pub owner_account_id: AccountId,
}

/// A creative as a mathematical value.
pub struct CreativeView {
    pub creative_id: u64,
    pub name: Seq<char>,
    pub content: Seq<char>,
    pub nft_cid: Option<Seq<char>>,
    pub owner_account_id: Seq<char>,
}

impl View for Creative {
    type V = CreativeView;

    open spec fn view(&self) -> CreativeView {
        CreativeView {
            creative_id: self.creative_id,
            name: self.name@,
            content: self.content@,
            nft_cid: opt_text(self.nft_cid),
            owner_account_id: self.owner_account_id@,
        }
    }
}

impl Clone for Creative {
    fn clone(&self) -> (c: Self)
        ensures
            c == *self,
    {
        Creative {
            creative_id: self.creative_id,
            name: self.name.clone(),
            content: self.content.clone(),
            nft_cid: self.nft_cid.clone(),
            owner_account_id: self.owner_account_id.clone(),
        }
    }
}

impl CreativeView {
    /// What every stored creative satisfies.
    pub open spec fn wf(self) -> bool {
        &&& self.creative_id > 0
        &&& 0 < self.name.len() <= MAX_NAME_LEN
        &&& self.content.len() > 0
    }

    /// The outcome of registering a creative for the caller of `ctx`: the first
    /// check that fails decides the error, and `taken` says whether the id is
    /// in use already.
    pub open spec fn register(
        ctx: CallContextView,
        name: Seq<char>,
        content: Seq<char>,
        creative_id: u64,
        nft_cid: Option<Seq<char>>,
        taken: bool,
    ) -> Result<CreativeView, ContractError> {
        if creative_id == 0 {
            Err(ContractError::InvalidInput(InputFault::CreativeId))
        } else if name.len() == 0 {
            Err(ContractError::InvalidInput(InputFault::EmptyName))
        } else if name.len() > MAX_NAME_LEN {
            Err(ContractError::InvalidInput(InputFault::LongName))
        } else if content.len() == 0 {
            Err(ContractError::InvalidInput(InputFault::EmptyContent))
        } else if taken {
            Err(ContractError::Conflict(RecordKind::Creative))
        } else {
            Ok(
                CreativeView {
                    creative_id,
                    name,
                    content,
                    nft_cid,
                    owner_account_id: ctx.predecessor_account_id,
                },
            )
        }
    }
}

impl Creative {
    /// Checks the arguments and builds the creative that the caller of `ctx`
    /// registers under `creative_id`; `taken` says whether that id is in use.
    pub fn register(
        ctx: &CallContext,
        name: String,
        content: String,
        creative_id: u64,
        nft_cid: Option<String>,
        taken: bool,
    ) -> (result: Result<Creative, ContractError>)
        ensures
            outcome_view(result) == CreativeView::register(
                ctx@,
                name@,
                content@,
                creative_id,
                opt_text(nft_cid),
                taken,
            ),
    {
        if creative_id == 0 {
            return Err(ContractError::InvalidInput(InputFault::CreativeId));
        }
        if name.as_str().is_empty() {
            return Err(ContractError::InvalidInput(InputFault::EmptyName));
        }
        if name.as_str().unicode_len() > MAX_NAME_LEN {
            return Err(ContractError::InvalidInput(InputFault::LongName));
        }
        if content.as_str().is_empty() {
            return Err(ContractError::InvalidInput(InputFault::EmptyContent));
        }
        if taken {
            return Err(ContractError::Conflict(RecordKind::Creative));
        }
        Ok(
            Creative {
                creative_id,
                name,
                content,
                nft_cid,
                owner_account_id: ctx.predecessor_account_id.clone(),
            },
        )
    }
}

} // verus!
