//! Messages in and out of the liquidity wrapper: the command and query
//! surface, the outbound router envelope, and the router's callback
//! payloads as structured data.

use vstd::prelude::*;

use super::state::{LiquidityPosition, LiquidityPositionV};

verus! {

#[derive(Debug)]
pub struct InstantiateMsg {
    pub ul_nft_contract: String,
    pub euclid_router: String,
    pub euclid_factory: String,
}

#[allow(inconsistent_fields)]
#[derive(Debug)]
pub enum ExecuteMsg {
    AddLiquidity {
        pool_id: String,
        chain_id: String,
        token_pair: (String, String),
        amount: u128,
        min_shares: u128,
    },
    RemoveLiquidity {
        token_id: String,
        /// `None` removes the full stored amount.
        amount: Option<u128>,
    },
    TransferPosition {
        token_id: String,
        to_chain_id: String,
    },
    UpdatePosition {
        token_id: String,
        new_amount: u128,
    },
    ClaimRewards {
        token_id: String,
    },
}

#[derive(Debug)]
pub enum QueryMsg {
    GetConfig {},
    GetPosition { token_id: String },
    GetPoolPositions { pool_id: String },
    GetPendingOperations { token_id: String },
    GetPoolLiquidity { pool_id: String },
    EstimateRewards { token_id: String },
}

/// What a query hands back.  A rewards estimate cannot be answered
/// from the ledger alone: for it the answer is the read-through
/// request the host must put to the router.
#[allow(inconsistent_fields)]
#[derive(Debug)]
pub enum QueryAnswer {
    Config(super::state::Config),
    Position(Option<super::state::PositionInfo>),
    PoolPositions(Vec<super::state::PositionInfo>),
    PendingOperations(Vec<String>),
    PoolLiquidity(u128),
    RewardsRequest { router: String, query: EuclidMsg },
}

/// The operation classes the router accepts.
#[derive(Clone, Copy, Debug, PartialEq, Eq, Structural)]
pub enum EuclidAction {
    AddLiquidity,
    RemoveLiquidity,
    SwapExactIn,
    SwapExactOut,
    TransferLiquidity,
    ClaimRewards,
}

/// The payload of an outbound router call, as structured data; the
/// host encodes it for transport.
#[derive(Debug)]
pub enum ActionData {
    AddLiquidity {
        pool_id: String,
        chain_id: String,
        token_pair: (String, String),
        amount: u128,
        min_shares: u128,
    },
    RemoveLiquidity {
        pool_id: String,
        amount: u128,
        token_id: String,
    },
    TransferLiquidity {
        token_id: String,
        from_chain_id: String,
        to_chain_id: String,
        amount: u128,
    },
    ClaimRewards {
        token_id: String,
        pool_id: String,
        amount: u128,
    },
    RewardsQuery {
        pool_id: String,
        amount: u128,
        duration: u64,
    },
}

/// One outbound call to the router.
#[derive(Debug)]
pub struct EuclidMsg {
    pub action: EuclidAction,
    pub data: ActionData,
}

/// The router's callback payload, decoded: the data the reply handler
/// of each operation class reads.
#[derive(Debug)]
pub enum ReplyData {
    /// Confirmation of an added position.
    Position(LiquidityPosition),
    /// Confirmation of a removal: which token, how much was removed.
    Removal { token_id: String, amount: u128 },
    /// Confirmation of a transfer: which token, its new chain.
    Transfer { token_id: String, new_chain_id: String },
}

/// The outcome envelope the router delivers for a dispatched call.
#[derive(Debug)]
pub struct EuclidResponse {
    pub success: bool,
    pub data: ReplyData,
    pub error: Option<String>,
}

/// An attached amount of one denomination.
#[derive(Debug)]
pub struct Coin {
    pub denom: String,
    pub amount: u128,
}

/// An outbound message of a command: a router call, optionally
/// expecting a correlated reply.
#[derive(Debug)]
pub struct SubMsg {
    /// The fixed correlation tag under which the reply will return;
    /// `None` for a fire-and-forget call.
    pub reply_id: Option<u64>,
    pub contract_addr: String,
    pub msg: EuclidMsg,
    pub funds: Vec<Coin>,
}

/// What a command hands back: outbound messages and observable
/// attributes.
#[derive(Debug)]
pub struct Response {
    pub messages: Vec<SubMsg>,
    pub attributes: Vec<(String, String)>,
}

pub ghost enum ActionDataV {
    AddLiquidity {
        pool_id: Seq<char>,
        chain_id: Seq<char>,
        token_pair: (Seq<char>, Seq<char>),
        amount: u128,
        min_shares: u128,
    },
    RemoveLiquidity {
        pool_id: Seq<char>,
        amount: u128,
        token_id: Seq<char>,
    },
    TransferLiquidity {
        token_id: Seq<char>,
        from_chain_id: Seq<char>,
        to_chain_id: Seq<char>,
        amount: u128,
    },
    ClaimRewards {
        token_id: Seq<char>,
        pool_id: Seq<char>,
        amount: u128,
    },
    RewardsQuery {
        pool_id: Seq<char>,
        amount: u128,
        duration: u64,
    },
}

pub ghost struct EuclidMsgV {
    pub action: EuclidAction,
    pub data: ActionDataV,
}

pub ghost struct CoinV {
    pub denom: Seq<char>,
    pub amount: u128,
}

pub ghost struct SubMsgV {
    pub reply_id: Option<u64>,
    pub contract_addr: Seq<char>,
    pub msg: EuclidMsgV,
    pub funds: Seq<CoinV>,
}

pub ghost struct ResponseV {
    pub messages: Seq<SubMsgV>,
    pub attributes: Seq<(Seq<char>, Seq<char>)>,
}

pub ghost enum ReplyDataV {
    Position(LiquidityPositionV),
    Removal { token_id: Seq<char>, amount: u128 },
    Transfer { token_id: Seq<char>, new_chain_id: Seq<char> },
}

pub ghost struct EuclidResponseV {
    pub success: bool,
    pub data: ReplyDataV,
    pub error: Option<Seq<char>>,
}

impl View for ActionData {
    type V = ActionDataV;

    open spec fn view(&self) -> ActionDataV {
        match *self {
            ActionData::AddLiquidity { pool_id, chain_id, token_pair, amount, min_shares } => ActionDataV::AddLiquidity {
                pool_id: pool_id@,
                chain_id: chain_id@,
                token_pair: (token_pair.0@, token_pair.1@),
                amount: amount,
                min_shares: min_shares,
            },
            ActionData::RemoveLiquidity { pool_id, amount, token_id } => ActionDataV::RemoveLiquidity {
                pool_id: pool_id@,
                amount: amount,
                token_id: token_id@,
            },
            ActionData::TransferLiquidity { token_id, from_chain_id, to_chain_id, amount } => ActionDataV::TransferLiquidity {
                token_id: token_id@,
                from_chain_id: from_chain_id@,
                to_chain_id: to_chain_id@,
                amount: amount,
            },
            ActionData::ClaimRewards { token_id, pool_id, amount } => ActionDataV::ClaimRewards {
                token_id: token_id@,
                pool_id: pool_id@,
                amount: amount,
            },
            ActionData::RewardsQuery { pool_id, amount, duration } => ActionDataV::RewardsQuery {
                pool_id: pool_id@,
                amount: amount,
                duration: duration,
            },
        }
    }
}

impl View for EuclidMsg {
    type V = EuclidMsgV;

    open spec fn view(&self) -> EuclidMsgV {
        EuclidMsgV { action: self.action, data: self.data@ }
    }
}

impl View for Coin {
    type V = CoinV;

    open spec fn view(&self) -> CoinV {
        CoinV { denom: self.denom@, amount: self.amount }
    }
}

impl View for SubMsg {
    type V = SubMsgV;

    open spec fn view(&self) -> SubMsgV {
        SubMsgV {
            reply_id: self.reply_id,
            contract_addr: self.contract_addr@,
            msg: self.msg@,
            funds: self.funds@.map(|i: int, c: Coin| c@),
        }
    }
}

impl View for Response {
    type V = ResponseV;

    open spec fn view(&self) -> ResponseV {
        ResponseV {
            messages: self.messages@.map(|i: int, m: SubMsg| m@),
            attributes: self.attributes@.map(|i: int, a: (String, String)| (a.0@, a.1@)),
        }
    }
}

impl View for ReplyData {
    type V = ReplyDataV;

    open spec fn view(&self) -> ReplyDataV {
        match *self {
            ReplyData::Position(p) => ReplyDataV::Position(p@),
            ReplyData::Removal { token_id, amount } => ReplyDataV::Removal {
                token_id: token_id@,
                amount: amount,
            },
            ReplyData::Transfer { token_id, new_chain_id } => ReplyDataV::Transfer {
                token_id: token_id@,
                new_chain_id: new_chain_id@,
            },
        }
    }
}

impl View for EuclidResponse {
    type V = EuclidResponseV;

    open spec fn view(&self) -> EuclidResponseV {
        EuclidResponseV {
            success: self.success,
            data: self.data@,
            error: match self.error {
                Some(ref e) => Some(e@),
                None => None,
            },
        }
    }
}

} // verus!
