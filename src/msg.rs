use vstd::prelude::*;

use crate::state::Component;

verus! {

/// Which asset an amount is denominated in.
#[derive(Debug)]
pub enum AssetInfo {
    Token { contract_addr: String },
    NativeToken { denom: String },
}

/// An amount of one asset.
#[derive(Debug)]
pub struct Asset {
    pub info: AssetInfo,
    pub amount: u128,
}

/// Instantiation message: the code id of the wrapper token and the basket
/// components.
#[derive(Debug)]
pub struct InitMsg {
    pub token_code_id: u64,
    pub components: Vec<Component>,
}

#[derive(Debug)]
pub enum HandleMsg {
    /// Callback of the freshly instantiated wrapper token, binding its address.
    PostInitialize {},
    /// Deposit `asset` and receive wrapper tokens.
    Mint { asset: Asset },
    /// Return wrapper tokens; not supported yet, answers with an empty response.
    Redeem { asset: Asset },
}

#[derive(Debug)]
pub enum QueryMsg {
    Config {},
    Price {},
}

/// Outcome of a simulated swap as an AMM pair reports it.
#[derive(Clone, Copy, Debug, PartialEq, Eq, Structural)]
pub struct SimulationResponse {
    pub return_amount: u128,
    pub spread_amount: u128,
    pub commission_amount: u128,
}

/// A simulated-swap query to issue: offer `amount` of `asset` to `pair`.
#[derive(Debug)]
pub struct PriceQuery {
    pub pair: Vec<u8>,
    pub asset: Vec<u8>,
    pub amount: u128,
}

/// The quote obtained for one component.
#[derive(Debug)]
pub struct PriceData {
    pub pair: Vec<u8>,
    pub asset: Vec<u8>,
    pub price: SimulationResponse,
}

/// The basket unit price and the per-component quotes it was built from.
#[derive(Debug)]
pub struct PriceResponse {
    pub price: u128,
    pub data: Vec<PriceData>,
}

#[derive(Debug)]
pub struct ConfigResponse {
    pub owner: Vec<u8>,
}

#[derive(Debug)]
pub enum QueryResponse {
    Config(ConfigResponse),
    Price(PriceResponse),
}

/// A side-effecting instruction for the host to dispatch.
#[derive(Debug)]
pub enum Instruction {
    /// Instantiate the wrapper token with this contract as its minter.
    InstantiateToken { code_id: u64, name: String, symbol: String, decimals: u8, minter: String },
    /// Swap `amount` of `asset` on `pair`; the amount is before the chain's
    /// transfer tax, which is deducted when the instruction is dispatched.
    Swap { pair: Vec<u8>, asset: Vec<u8>, amount: u128 },
    /// Mint `amount` wrapper tokens to `recipient`.
    Mint { token: Vec<u8>, recipient: String, amount: u128 },
}

#[derive(Debug)]
pub struct InitResponse {
    pub messages: Vec<Instruction>,
}

#[derive(Debug)]
pub struct HandleResponse {
    pub messages: Vec<Instruction>,
}

/// A price query as a value.
pub struct PriceQueryView {
    pub pair: Seq<u8>,
    pub asset: Seq<u8>,
    pub amount: u128,
}

/// A component quote as a value.
pub struct PriceDataView {
    pub pair: Seq<u8>,
    pub asset: Seq<u8>,
    pub price: SimulationResponse,
}

/// A price answer as a value.
pub struct PriceResponseView {
    pub price: u128,
    pub data: Seq<PriceDataView>,
}

/// An instruction as a value.
pub enum InstructionView {
    InstantiateToken {
        code_id: u64,
        name: Seq<char>,
        symbol: Seq<char>,
        decimals: u8,
        minter: Seq<char>,
    },
    Swap { pair: Seq<u8>, asset: Seq<u8>, amount: u128 },
    Mint { token: Seq<u8>, recipient: Seq<char>, amount: u128 },
}

impl View for PriceQuery {
    type V = PriceQueryView;

    open spec fn view(&self) -> PriceQueryView {
        PriceQueryView { pair: self.pair@, asset: self.asset@, amount: self.amount }
    }
}

impl View for PriceData {
    type V = PriceDataView;

    open spec fn view(&self) -> PriceDataView {
        PriceDataView { pair: self.pair@, asset: self.asset@, price: self.price }
    }
}

impl View for PriceResponse {
    type V = PriceResponseView;

    open spec fn view(&self) -> PriceResponseView {
        PriceResponseView { price: self.price, data: self.data@.map_values(|d: PriceData| d@) }
    }
}

impl View for Instruction {
    type V = InstructionView;

    open spec fn view(&self) -> InstructionView {
        match self {
            Instruction::InstantiateToken { code_id, name, symbol, decimals, minter } =>
                InstructionView::InstantiateToken {
                    code_id: *code_id,
                    name: name@,
                    symbol: symbol@,
                    decimals: *decimals,
                    minter: minter@,
                },
            Instruction::Swap { pair, asset, amount } =>
                InstructionView::Swap { pair: pair@, asset: asset@, amount: *amount },
            Instruction::Mint { token, recipient, amount } =>
                InstructionView::Mint { token: token@, recipient: recipient@, amount: *amount },
        }
    }
}

/// The instructions of a batch, as values.
pub open spec fn batch_view(messages: Seq<Instruction>) -> Seq<InstructionView> {
    messages.map_values(|m: Instruction| m@)
}

} // verus!
