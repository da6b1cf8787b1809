use vstd::prelude::*;

use crate::error::ContractError;
use crate::msg::{
    batch_view, Asset, ConfigResponse, HandleMsg, HandleResponse, InitResponse, Instruction,
    InstructionView, PriceData, PriceDataView, PriceQuery, PriceQueryView, PriceResponse,
    PriceResponseView, QueryMsg, QueryResponse, SimulationResponse,
};
use crate::state::{
    config, config_read, copy_bytes, load_outcome, ComponentRaw, ComponentView, ConfigStore, State,
    StateView,
};

verus! {

/// Full notional value of a simulated swap: what is returned plus the spread
/// and the commission the pair keeps.
pub open spec fn quote_value(q: SimulationResponse) -> int {
    q.return_amount + q.spread_amount + q.commission_amount
}

/// Sum of the values of the quotes obtained (a missing quote counts as zero).
pub open spec fn quotes_total(qs: Seq<Option<SimulationResponse>>) -> int
    decreases qs.len(),
{
    if qs.len() == 0 {
        0
    } else {
        quotes_total(qs.drop_last()) + match qs.last() {
            Some(q) => quote_value(q),
            None => 0,
        }
    }
}

/// Every component's quote was obtained.
pub open spec fn all_quoted(qs: Seq<Option<SimulationResponse>>) -> bool {
    forall|i: int| 0 <= i < qs.len() ==> (#[trigger] qs[i]) is Some
}

/// The simulated-swap queries for a basket: one per component, in order,
/// offering the component's unit weight of its asset to its pair.
pub open spec fn queries_of(cs: Seq<ComponentView>) -> Seq<PriceQueryView> {
    Seq::new(cs.len(), |i: int| PriceQueryView { pair: cs[i].pair, asset: cs[i].asset, amount: cs[i].unit })
}

/// The per-component breakdown, in component order.
pub open spec fn breakdown_of(
    cs: Seq<ComponentView>,
    qs: Seq<Option<SimulationResponse>>,
) -> Seq<PriceDataView> {
    Seq::new(cs.len(), |i: int| PriceDataView { pair: cs[i].pair, asset: cs[i].asset, price: qs[i]->Some_0 })
}

/// Aggregated price of a basket from the quotes obtained for its components.
pub open spec fn price_outcome(
    cs: Seq<ComponentView>,
    qs: Seq<Option<SimulationResponse>>,
) -> Result<PriceResponseView, ContractError> {
    if !all_quoted(qs) {
        Err(ContractError::AggregationFailure)
    } else if quotes_total(qs) > u128::MAX {
        Err(ContractError::Overflow)
    } else {
        Ok(PriceResponseView { price: quotes_total(qs) as u128, data: breakdown_of(cs, qs) })
    }
}

/// The simulated-swap queries that pricing the basket needs.
pub fn price_queries(state: &State) -> (r: Vec<PriceQuery>)
    ensures
        r@.map_values(|q: PriceQuery| q@) == queries_of(state@.components),
{
    let mut r: Vec<PriceQuery> = Vec::with_capacity(state.components.len());
    let mut i: usize = 0;
    while i < state.components.len()
        invariant
            i <= state.components.len(),
            r@.len() == i,
            forall|j: int| 0 <= j < i ==> (#[trigger] r@[j])@ == queries_of(state@.components)[j],
        decreases state.components.len() - i,
    {
        let c = &state.components[i];
        assert(state@.components[i as int] == state.components@[i as int]@);
        r.push(PriceQuery { pair: copy_bytes(&c.pair), asset: copy_bytes(&c.asset), amount: c.unit });
        i = i + 1;
    }
    assert(r@.map_values(|q: PriceQuery| q@) =~= queries_of(state@.components));
    r
}

/// Aggregates the basket price from `quotes`, the answers to
/// `price_queries(state)` in the same order (`None` where a query failed).
pub fn get_price(state: &State, quotes: &Vec<Option<SimulationResponse>>) -> (r: Result<PriceResponse, ContractError>)
    requires
        quotes@.len() == state@.components.len(),
    ensures
        match (r, price_outcome(state@.components, quotes@)) {
            (Ok(p), Ok(v)) => p@ == v,
            (Err(e), Err(f)) => e == f,
            _ => false,
        },
{
    let n = state.components.len();
    let mut data: Vec<PriceData> = Vec::with_capacity(n);
    let mut total: u128 = 0;
    let mut overflow = false;
    let mut i: usize = 0;
    while i < n
        invariant
            n == state.components.len(),
            n == quotes@.len(),
            i <= n,
            forall|j: int| 0 <= j < i ==> (#[trigger] quotes@[j]) is Some,
            data@.len() == i,
            forall|j: int| 0 <= j < i ==> (#[trigger] data@[j])@ == breakdown_of(state@.components, quotes@)[j],
            !overflow ==> total == quotes_total(quotes@.subrange(0, i as int)),
            overflow ==> quotes_total(quotes@.subrange(0, i as int)) > u128::MAX,
        decreases n - i,
    {
        let q = match quotes[i] {
            Some(q) => q,
            None => {
                assert(!all_quoted(quotes@));
                return Err(ContractError::AggregationFailure);
            },
        };
        let c = &state.components[i];
        proof {
            let pre = quotes@.subrange(0, i as int + 1);
            assert(pre.drop_last() =~= quotes@.subrange(0, i as int));
            assert(pre.last() == quotes@[i as int]);
        }
        if !overflow {
            let s1 = total.checked_add(q.return_amount);
            let s2 = match s1 { Some(v) => v.checked_add(q.spread_amount), None => None };
            let s3 = match s2 { Some(v) => v.checked_add(q.commission_amount), None => None };
            match s3 {
                Some(v) => total = v,
                None => overflow = true,
            }
        }
        assert(state@.components[i as int] == state.components@[i as int]@);
        data.push(PriceData { pair: copy_bytes(&c.pair), asset: copy_bytes(&c.asset), price: q });
        i = i + 1;
    }
    assert(quotes@.subrange(0, n as int) =~= quotes@);
    assert(data@.map_values(|d: PriceData| d@) =~= breakdown_of(state@.components, quotes@));
    if overflow {
        return Err(ContractError::Overflow);
    }
    Ok(PriceResponse { price: total, data })
}

/// Nominal amount of wrapper token minted for each deposit, whatever its size.
pub const MINT_AMOUNT: u128 = 1000000;

/// Decimal places of the wrapper token.
pub const TOKEN_DECIMALS: u8 = 6;

/// The swap instructions of a mint: one per component, in order, each offering
/// the component's weight times the multiplier.
pub open spec fn swaps_of(cs: Seq<ComponentView>, m: int) -> Seq<InstructionView> {
    Seq::new(
        cs.len(),
        |i: int| InstructionView::Swap { pair: cs[i].pair, asset: cs[i].asset, amount: (cs[i].unit * m) as u128 },
    )
}

/// Every component's scaled amount fits in 128 bits.
pub open spec fn swaps_fit(cs: Seq<ComponentView>, m: int) -> bool {
    forall|i: int| 0 <= i < cs.len() ==> #[trigger] cs[i].unit * m <= u128::MAX
}

/// The instruction batch of a deposit of `deposit`, or the reason it is refused.
pub open spec fn mint_outcome(
    s: Option<StateView>,
    sender: Seq<char>,
    deposit: u128,
    qs: Seq<Option<SimulationResponse>>,
) -> Result<Seq<InstructionView>, ContractError> {
    match s {
        None => Err(ContractError::NotInitialized),
        Some(st) => if !st.is_bound() {
            Err(ContractError::Unauthorized)
        } else {
            match price_outcome(st.components, qs) {
                Err(e) => Err(e),
                Ok(p) => if p.price == 0 {
                    Err(ContractError::InvalidPrice)
                } else {
                    let m = deposit as int / p.price as int;
                    if !swaps_fit(st.components, m) {
                        Err(ContractError::Overflow)
                    } else {
                        Ok(swaps_of(st.components, m).push(
                            InstructionView::Mint { token: st.token, recipient: sender, amount: MINT_AMOUNT },
                        ))
                    }
                },
            }
        },
    }
}

/// The store after a post-initialize call from `sender`, and the batch answered.
pub open spec fn post_initialize_outcome(s: Option<StateView>, sender: Seq<u8>) -> (
    Option<StateView>,
    Result<Seq<InstructionView>, ContractError>,
) {
    match s {
        None => (s, Err(ContractError::NotInitialized)),
        Some(st) => if st.is_bound() {
            (s, Err(ContractError::Unauthorized))
        } else {
            (Some(StateView { token: sender, ..st }), Ok(Seq::empty()))
        },
    }
}

/// The response holds exactly the batch `v`, or fails with the same error.
pub open spec fn handled_as(
    r: Result<HandleResponse, ContractError>,
    v: Result<Seq<InstructionView>, ContractError>,
) -> bool {
    match (r, v) {
        (Ok(resp), Ok(b)) => batch_view(resp.messages@) == b,
        (Err(e), Err(f)) => e == f,
        _ => false,
    }
}

/// The record a fresh deployment saves: the wrapper token is not bound yet.
pub open spec fn initial_state(owner: Seq<u8>, cs: Seq<ComponentView>) -> StateView {
    StateView { owner, token: Seq::empty(), components: cs }
}

/// The instruction that deploys the wrapper token, minted by `minter`.
pub open spec fn token_instantiation(code_id: u64, minter: Seq<char>) -> InstructionView {
    InstructionView::InstantiateToken {
        code_id,
        name: "wrapper token"@,
        symbol: "uWRAP"@,
        decimals: TOKEN_DECIMALS,
        minter,
    }
}

/// Sets up a deployment: saves the configuration with the wrapper token
/// unbound and asks for the wrapper token to be instantiated.
pub fn init(
    storage: &mut ConfigStore,
    owner: Vec<u8>,
    contract_addr: &String,
    token_code_id: u64,
    components: Vec<ComponentRaw>,
) -> (r: Result<InitResponse, ContractError>)
    ensures
        components@.len() == 0 ==> r is Err && r->Err_0 == ContractError::EmptyBasket
            && final(storage)@ == old(storage)@,
        components@.len() > 0 ==> r is Ok && final(storage)@ == Some(
            initial_state(owner@, components@.map_values(|c: ComponentRaw| c@)),
        ) && batch_view(r->Ok_0.messages@) == seq![token_instantiation(token_code_id, contract_addr@)],
{
    if components.len() == 0 {
        return Err(ContractError::EmptyBasket);
    }
    let state = State { owner, token: Vec::new(), components };
    config(storage, &state);
    let mut messages: Vec<Instruction> = Vec::new();
    messages.push(
        Instruction::InstantiateToken {
            code_id: token_code_id,
            name: "wrapper token".to_owned(),
            symbol: "uWRAP".to_owned(),
            decimals: TOKEN_DECIMALS,
            minter: contract_addr.clone(),
        },
    );
    assert(batch_view(messages@) =~= seq![token_instantiation(token_code_id, contract_addr@)]);
    Ok(InitResponse { messages })
}

/// Builds the batch for a deposit of `asset`: one swap per component, scaled
/// by the deposit over the basket price, then the mint to `sender`. `quotes`
/// answers `price_queries` on the stored configuration.
pub fn try_mint(
    storage: &ConfigStore,
    sender: &String,
    asset: &Asset,
    quotes: &Vec<Option<SimulationResponse>>,
) -> (r: Result<HandleResponse, ContractError>)
    requires
        storage@ is Some ==> quotes@.len() == storage@->Some_0.components.len(),
    ensures
        handled_as(r, mint_outcome(storage@, sender@, asset.amount, quotes@)),
{
    let state = match config_read(storage) {
        Ok(s) => s,
        Err(e) => return Err(e),
    };
    if state.token.len() == 0 {
        return Err(ContractError::Unauthorized);
    }
    let price = match get_price(&state, quotes) {
        Ok(p) => p.price,
        Err(e) => return Err(e),
    };
    if price == 0 {
        return Err(ContractError::InvalidPrice);
    }
    let multiplier: u128 = asset.amount / price;
    let ghost cs = state@.components;
    let n = state.components.len();
    let mut messages: Vec<Instruction> = Vec::new();
    let mut i: usize = 0;
    while i < n
        invariant
            n == state.components.len(),
            cs == state@.components,
            storage@ == Some(state@),
            state@.is_bound(),
            price > 0,
            price_outcome(cs, quotes@) is Ok && price_outcome(cs, quotes@)->Ok_0.price == price,
            multiplier as int == asset.amount as int / price as int,
            i <= n,
            messages@.len() == i,
            forall|j: int| 0 <= j < i ==> cs[j].unit * multiplier <= u128::MAX,
            forall|j: int| 0 <= j < i ==> (#[trigger] messages@[j])@ == swaps_of(cs, multiplier as int)[j],
        decreases n - i,
    {
        let c = &state.components[i];
        assert(cs[i as int] == state.components@[i as int]@);
        let amount = match c.unit.checked_mul(multiplier) {
            Some(a) => a,
            None => {
                assert(cs[i as int].unit * (multiplier as int) > u128::MAX);
                assert(!swaps_fit(cs, multiplier as int));
                return Err(ContractError::Overflow);
            },
        };
        messages.push(Instruction::Swap { pair: copy_bytes(&c.pair), asset: copy_bytes(&c.asset), amount });
        i = i + 1;
    }
    assert(swaps_fit(cs, multiplier as int));
    messages.push(Instruction::Mint { token: copy_bytes(&state.token), recipient: sender.clone(), amount: MINT_AMOUNT });
    assert(batch_view(messages@) =~= swaps_of(cs, multiplier as int).push(
        InstructionView::Mint { token: state@.token, recipient: sender@, amount: MINT_AMOUNT },
    ));
    Ok(HandleResponse { messages })
}

/// Binds the wrapper token to `sender_raw`, the caller, once: the freshly
/// instantiated token calls this back, and any later call is refused.
pub fn try_post_initialize(storage: &mut ConfigStore, sender_raw: &Vec<u8>) -> (r: Result<HandleResponse, ContractError>)
    ensures
        final(storage)@ == post_initialize_outcome(old(storage)@, sender_raw@).0,
        handled_as(r, post_initialize_outcome(old(storage)@, sender_raw@).1),
{
    let state = match config_read(storage) {
        Ok(s) => s,
        Err(e) => return Err(e),
    };
    if state.token.len() != 0 {
        return Err(ContractError::Unauthorized);
    }
    let bound = State { owner: state.owner, token: copy_bytes(sender_raw), components: state.components };
    config(storage, &bound);
    let messages: Vec<Instruction> = Vec::new();
    assert(batch_view(messages@) =~= Seq::empty());
    Ok(HandleResponse { messages })
}

/// Redemption is not supported yet: answers with an empty batch and changes
/// nothing.
pub fn try_redeem(storage: &ConfigStore, asset: &Asset) -> (r: Result<HandleResponse, ContractError>)
    ensures
        handled_as(r, Ok(Seq::empty())),
{
    let messages: Vec<Instruction> = Vec::new();
    assert(batch_view(messages@) =~= Seq::empty());
    Ok(HandleResponse { messages })
}

/// Routes a message from `sender` (canonical form `sender_raw`); `quotes`
/// answers `price_queries` on the stored configuration when it is a mint.
pub fn handle(
    storage: &mut ConfigStore,
    sender: &String,
    sender_raw: &Vec<u8>,
    msg: &HandleMsg,
    quotes: &Vec<Option<SimulationResponse>>,
) -> (r: Result<HandleResponse, ContractError>)
    requires
        msg is Mint && old(storage)@ is Some ==> quotes@.len() == old(storage)@->Some_0.components.len(),
    ensures
        match msg {
            HandleMsg::PostInitialize {  } => final(storage)@ == post_initialize_outcome(old(storage)@, sender_raw@).0
                && handled_as(r, post_initialize_outcome(old(storage)@, sender_raw@).1),
            HandleMsg::Mint { asset } => final(storage)@ == old(storage)@ && handled_as(
                r,
                mint_outcome(old(storage)@, sender@, asset.amount, quotes@),
            ),
            HandleMsg::Redeem { asset } => final(storage)@ == old(storage)@ && handled_as(r, Ok(Seq::empty())),
        },
{
    match msg {
        HandleMsg::PostInitialize {  } => try_post_initialize(storage, sender_raw),
        HandleMsg::Mint { asset } => try_mint(storage, sender, asset, quotes),
        HandleMsg::Redeem { asset } => try_redeem(storage, asset),
    }
}

/// The owner recorded in the configuration.
pub open spec fn config_outcome(s: Option<StateView>) -> Result<Seq<u8>, ContractError> {
    match load_outcome(s) {
        Ok(st) => Ok(st.owner),
        Err(e) => Err(e),
    }
}

/// The basket price on the stored configuration.
pub open spec fn query_price_outcome(
    s: Option<StateView>,
    qs: Seq<Option<SimulationResponse>>,
) -> Result<PriceResponseView, ContractError> {
    match load_outcome(s) {
        Ok(st) => price_outcome(st.components, qs),
        Err(e) => Err(e),
    }
}

fn query_config(storage: &ConfigStore) -> (r: Result<ConfigResponse, ContractError>)
    ensures
        match (r, config_outcome(storage@)) {
            (Ok(c), Ok(o)) => c.owner@ == o,
            (Err(e), Err(f)) => e == f,
            _ => false,
        },
{
    match config_read(storage) {
        Ok(s) => Ok(ConfigResponse { owner: s.owner }),
        Err(e) => Err(e),
    }
}

fn query_price(storage: &ConfigStore, quotes: &Vec<Option<SimulationResponse>>) -> (r: Result<PriceResponse, ContractError>)
    requires
        storage@ is Some ==> quotes@.len() == storage@->Some_0.components.len(),
    ensures
        match (r, query_price_outcome(storage@, quotes@)) {
            (Ok(p), Ok(v)) => p@ == v,
            (Err(e), Err(f)) => e == f,
            _ => false,
        },
{
    match config_read(storage) {
        Ok(s) => get_price(&s, quotes),
        Err(e) => Err(e),
    }
}

/// Answers a read-only query; `quotes` answers `price_queries` on the stored
/// configuration when the price is asked for.
pub fn query(storage: &ConfigStore, msg: &QueryMsg, quotes: &Vec<Option<SimulationResponse>>) -> (r: Result<QueryResponse, ContractError>)
    requires
        msg is Price && storage@ is Some ==> quotes@.len() == storage@->Some_0.components.len(),
    ensures
        match msg {
            QueryMsg::Config {  } => match (r, config_outcome(storage@)) {
                (Ok(QueryResponse::Config(c)), Ok(o)) => c.owner@ == o,
                (Err(e), Err(f)) => e == f,
                _ => false,
            },
            QueryMsg::Price {  } => match (r, query_price_outcome(storage@, quotes@)) {
                (Ok(QueryResponse::Price(p)), Ok(v)) => p@ == v,
                (Err(e), Err(f)) => e == f,
                _ => false,
            },
        },
{
    match msg {
        QueryMsg::Config {  } => match query_config(storage) {
            Ok(c) => Ok(QueryResponse::Config(c)),
            Err(e) => Err(e),
        },
        QueryMsg::Price {  } => match query_price(storage, quotes) {
            Ok(p) => Ok(QueryResponse::Price(p)),
            Err(e) => Err(e),
        },
    }
}

/// Pricing a basket of N components asks N simulated swaps, one per
/// component in configured order, and a price obtained from their answers
/// lists its breakdown in that same order.
pub proof fn lemma_pricing_follows_components(cs: Seq<ComponentView>, qs: Seq<Option<SimulationResponse>>)
    requires
        qs.len() == cs.len(),
    ensures
        queries_of(cs).len() == cs.len(),
        forall|i: int|
            0 <= i < cs.len() ==> (#[trigger] queries_of(cs)[i]).pair == cs[i].pair && queries_of(cs)[i].asset
                == cs[i].asset && queries_of(cs)[i].amount == cs[i].unit,
        price_outcome(cs, qs) is Ok ==> price_outcome(cs, qs)->Ok_0.data.len() == cs.len(),
        price_outcome(cs, qs) is Ok ==> forall|i: int|
            0 <= i < cs.len() ==> (#[trigger] price_outcome(cs, qs)->Ok_0.data[i]) == (PriceDataView {
                pair: cs[i].pair,
                asset: cs[i].asset,
                price: qs[i]->Some_0,
            }),
{
}

/// Asking for the configuration or the price twice, with the record and the
/// pairs' quotes unchanged, gives the same answer both times.
pub proof fn lemma_queries_repeat(
    s1: Option<StateView>,
    s2: Option<StateView>,
    q1: Seq<Option<SimulationResponse>>,
    q2: Seq<Option<SimulationResponse>>,
)
    requires
        s1 == s2,
        q1 == q2,
    ensures
        config_outcome(s1) == config_outcome(s2),
        query_price_outcome(s1, q1) == query_price_outcome(s2, q2),
{
}

/// Post-initialize is accepted once: after a caller has bound the wrapper
/// token, any further call is refused as unauthorized and the binding stays.
pub proof fn lemma_post_initialize_once(s: Option<StateView>, first: Seq<u8>, second: Seq<u8>)
    requires
        first.len() > 0,
        post_initialize_outcome(s, first).1 is Ok,
    ensures
        post_initialize_outcome(s, first).0->Some_0.token == first,
        post_initialize_outcome(post_initialize_outcome(s, first).0, second) == (
            post_initialize_outcome(s, first).0,
            Err::<Seq<InstructionView>, ContractError>(ContractError::Unauthorized),
        ),
{
}

/// A deposit into a bound basket whose price comes to zero is refused for
/// its price, and no instruction is produced.
pub proof fn lemma_zero_price_refused(
    s: Option<StateView>,
    sender: Seq<char>,
    deposit: u128,
    qs: Seq<Option<SimulationResponse>>,
)
    requires
        s is Some && s->Some_0.is_bound(),
        query_price_outcome(s, qs) is Ok,
        query_price_outcome(s, qs)->Ok_0.price == 0,
    ensures
        mint_outcome(s, sender, deposit, qs) == Err::<Seq<InstructionView>, ContractError>(ContractError::InvalidPrice),
{
}

/// An accepted deposit into an N-component basket gives N + 1 instructions:
/// a swap for each component, in order, then a single mint to the sender.
pub proof fn lemma_mint_batch_shape(
    s: Option<StateView>,
    sender: Seq<char>,
    deposit: u128,
    qs: Seq<Option<SimulationResponse>>,
)
    requires
        mint_outcome(s, sender, deposit, qs) is Ok,
    ensures
        ({
            let b = mint_outcome(s, sender, deposit, qs)->Ok_0;
            let cs = s->Some_0.components;
            &&& b.len() == cs.len() + 1
            &&& forall|i: int|
                0 <= i < cs.len() ==> (#[trigger] b[i]) is Swap && b[i]->Swap_pair == cs[i].pair && b[i]->Swap_asset
                    == cs[i].asset
            &&& b[cs.len() as int] is Mint && b[cs.len() as int]->Mint_recipient == sender
        }),
{
}

/// A deposit before the wrapper token is bound is refused, and no instruction
/// is produced.
pub proof fn lemma_unbound_mint_refused(
    s: Option<StateView>,
    sender: Seq<char>,
    deposit: u128,
    qs: Seq<Option<SimulationResponse>>,
)
    requires
        s is Some && !s->Some_0.is_bound(),
    ensures
        mint_outcome(s, sender, deposit, qs) == Err::<Seq<InstructionView>, ContractError>(ContractError::Unauthorized),
{
}

} // verus!
