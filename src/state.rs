use vstd::prelude::*;

use crate::error::ContractError;

verus! {

/// One component of the basket, with canonical addresses.
#[derive(Debug)]
pub struct ComponentRaw {
    pub asset: Vec<u8>,
    pub pair: Vec<u8>,
    pub unit: u128,
}

/// One component of the basket, with human-readable addresses.
#[derive(Debug)]
pub struct Component {
    pub asset: String,
    pub pair: String,
    pub unit: u128,
}

/// The basket configuration: owner, wrapper token (empty while unbound), and
/// the ordered components.
#[derive(Debug)]
pub struct State {
    pub owner: Vec<u8>,
    pub token: Vec<u8>,
    pub components: Vec<ComponentRaw>,
}

/// A component as a value.
pub struct ComponentView {
    pub asset: Seq<u8>,
    pub pair: Seq<u8>,
    pub unit: u128,
}

/// The configuration record as a value.
pub struct StateView {
    pub owner: Seq<u8>,
    pub token: Seq<u8>,
    pub components: Seq<ComponentView>,
}

impl View for ComponentRaw {
    type V = ComponentView;

    open spec fn view(&self) -> ComponentView {
        ComponentView { asset: self.asset@, pair: self.pair@, unit: self.unit }
    }
}

impl View for State {
    type V = StateView;

    open spec fn view(&self) -> StateView {
        StateView {
            owner: self.owner@,
            token: self.token@,
            components: self.components@.map_values(|c: ComponentRaw| c@),
        }
    }
}

impl StateView {
    /// The wrapper token has been bound by the post-initialize callback.
    pub open spec fn is_bound(self) -> bool {
        self.token.len() > 0
    }
}

/// Copies a byte string.
pub fn copy_bytes(v: &Vec<u8>) -> (r: Vec<u8>)
    ensures
        r@ == v@,
{
    let mut r: Vec<u8> = Vec::with_capacity(v.len());
    let mut i: usize = 0;
    while i < v.len()
        invariant
            i <= v.len(),
            r@ == v@.subrange(0, i as int),
        decreases v.len() - i,
    {
        r.push(v[i]);
        i = i + 1;
        assert(r@ =~= v@.subrange(0, i as int));
    }
    assert(r@ =~= v@);
    r
}

impl ComponentRaw {
    pub fn duplicate(&self) -> (r: ComponentRaw)
        ensures
            r@ == self@,
    {
        ComponentRaw { asset: copy_bytes(&self.asset), pair: copy_bytes(&self.pair), unit: self.unit }
    }
}

impl State {
    pub fn duplicate(&self) -> (r: State)
        ensures
            r@ == self@,
    {
        let mut components: Vec<ComponentRaw> = Vec::with_capacity(self.components.len());
        let mut i: usize = 0;
        while i < self.components.len()
            invariant
                i <= self.components.len(),
                components@.len() == i,
                forall|j: int| 0 <= j < i ==> components@[j]@ == self.components@[j]@,
            decreases self.components.len() - i,
        {
            components.push(self.components[i].duplicate());
            i = i + 1;
        }
        let r = State { owner: copy_bytes(&self.owner), token: copy_bytes(&self.token), components };
        assert(r@.components =~= self@.components);
        r
    }
}

/// Storage for the singleton configuration record.
pub struct ConfigStore {
    record: Option<State>,
}

impl View for ConfigStore {
    type V = Option<StateView>;

    closed spec fn view(&self) -> Option<StateView> {
        match self.record {
            Some(s) => Some(s@),
            None => None,
        }
    }
}

/// What loading the record yields.
pub open spec fn load_outcome(s: Option<StateView>) -> Result<StateView, ContractError> {
    match s {
        Some(v) => Ok(v),
        None => Err(ContractError::NotInitialized),
    }
}

/// What the store holds after saving `data`, whatever it held before.
pub open spec fn save_outcome(before: Option<StateView>, data: StateView) -> Option<StateView> {
    Some(data)
}

/// Saving a record and then loading it gives back a record equal in every
/// field to the one saved.
pub proof fn lemma_save_then_load(before: Option<StateView>, data: StateView)
    ensures
        load_outcome(save_outcome(before, data)) == Ok::<StateView, ContractError>(data),
{
}

impl ConfigStore {
    /// A store in which nothing has been saved yet.
    pub fn new() -> (r: ConfigStore)
        ensures
            r@ is None,
    {
        ConfigStore { record: None }
    }

    /// A store that already holds `data`.
    pub fn with_record(data: State) -> (r: ConfigStore)
        ensures
            r@ == Some(data@),
    {
        ConfigStore { record: Some(data) }
    }
}

/// Saves the configuration record, replacing any earlier one.
pub fn config(storage: &mut ConfigStore, data: &State)
    ensures
        final(storage)@ == save_outcome(old(storage)@, data@),
{
    storage.record = Some(data.duplicate());
}

/// Loads the configuration record.
pub fn config_read(storage: &ConfigStore) -> (r: Result<State, ContractError>)
    ensures
        match (r, load_outcome(storage@)) {
            (Ok(s), Ok(v)) => s@ == v,
            (Err(e), Err(f)) => e == f,
            _ => false,
        },
{
    match &storage.record {
        Some(s) => Ok(s.duplicate()),
        None => Err(ContractError::NotInitialized),
    }
}

} // verus!
