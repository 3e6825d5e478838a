//! What the block engine wants simulated.
use vstd::prelude::*;

use crate::error;
use crate::error::PbsError;
use crate::solana;
use crate::solana::pubkey_try_from;

verus! {

/// The block engine's answer to the request for its simulation settings. Accounts are raw bytes.
#[derive(Debug)]
pub struct SimulationSettingsResponse {
    pub simulate_all: Option<bool>,
    pub account_include: Vec<Vec<u8>>,
    pub account_exclude: Vec<Vec<u8>>,
    pub account_required: Vec<Vec<u8>>,
}

/// Which transactions the block engine wants simulated.
#[derive(Debug)]
pub struct SimulationSettings {
    pub simulate_all: bool,
    pub account_include: Vec<[u8; 32]>,
    pub account_exclude: Vec<[u8; 32]>,
    pub account_required: Vec<[u8; 32]>,
}

/// The content of each byte string of a list.
pub open spec fn raw_bytes(list: Seq<Vec<u8>>) -> Seq<Seq<u8>> {
    list.map_values(|bytes: Vec<u8>| bytes@)
}

/// Whether each byte string of a list is as long as an account key.
pub open spec fn all_keys(list: Seq<Seq<u8>>) -> bool {
    forall|i: int| 0 <= i < list.len() ==> (#[trigger] list[i]).len() == 32
}

/// What a [`SimulationSettingsResponse`] holds.
#[verifier::ext_equal]
pub struct SimulationSettingsResponseView {
    pub simulate_all: Option<bool>,
    pub account_include: Seq<Seq<u8>>,
    pub account_exclude: Seq<Seq<u8>>,
    pub account_required: Seq<Seq<u8>>,
}

impl View for SimulationSettingsResponse {
    type V = SimulationSettingsResponseView;

    open spec fn view(&self) -> SimulationSettingsResponseView {
        SimulationSettingsResponseView {
            simulate_all: self.simulate_all,
            account_include: raw_bytes(self.account_include@),
            account_exclude: raw_bytes(self.account_exclude@),
            account_required: raw_bytes(self.account_required@),
        }
    }
}

/// What a [`SimulationSettings`] holds.
#[verifier::ext_equal]
pub struct SimulationSettingsView {
    pub simulate_all: bool,
    pub account_include: Seq<Seq<u8>>,
    pub account_exclude: Seq<Seq<u8>>,
    pub account_required: Seq<Seq<u8>>,
}

impl View for SimulationSettings {
    type V = SimulationSettingsView;

    open spec fn view(&self) -> SimulationSettingsView {
        SimulationSettingsView {
            simulate_all: self.simulate_all,
            account_include: solana::key_bytes(self.account_include@),
            account_exclude: solana::key_bytes(self.account_exclude@),
            account_required: solana::key_bytes(self.account_required@),
        }
    }
}

impl SimulationSettingsResponseView {
    /// Whether each account of the answer is an account key.
    pub open spec fn well_formed(self) -> bool {
        &&& all_keys(self.account_include)
        &&& all_keys(self.account_exclude)
        &&& all_keys(self.account_required)
    }

    /// The settings that the answer names; an account that is no account key makes it unusable.
    pub open spec fn settings(self) -> Result<SimulationSettingsView, error::PbsErrorView> {
        if self.well_formed() {
            Ok(
                SimulationSettingsView {
                    simulate_all: self.simulate_all == Some(true),
                    account_include: self.account_include,
                    account_exclude: self.account_exclude,
                    account_required: self.account_required,
                },
            )
        } else {
            Err(error::PbsErrorView::SimulationSettingsError)
        }
    }
}

/// Takes each byte string of a list for an account key.
fn account_keys(list: Vec<Vec<u8>>) -> (keys: Result<Vec<[u8; 32]>, PbsError>)
    ensures
        match keys {
            Ok(keys) => all_keys(raw_bytes(list@)) && solana::key_bytes(keys@) == raw_bytes(list@),
            Err(error) => !all_keys(raw_bytes(list@)) && error == PbsError::SimulationSettingsError,
        },
{
    let ghost raw = raw_bytes(list@);
    let mut keys: Vec<[u8; 32]> = Vec::new();
    for bytes in iter: list
        invariant
            iter.seq() == list@,
            raw == raw_bytes(list@),
            solana::key_bytes(keys@) == raw.take(iter.index() as int),
            all_keys(raw.take(iter.index() as int)),
    {
        let ghost index = iter.index() as int;
        let ghost earlier = keys@;
        assert(raw[index] == bytes@);
        match pubkey_try_from(bytes) {
            Ok(key) => {
                keys.push(key);
                assert(solana::key_bytes(keys@) == solana::key_bytes(earlier).push(key@));
                assert(raw.take(index + 1) == raw.take(index).push(raw[index]));
            },
            Err(_) => {
                return Err(PbsError::SimulationSettingsError);
            },
        }
    }
    assert(raw.take(raw.len() as int) == raw);
    Ok(keys)
}

impl SimulationSettings {
    /// Reads the block engine's answer: an account that is no account key makes it unusable.
    pub fn try_from(value: SimulationSettingsResponse) -> (settings: Result<Self, PbsError>)
        ensures
            match settings {
                Ok(settings) => value@.settings() == Ok::<_, error::PbsErrorView>(settings@),
                Err(error) => value@.settings() == Err::<SimulationSettingsView, _>(error@),
            },
    {
        let SimulationSettingsResponse {
            simulate_all,
            account_include,
            account_exclude,
            account_required,
        } = value;
        let account_include = account_keys(account_include)?;
        let account_exclude = account_keys(account_exclude)?;
        let account_required = account_keys(account_required)?;
        Ok(
            SimulationSettings {
                simulate_all: simulate_all.unwrap_or(false),
                account_include,
                account_exclude,
                account_required,
            },
        )
    }
}

/// An answer is read if and only if each of its accounts is 32 bytes long; what is read are its own
/// lists, each in its place, and to simulate all only where the answer says so. Any other answer is
/// an error.
pub proof fn answers_are_read_as_they_are(response: SimulationSettingsResponseView)
    ensures
        response.settings() is Ok <==> {
            &&& forall|i: int|
                0 <= i < response.account_include.len() ==> (
                #[trigger] response.account_include[i]).len() == 32
            &&& forall|i: int|
                0 <= i < response.account_exclude.len() ==> (
                #[trigger] response.account_exclude[i]).len() == 32
            &&& forall|i: int|
                0 <= i < response.account_required.len() ==> (
                #[trigger] response.account_required[i]).len() == 32
        },
        response.settings() matches Ok(settings) ==> {
            &&& settings.simulate_all <==> response.simulate_all == Some(true)
            &&& settings.account_include == response.account_include
            &&& settings.account_exclude == response.account_exclude
            &&& settings.account_required == response.account_required
        },
        response.settings() matches Err(error) ==> error is SimulationSettingsError,
{
}

/// What an answer and what settings hold is what their lists hold, account by account, each list in
/// its place.
pub proof fn accounts_are_seen_one_by_one(
    response: SimulationSettingsResponse,
    settings: SimulationSettings,
)
    ensures
        response@.simulate_all == response.simulate_all,
        response@.account_include.len() == response.account_include@.len(),
        response@.account_exclude.len() == response.account_exclude@.len(),
        response@.account_required.len() == response.account_required@.len(),
        forall|i: int|
            0 <= i < response.account_include@.len() ==> #[trigger] response@.account_include[i]
                == response.account_include@[i]@,
        forall|i: int|
            0 <= i < response.account_exclude@.len() ==> #[trigger] response@.account_exclude[i]
                == response.account_exclude@[i]@,
        forall|i: int|
            0 <= i < response.account_required@.len() ==> #[trigger] response@.account_required[i]
                == response.account_required@[i]@,
        settings@.simulate_all == settings.simulate_all,
        settings@.account_include.len() == settings.account_include@.len(),
        settings@.account_exclude.len() == settings.account_exclude@.len(),
        settings@.account_required.len() == settings.account_required@.len(),
        forall|i: int|
            0 <= i < settings.account_include@.len() ==> #[trigger] settings@.account_include[i]
                == settings.account_include@[i]@,
        forall|i: int|
            0 <= i < settings.account_exclude@.len() ==> #[trigger] settings@.account_exclude[i]
                == settings.account_exclude@[i]@,
        forall|i: int|
            0 <= i < settings.account_required@.len() ==> #[trigger] settings@.account_required[i]
                == settings.account_required@[i]@,
{
}

} // verus!
