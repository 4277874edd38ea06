//! The data of the status page: what the node reports of itself, in the
//! shape that the page template reads.

use crate::text::{format_utc, group_digits, hex_encode, hex_text, grouped_decimal, utc_text};
use candid::{Nat, Principal};
use ic_cdk::api::management_canister::main::CanisterChange;
use num_traits::cast::ToPrimitive;
use vstd::prelude::*;

verus! {

/// `candid::Nat`: a natural number of any size.
#[verifier::external_type_specification]
#[verifier::external_body]
pub struct ExNat(Nat);

/// `candid::Principal`: the identity of a controller, carried through.
#[verifier::external_type_specification]
#[verifier::external_body]
pub struct ExPrincipal(Principal);

/// `ic_cdk::api::management_canister::main::CanisterChange`: an entry of the
/// node's history, carried through.
#[verifier::external_type_specification]
#[verifier::external_body]
pub struct ExCanisterChange(CanisterChange);

/// The number that a `Nat` holds.
pub uninterp spec fn nat_value(num: Nat) -> nat;

/// `ToPrimitive::to_u64` on the big integer inside a `Nat`: the number where
/// it fits into 64 bits, else `None`.
#[verifier::external_body]
fn nat_to_u64(num: &Nat) -> (value: Option<u64>)
    ensures
        value == if nat_value(*num) <= u64::MAX {
            Some(nat_value(*num) as u64)
        } else {
            None
        },
{
    num.0.to_u64()
}

/// Whether the node is running.
#[derive(Clone, Copy, Debug, PartialEq, Eq, Structural)]
pub enum RunState {
    Running,
    Stopping,
    Stopped,
}

/// Who may read the logs of the node.
#[derive(Clone, Copy, Debug, PartialEq, Eq, Structural)]
pub enum LogAccess {
    Controllers,
    Public,
}

/// The settings under which the node runs.
pub struct Settings {
    pub controllers: Vec<Principal>,
    pub compute_allocation: Nat,
    pub memory_allocation: Nat,
    pub freezing_threshold: Nat,
    pub reserved_cycles_limit: Nat,
    pub log_visibility: LogAccess,
    pub wasm_memory_limit: Nat,
}

/// The totals of the query calls that the node has answered.
pub struct QueryStats {
    pub num_calls_total: Nat,
    pub num_instructions_total: Nat,
    pub request_payload_bytes_total: Nat,
    pub response_payload_bytes_total: Nat,
}

/// The status of the node as the management interface reports it, with its
/// counters as unbounded numbers.
pub struct CanisterStatus {
    pub status: RunState,
    pub settings: Settings,
    pub module_hash: Option<Vec<u8>>,
    pub memory_size: Nat,
    pub cycles: Nat,
    pub idle_cycles_burned_per_day: Nat,
    pub query_stats: QueryStats,
    pub reserved_cycles: Nat,
}

/// The status of the node with every counter in 64 bits and the module hash
/// as hexadecimal text, together with what a pass adds: the time of the
/// pass, the recent changes of the node, and the cost of the last pass.
pub struct DefiniteCanisterStatus {
    pub status: RunState,
    pub module_hash: String,
    pub memory_size: u64,
    pub cycles: u64,
    pub idle_cycles_burned_per_day: u64,
    pub reserved_cycles: u64,
    pub query_num_calls_total: u64,
    pub query_num_instructions_total: u64,
    pub query_request_payload_bytes_total: u64,
    pub query_response_payload_bytes_total: u64,
    pub controllers: Vec<Principal>,
    pub compute_allocation: u64,
    pub memory_allocation: u64,
    pub freezing_threshold: u64,
    pub reserved_cycles_limit: u64,
    pub log_visibility: LogAccess,
    pub wasm_memory_limit: u64,
    pub last_updated_at: String,
    pub canister_history: Vec<CanisterChange>,
    pub last_cycles_cost: u64,
}

/// Why a status cannot be shown.
#[derive(Clone, Copy, Debug, PartialEq, Eq, Structural)]
pub enum StatusError {
    /// The node has no module installed.
    NoModule,
    /// A counter does not fit into 64 bits.
    CounterTooLarge,
}

/// Whether a number fits into 64 bits.
pub open spec fn fits_u64(num: Nat) -> bool {
    nat_value(num) <= u64::MAX
}

/// Whether every counter of a status fits into 64 bits.
pub open spec fn counters_fit(value: CanisterStatus) -> bool {
    &&& fits_u64(value.memory_size)
    &&& fits_u64(value.cycles)
    &&& fits_u64(value.idle_cycles_burned_per_day)
    &&& fits_u64(value.reserved_cycles)
    &&& fits_u64(value.query_stats.num_calls_total)
    &&& fits_u64(value.query_stats.num_instructions_total)
    &&& fits_u64(value.query_stats.request_payload_bytes_total)
    &&& fits_u64(value.query_stats.response_payload_bytes_total)
    &&& fits_u64(value.settings.compute_allocation)
    &&& fits_u64(value.settings.memory_allocation)
    &&& fits_u64(value.settings.freezing_threshold)
    &&& fits_u64(value.settings.reserved_cycles_limit)
    &&& fits_u64(value.settings.wasm_memory_limit)
}

/// `shown` carries over every field of `value`: the counters by their
/// number, the module hash as hexadecimal text.
pub open spec fn carries_over(value: CanisterStatus, shown: DefiniteCanisterStatus) -> bool {
    &&& value.module_hash matches Some(hash)
    &&& shown.status == value.status
    &&& shown.module_hash@ == hex_text(hash@)
    &&& shown.memory_size == nat_value(value.memory_size)
    &&& shown.cycles == nat_value(value.cycles)
    &&& shown.idle_cycles_burned_per_day == nat_value(value.idle_cycles_burned_per_day)
    &&& shown.reserved_cycles == nat_value(value.reserved_cycles)
    &&& shown.query_num_calls_total == nat_value(value.query_stats.num_calls_total)
    &&& shown.query_num_instructions_total == nat_value(value.query_stats.num_instructions_total)
    &&& shown.query_request_payload_bytes_total == nat_value(
        value.query_stats.request_payload_bytes_total,
    )
    &&& shown.query_response_payload_bytes_total == nat_value(
        value.query_stats.response_payload_bytes_total,
    )
    &&& shown.controllers == value.settings.controllers
    &&& shown.compute_allocation == nat_value(value.settings.compute_allocation)
    &&& shown.memory_allocation == nat_value(value.settings.memory_allocation)
    &&& shown.freezing_threshold == nat_value(value.settings.freezing_threshold)
    &&& shown.reserved_cycles_limit == nat_value(value.settings.reserved_cycles_limit)
    &&& shown.log_visibility == value.settings.log_visibility
    &&& shown.wasm_memory_limit == nat_value(value.settings.wasm_memory_limit)
}

/// `shown` is the definite form of `value`: every field carried over, and
/// nothing of a pass filled in yet.
pub open spec fn is_definite_form(value: CanisterStatus, shown: DefiniteCanisterStatus) -> bool {
    &&& carries_over(value, shown)
    &&& shown.last_updated_at@ == Seq::<char>::empty()
    &&& shown.canister_history@ == Seq::<CanisterChange>::empty()
    &&& shown.last_cycles_cost == 0
}

/// `page` is what the status page shows for `value` in a pass at `time`:
/// every field of `value` carried over, with the time of the pass, the
/// recent changes and the cost of the last pass filled in.
pub open spec fn is_page_data(
    value: CanisterStatus,
    time: u64,
    history: Vec<CanisterChange>,
    last_cycles_cost: u64,
    page: DefiniteCanisterStatus,
) -> bool {
    &&& carries_over(value, page)
    &&& Some(page.last_updated_at@) == utc_text(signed_nanos(time) as i64, timestamp_pattern())
    &&& page.canister_history == history
    &&& page.last_cycles_cost == last_cycles_cost
}

/// The number in 64 bits, or `None` where it does not fit.
pub fn checked_nu64(num: &Nat) -> (value: Option<u64>)
    ensures
        value is Some <==> fits_u64(*num),
        value matches Some(v) ==> v == nat_value(*num),
{
    nat_to_u64(num)
}

/// The number in 64 bits.
pub fn nu64(num: Nat) -> (value: u64)
    requires
        fits_u64(num),
    ensures
        value == nat_value(num),
{
    match nat_to_u64(&num) {
        Some(value) => value,
        None => unreached(),
    }
}

/// The pattern in which the time of a pass is written.
pub open spec fn timestamp_pattern() -> Seq<char> {
    "%Y-%m-%d %H:%M:%S"@
}

/// Nanoseconds since the epoch as a signed number: a count beyond the
/// largest signed number wraps round to the negative ones.
pub open spec fn signed_nanos(time: u64) -> int {
    if time <= i64::MAX {
        time as int
    } else {
        time - 0x1_0000_0000_0000_0000
    }
}

/// The time of a pass, given in nanoseconds since the Unix epoch, as
/// `YYYY-MM-DD hh:mm:ss` in UTC.
pub fn timestamp(time: u64) -> (text: String)
    ensures
        Some(text@) == utc_text(signed_nanos(time) as i64, timestamp_pattern()),
{
    let nanos: i64 = if time <= 0x7fff_ffff_ffff_ffff {
        time as i64
    } else {
        ((time - 0x8000_0000_0000_0000) as i64) + i64::MIN
    };
    match format_utc(nanos, "%Y-%m-%d %H:%M:%S") {
        Some(text) => text,
        None => unreached(),
    }
}

/// A counter as the status page shows it: in decimal, with `_` between its
/// groups of three digits.
pub fn to_num_locale(value: u64) -> (text: String)
    ensures
        text@ == grouped_decimal(value as nat, "_"@),
{
    proof {
        reveal_strlit("_");
    }
    group_digits(value, "_")
}

impl DefiniteCanisterStatus {
    /// The definite form of a status, or the reason why it has none: no
    /// module is installed, or else a counter does not fit into 64 bits.
    pub fn checked_from(value: CanisterStatus) -> (outcome: Result<Self, StatusError>)
        ensures
            value.module_hash is None ==> outcome == Err::<Self, StatusError>(StatusError::NoModule),
            value.module_hash is Some && !counters_fit(value) ==> outcome == Err::<
                Self,
                StatusError,
            >(StatusError::CounterTooLarge),
            value.module_hash is Some && counters_fit(value) ==> outcome is Ok,
            outcome matches Ok(shown) ==> is_definite_form(value, shown),
    {
        let module_hash = match &value.module_hash {
            Some(hash) => hex_encode(hash),
            None => { return Err(StatusError::NoModule); },
        };
        let memory_size = checked_nu64(&value.memory_size);
        let cycles = checked_nu64(&value.cycles);
        let idle_cycles_burned_per_day = checked_nu64(&value.idle_cycles_burned_per_day);
        let reserved_cycles = checked_nu64(&value.reserved_cycles);
        let calls = checked_nu64(&value.query_stats.num_calls_total);
        let instructions = checked_nu64(&value.query_stats.num_instructions_total);
        let request_bytes = checked_nu64(&value.query_stats.request_payload_bytes_total);
        let response_bytes = checked_nu64(&value.query_stats.response_payload_bytes_total);
        let compute_allocation = checked_nu64(&value.settings.compute_allocation);
        let memory_allocation = checked_nu64(&value.settings.memory_allocation);
        let freezing_threshold = checked_nu64(&value.settings.freezing_threshold);
        let reserved_cycles_limit = checked_nu64(&value.settings.reserved_cycles_limit);
        let wasm_memory_limit = checked_nu64(&value.settings.wasm_memory_limit);
        match (
            memory_size,
            cycles,
            idle_cycles_burned_per_day,
            reserved_cycles,
            calls,
            instructions,
            request_bytes,
            response_bytes,
            compute_allocation,
            memory_allocation,
            freezing_threshold,
            reserved_cycles_limit,
            wasm_memory_limit,
        ) {
            (
                Some(memory_size),
                Some(cycles),
                Some(idle_cycles_burned_per_day),
                Some(reserved_cycles),
                Some(calls),
                Some(instructions),
                Some(request_bytes),
                Some(response_bytes),
                Some(compute_allocation),
                Some(memory_allocation),
                Some(freezing_threshold),
                Some(reserved_cycles_limit),
                Some(wasm_memory_limit),
            ) => Ok(
                DefiniteCanisterStatus {
                    status: value.status,
                    module_hash,
                    memory_size,
                    cycles,
                    idle_cycles_burned_per_day,
                    reserved_cycles,
                    query_num_calls_total: calls,
                    query_num_instructions_total: instructions,
                    query_request_payload_bytes_total: request_bytes,
                    query_response_payload_bytes_total: response_bytes,
                    controllers: value.settings.controllers,
                    compute_allocation,
                    memory_allocation,
                    freezing_threshold,
                    reserved_cycles_limit,
                    log_visibility: value.settings.log_visibility,
                    wasm_memory_limit,
                    last_updated_at: String::new(),
                    canister_history: Vec::new(),
                    last_cycles_cost: 0,
                },
            ),
            _ => Err(StatusError::CounterTooLarge),
        }
    }

    /// The definite form of a status that has a module installed and whose
    /// counters fit into 64 bits.
    pub fn from(value: CanisterStatus) -> (shown: Self)
        requires
            value.module_hash is Some,
            counters_fit(value),
        ensures
            is_definite_form(value, shown),
    {
        match Self::checked_from(value) {
            Ok(shown) => shown,
            Err(_) => unreached(),
        }
    }
}

/// The data of the status page for a pass at `time`: the definite form of
/// `value` with the time of the pass, the recent changes of the node and the
/// cost of the last pass filled in.
pub fn status_page_data(
    value: CanisterStatus,
    time: u64,
    history: Vec<CanisterChange>,
    last_cycles_cost: u64,
) -> (outcome: Result<DefiniteCanisterStatus, StatusError>)
    ensures
        value.module_hash is None ==> outcome matches Err(StatusError::NoModule),
        value.module_hash is Some && !counters_fit(value) ==> outcome matches Err(
            StatusError::CounterTooLarge,
        ),
        value.module_hash is Some && counters_fit(value) ==> outcome is Ok,
        outcome matches Ok(page) ==> is_page_data(value, time, history, last_cycles_cost, page),
{
    match DefiniteCanisterStatus::checked_from(value) {
        Err(reason) => Err(reason),
        Ok(shown) => {
            let mut page = shown;
            page.last_updated_at = timestamp(time);
            page.canister_history = history;
            page.last_cycles_cost = last_cycles_cost;
            Ok(page)
        },
    }
}

} // verus!
