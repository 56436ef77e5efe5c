//! The value store: handle allocation, constructors, operators over
//! handles, pinning, and the sweep.

use crate::buffer::AllocatedString;
use crate::laws::lemma_wf_is_preserved;
use crate::model::StateModel;
use crate::pattern::{compile_outcome, model_of, Pattern};
use crate::value::{RtlValue, ValueModel};
use std::collections::{HashMap, HashSet};
use vstd::prelude::*;

verus! {

broadcast use vstd::std_specs::hash::group_hash_axioms;

/// The store. Its two named mappings are kept for extensions; no operation
/// reads or writes them.
pub struct RtlState {
    field_set: HashMap<String, RtlValue>,
    reserved_elements: u64,
    value_counter: u64,
    values: HashMap<u64, RtlValue>,
    flags: HashMap<String, RtlValue>,
    permanents: HashSet<u64>,
}

/// The model of a mapping from names to values.
spec fn named_values(entries: Map<String, RtlValue>) -> Map<Seq<char>, ValueModel> {
    Map::new(
        |name: Seq<char>| exists|key: String| #[trigger] entries.contains_key(key) && key@ == name,
        |name: Seq<char>|
            {
                let key = choose|key: String| #[trigger] entries.contains_key(key) && key@ == name;
                entries[key]@
            },
    )
}

impl View for RtlState {
    type V = StateModel;

    closed spec fn view(&self) -> StateModel {
        StateModel {
            reserved: self.reserved_elements,
            counter: self.value_counter,
            values: self.values@.map_values(|v: RtlValue| v@),
            permanents: self.permanents@,
            field_set: named_values(self.field_set@),
            flags: named_values(self.flags@),
        }
    }
}

impl RtlState {
    /// The threshold below which every handle is permanent.
    pub fn reserved_elements(&self) -> (reserved: u64)
        ensures
            reserved == self@.reserved,
    {
        self.reserved_elements
    }

    /// The handle the next fresh allocation will get.
    pub fn value_counter(&self) -> (counter: u64)
        ensures
            counter == self@.counter,
    {
        self.value_counter
    }

    /// Stores `value` under the shared allocation policy.
    fn construct(&mut self, idx: u64, value: RtlValue) -> (handle: u64)
        requires
            old(self)@.can_construct(idx),
            !(value is RtlNone),
        ensures
            handle == old(self)@.target(idx),
            final(self)@ == old(self)@.construct(idx, value@),
            old(self)@.wf() ==> final(self)@.wf(),
    {
        let handle: u64 = if idx == 0 {
            let fresh: u64 = self.value_counter;
            self.value_counter = fresh + 1;
            fresh
        } else {
            idx
        };
        self.values.insert(handle, value);
        assert(self@.values =~= old(self)@.values.insert(handle, value@));
        proof {
            if old(self)@.wf() {
                lemma_wf_is_preserved(old(self)@, idx, value@);
            }
        }
        handle
    }

    /// Resolves a handle and coerces what it finds to a boolean.
    fn truth_of(&self, handle: u64) -> (truth: bool)
        ensures
            truth == self@.lookup(handle).as_boolean(),
    {
        match self.values.get(&handle) {
            Some(value) => value.as_boolean(),
            None => false,
        }
    }

    /// Resolves two handles and compares what it finds, left with right.
    fn compare_handles(&self, left: u64, right: u64) -> (equal: bool)
        ensures
            equal == self@.lookup(left).compare_to(self@.lookup(right)),
    {
        let absent = RtlValue::RtlNone;
        let left_value = match self.values.get(&left) {
            Some(value) => value,
            None => &absent,
        };
        let right_value = match self.values.get(&right) {
            Some(value) => value,
            None => &absent,
        };
        left_value.compare_to(right_value)
    }
}

/// Creates a store whose first `reserved_elements` handles are permanent
/// and whose counter starts right above them.
pub fn make_state(reserved_elements: u64) -> (state: RtlState)
    ensures
        state@ == StateModel::fresh(reserved_elements),
        state@.wf(),
{
    let state = RtlState {
        field_set: HashMap::new(),
        reserved_elements,
        value_counter: reserved_elements,
        values: HashMap::new(),
        flags: HashMap::new(),
        permanents: HashSet::new(),
    };
    assert(state@.values =~= Map::empty());
    assert(state@.field_set =~= Map::empty());
    assert(state@.flags =~= Map::empty());
    state
}

/// Releases a store with everything it holds.
pub fn free_state(state: RtlState) {
}

/// Stores a boolean: `false` for `b == 0`, `true` for anything else.
pub fn make_bool(state: &mut RtlState, idx: u64, b: i32) -> (handle: u64)
    requires
        old(state)@.can_construct(idx),
    ensures
        handle == old(state)@.target(idx),
        final(state)@ == old(state)@.construct(idx, ValueModel::Bool(b != 0)),
        old(state)@.wf() ==> final(state)@.wf(),
{
    state.construct(idx, RtlValue::RtlBool(b != 0))
}

/// Stores a signed integer.
pub fn make_i64(state: &mut RtlState, idx: u64, intval: i64) -> (handle: u64)
    requires
        old(state)@.can_construct(idx),
    ensures
        handle == old(state)@.target(idx),
        final(state)@ == old(state)@.construct(idx, ValueModel::Int(intval)),
        old(state)@.wf() ==> final(state)@.wf(),
{
    state.construct(idx, RtlValue::RtlInt(intval))
}

/// Stores a float, given as its binary64 bit pattern.
pub fn make_f64(state: &mut RtlState, idx: u64, bits: u64) -> (handle: u64)
    requires
        old(state)@.can_construct(idx),
    ensures
        handle == old(state)@.target(idx),
        final(state)@ == old(state)@.construct(idx, ValueModel::Float(bits)),
        old(state)@.wf() ==> final(state)@.wf(),
{
    state.construct(idx, RtlValue::RtlFloat(bits))
}

/// Absorbs `buf` as text of logical length `len` and stores it.
pub fn make_string(state: &mut RtlState, idx: u64, buf: AllocatedString, len: usize) -> (handle:
    u64)
    requires
        old(state)@.can_construct(idx),
    ensures
        handle == old(state)@.target(idx),
        final(state)@ == old(state)@.construct(idx, ValueModel::Text(buf.text(len))),
        old(state)@.wf() ==> final(state)@.wf(),
{
    let text = buf.absorb(len);
    state.construct(idx, RtlValue::RtlString(text))
}

/// Absorbs `buf` as text of logical length `len` and stores it, provided
/// a handle can be had; otherwise drops the buffer, leaves the store as it
/// is and returns `None`.
pub fn try_make_string(state: &mut RtlState, idx: u64, buf: AllocatedString, len: usize) -> (handle:
    Option<u64>)
    ensures
        handle is Some <==> old(state)@.can_construct(idx),
        handle matches Some(h) ==> h == old(state)@.target(idx) && final(state)@ == old(
            state,
        )@.construct(idx, ValueModel::Text(buf.text(len))),
        handle is None ==> final(state)@ == old(state)@,
        old(state)@.wf() ==> final(state)@.wf(),
{
    if idx != 0 || state.value_counter < u64::MAX {
        Some(make_string(state, idx, buf, len))
    } else {
        None
    }
}

/// Stores the outcome of a pattern compilation: a compiled pattern goes
/// into the store like any other value; a failed compilation stores nothing
/// and is reported as handle `0`.
pub fn store_pattern(state: &mut RtlState, idx: u64, compiled: Option<Pattern>) -> (handle: u64)
    requires
        old(state)@.can_store_pattern(idx, model_of(compiled)),
    ensures
        handle == old(state)@.pattern_target(idx, model_of(compiled)),
        final(state)@ == old(state)@.store_pattern(idx, model_of(compiled)),
        old(state)@.wf() ==> final(state)@.wf(),
{
    match compiled {
        Some(pattern) => state.construct(idx, RtlValue::RtlRegex(pattern)),
        None => 0,
    }
}

/// Absorbs `buf` as text of logical length `len`, compiles it as a pattern
/// under the options that `flags` switches on, and stores the pattern.
/// Where the text does not compile, nothing is stored and the result is `0`.
pub fn make_regex(
    state: &mut RtlState,
    idx: u64,
    flags: u64,
    buf: AllocatedString,
    len: usize,
) -> (handle: u64)
    requires
        old(state)@.can_store_pattern(idx, compile_outcome(buf.text(len), flags)),
    ensures
        handle == old(state)@.pattern_target(idx, compile_outcome(buf.text(len), flags)),
        final(state)@ == old(state)@.store_pattern(idx, compile_outcome(buf.text(len), flags)),
        old(state)@.wf() ==> final(state)@.wf(),
{
    let source = buf.absorb(len);
    let compiled = Pattern::compile(source.as_str(), flags);
    store_pattern(state, idx, compiled)
}

/// Like [`make_regex`], provided that a handle can be had where the text
/// compiles; otherwise drops the buffer, leaves the store as it is and
/// returns `None`.
pub fn try_make_regex(
    state: &mut RtlState,
    idx: u64,
    flags: u64,
    buf: AllocatedString,
    len: usize,
) -> (handle: Option<u64>)
    ensures
        handle is Some <==> old(state)@.can_store_pattern(
            idx,
            compile_outcome(buf.text(len), flags),
        ),
        handle matches Some(h) ==> h == old(state)@.pattern_target(
            idx,
            compile_outcome(buf.text(len), flags),
        ) && final(state)@ == old(state)@.store_pattern(
            idx,
            compile_outcome(buf.text(len), flags),
        ),
        handle is None ==> final(state)@ == old(state)@,
        old(state)@.wf() ==> final(state)@.wf(),
{
    if idx != 0 || state.value_counter < u64::MAX {
        Some(make_regex(state, idx, flags, buf, len))
    } else {
        let source = buf.absorb(len);
        match Pattern::compile(source.as_str(), flags) {
            Some(_) => None,
            None => Some(0),
        }
    }
}

/// Compares the values of two handles, left with right, and stores the
/// outcome as a boolean at a fresh handle.
pub fn rtl_eq(state: &mut RtlState, left: u64, right: u64) -> (handle: u64)
    requires
        old(state)@.can_construct(0),
    ensures
        handle == old(state)@.counter,
        final(state)@.counter == old(state)@.counter + 1,
        final(state)@ == old(state)@.construct(
            0,
            ValueModel::Bool(old(state)@.lookup(left).compare_to(old(state)@.lookup(right))),
        ),
        old(state)@.wf() ==> final(state)@.wf(),
{
    let outcome = state.compare_handles(left, right);
    state.construct(0, RtlValue::RtlBool(outcome))
}

/// Stores at a fresh handle whether both handles hold the boolean `true`.
pub fn rtl_and(state: &mut RtlState, left: u64, right: u64) -> (handle: u64)
    requires
        old(state)@.can_construct(0),
    ensures
        handle == old(state)@.counter,
        final(state)@.counter == old(state)@.counter + 1,
        final(state)@ == old(state)@.construct(
            0,
            ValueModel::Bool(
                old(state)@.lookup(left).as_boolean() && old(state)@.lookup(right).as_boolean(),
            ),
        ),
        old(state)@.wf() ==> final(state)@.wf(),
{
    let outcome = state.truth_of(left) && state.truth_of(right);
    state.construct(0, RtlValue::RtlBool(outcome))
}

/// Stores at a fresh handle whether either handle holds the boolean `true`.
pub fn rtl_or(state: &mut RtlState, left: u64, right: u64) -> (handle: u64)
    requires
        old(state)@.can_construct(0),
    ensures
        handle == old(state)@.counter,
        final(state)@.counter == old(state)@.counter + 1,
        final(state)@ == old(state)@.construct(
            0,
            ValueModel::Bool(
                old(state)@.lookup(left).as_boolean() || old(state)@.lookup(right).as_boolean(),
            ),
        ),
        old(state)@.wf() ==> final(state)@.wf(),
{
    let outcome = state.truth_of(left) || state.truth_of(right);
    state.construct(0, RtlValue::RtlBool(outcome))
}

/// Stores at a fresh handle whether the handle holds anything but the
/// boolean `true`.
pub fn rtl_not(state: &mut RtlState, value: u64) -> (handle: u64)
    requires
        old(state)@.can_construct(0),
    ensures
        handle == old(state)@.counter,
        final(state)@.counter == old(state)@.counter + 1,
        final(state)@ == old(state)@.construct(
            0,
            ValueModel::Bool(!old(state)@.lookup(value).as_boolean()),
        ),
        old(state)@.wf() ==> final(state)@.wf(),
{
    let outcome = !state.truth_of(value);
    state.construct(0, RtlValue::RtlBool(outcome))
}

/// The numeric tag of the value a handle resolves to.
pub fn rtl_type(state: &RtlState, v: u64) -> (tag: u32)
    ensures
        tag == state@.lookup(v).type_id(),
{
    match state.values.get(&v) {
        Some(value) => value.type_id(),
        None => RtlValue::RtlNone.type_id(),
    }
}

/// `1` where the handle holds the boolean `true`, `0` otherwise.
pub fn rtl_get_bool(state: &RtlState, v: u64) -> (bit: u32)
    ensures
        bit == if state@.lookup(v).as_boolean() {
            1u32
        } else {
            0u32
        },
{
    if state.truth_of(v) {
        1
    } else {
        0
    }
}

/// Pins a handle, whether or not it holds a value.
pub fn rtl_make_permanent(state: &mut RtlState, v: u64)
    ensures
        final(state)@ == old(state)@.pin(v),
        old(state)@.wf() ==> final(state)@.wf(),
{
    state.permanents.insert(v);
}

/// Lifts the pin on a handle, if it has one.
pub fn rtl_unmake_permanent(state: &mut RtlState, v: u64)
    ensures
        final(state)@ == old(state)@.unpin(v),
        old(state)@.wf() ==> final(state)@.wf(),
{
    state.permanents.remove(&v);
}

/// `1` where the handle lies in the reserved range or is pinned, `0`
/// otherwise.
pub fn rtl_is_permanent(state: &RtlState, v: u64) -> (bit: u32)
    ensures
        bit == if state@.is_permanent(v) {
            1u32
        } else {
            0u32
        },
{
    if v < state.reserved_elements {
        return 1;
    }
    if state.permanents.contains(&v) {
        1
    } else {
        0
    }
}

/// The occupied handles below `bound` that a sweep of `model` removes.
spec fn doomed_below(model: StateModel, bound: u64) -> Set<u64> {
    model.values.dom().filter(|handle: u64| model.is_transient(handle) && handle < bound)
}

/// Moving the bound past `handle` adds `handle` to the doomed handles where
/// it is one of them, and nothing else.
proof fn lemma_doomed_below_step(model: StateModel, handle: u64)
    requires
        model.values.dom().finite(),
        handle < u64::MAX,
    ensures
        doomed_below(model, handle).finite(),
        doomed_below(model, (handle + 1) as u64).finite(),
        doomed_below(model, (handle + 1) as u64).len() <= model.values.dom().len(),
        model.doomed().contains(handle) ==> {
            &&& doomed_below(model, (handle + 1) as u64) == doomed_below(model, handle).insert(
                handle,
            )
            &&& doomed_below(model, (handle + 1) as u64).len() == doomed_below(model, handle).len()
                + 1
        },
        !model.doomed().contains(handle) ==> doomed_below(model, (handle + 1) as u64)
            == doomed_below(model, handle),
{
    let below = doomed_below(model, handle);
    let next = doomed_below(model, (handle + 1) as u64);
    model.values.dom().lemma_len_filter(
        |h: u64| model.is_transient(h) && h < handle,
    );
    model.values.dom().lemma_len_filter(
        |h: u64| model.is_transient(h) && h < (handle + 1) as u64,
    );
    if model.doomed().contains(handle) {
        assert(next =~= below.insert(handle));
    } else {
        assert(next =~= below);
    }
}

/// Sweeps the store: every handle from the reserved threshold up to the
/// counter that is not pinned loses its value. Returns how many values were
/// removed. The counter stays where it is.
pub fn rtl_clear(state: &mut RtlState) -> (count: usize)
    ensures
        final(state)@ == old(state)@.sweep(),
        count == old(state)@.doomed().len(),
        old(state)@.wf() ==> final(state)@.wf(),
{
    let ghost before = state@;
    let mut count: usize = 0;
    let mut item: u64 = state.reserved_elements;
    proof {
        assert(before.values.dom() =~= state.values@.dom());
        assert(state.values@.len() == vstd::std_specs::hash::spec_hash_map_len(&state.values));
        assert(doomed_below(before, item) =~= Set::empty());
        assert(before.values.remove_keys(Set::empty()) =~= before.values);
    }
    while item < state.value_counter
        invariant
            before.values.dom().finite(),
            before.values.dom().len() <= usize::MAX,
            before.reserved <= item,
            state@ == (StateModel {
                values: before.values.remove_keys(doomed_below(before, item)),
                ..before
            }),
            count == doomed_below(before, item).len(),
        decreases state.value_counter - item,
    {
        proof {
            lemma_doomed_below_step(before, item);
        }
        let ghost stored = state.values@;
        let ghost kept = state@.values;
        assert(kept.contains_key(item) <==> stored.contains_key(item));
        if !state.permanents.contains(&item) {
            if state.values.remove(&item).is_some() {
                count += 1;
            }
        }
        assert(state@.values =~= if before.doomed().contains(item) {
            kept.remove(item)
        } else {
            kept
        });
        item += 1;
        assert(state@.values =~= before.values.remove_keys(doomed_below(before, item)));
    }
    proof {
        assert(doomed_below(before, item) =~= before.doomed());
        if before.wf() {
            lemma_wf_is_preserved(before, 0, ValueModel::Absent);
        }
    }
    count
}

} // verus!
