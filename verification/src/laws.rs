//! Laws of the store, proved over its model.

use crate::buffer::{is_text_boundary, kept_len, text_kept, text_prefix};
use crate::model::StateModel;
use crate::pattern::{compile_outcome, pattern_accepted, PatternModel, PatternOptions};
use crate::value::{float_eq, float_is_nan, ValueModel};
use vstd::prelude::*;
use vstd::utf8::{
    decode_utf8, decode_utf8_split, encode_utf8, encode_utf8_decode_utf8,
    encode_utf8_valid_utf8, is_ascii_chars, is_ascii_chars_encode_utf8,
    is_char_boundary_iff_not_is_continuation_byte, is_char_boundary_start_end_of_seq,
    valid_utf8_split,
};

verus! {

/// A store as created is well formed.
pub proof fn lemma_fresh_is_wf(reserved: u64)
    ensures
        StateModel::fresh(reserved).wf(),
{
}

/// Every operation keeps a well formed store well formed, as long as what
/// is stored is not the missing value.
pub proof fn lemma_wf_is_preserved(s: StateModel, idx: u64, value: ValueModel)
    requires
        s.wf(),
    ensures
        s.can_construct(idx) && value != ValueModel::Absent ==> s.construct(idx, value).wf(),
        forall|compiled: Option<PatternModel>|
            s.can_store_pattern(idx, compiled) ==> (#[trigger] s.store_pattern(idx, compiled)).wf(),
        s.pin(idx).wf(),
        s.unpin(idx).wf(),
        s.sweep().wf(),
{
    vstd::set_lib::lemma_len_subset(s.sweep().values.dom(), s.values.dom());
}

/// The handle counter never decreases, and the reserved threshold never
/// moves.
pub proof fn lemma_counter_never_decreases(s: StateModel, idx: u64, value: ValueModel)
    requires
        s.can_construct(idx),
    ensures
        s.construct(idx, value).counter >= s.counter,
        s.construct(idx, value).reserved == s.reserved,
        s.pin(idx).counter == s.counter,
        s.pin(idx).reserved == s.reserved,
        s.unpin(idx).counter == s.counter,
        s.unpin(idx).reserved == s.reserved,
        s.sweep().counter == s.counter,
        s.sweep().reserved == s.reserved,
{
}

/// What a constructor stores is what its handle resolves to afterwards,
/// and no other handle resolves differently than before.
pub proof fn lemma_construct_then_lookup(s: StateModel, idx: u64, value: ValueModel, other: u64)
    ensures
        s.construct(idx, value).lookup(s.target(idx)) == value,
        other != s.target(idx) ==> s.construct(idx, value).lookup(other) == s.lookup(other),
{
}

/// Whatever scalar is stored, the handle reports the tag of its kind:
/// 0 for an integer, 1 for a float, 2 for a boolean.
pub proof fn lemma_scalar_tags(s: StateModel, idx: u64, int_value: i64, bits: u64, truth: bool)
    ensures
        s.construct(idx, ValueModel::Int(int_value)).lookup(s.target(idx)).type_id() == 0,
        s.construct(idx, ValueModel::Float(bits)).lookup(s.target(idx)).type_id() == 1,
        s.construct(idx, ValueModel::Bool(truth)).lookup(s.target(idx)).type_id() == 2,
{
}

/// A handle that holds nothing reports the tag of the missing value,
/// coerces to `false`, and compares unequal to everything on either side.
pub proof fn lemma_vacant_handle_is_absent(s: StateModel, handle: u64, other: ValueModel)
    requires
        !s.values.contains_key(handle),
    ensures
        s.lookup(handle) == ValueModel::Absent,
        s.lookup(handle).type_id() == 5,
        !s.lookup(handle).as_boolean(),
        !s.lookup(handle).compare_to(other),
        !other.compare_to(s.lookup(handle)),
{
}

/// In a well formed store only a vacant handle resolves to the missing
/// value: the missing value is never stored.
pub proof fn lemma_absent_means_vacant(s: StateModel, handle: u64)
    requires
        s.wf(),
    ensures
        s.lookup(handle) == ValueModel::Absent <==> !s.values.contains_key(handle),
        s.lookup(handle).type_id() == 5 <==> !s.values.contains_key(handle),
{
}

/// A pattern on the left compares unequal to every value, itself included.
pub proof fn lemma_pattern_equals_nothing(pattern: PatternModel, other: ValueModel)
    ensures
        !ValueModel::Matcher(pattern).compare_to(other),
        !ValueModel::Matcher(pattern).compare_to(ValueModel::Matcher(pattern)),
{
}

/// Values of different kinds compare unequal, except that a text on the
/// left may match a pattern on the right.
pub proof fn lemma_kinds_do_not_mix(left: ValueModel, right: ValueModel)
    requires
        left.type_id() != right.type_id(),
        !(left is Text && right is Matcher),
    ensures
        !left.compare_to(right),
{
}

/// Integers, booleans and texts equal themselves; a float equals itself
/// unless it is a NaN.
pub proof fn lemma_compare_is_reflexive_on_data(value: ValueModel)
    requires
        value is Int || value is Bool || value is Text || (value matches ValueModel::Float(bits)
            && !float_is_nan(bits)),
    ensures
        value.compare_to(value),
{
}

/// Only the boolean `true` coerces to `true`: no number, text or pattern
/// does, whatever it holds.
pub proof fn lemma_only_true_is_truthy(value: ValueModel)
    ensures
        value.as_boolean() <==> value == ValueModel::Bool(true),
        value is Int ==> !value.as_boolean(),
        value is Float ==> !value.as_boolean(),
        value is Text ==> !value.as_boolean(),
{
}

/// A constructor that asks for a fresh handle gets the counter's value and
/// moves the counter on by exactly one; one that names its handle leaves
/// the counter alone.
pub proof fn lemma_fresh_handle_advances_counter(s: StateModel, idx: u64, value: ValueModel)
    requires
        s.can_construct(idx),
    ensures
        idx == 0 ==> s.target(idx) == s.counter && s.construct(idx, value).counter == s.counter
            + 1,
        idx != 0 ==> s.target(idx) == idx && s.construct(idx, value).counter == s.counter,
{
}

/// Storing twice at one named handle leaves the second value there, as if
/// the first had never been stored, and the counter where it was.
pub proof fn lemma_explicit_overwrite(s: StateModel, idx: u64, first: ValueModel, second: ValueModel)
    requires
        idx != 0,
    ensures
        s.construct(idx, first).construct(idx, second) == s.construct(idx, second),
        s.construct(idx, first).construct(idx, second).lookup(idx) == second,
        s.construct(idx, first).construct(idx, second).counter == s.counter,
{
    assert(s.values.insert(idx, first).insert(idx, second) =~= s.values.insert(idx, second));
}

/// A text that does not compile as a pattern is reported as handle `0`
/// and leaves the store, its counter included, exactly as it was; one that
/// compiles is stored like any other value.
pub proof fn lemma_failed_compilation_stores_nothing(
    s: StateModel,
    idx: u64,
    source: Seq<char>,
    mask: u64,
)
    ensures
        compile_outcome(source, mask) is None <==> !pattern_accepted(
            source,
            PatternOptions::spec_from_mask(mask),
        ),
        compile_outcome(source, mask) is None ==> {
            &&& s.pattern_target(idx, compile_outcome(source, mask)) == 0
            &&& s.store_pattern(idx, compile_outcome(source, mask)) == s
        },
        compile_outcome(source, mask) matches Some(pattern) ==> {
            &&& s.pattern_target(idx, compile_outcome(source, mask)) == s.target(idx)
            &&& s.store_pattern(idx, compile_outcome(source, mask)).lookup(s.target(idx))
                == ValueModel::Matcher(pattern)
            &&& pattern.source == source
        },
{
}

/// Pinning and unpinning are idempotent, and unpinning undoes pinning of a
/// handle that was not pinned before.
pub proof fn lemma_pinning_is_idempotent(s: StateModel, handle: u64)
    ensures
        s.pin(handle).pin(handle) == s.pin(handle),
        s.unpin(handle).unpin(handle) == s.unpin(handle),
        s.pin(handle).is_permanent(handle),
        !s.permanents.contains(handle) ==> s.pin(handle).unpin(handle) == s,
{
    assert(s.permanents.insert(handle).insert(handle) =~= s.permanents.insert(handle));
    assert(s.permanents.remove(handle).remove(handle) =~= s.permanents.remove(handle));
    if !s.permanents.contains(handle) {
        assert(s.permanents.insert(handle).remove(handle) =~= s.permanents);
    }
}

/// A handle below the reserved threshold is permanent whatever the set of
/// pins holds, pinned or unpinned, and a sweep leaves it as it is.
pub proof fn lemma_reserved_handles_are_permanent(s: StateModel, handle: u64, other: u64)
    requires
        handle < s.reserved,
    ensures
        s.is_permanent(handle),
        s.pin(other).is_permanent(handle),
        s.unpin(other).is_permanent(handle),
        !s.doomed().contains(handle),
        s.sweep().values.contains_key(handle) == s.values.contains_key(handle),
        s.sweep().lookup(handle) == s.lookup(handle),
        s.sweep().is_permanent(handle),
{
}

/// A sweep spares every pinned handle, and every handle at or above the
/// counter.
pub proof fn lemma_sweep_spares(s: StateModel, handle: u64)
    requires
        s.permanents.contains(handle) || handle >= s.counter,
    ensures
        !s.doomed().contains(handle),
        s.sweep().lookup(handle) == s.lookup(handle),
{
}

/// A sweep empties every occupied handle between the threshold and the
/// counter that is not pinned, and counts it.
pub proof fn lemma_sweep_removes_transient(s: StateModel, handle: u64)
    requires
        s.wf(),
        s.is_transient(handle),
        s.values.contains_key(handle),
    ensures
        s.doomed().contains(handle),
        s.doomed().len() >= 1,
        !s.sweep().values.contains_key(handle),
        s.sweep().lookup(handle) == ValueModel::Absent,
{
    s.values.dom().lemma_len_filter(|h: u64| s.is_transient(h));
    if s.doomed().len() == 0 {
        assert(s.doomed() =~= Set::empty());
    }
}

/// A value stored at a fresh handle that is not pinned is removed by the
/// next sweep, which counts it.
pub proof fn lemma_fresh_value_is_swept(s: StateModel, value: ValueModel)
    requires
        s.wf(),
        s.can_construct(0),
        value != ValueModel::Absent,
        !s.permanents.contains(s.counter),
    ensures
        s.target(0) >= s.reserved,
        s.construct(0, value).doomed().contains(s.target(0)),
        s.construct(0, value).doomed().len() >= 1,
        s.construct(0, value).sweep().lookup(s.target(0)) == ValueModel::Absent,
{
    lemma_wf_is_preserved(s, 0, value);
    lemma_sweep_removes_transient(s.construct(0, value), s.counter);
}

/// The number of values a sweep removes is the number by which the store
/// shrinks.
pub proof fn lemma_sweep_count(s: StateModel)
    requires
        s.wf(),
    ensures
        s.doomed().finite(),
        s.sweep().values.dom().len() + s.doomed().len() == s.values.dom().len(),
{
    s.values.dom().lemma_len_filter(|h: u64| s.is_transient(h));
    s.values.lemma_remove_keys_len(s.doomed());
    assert(s.doomed().intersect(s.values.dom()) =~= s.doomed());
}

/// A second sweep right after a sweep finds nothing to remove and changes
/// nothing.
pub proof fn lemma_second_sweep_removes_nothing(s: StateModel)
    ensures
        s.sweep().doomed() == Set::<u64>::empty(),
        s.sweep().doomed().len() == 0,
        s.sweep().sweep() == s.sweep(),
{
    assert(s.sweep().doomed() =~= Set::<u64>::empty());
    assert(s.sweep().values.remove_keys(Set::<u64>::empty()) =~= s.sweep().values);
}

/// Float equality is symmetric, and a NaN equals nothing, itself included.
pub proof fn lemma_float_eq_symmetric(left: u64, right: u64)
    ensures
        float_eq(left, right) == float_eq(right, left),
        float_is_nan(left) ==> !float_eq(left, right) && !float_eq(left, left),
{
}

/// A text can always be cut at length zero, which keeps nothing, and at
/// its full encoded length, which keeps all of it; it cannot be cut beyond
/// that.
pub proof fn lemma_text_prefix_ends(text: Seq<char>, len: int)
    ensures
        is_text_boundary(text, 0),
        text_prefix(text, 0) == Seq::<char>::empty(),
        is_text_boundary(text, encode_utf8(text).len() as int),
        text_prefix(text, encode_utf8(text).len() as int) == text,
        len < 0 || len > encode_utf8(text).len() ==> !is_text_boundary(text, len),
{
    let bytes = encode_utf8(text);
    encode_utf8_valid_utf8(text);
    encode_utf8_decode_utf8(text);
    is_char_boundary_start_end_of_seq(bytes);
    assert(bytes.subrange(0, 0) =~= Seq::<u8>::empty());
    assert(bytes.subrange(0, bytes.len() as int) =~= bytes);
    assert(decode_utf8(Seq::<u8>::empty()) =~= Seq::<char>::empty());
}

/// What a cut keeps is a prefix of the text, and its encoding is exactly
/// the bytes before the cut.
pub proof fn lemma_text_prefix_is_prefix(text: Seq<char>, len: int)
    requires
        is_text_boundary(text, len),
    ensures
        0 <= len <= encode_utf8(text).len(),
        encode_utf8(text_prefix(text, len)) == encode_utf8(text).subrange(0, len),
        text_prefix(text, len).is_prefix_of(text),
{
    let bytes = encode_utf8(text);
    encode_utf8_valid_utf8(text);
    encode_utf8_decode_utf8(text);
    lemma_text_prefix_ends(text, len);
    valid_utf8_split(bytes, len);
    decode_utf8_split(bytes, len);
    vstd::utf8::decode_utf8_encode_utf8(bytes.subrange(0, len));
    let kept = text_prefix(text, len);
    let rest = decode_utf8(bytes.subrange(len, bytes.len() as int));
    assert(text =~= kept + rest);
    assert(kept =~= text.subrange(0, kept.len() as int));
}

/// A cut at `len` keeps the longest run of whole characters that takes at
/// most `len` bytes: the length kept ends between two characters, does not
/// exceed `len`, and no such length above it does either. A `len` that ends
/// between two characters is kept as it is.
pub proof fn lemma_kept_len_is_longest(text: Seq<char>, len: int, other: int)
    ensures
        is_text_boundary(text, kept_len(text, len)),
        0 <= kept_len(text, len) <= encode_utf8(text).len(),
        len >= 0 ==> kept_len(text, len) <= len,
        is_text_boundary(text, other) && other <= len ==> other <= kept_len(text, len),
        is_text_boundary(text, len) ==> kept_len(text, len) == len,
    decreases len,
{
    lemma_text_prefix_ends(text, len);
    lemma_text_prefix_ends(text, other);
    if 0 < len <= encode_utf8(text).len() && !is_text_boundary(text, len) {
        lemma_kept_len_is_longest(text, len - 1, other);
    }
}

/// A cut keeps a prefix of the text, nothing for a length of zero, and the
/// whole text for any length that reaches its end.
pub proof fn lemma_text_kept_is_prefix(text: Seq<char>, len: int)
    ensures
        text_kept(text, len).is_prefix_of(text),
        encode_utf8(text_kept(text, len)).len() == kept_len(text, len),
        len <= 0 ==> text_kept(text, len) == Seq::<char>::empty(),
        len >= encode_utf8(text).len() ==> text_kept(text, len) == text,
        is_text_boundary(text, len) ==> text_kept(text, len) == text_prefix(text, len),
{
    lemma_kept_len_is_longest(text, len, encode_utf8(text).len() as int);
    lemma_text_prefix_is_prefix(text, kept_len(text, len));
    lemma_text_prefix_ends(text, len);
}

/// A text of ASCII characters can be cut after any number of characters:
/// a cut at `len` bytes keeps the first `len` characters, or all of them
/// where there are fewer.
pub proof fn lemma_ascii_text_kept(text: Seq<char>, len: int)
    requires
        is_ascii_chars(text),
        0 <= len,
    ensures
        len <= text.len() ==> text_kept(text, len) == text.subrange(0, len),
        len >= text.len() ==> text_kept(text, len) == text,
{
    is_ascii_chars_encode_utf8(text);
    lemma_text_kept_is_prefix(text, len);
    if len <= text.len() {
        lemma_ascii_text_prefix(text, len);
    }
}

/// A text of ASCII characters can be cut after any number of characters,
/// and a cut at `len` bytes keeps the first `len` characters.
pub proof fn lemma_ascii_text_prefix(text: Seq<char>, len: int)
    requires
        is_ascii_chars(text),
        0 <= len <= text.len(),
    ensures
        is_text_boundary(text, len),
        text_prefix(text, len) == text.subrange(0, len),
{
    let bytes = encode_utf8(text);
    let kept = text.subrange(0, len);
    encode_utf8_valid_utf8(text);
    is_ascii_chars_encode_utf8(text);
    assert(is_ascii_chars(kept));
    is_ascii_chars_encode_utf8(kept);
    encode_utf8_decode_utf8(kept);
    assert(encode_utf8(kept) =~= bytes.subrange(0, len));
    if len < bytes.len() {
        is_char_boundary_iff_not_is_continuation_byte(bytes, len);
        assert(text[len] as u8 == bytes[len]);
    } else {
        is_char_boundary_start_end_of_seq(bytes);
    }
}

} // verus!
