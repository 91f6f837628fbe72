//! What holds of the helpers as a whole: the glue only grows, and it has all that it uses.
use crate::config::{Bindgen, VectorKind};
use crate::context::{done, with_item, GlueView};
use crate::helpers::{
    get_array, get_array_f32, get_array_f64, get_array_i16, get_array_i32, get_array_i64,
    get_array_i8, get_array_u16, get_array_u32, get_array_u64, get_array_u8, get_clamped_array_u8,
    get_name, get_steps, get_string, kind_memory, lemma_expose, lemma_perform, lemma_steps_1,
    lemma_steps_2, pass_steps, pass_string, top_layer, use_encode, Helper, Step,
};
use crate::keys::{law_keys_differ, shape, Shape};
use crate::module::ModuleView;
use crate::snippets::{
    GET_ARRAY_JSVALUE_ANYREF, GET_ARRAY_JSVALUE_HEAP, GET_STRING_0, GET_STRING_1, PROCESSOR_FOUND_0,
    PROCESSOR_FOUND_1, PROCESSOR_FOUND_2, PROCESSOR_LOOKUP_0, PROCESSOR_LOOKUP_1,
    PROCESSOR_LOOKUP_2, PROCESSOR_LOOKUP_3, PROCESSOR_LOOKUP_4,
};
use vstd::prelude::*;

verus! {

impl GlueView {
    /// Whether `after` has all that `self` has: the JavaScript goes on from where it was, what is
    /// exposed stays exposed, and what is required stays required.
    pub open spec fn grows_to(self, after: GlueView) -> bool {
        &&& self.frames(after)
        &&& self.globals.is_prefix_of(after.globals)
        &&& self.required.subset_of(after.required)
    }
}

/// An item is added behind the text that is there.
pub proof fn lemma_item_behind(text: Seq<char>, item: Seq<char>)
    ensures
        text.is_prefix_of(with_item(text, item)),
{
    reveal(with_item);
    let all = with_item(text, item);
    assert(all.take(text.len() as int) == text);
}

/// One step only adds to the glue, where exposing helpers of lower layers does.
proof fn lemma_step_grows(state: GlueView, layer: nat, step: Step)
    requires
        state.open(),
        step matches Step::Expose(helper) ==> helper.layer() < layer && state.grows_to(
            state.expose(helper).state,
        ),
    ensures
        state.grows_to(state.step(layer, step).state),
{
    reveal(GlueView::text_processor);
    reveal(GlueView::export_anyref_table);
    reveal(GlueView::export_function_table);
    assert forall|text: Seq<char>, item: Seq<char>| #[trigger]
        text.is_prefix_of(with_item(text, item)) by {
        lemma_item_behind(text, item);
    }
    if let Step::Processor(name) = step {
        if !state.config.mode.nodejs() && !state.config.mode.always_run_in_browser() {
            let looked_up = with_item(
                state.globals,
                PROCESSOR_LOOKUP_0@ + name + PROCESSOR_LOOKUP_1@ + name + PROCESSOR_LOOKUP_2@ + name
                    + PROCESSOR_LOOKUP_3@ + name + PROCESSOR_LOOKUP_4@,
            );
            let found = PROCESSOR_FOUND_0@ + name + PROCESSOR_FOUND_1@ + name + PROCESSOR_FOUND_2@;
            lemma_prefixes(state.globals, looked_up, with_item(looked_up, found));
        }
    }
}

/// A prefix of a prefix is a prefix.
proof fn lemma_prefixes(a: Seq<char>, b: Seq<char>, c: Seq<char>)
    requires
        a.is_prefix_of(b),
        b.is_prefix_of(c),
    ensures
        a.is_prefix_of(c),
{
    assert(c.subrange(0, a.len() as int) =~= b.subrange(0, a.len() as int));
}

/// Exposing a helper only adds to the glue.
pub proof fn law_expose_grows(state: GlueView, helper: Helper)
    requires
        state.open(),
    ensures
        state.grows_to(state.expose(helper).state),
    decreases helper.layer(), state.steps(helper).len() + 1,
{
    lemma_expose(state, helper);
    if !state.is_exposed(helper.key()) {
        let marked = state.mark(helper.key());
        law_perform_grows(marked, helper.layer(), state.steps(helper));
    }
}

/// Performing steps only adds to the glue.
pub proof fn law_perform_grows(state: GlueView, layer: nat, steps: Seq<Step>)
    requires
        state.open(),
    ensures
        state.grows_to(state.perform(layer, steps).state),
    decreases layer, steps.len(),
{
    lemma_perform(state, layer, steps);
    if steps.len() > 0 {
        let before = state.perform(layer, steps.drop_last());
        law_perform_grows(state, layer, steps.drop_last());
        if before.result is Ok {
            match steps.last() {
                Step::Expose(helper) => if helper.layer() < layer {
                    law_expose_grows(before.state, helper);
                    lemma_step_grows(before.state, layer, steps.last());
                },
                _ => {
                    lemma_step_grows(before.state, layer, steps.last());
                },
            }
        }
    }
}

/// Exposing a helper is marking it as exposed: it is part of the glue once, and exposing it again,
/// at any later time, changes nothing.
pub proof fn law_exposed_once(state: GlueView, helper: Helper, later: GlueView)
    requires
        state.open(),
        state.expose(helper).state.grows_to(later),
    ensures
        state.expose(helper).state.is_exposed(helper.key()),
        later.expose(helper) == done(later, ()),
{
    lemma_expose(state, helper);
    lemma_expose(later, helper);
    if !state.is_exposed(helper.key()) {
        law_perform_grows(state.mark(helper.key()), helper.layer(), state.steps(helper));
    }
}

/// A helper uses helpers of lower layers only.
pub proof fn law_layers(state: GlueView, helper: Helper, i: int)
    requires
        0 <= i < state.steps(helper).len(),
    ensures
        state.steps(helper)[i] matches Step::Expose(needed) ==> needed.layer() < helper.layer(),
{
}

/// A helper comes behind all helpers that it uses: none is exposed once it has been written.
pub proof fn law_needs_come_first(state: GlueView, helper: Helper, i: int, j: int)
    requires
        0 <= i < j < state.steps(helper).len(),
        state.steps(helper)[i] is Emit,
    ensures
        !(state.steps(helper)[j] is Expose),
{
}

/// Steps that are performed without an error expose the helpers that they name.
proof fn lemma_performed(state: GlueView, layer: nat, steps: Seq<Step>, i: int)
    requires
        state.open(),
        0 <= i < steps.len(),
        state.perform(layer, steps).result is Ok,
        steps[i] matches Step::Expose(needed) && needed.layer() < layer,
    ensures
        steps[i] matches Step::Expose(needed) && state.perform(layer, steps).state.is_exposed(
            needed.key(),
        ),
    decreases steps.len(),
{
    lemma_perform(state, layer, steps);
    let rest = steps.drop_last();
    let before = state.perform(layer, rest);
    law_perform_grows(state, layer, rest);
    if i == rest.len() {
        let needed = steps[i]->Expose_0;
        law_exposed_once(before.state, needed, before.state.expose(needed).state);
    } else {
        lemma_performed(state, layer, rest, i);
        law_perform_grows(state, layer, steps);
        lemma_last_step_grows(before.state, layer, steps.last());
    }
}

/// One step only adds to the glue.
proof fn lemma_last_step_grows(state: GlueView, layer: nat, step: Step)
    requires
        state.open(),
    ensures
        state.grows_to(state.step(layer, step).state),
{
    if let Step::Expose(helper) = step {
        if helper.layer() < layer {
            law_expose_grows(state, helper);
            lemma_step_grows(state, layer, step);
        }
    } else {
        lemma_step_grows(state, layer, step);
    }
}

/// Where exposing a helper succeeds, the helpers that it uses are exposed too.
pub proof fn law_needs_are_exposed(state: GlueView, helper: Helper, i: int)
    requires
        state.open(),
        !state.is_exposed(helper.key()),
        state.expose(helper).result is Ok,
        0 <= i < state.steps(helper).len(),
    ensures
        state.steps(helper)[i] matches Step::Expose(needed) ==> state.expose(
            helper,
        ).state.is_exposed(needed.key()),
{
    lemma_expose(state, helper);
    law_layers(state, helper, i);
    if state.steps(helper)[i] is Expose {
        lemma_performed(state.mark(helper.key()), helper.layer(), state.steps(helper), i);
    }
}

/// Where exposing a helper succeeds, the internal exports that it uses are noted.
pub proof fn law_requires_are_noted(state: GlueView, helper: Helper, i: int)
    requires
        state.open(),
        !state.is_exposed(helper.key()),
        state.expose(helper).result is Ok,
        0 <= i < state.steps(helper).len(),
    ensures
        state.steps(helper)[i] matches Step::Require(name) ==> state.expose(
            helper,
        ).state.required.contains(name),
{
    lemma_expose(state, helper);
    if state.steps(helper)[i] is Require {
        lemma_noted(state.mark(helper.key()), helper.layer(), state.steps(helper), i);
    }
}

/// Steps that are performed without an error note the internal exports that they name.
proof fn lemma_noted(state: GlueView, layer: nat, steps: Seq<Step>, i: int)
    requires
        state.open(),
        0 <= i < steps.len(),
        state.perform(layer, steps).result is Ok,
        steps[i] is Require,
    ensures
        state.perform(layer, steps).state.required.contains(steps[i]->Require_0),
    decreases steps.len(),
{
    lemma_perform(state, layer, steps);
    let rest = steps.drop_last();
    law_perform_grows(state, layer, rest);
    if i < rest.len() {
        lemma_noted(state, layer, rest, i);
        lemma_last_step_grows(state.perform(layer, rest).state, layer, steps.last());
    }
}

/// An internal export that is noted for the first time is there.
pub proof fn law_required_is_there(state: GlueView, name: Seq<char>)
    requires
        !state.required.contains(name),
        state.require_internal_export(name).result is Ok,
    ensures
        state.module.exports_name(name),
{
}

impl GlueView {
    /// Whether the helpers that a helper uses are exposed.
    pub open spec fn has_needs(self, helper: Helper) -> bool {
        forall|i: int|
            0 <= i < self.steps(helper).len() ==> (#[trigger] self.steps(helper)[i] matches Step::Expose(
                needed,
            ) ==> self.is_exposed(needed.key()))
    }

    /// Whether each exposed helper, but for those that are still pending, has what it uses.
    pub open spec fn complete_but(self, pending: Set<Seq<char>>) -> bool {
        forall|helper: Helper| #[trigger]
            helper.known() && self.is_exposed(helper.key()) && !pending.contains(helper.key())
                ==> self.has_needs(helper)
    }

    /// Whether each exposed helper has what it uses.
    pub open spec fn complete(self) -> bool {
        self.complete_but(Set::empty())
    }
}

/// A new run is complete: nothing is exposed.
pub proof fn law_start_is_complete(config: Bindgen, module: ModuleView, memory: usize)
    ensures
        GlueView::start(config, module, memory).complete(),
{
}

/// The glue stays complete: where exposing a helper succeeds, each exposed helper has what it
/// uses.
pub proof fn law_stays_complete(state: GlueView, helper: Helper)
    requires
        state.open(),
        state.complete(),
        helper.known(),
        state.expose(helper).result is Ok,
    ensures
        state.expose(helper).state.complete(),
{
    lemma_expose_complete(state, helper, Set::empty());
}

/// What a helper consists of stays the same while helpers are exposed.
proof fn lemma_needs_stay(before: GlueView, after: GlueView, helper: Helper)
    requires
        before.open(),
        before.frames(after),
    ensures
        after.steps(helper) == before.steps(helper),
        before.has_needs(helper) ==> after.has_needs(helper),
{
    assert(after.steps(helper) == before.steps(helper));
    if before.has_needs(helper) {
        assert forall|i: int| 0 <= i < after.steps(helper).len() implies (
        #[trigger] after.steps(helper)[i] matches Step::Expose(needed) ==> after.is_exposed(
            needed.key(),
        )) by {
            assert(before.steps(helper)[i] == after.steps(helper)[i]);
        }
    }
}

/// The helpers that a known helper uses are known.
proof fn lemma_needs_are_known(state: GlueView, helper: Helper, i: int)
    requires
        helper.known(),
        0 <= i < state.steps(helper).len(),
    ensures
        state.steps(helper)[i] matches Step::Expose(needed) ==> needed.known(),
{
}

/// A step other than exposing a helper exposes none.
pub proof fn lemma_step_exposes_none(state: GlueView, layer: nat, step: Step)
    requires
        !(step is Expose),
    ensures
        state.step(layer, step).state.exposed == state.exposed,
{
    reveal(GlueView::text_processor);
    reveal(GlueView::export_anyref_table);
    reveal(GlueView::export_function_table);
}

/// Performing steps leaves what is pending pending, and the rest complete.
proof fn lemma_perform_complete(
    state: GlueView,
    layer: nat,
    steps: Seq<Step>,
    pending: Set<Seq<char>>,
)
    requires
        state.open(),
        state.complete_but(pending),
        state.perform(layer, steps).result is Ok,
        forall|i: int|
            0 <= i < steps.len() ==> (#[trigger] steps[i] matches Step::Expose(needed)
                ==> needed.known()),
    ensures
        state.perform(layer, steps).state.complete_but(pending),
    decreases layer, steps.len(),
{
    lemma_perform(state, layer, steps);
    if steps.len() > 0 {
        let rest = steps.drop_last();
        let last = steps.last();
        let before = state.perform(layer, rest);
        assert(last == steps[steps.len() - 1]);
        assert forall|i: int| 0 <= i < rest.len() implies (#[trigger] rest[i] matches Step::Expose(
            needed,
        ) ==> needed.known()) by {
            assert(rest[i] == steps[i]);
        }
        lemma_perform_complete(state, layer, rest, pending);
        law_perform_grows(state, layer, rest);
        if let Step::Expose(needed) = last {
            if needed.layer() < layer {
                lemma_expose_complete(before.state, needed, pending);
            }
        } else {
            let after = before.state.step(layer, last).state;
            lemma_step_exposes_none(before.state, layer, last);
            lemma_last_step_grows(before.state, layer, last);
            assert forall|helper: Helper| #[trigger]
                helper.known() && after.is_exposed(helper.key()) && !pending.contains(
                    helper.key(),
                ) implies after.has_needs(helper) by {
                lemma_needs_stay(before.state, after, helper);
            }
        }
    }
}

/// Exposing a helper leaves what is pending pending, and the rest complete.
proof fn lemma_expose_complete(state: GlueView, helper: Helper, pending: Set<Seq<char>>)
    requires
        state.open(),
        state.complete_but(pending),
        helper.known(),
        state.expose(helper).result is Ok,
    ensures
        state.expose(helper).state.complete_but(pending),
    decreases helper.layer(), state.steps(helper).len() + 1,
{
    lemma_expose(state, helper);
    let key = helper.key();
    if !state.is_exposed(key) {
        let marked = state.mark(key);
        let more = pending.insert(key);
        let after = state.expose(helper).state;
        assert forall|other: Helper| #[trigger]
            other.known() && marked.is_exposed(other.key()) && !more.contains(
                other.key(),
            ) implies marked.has_needs(other) by {
            lemma_needs_stay(state, marked, other);
        }
        assert forall|i: int| 0 <= i < state.steps(helper).len() implies (
        #[trigger] state.steps(helper)[i] matches Step::Expose(needed) ==> needed.known()) by {
            lemma_needs_are_known(state, helper, i);
        }
        lemma_perform_complete(marked, helper.layer(), state.steps(helper), more);
        law_expose_grows(state, helper);
        lemma_needs_stay(state, after, helper);
        assert(after.has_needs(helper)) by {
            assert forall|i: int| 0 <= i < after.steps(helper).len() implies (
            #[trigger] after.steps(helper)[i] matches Step::Expose(needed) ==> after.is_exposed(
                needed.key(),
            )) by {
                law_needs_are_exposed(state, helper, i);
            }
        }
        assert forall|other: Helper| #[trigger]
            other.known() && after.is_exposed(other.key()) && !pending.contains(
                other.key(),
            ) implies after.has_needs(other) by {
            if other != helper {
                law_keys_differ(other, helper);
            }
        }
    }
}

/// Where the function that passes items of some kind can be had, it is exposed with all that it
/// uses, and the glue stays complete.
pub proof fn law_passing_is_complete(state: GlueView, kind: VectorKind, i: int)
    requires
        state.open(),
        state.complete(),
        state.run(pass_steps(kind)).result is Ok,
        0 <= i < pass_steps(kind).len(),
    ensures
        state.run(pass_steps(kind)).state.complete(),
        pass_steps(kind)[i] matches Step::Expose(helper) && state.run(
            pass_steps(kind),
        ).state.is_exposed(helper.key()),
{
    lemma_perform_complete(state, top_layer(), pass_steps(kind), Set::empty());
    lemma_performed(state, top_layer(), pass_steps(kind), i);
}

/// Where the function that reads items of some kind can be had, it is exposed with all that it
/// uses, and the glue stays complete.
pub proof fn law_reading_is_complete(state: GlueView, kind: VectorKind, i: int)
    requires
        state.open(),
        state.complete(),
        state.run(get_steps(kind)).result is Ok,
        0 <= i < get_steps(kind).len(),
    ensures
        state.run(get_steps(kind)).state.complete(),
        get_steps(kind)[i] matches Step::Expose(helper) && state.run(
            get_steps(kind),
        ).state.is_exposed(helper.key()),
{
    lemma_perform_complete(state, top_layer(), get_steps(kind), Set::empty());
    lemma_performed(state, top_layer(), get_steps(kind), i);
}

/// Memory that threads share is not handed to `TextEncoder` or `TextDecoder`.
pub proof fn law_shared_memory(state: GlueView)
    requires
        state.memory_entry().limits.shared,
        !state.config.mode.nodejs(),
    ensures
        state.steps(Helper::PassString).last() == Step::Emit(
            pass_string(use_encode(state.config)),
        ),
        state.steps(Helper::GetString).last() == Step::Emit(
            GET_STRING_0@ + "slice"@ + GET_STRING_1@,
        ),
{
}

/// The helper that reads items of some kind.
pub open spec fn get_helper(kind: VectorKind) -> Helper {
    match kind {
        VectorKind::String => Helper::GetString,
        VectorKind::I8 => get_array_i8(),
        VectorKind::U8 => get_array_u8(),
        VectorKind::ClampedU8 => get_clamped_array_u8(),
        VectorKind::I16 => get_array_i16(),
        VectorKind::U16 => get_array_u16(),
        VectorKind::I32 => get_array_i32(),
        VectorKind::U32 => get_array_u32(),
        VectorKind::I64 => get_array_i64(),
        VectorKind::U64 => get_array_u64(),
        VectorKind::F32 => get_array_f32(),
        VectorKind::F64 => get_array_f64(),
        VectorKind::Anyref => Helper::GetArrayJsValue,
    }
}

/// The shape of the name of the function that reads items of some kind.
spec fn get_shape(kind: VectorKind) -> Shape {
    match kind {
        VectorKind::I8 => (18nat, 'a', 'I', 'F'),
        VectorKind::U8 => (18nat, 'a', 'U', 'F'),
        VectorKind::ClampedU8 => (25nat, 'm', 'e', 'A'),
        VectorKind::I16 => (19nat, 'a', 'I', '6'),
        VectorKind::U16 => (19nat, 'a', 'U', '6'),
        VectorKind::I32 => (19nat, 'a', 'I', '2'),
        VectorKind::U32 => (19nat, 'a', 'U', '2'),
        VectorKind::I64 => (19nat, 'a', 'I', '4'),
        VectorKind::U64 => (19nat, 'a', 'U', '4'),
        VectorKind::F32 => (19nat, 'a', 'F', '2'),
        VectorKind::F64 => (19nat, 'a', 'F', '4'),
        VectorKind::String => (17nat, 'i', 'g', 'r'),
        VectorKind::Anyref => (23nat, 'a', 'J', 'V'),
    }
}

/// That is its shape.
proof fn lemma_get_shape(kind: VectorKind)
    ensures
        shape(get_name(kind)) == get_shape(kind),
{
    match kind {
        VectorKind::I8 => {
            reveal_strlit("getArrayI8FromWasm");
        },
        VectorKind::U8 => {
            reveal_strlit("getArrayU8FromWasm");
        },
        VectorKind::ClampedU8 => {
            reveal_strlit("getClampedArrayU8FromWasm");
        },
        VectorKind::I16 => {
            reveal_strlit("getArrayI16FromWasm");
        },
        VectorKind::U16 => {
            reveal_strlit("getArrayU16FromWasm");
        },
        VectorKind::I32 => {
            reveal_strlit("getArrayI32FromWasm");
        },
        VectorKind::U32 => {
            reveal_strlit("getArrayU32FromWasm");
        },
        VectorKind::I64 => {
            reveal_strlit("getArrayI64FromWasm");
        },
        VectorKind::U64 => {
            reveal_strlit("getArrayU64FromWasm");
        },
        VectorKind::F32 => {
            reveal_strlit("getArrayF32FromWasm");
        },
        VectorKind::F64 => {
            reveal_strlit("getArrayF64FromWasm");
        },
        VectorKind::String => {
            reveal_strlit("getStringFromWasm");
        },
        VectorKind::Anyref => {
            reveal_strlit("getArrayJsValueFromWasm");
        },
    }
}

/// The functions that read items of different kinds have different names.
pub proof fn law_get_names_differ(a: VectorKind, b: VectorKind)
    requires
        a != b,
    ensures
        get_name(a) != get_name(b),
{
    lemma_get_shape(a);
    lemma_get_shape(b);
}

/// The function that reads items of some kind is written once: asking for it again, at any later
/// time, changes nothing.
pub proof fn law_getter_written_once(state: GlueView, kind: VectorKind, later: GlueView)
    requires
        state.open(),
        state.run(get_steps(kind)).result is Ok,
        state.run(get_steps(kind)).state.grows_to(later),
    ensures
        later.run(get_steps(kind)) == done(later, ()),
{
    let steps = get_steps(kind);
    let after = state.run(steps).state;
    law_perform_grows(state, top_layer(), steps);
    assert forall|i: int| 0 <= i < steps.len() implies (#[trigger] steps[i] matches Step::Expose(
        helper,
    ) && helper.layer() < top_layer() && later.expose(helper) == done(later, ())) by {
        lemma_performed(state, top_layer(), steps, i);
        lemma_expose(later, steps[i]->Expose_0);
    }
    if steps.len() == 1 {
        lemma_steps_1(later, top_layer(), steps);
        assert(steps[0] is Expose);
    } else {
        lemma_steps_2(later, top_layer(), steps);
        assert(steps[0] is Expose && steps[1] is Expose);
    }
}

/// The text of the function that reads items of some kind.
pub open spec fn get_text(state: GlueView, kind: VectorKind) -> Seq<char> {
    match get_helper(kind) {
        Helper::GetArray { name, memory, size } => get_array(name, memory, size),
        Helper::GetString => get_string(state.memory_entry().limits.shared),
        _ => if state.config.anyref {
            GET_ARRAY_JSVALUE_ANYREF@
        } else {
            GET_ARRAY_JSVALUE_HEAP@
        },
    }
}

/// The first time it is asked for, the function that reads items of some kind is written behind
/// all that was there.
pub proof fn law_getter_is_written(state: GlueView, kind: VectorKind)
    requires
        state.open(),
        state.run(get_steps(kind)).result is Ok,
        !state.is_exposed(get_helper(kind).key()),
    ensures
        exists|text: Seq<char>|
            state.globals.is_prefix_of(text) && state.run(get_steps(kind)).state.globals
                == #[trigger] with_item(text, get_text(state, kind)),
{
    let steps = get_steps(kind);
    let helper = get_helper(kind);
    let layer = helper.layer();
    // The state in which the helper is exposed.
    let at = if steps.len() == 1 {
        lemma_steps_1(state, top_layer(), steps);
        state
    } else {
        lemma_steps_2(state, top_layer(), steps);
        lemma_memory_is_another(kind);
        lemma_expose(state, kind_memory(kind));
        lemma_steps_1(
            state.mark(kind_memory(kind).key()),
            0,
            state.steps(kind_memory(kind)),
        );
        law_expose_grows(state, kind_memory(kind));
        state.expose(kind_memory(kind)).state
    };
    lemma_expose(at, helper);
    let marked = at.mark(helper.key());
    let inner = at.steps(helper);
    lemma_needs_stay(state, at, helper);
    let n = if kind is Anyref && state.config.anyref {
        inner.len() - 2
    } else {
        inner.len() - 1
    };
    let before = marked.perform(layer, inner.take(n as int));
    law_perform_grows(marked, layer, inner.take(n as int));
    lemma_perform(marked, layer, inner);
    if kind is Anyref && state.config.anyref {
        assert(inner.drop_last().drop_last() =~= inner.take(n as int));
        lemma_perform(marked, layer, inner.drop_last());
    } else {
        assert(inner.drop_last() =~= inner.take(n as int));
    }
    lemma_prefixes(state.globals, at.globals, before.state.globals);
    assert(state.run(steps).state.globals == with_item(before.state.globals, get_text(state, kind)));
}

/// The view of the memory is another helper than the function that reads it.
proof fn lemma_memory_is_another(kind: VectorKind)
    requires
        !(kind is String),
        !(kind is Anyref),
    ensures
        kind_memory(kind).key() != get_helper(kind).key(),
{
    law_keys_differ(kind_memory(kind), get_helper(kind));
}

} // verus!
