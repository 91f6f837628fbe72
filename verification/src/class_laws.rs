//! What holds of the classes over a run, up to where they are written.
use crate::bindings::{AuxExport, AuxExportKind, AuxStruct, WasmBindgenAux};
use crate::context::GlueView;
use crate::error::GlueErrorView;
use crate::export::field_ts;
use crate::generate::ExportGlueView;
use crate::helper_laws::{law_expose_grows, law_perform_grows};
use crate::helpers::top_layer;
use crate::run_laws::{
    law_call_exposes, lemma_ending_leaves, lemma_enums_leave, lemma_files_leave,
    lemma_installing_leaves, lemma_writing_leaves, Call,
};
use vstd::prelude::*;

verus! {

impl Call {
    /// The translation of the export that a call adds.
    pub open spec fn translation(self) -> Option<ExportGlueView> {
        match self {
            Call::GenerateExport { export, glue } => Some(glue),
            Call::AnswerExport { export, translated: Ok(glue) } => Some(glue),
            _ => None,
        }
    }

    /// What a call adds an export as, if it adds one.
    pub open spec fn bound(self) -> Option<AuxExportKind> {
        match self {
            Call::GenerateExport { export, glue } => Some(export.kind),
            Call::AnswerExport { export, translated: Ok(glue) } => Some(export.kind),
            _ => None,
        }
    }

    /// Whether a call adds a constructor to a class.
    pub open spec fn constructs(self, class: Seq<char>) -> bool {
        self.bound() matches Some(AuxExportKind::Constructor(name)) && name@ == class
    }

    /// Whether a call adds a getter for a field of a class.
    pub open spec fn gets(self, class: Seq<char>, field: Seq<char>) -> bool {
        self.bound() matches Some(AuxExportKind::Getter { class: c, field: f }) && c@ == class && f@
            == field
    }

    /// Whether a call adds a setter for a field of a class.
    pub open spec fn sets(self, class: Seq<char>, field: Seq<char>) -> bool {
        self.bound() matches Some(AuxExportKind::Setter { class: c, field: f }) && c@ == class && f@
            == field
    }
}

impl GlueView {
    /// Whether a class has a field.
    pub open spec fn has_field(self, class: Seq<char>, field: Seq<char>) -> bool {
        self.class(class).fields.contains_key(field)
    }

    /// The TypeScript type of a field, which is empty where there is none.
    pub open spec fn field_type(self, class: Seq<char>, field: Seq<char>) -> Seq<char> {
        if self.has_field(class, field) {
            self.class(class).fields[field].0
        } else {
            Seq::empty()
        }
    }

    /// Whether a field has a setter.
    pub open spec fn has_setter(self, class: Seq<char>, field: Seq<char>) -> bool {
        self.has_field(class, field) && self.class(class).fields[field].1
    }
}

/// Whether the classes are still to be written behind some calls.
pub open spec fn classes_are_open(calls: Seq<Call>) -> bool {
    forall|i: int| 0 <= i < calls.len() ==> !(#[trigger] calls[i] is WriteClasses)
}

/// Structs add no members.
proof fn lemma_structs_add_none(state: GlueView, items: Seq<AuxStruct>, class: Seq<char>)
    requires
        state.classes is Some,
    ensures
        state.generate_structs(items).classes is Some,
        state.generate_structs(items).class(class).has_constructor == state.class(
            class,
        ).has_constructor,
        state.generate_structs(items).class(class).fields == state.class(class).fields,
    decreases items.len(),
{
    if items.len() > 0 {
        lemma_structs_add_none(state, items.drop_last(), class);
    }
}

/// Telling what comes next adds no members.
proof fn lemma_generate_adds_none(
    state: GlueView,
    aux: WasmBindgenAux,
    bound: nat,
    class: Seq<char>,
)
    requires
        state.classes is Some,
    ensures
        state.generate(aux, bound).state.classes is Some,
        state.generate(aux, bound).state.class(class).has_constructor == state.class(
            class,
        ).has_constructor,
        state.generate(aux, bound).state.class(class).fields == state.class(class).fields,
{
    let enums = state.generate_enums(aux.enums@);
    lemma_enums_leave(state, aux.enums@);
    let structs = enums.state.generate_structs(aux.structs@);
    lemma_structs_add_none(enums.state, aux.structs@, class);
    lemma_files_leave(
        GlueView { typescript: structs.typescript + aux.extra_typescript@, ..structs },
        aux.package_jsons@,
    );
}

/// What adding an export does to the constructor and the fields of a class.
proof fn lemma_export_members(
    state: GlueView,
    export: AuxExport,
    glue: ExportGlueView,
    class: Seq<char>,
    field: Seq<char>,
)
    requires
        state.classes is Some,
    ensures
        ({
            let call = Call::GenerateExport { export, glue };
            let after = state.generate_export(export, glue).state;
            &&& after.classes is Some
            &&& after.class(class).has_constructor == (state.class(class).has_constructor
                || call.constructs(class))
            &&& after.has_field(class, field) == (state.has_field(class, field) || call.gets(
                class,
                field,
            ) || call.sets(class, field))
            &&& after.has_setter(class, field) == (state.has_setter(class, field) || call.sets(
                class,
                field,
            ))
            &&& after.field_type(class, field) == (if call.gets(class, field) {
                glue.ret_ty
            } else {
                state.field_type(class, field)
            })
        }),
{
}

/// What a call that adds an export does to the constructor and the fields of a class.
proof fn lemma_binding(state: GlueView, call: Call, class: Seq<char>, field: Seq<char>)
    requires
        state.classes is Some,
        call.binds(),
    ensures
        state.after(call).classes is Some,
        state.after(call).class(class).has_constructor == (state.class(class).has_constructor
            || call.constructs(class)),
        state.after(call).has_field(class, field) == (state.has_field(class, field) || call.gets(
            class,
            field,
        ) || call.sets(class, field)),
        state.after(call).has_setter(class, field) == (state.has_setter(class, field) || call.sets(
            class,
            field,
        )),
        state.after(call).field_type(class, field) == (if call.gets(class, field) {
            call.translation()->0.ret_ty
        } else {
            state.field_type(class, field)
        }),
{
    reveal(GlueView::after_exports);
    match call {
        Call::GenerateExport { export, glue } => lemma_export_members(
            state,
            export,
            glue,
            class,
            field,
        ),
        Call::AnswerExport { export, translated: Ok(glue) } => lemma_export_members(
            state,
            export,
            glue,
            class,
            field,
        ),
        _ => {},
    }
}

/// A call that exposes helpers adds no members.
proof fn lemma_helpers_leave(state: GlueView, call: Call)
    requires
        state.open(),
        call.exposes(),
    ensures
        state.after(call).classes == state.classes,
{
    reveal(GlueView::after_helpers);
    match call {
        Call::Expose { helper } => law_expose_grows(state, helper),
        Call::Run { steps } => law_perform_grows(state, top_layer(), steps),
        _ => {},
    }
}

/// A struct, and a function that makes objects, add no members.
proof fn lemma_others_add_none(state: GlueView, call: Call, class: Seq<char>)
    requires
        state.classes is Some,
        call is Structure || call is RequireClassWrap,
    ensures
        state.after(call).classes is Some,
        state.after(call).class(class).has_constructor == state.class(class).has_constructor,
        state.after(call).class(class).fields == state.class(class).fields,
{
    reveal(GlueView::after_classes);
}

/// What a call does to the constructor and the fields of a class.
pub proof fn law_call_members(state: GlueView, call: Call, class: Seq<char>, field: Seq<char>)
    requires
        state.open(),
        state.classes is Some,
        !(call is WriteClasses),
    ensures
        state.after(call).open(),
        state.after(call).classes is Some,
        state.after(call).class(class).has_constructor == (state.class(class).has_constructor
            || call.constructs(class)),
        state.after(call).has_field(class, field) == (state.has_field(class, field) || call.gets(
            class,
            field,
        ) || call.sets(class, field)),
        state.after(call).has_setter(class, field) == (state.has_setter(class, field) || call.sets(
            class,
            field,
        )),
        state.after(call).field_type(class, field) == (if call.gets(class, field) {
            call.translation()->0.ret_ty
        } else {
            state.field_type(class, field)
        }),
{
    law_call_exposes(state, call);
    if call.exposes() {
        lemma_helpers_leave(state, call);
    } else if call.writes() {
        lemma_writing_leaves(state, call);
    } else if call.installs() {
        lemma_installing_leaves(state, call);
    } else if call.ends() {
        lemma_ending_leaves(state, call);
    } else if call.binds() {
        lemma_binding(state, call, class, field);
    } else if let Call::Generate { aux, bound } = call {
        reveal(GlueView::after_generate);
        lemma_generate_adds_none(state, aux, bound, class);
    } else {
        lemma_others_add_none(state, call, class);
    }
}

/// A class has a constructor if and only if one of the calls added one.
pub proof fn law_constructor(state: GlueView, calls: Seq<Call>, class: Seq<char>)
    requires
        state.open(),
        state.classes is Some,
        classes_are_open(calls),
    ensures
        state.after_all(calls).open(),
        state.after_all(calls).classes is Some,
        state.after_all(calls).class(class).has_constructor <==> (state.class(class).has_constructor
            || exists|i: int| 0 <= i < calls.len() && (#[trigger] calls[i]).constructs(class)),
    decreases calls.len(),
{
    if calls.len() > 0 {
        let rest = calls.drop_last();
        law_constructor(state, rest, class);
        law_call_members(state.after_all(rest), calls.last(), class, Seq::empty());
        assert(forall|i: int| 0 <= i < rest.len() ==> rest[i] == #[trigger] calls[i]);
        if state.after_all(rest).class(class).has_constructor && !state.class(
            class,
        ).has_constructor {
            let i = choose|i: int| 0 <= i < rest.len() && (#[trigger] rest[i]).constructs(class);
            assert(calls[i].constructs(class));
        }
        if calls.last().constructs(class) {
            assert(calls[calls.len() - 1].constructs(class));
        }
    }
}

/// A class has one constructor: once one was added, another one is refused, whatever was called in
/// between.
pub proof fn law_one_constructor(
    state: GlueView,
    calls: Seq<Call>,
    i: int,
    class: Seq<char>,
    export: AuxExport,
    glue: ExportGlueView,
)
    requires
        state.open(),
        state.classes is Some,
        classes_are_open(calls),
        0 <= i < calls.len(),
        calls[i].constructs(class),
        export.kind matches AuxExportKind::Constructor(name) && name@ == class,
    ensures
        state.after_all(calls).generate_export(export, glue).result == Err::<(), _>(
            GlueErrorView::DuplicateConstructor(class),
        ),
{
    law_constructor(state, calls, class);
}

/// A class has a field if and only if one of the calls added a getter or a setter for it, and the
/// field has a setter if and only if one of them added that.
pub proof fn law_fields(state: GlueView, calls: Seq<Call>, class: Seq<char>, field: Seq<char>)
    requires
        state.open(),
        state.classes is Some,
        classes_are_open(calls),
    ensures
        state.after_all(calls).open(),
        state.after_all(calls).classes is Some,
        state.after_all(calls).has_field(class, field) <==> (state.has_field(class, field)
            || exists|i: int|
            0 <= i < calls.len() && ((#[trigger] calls[i]).gets(class, field) || calls[i].sets(
                class,
                field,
            ))),
        state.after_all(calls).has_setter(class, field) <==> (state.has_setter(class, field)
            || exists|i: int| 0 <= i < calls.len() && (#[trigger] calls[i]).sets(class, field)),
    decreases calls.len(),
{
    if calls.len() > 0 {
        let rest = calls.drop_last();
        let last = calls[calls.len() - 1];
        law_fields(state, rest, class, field);
        law_call_members(state.after_all(rest), calls.last(), class, field);
        assert forall|i: int| 0 <= i < rest.len() implies rest[i] == #[trigger] calls[i] by {}
        if exists|i: int|
            0 <= i < rest.len() && ((#[trigger] rest[i]).gets(class, field) || rest[i].sets(
                class,
                field,
            )) {
            let i = choose|i: int|
                0 <= i < rest.len() && ((#[trigger] rest[i]).gets(class, field) || rest[i].sets(
                    class,
                    field,
                ));
            assert(calls[i].gets(class, field) || calls[i].sets(class, field));
        }
        if exists|i: int| 0 <= i < rest.len() && (#[trigger] rest[i]).sets(class, field) {
            let i = choose|i: int| 0 <= i < rest.len() && (#[trigger] rest[i]).sets(class, field);
            assert(calls[i].sets(class, field));
        }
        assert(last == calls.last());
    }
}

/// The type of a field is what its last getter returns.
pub proof fn law_field_type(
    state: GlueView,
    calls: Seq<Call>,
    i: int,
    class: Seq<char>,
    field: Seq<char>,
)
    requires
        state.open(),
        state.classes is Some,
        classes_are_open(calls),
        0 <= i < calls.len(),
        calls[i].gets(class, field),
        forall|j: int| i < j < calls.len() ==> !(#[trigger] calls[j]).gets(class, field),
    ensures
        state.after_all(calls).field_type(class, field) == calls[i].translation()->0.ret_ty,
    decreases calls.len(),
{
    let rest = calls.drop_last();
    law_fields(state, rest, class, field);
    law_call_members(state.after_all(rest), calls.last(), class, field);
    if i < rest.len() {
        assert(rest[i] == calls[i]);
        assert forall|j: int| i < j < rest.len() implies !(#[trigger] rest[j]).gets(
            class,
            field,
        ) by {
            assert(rest[j] == calls[j]);
        }
        law_field_type(state, rest, i, class, field);
    } else {
        assert(calls[i] == calls.last());
    }
}

/// In TypeScript a field is read-only if and only if it has no setter.
pub proof fn law_readonly(field: Seq<char>, ty: Seq<char>)
    ensures
        field_ts(field, ty, false) == "readonly "@ + field + ": "@ + ty + ";\n"@,
        field_ts(field, ty, true) == field + ": "@ + ty + ";\n"@,
{
    reveal_strlit("");
    assert(""@ + field =~= field);
}

} // verus!
