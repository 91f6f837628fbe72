//! What holds of the exports of the glue: functions, enums, classes and their members.
use crate::class::ClassView;
use crate::class_laws::{classes_are_open, law_constructor};
use crate::config::{Bindgen, OutputMode};
use crate::context::{feeds, gap, with_item, GlueView};
use crate::export::{
    class_free, class_js, class_ts, class_wrap, export_text, finalization_text, free_name,
    free_text, is_ascii, lower,
};
use crate::helper_laws::lemma_item_behind;
use crate::names::{identifier, in_order, law_in_order};
use crate::parts::{holds, lemma_middle, lemma_second, lemma_start_holds, lemma_starts};
use crate::run_laws::Call;
use crate::snippets::CLASS_NO_CONSTRUCTOR;
use crate::text::{is_space, trimmed, trimmed_end, trimmed_start};
use vstd::prelude::*;

verus! {

/// The text of a class holds a constructor that throws if and only if the run is a debug run and no
/// constructor was added to the class. It holds `__wrap` if and only if that is needed. Besides
/// these there are `free` and the members that were added. Objects are registered, and no longer
/// registered once they are freed, where weak references are asked for.
pub proof fn law_class_text(config: Bindgen, name: Seq<char>, class: ClassView)
    ensures
        ({
            let none = Seq::<char>::empty();
            let throwing = if config.debug && !class.has_constructor {
                "
                    constructor() {
                        throw new Error('cannot invoke `new` directly');
                    }
                "@
            } else {
                none
            };
            let wrap = if class.wrap_needed {
                "
                static __wrap(ptr) {
                    const obj = Object.create("@ + name + ".prototype);
                    obj.ptr = ptr;
                    "@ + (if config.weak_refs {
                    name + "FinalizationGroup.register(obj, obj.ptr, obj.ptr);"@
                } else {
                    none
                }) + "
                    return obj;
                }
                "@
            } else {
                none
            };
            let free = "
            free() {
                const ptr = this.ptr;
                this.ptr = 0;
                "@ + (if config.weak_refs {
                name + "FinalizationGroup.unregister(ptr);"@
            } else {
                none
            }) + "
                free"@ + name + "(ptr);
            }
            "@;
            class_js(config, name, class) == "class "@ + name + " {\n"@ + throwing + wrap + free
                + class.contents + "}\n"@
        }),
{
    reveal_strlit("");
    assert(""@ =~= Seq::<char>::empty());
}

/// Over a run, the text of a class holds a constructor that throws if and only if the run is a debug
/// run and none of its calls added a constructor to the class.
pub proof fn law_throwing_constructor(
    config: Bindgen,
    state: GlueView,
    calls: Seq<Call>,
    name: Seq<char>,
)
    requires
        state.open(),
        state.classes is Some,
        !state.classes->0.contains_key(name),
        classes_are_open(calls),
    ensures
        ({
            let class = state.after_all(calls).class(name);
            let other = ClassView { has_constructor: true, ..class };
            let constructed = exists|i: int|
                0 <= i < calls.len() && (#[trigger] calls[i]).constructs(name);
            let throwing = "
                    constructor() {
                        throw new Error('cannot invoke `new` directly');
                    }
                "@;
            let head = "class "@ + name + " {\n"@;
            let full = class_js(config, name, other);
            &&& head.is_prefix_of(full)
            &&& class_js(config, name, class) == (if config.debug && !constructed {
                head + throwing + full.skip(head.len() as int)
            } else {
                full
            })
        }),
{
    law_constructor(state, calls, name);
    let class = state.after_all(calls).class(name);
    let other = ClassView { has_constructor: true, ..class };
    let head = "class "@ + name + " {\n"@;
    let rest = behind_constructor(config, name, class);
    lemma_class_parts(config, name, class);
    lemma_class_parts(config, name, other);
    let full = class_js(config, name, other);
    lemma_starts(head, rest, head);
    assert(full.skip(head.len() as int) =~= rest);
}

/// What of a class stands behind the constructor that throws.
spec fn behind_constructor(config: Bindgen, name: Seq<char>, class: ClassView) -> Seq<char> {
    (if class.wrap_needed {
        class_wrap(config, name)
    } else {
        Seq::empty()
    }) + class_free(config, name) + class.contents + "}\n"@
}

/// A class is its head, the constructor that throws where there is one, and the rest.
proof fn lemma_class_parts(config: Bindgen, name: Seq<char>, class: ClassView)
    ensures
        ({
            let head = "class "@ + name + " {\n"@;
            let rest = behind_constructor(config, name, class);
            class_js(config, name, class) == (if config.debug && !class.has_constructor {
                head + CLASS_NO_CONSTRUCTOR@ + rest
            } else {
                head + rest
            })
        }),
{
    reveal_strlit("");
    let head = "class "@ + name + " {\n"@;
    let rest = behind_constructor(config, name, class);
    assert(head + ""@ =~= head);
    if config.debug && !class.has_constructor {
        assert(class_js(config, name, class) =~= head + CLASS_NO_CONSTRUCTOR@ + rest);
    } else {
        assert(class_js(config, name, class) =~= head + rest);
    }
}

/// What frees an object of a class is called after the class, in lower case.
pub proof fn law_free_name(class: Seq<char>)
    requires
        is_ascii(class),
    ensures
        ({
            let name = free_name(class);
            let middle = name.subrange(6, name.len() - 5);
            &&& name == "__wbg_"@ + middle + "_free"@
            &&& middle.len() == class.len()
            &&& forall|i: int|
                0 <= i < class.len() ==> (#[trigger] middle[i]) as int == (if 65
                    <= class[i] as int <= 90 {
                    class[i] as int + 32
                } else {
                    class[i] as int
                })
        }),
{
    reveal_strlit("__wbg_");
    reveal_strlit("_free");
    let lowered = class.map_values(|c: char| lower(c));
    let name = free_name(class);
    assert(name.subrange(6, name.len() - 5) =~= lowered);
}

/// An item, as it is exported where it is a function, a class or a constant.
///
/// An ES module exports it where it is defined, or under its name where it is called otherwise in
/// the glue. A CommonJS module and a script assign it to what they export.
pub proof fn law_export_text(
    mode: OutputMode,
    name: Seq<char>,
    definition: Seq<char>,
    contents: Seq<char>,
)
    ensures
        ({
            let es = mode is Bundler || mode is Web || mode matches OutputMode::Node {
                experimental_modules: true,
            };
            let function = "function"@.is_prefix_of(contents);
            let class = "class"@.is_prefix_of(contents);
            let body = contents.skip(8);
            let exports = if mode is Node {
                "module.exports."@
            } else {
                "__exports."@
            };
            export_text(mode, name, definition, contents) == (if es && function && name
                == definition {
                "export function "@ + name + body + "\n"@
            } else if es && function {
                "function "@ + definition + body + "\nexport { "@ + definition + " as "@ + name
                    + " };\n"@
            } else if es && class {
                "export "@ + contents + "\n"@
            } else if es {
                "export const "@ + name + " = "@ + contents + ";\n"@
            } else if class {
                contents + "\n"@ + exports + name + " = "@ + name + ";\n"@
            } else {
                exports + name + " = "@ + contents + ";\n"@
            })
        }),
{
    reveal_strlit("function");
}

/// An item that is exported stands behind its documentation, in JavaScript; and in TypeScript its
/// documentation is there too. Its name counts as used. A class that cannot have its own name is
/// refused, and then neither text changes.
pub proof fn law_export(
    state: GlueView,
    name: Seq<char>,
    contents: Seq<char>,
    comments: Option<Seq<char>>,
)
    ensures
        ({
            let local = identifier(state.identifiers, name);
            let outcome = state.export(name, contents, comments);
            let docs = if comments is Some {
                comments->0
            } else {
                Seq::empty()
            };
            &&& outcome.result is Err <==> "class"@.is_prefix_of(contents) && local != name
            &&& outcome.state.identifiers == state.identifiers.insert(name)
            &&& outcome.result is Ok ==> outcome.state.globals == with_item(
                state.globals + docs,
                export_text(state.config.mode, name, local, trimmed(contents)),
            ) && outcome.state.typescript == state.typescript + docs
            &&& outcome.result is Err ==> outcome.state.globals == state.globals
                && outcome.state.typescript == state.typescript
        }),
{
}

/// A class is written behind the function that frees its objects and, where weak references are
/// asked for, behind what frees the objects that JavaScript drops. In TypeScript it stands behind
/// its documentation.
pub proof fn law_class_is_written(state: GlueView, name: Seq<char>, class: ClassView)
    requires
        state.write_class(name, class).result is Ok,
    ensures
        ({
            let after = state.write_class(name, class).state;
            let free = "
            function free"@ + name + "(ptr) {
                wasm."@ + free_name(name) + "(ptr);
            }
            "@;
            let group = "
                const "@ + name + "FinalizationGroup = new FinalizationGroup((items) => {
                    for (const ptr of items) {
                        free"@ + name + "(ptr);
                    }
                });
                "@;
            let before = if state.config.weak_refs {
                with_item(with_item(state.globals, free), group)
            } else {
                with_item(state.globals, free)
            };
            &&& identifier(state.identifiers, name) == name
            &&& after.globals == with_item(
                before + class.comments,
                export_text(
                    state.config.mode,
                    name,
                    name,
                    trimmed(class_js(state.config, name, class)),
                ),
            )
            &&& after.typescript == state.typescript + class.comments + class_ts(name, class)
        }),
{
    lemma_class_prefix(state.config, name, class);
}

/// The text of a class starts with the word.
proof fn lemma_class_prefix(config: Bindgen, name: Seq<char>, class: ClassView)
    ensures
        "class"@.is_prefix_of(class_js(config, name, class)),
{
    reveal_strlit("class");
    reveal_strlit("class ");
    let text = class_js(config, name, class);
    assert(text.subrange(0, 5) =~= "class"@);
}

/// Writing a class only adds to the texts.
proof fn lemma_class_behind(state: GlueView, name: Seq<char>, class: ClassView)
    ensures
        state.write_class(name, class).state.config == state.config,
        state.globals.is_prefix_of(state.write_class(name, class).state.globals),
        state.typescript.is_prefix_of(state.write_class(name, class).state.typescript),
{
    let freed = state.write_free(name);
    let once = with_item(state.globals, free_text(name));
    lemma_item_behind(state.globals, free_text(name));
    lemma_item_behind(once, finalization_text(name));
    lemma_starts(state.globals, once, freed.globals);
    assert(state.globals.is_prefix_of(freed.globals));
    let documented = freed.globals + class.comments;
    let text = export_text(
        state.config.mode,
        name,
        identifier(state.identifiers, name),
        trimmed(class_js(state.config, name, class)),
    );
    let after = with_item(documented, text);
    lemma_item_behind(documented, text);
    lemma_starts(freed.globals, class.comments, after);
    lemma_starts(state.globals, freed.globals, documented);
    lemma_starts(state.globals, documented, after);
    lemma_starts(state.typescript, class.comments, state.typescript);
    lemma_starts(state.typescript + class.comments, class_ts(name, class), state.typescript);
    lemma_starts(
        state.typescript,
        state.typescript + class.comments,
        state.typescript + class.comments + class_ts(name, class),
    );
}

/// A line without white space at its ends but for the line feed is trimmed by that.
proof fn lemma_trimmed_line(line: Seq<char>)
    requires
        line.len() >= 2,
        !is_space(line[0]),
        !is_space(line[line.len() - 2]),
        line.last() == '\n',
    ensures
        trimmed(line) == line.drop_last(),
{
    let short = line.drop_last();
    assert(is_space('\n'));
    assert(trimmed_start(line) == line);
    assert(trimmed_end(short) == short);
}

/// Such a line stands as an item as it is.
pub proof fn lemma_line(before: Seq<char>, line: Seq<char>, part: Seq<char>)
    requires
        line.len() >= 2,
        !is_space(line[0]),
        !is_space(line[line.len() - 2]),
        line.last() == '\n',
        holds(line, part),
    ensures
        holds(with_item(before, line), part),
{
    let short = line.drop_last();
    lemma_trimmed_line(line);
    reveal(with_item);
    reveal_strlit("\n");
    assert(short + "\n"@ =~= line);
    let front = before + feeds(gap(before));
    assert(with_item(before, line) =~= front + line);
    lemma_second(front, line, part);
}

/// Whether a text starts and ends as a class does.
spec fn is_class(text: Seq<char>) -> bool {
    &&& "class"@.is_prefix_of(text)
    &&& !"function"@.is_prefix_of(text)
    &&& text.len() > 5
    &&& text[0] == 'c'
    &&& text.last() == '}'
}

/// A class in whole lines is trimmed at its end only.
proof fn lemma_trimmed_lines(middle: Seq<char>)
    ensures
        is_class(trimmed("class "@ + middle + "}\n"@)),
{
    reveal_strlit("class");
    reveal_strlit("class ");
    reveal_strlit("function");
    reveal_strlit("}\n");
    let all = "class "@ + middle + "}\n"@;
    assert(all[0] == "class "@[0]);
    assert(all[all.len() - 2] == "}\n"@[0]);
    lemma_trimmed_line(all);
    let text = all.drop_last();
    assert(text.subrange(0, 5) =~= "class"@);
    if "function"@.is_prefix_of(text) {
        assert(text.subrange(0, 8)[0] == "function"@[0]);
    }
}

/// The text of a class is trimmed at its end only, and is no function.
proof fn lemma_trimmed_class(config: Bindgen, name: Seq<char>, class: ClassView)
    ensures
        is_class(trimmed(class_js(config, name, class))),
{
    law_class_text(config, name, class);
    let all = class_js(config, name, class);
    let last = "}\n"@;
    let front = all.take(all.len() - last.len());
    assert(all =~= front + last);
    let middle = front.skip("class "@.len() as int);
    assert(front =~= "class "@ + middle);
    lemma_trimmed_lines(middle);
}

/// How a class is exported, whatever it is called.
proof fn lemma_exported_class(before: Seq<char>, mode: OutputMode, name: Seq<char>, text: Seq<char>)
    requires
        is_class(text),
    ensures
        holds(with_item(before, export_text(mode, name, name, text)), text),
{
    law_export_text(mode, name, name, text);
    let exported = export_text(mode, name, name, text);
    let none = Seq::<char>::empty();
    reveal_strlit("export ");
    reveal_strlit("\n");
    reveal_strlit(";\n");
    if mode.uses_es_modules() {
        lemma_middle("export "@, text, "\n"@);
        assert(exported == "export "@ + text + "\n"@);
        assert(exported[exported.len() - 2] == text.last());
        assert(exported[0] == "export "@[0]);
    } else {
        let exports = if mode is Node {
            "module.exports."@
        } else {
            "__exports."@
        };
        let tail = "\n"@ + exports + name + " = "@ + name + ";\n"@;
        lemma_middle(none, text, tail);
        assert(none + text + tail =~= exported);
        assert(exported[0] == text[0]);
        assert(exported[exported.len() - 2] == ";\n"@[0]);
    }
    lemma_line(before, exported, text);
}

/// A class that is written stands in the texts.
proof fn lemma_class_holds(state: GlueView, name: Seq<char>, class: ClassView)
    requires
        state.write_class(name, class).result is Ok,
    ensures
        ({
            let after = state.write_class(name, class).state;
            &&& holds(after.globals, trimmed(class_js(state.config, name, class)))
            &&& holds(after.typescript, class_ts(name, class))
        }),
{
    lemma_class_prefix(state.config, name, class);
    let text = trimmed(class_js(state.config, name, class));
    lemma_trimmed_class(state.config, name, class);
    lemma_exported_class(
        state.write_free(name).globals + class.comments,
        state.config.mode,
        name,
        text,
    );
    let ts = state.typescript + class.comments;
    lemma_middle(ts, class_ts(name, class), Seq::empty());
    assert(ts + class_ts(name, class) + Seq::<char>::empty() =~= ts + class_ts(name, class));
}

/// Writing classes only adds to the texts, and each class that is written stands in them.
proof fn lemma_each_is_written(
    state: GlueView,
    classes: Map<Seq<char>, ClassView>,
    names: Seq<Seq<char>>,
)
    ensures
        ({
            let outcome = state.write_each(classes, names);
            &&& outcome.state.config == state.config
            &&& state.globals.is_prefix_of(outcome.state.globals)
            &&& state.typescript.is_prefix_of(outcome.state.typescript)
            &&& outcome.result is Ok ==> forall|i: int|
                0 <= i < names.len() ==> holds(
                    outcome.state.globals,
                    trimmed(class_js(state.config, #[trigger] names[i], classes[names[i]])),
                ) && holds(outcome.state.typescript, class_ts(names[i], classes[names[i]]))
        }),
    decreases names.len(),
{
    lemma_starts(state.globals, state.globals, state.globals);
    lemma_starts(state.typescript, state.typescript, state.typescript);
    if names.len() > 0 {
        let rest = names.drop_last();
        let name = names.last();
        let class = classes[name];
        lemma_each_is_written(state, classes, rest);
        let before = state.write_each(classes, rest);
        let after = state.write_each(classes, names);
        if before.result is Ok {
            lemma_class_behind(before.state, name, class);
            lemma_starts(state.globals, before.state.globals, after.state.globals);
            lemma_starts(state.typescript, before.state.typescript, after.state.typescript);
            if after.result is Ok {
                lemma_class_holds(before.state, name, class);
                assert forall|i: int| 0 <= i < names.len() implies holds(
                    after.state.globals,
                    trimmed(class_js(state.config, #[trigger] names[i], classes[names[i]])),
                ) && holds(after.state.typescript, class_ts(names[i], classes[names[i]])) by {
                    if i < rest.len() {
                        assert(rest[i] == names[i]);
                        lemma_start_holds(
                            before.state.globals,
                            after.state.globals,
                            trimmed(class_js(state.config, names[i], classes[names[i]])),
                        );
                        lemma_start_holds(
                            before.state.typescript,
                            after.state.typescript,
                            class_ts(names[i], classes[names[i]]),
                        );
                    }
                }
            }
        }
    }
}

/// Writing the classes only adds to the texts.
pub proof fn law_classes_only_add(state: GlueView)
    ensures
        state.globals.is_prefix_of(state.write_classes().state.globals),
        state.typescript.is_prefix_of(state.write_classes().state.typescript),
{
    let classes = state.classes->0;
    lemma_each_is_written(
        GlueView { classes: None, ..state },
        classes,
        in_order(classes.dom()),
    );
}

/// Every class is written: its text stands behind what was there, in JavaScript and in TypeScript.
pub proof fn law_every_class_is_written(state: GlueView, name: Seq<char>)
    requires
        state.classes is Some,
        state.classes->0.dom().finite(),
        state.classes->0.contains_key(name),
        state.write_classes().result is Ok,
    ensures
        ({
            let after = state.write_classes().state;
            let class = state.classes->0[name];
            &&& state.globals.is_prefix_of(after.globals)
            &&& state.typescript.is_prefix_of(after.typescript)
            &&& holds(after.globals, trimmed(class_js(state.config, name, class)))
            &&& holds(after.typescript, class_ts(name, class))
            &&& after.classes is None
        }),
{
    let classes = state.classes->0;
    let names = in_order(classes.dom());
    let open = GlueView { classes: None, ..state };
    lemma_each_is_written(open, classes, names);
    law_in_order(classes.dom());
    assert(names.to_set().contains(name));
    let i = choose|i: int| 0 <= i < names.len() && names[i] == name;
    assert(names[i] == name);
    lemma_closed(open, classes, names);
}

/// Writing classes adds no class to those that are still to be written.
proof fn lemma_closed(state: GlueView, classes: Map<Seq<char>, ClassView>, names: Seq<Seq<char>>)
    ensures
        state.write_each(classes, names).state.classes == state.classes,
    decreases names.len(),
{
    if names.len() > 0 {
        lemma_closed(state, classes, names.drop_last());
    }
}

} // verus!
