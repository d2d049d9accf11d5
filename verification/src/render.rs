//! The result formatter: renders structured values with a bounded nesting
//! depth, substituting a placeholder for structure deeper than the bound, so
//! that cyclic or very deep values can never produce unbounded output.
//!
//! [`Value`] is the library's own model of a rendered engine value: scalars
//! arrive as already-rendered atoms, and the tree shape — arrays, records,
//! constructor applications — is what the depth bound cuts off.  The
//! rendering of a value at bound `d` equals the rendering of that value
//! truncated at depth `d` ([`lemma_render_is_truncated`]): the output can
//! never reflect structure deeper than the bound.

use vstd::prelude::*;

verus! {

/// How deep the default rendering of a value descends before it substitutes
/// a placeholder for the remaining structure.
pub const DEFAULT_RENDER_DEPTH: i32 = 6;

/// A structured value to render: an already-rendered scalar, an array, a
/// record of named fields, or a constructor applied to arguments.
pub enum Value {
    Atom(String),
    Array(Vec<Value>),
    Record(Vec<(String, Value)>),
    Apply(String, Vec<Value>),
}

/// The mathematical model of a [`Value`]: the same tree over sequences.
pub enum ValueModel {
    Atom(Seq<char>),
    Array(Seq<ValueModel>),
    Record(Seq<(Seq<char>, ValueModel)>),
    Apply(Seq<char>, Seq<ValueModel>),
}

pub open spec fn view_value(v: Value) -> ValueModel
    decreases v,
{
    match v {
        Value::Atom(s) => ValueModel::Atom(s@),
        Value::Array(items) => ValueModel::Array(view_items(items@)),
        Value::Record(fields) => ValueModel::Record(view_fields(fields@)),
        Value::Apply(name, args) => ValueModel::Apply(name@, view_items(args@)),
    }
}

pub open spec fn view_items(items: Seq<Value>) -> Seq<ValueModel>
    decreases items,
{
    if items.len() == 0 {
        Seq::empty()
    } else {
        view_items(items.drop_last()).push(view_value(items.last()))
    }
}

pub open spec fn view_fields(fields: Seq<(String, Value)>) -> Seq<(Seq<char>, ValueModel)>
    decreases fields,
{
    if fields.len() == 0 {
        Seq::empty()
    } else {
        view_fields(fields.drop_last()).push(
            (fields.last().0@, view_value(fields.last().1)),
        )
    }
}

impl View for Value {
    type V = ValueModel;

    open spec fn view(&self) -> ValueModel {
        view_value(*self)
    }
}

/// The item views line up with the items.
pub proof fn lemma_view_items(items: Seq<Value>)
    ensures
        view_items(items).len() == items.len(),
        forall|i: int| 0 <= i < items.len() ==> view_items(items)[i] == view_value(items[i]),
    decreases items.len(),
{
    if items.len() > 0 {
        lemma_view_items(items.drop_last());
    }
}

/// The field views line up with the fields.
pub proof fn lemma_view_fields(fields: Seq<(String, Value)>)
    ensures
        view_fields(fields).len() == fields.len(),
        forall|i: int|
            0 <= i < fields.len() ==> view_fields(fields)[i] == (
                fields[i].0@,
                view_value(fields[i].1),
            ),
    decreases fields.len(),
{
    if fields.len() > 0 {
        lemma_view_fields(fields.drop_last());
    }
}

/// The text a value renders to at nesting bound `depth`: structure at the
/// bound is replaced by the placeholder `".."`.
pub open spec fn spec_render(m: ValueModel, depth: nat) -> Seq<char>
    decreases m,
{
    match m {
        ValueModel::Atom(s) => s,
        ValueModel::Array(items) => if depth == 0 {
            ".."@
        } else {
            "["@ + spec_render_list(items, (depth - 1) as nat, ", "@) + "]"@
        },
        ValueModel::Record(fields) => if depth == 0 {
            ".."@
        } else {
            "{ "@ + spec_render_fields(fields, (depth - 1) as nat) + " }"@
        },
        ValueModel::Apply(name, args) => if depth == 0 {
            ".."@
        } else {
            name + spec_render_args(args, (depth - 1) as nat)
        },
    }
}

/// Renders the elements joined by `sep`.
pub open spec fn spec_render_list(items: Seq<ValueModel>, depth: nat, sep: Seq<char>) -> Seq<char>
    decreases items,
{
    if items.len() == 0 {
        Seq::empty()
    } else if items.len() == 1 {
        spec_render(items.last(), depth)
    } else {
        spec_render_list(items.drop_last(), depth, sep) + sep + spec_render(items.last(), depth)
    }
}

/// Renders `name = value` fields joined by `", "`.
pub open spec fn spec_render_fields(
    fields: Seq<(Seq<char>, ValueModel)>,
    depth: nat,
) -> Seq<char>
    decreases fields,
{
    if fields.len() == 0 {
        Seq::empty()
    } else if fields.len() == 1 {
        fields.last().0 + " = "@ + spec_render(fields.last().1, depth)
    } else {
        spec_render_fields(fields.drop_last(), depth) + ", "@ + fields.last().0 + " = "@
            + spec_render(fields.last().1, depth)
    }
}

/// Renders constructor arguments, each preceded by a space.
pub open spec fn spec_render_args(args: Seq<ValueModel>, depth: nat) -> Seq<char>
    decreases args,
{
    if args.len() == 0 {
        Seq::empty()
    } else {
        spec_render_args(args.drop_last(), depth) + " "@ + spec_render(args.last(), depth)
    }
}

/// The nesting depth of a value: atoms are flat, each structured node adds
/// one level.
pub open spec fn spec_depth(m: ValueModel) -> nat
    decreases m,
{
    match m {
        ValueModel::Atom(_) => 0,
        ValueModel::Array(items) => 1 + spec_depth_list(items),
        ValueModel::Record(fields) => 1 + spec_depth_fields(fields),
        ValueModel::Apply(_, args) => 1 + spec_depth_list(args),
    }
}

pub open spec fn spec_depth_list(items: Seq<ValueModel>) -> nat
    decreases items,
{
    if items.len() == 0 {
        0
    } else {
        let rest = spec_depth_list(items.drop_last());
        let last = spec_depth(items.last());
        if last >= rest {
            last
        } else {
            rest
        }
    }
}

pub open spec fn spec_depth_fields(fields: Seq<(Seq<char>, ValueModel)>) -> nat
    decreases fields,
{
    if fields.len() == 0 {
        0
    } else {
        let rest = spec_depth_fields(fields.drop_last());
        let last = spec_depth(fields.last().1);
        if last >= rest {
            last
        } else {
            rest
        }
    }
}

/// The value with everything below nesting bound `depth` cut off: structure
/// at the bound becomes the placeholder atom `".."`.
pub open spec fn spec_truncate(m: ValueModel, depth: nat) -> ValueModel
    decreases m,
{
    match m {
        ValueModel::Atom(s) => ValueModel::Atom(s),
        ValueModel::Array(items) => if depth == 0 {
            ValueModel::Atom(".."@)
        } else {
            ValueModel::Array(spec_truncate_list(items, (depth - 1) as nat))
        },
        ValueModel::Record(fields) => if depth == 0 {
            ValueModel::Atom(".."@)
        } else {
            ValueModel::Record(spec_truncate_fields(fields, (depth - 1) as nat))
        },
        ValueModel::Apply(name, args) => if depth == 0 {
            ValueModel::Atom(".."@)
        } else {
            ValueModel::Apply(name, spec_truncate_list(args, (depth - 1) as nat))
        },
    }
}

pub open spec fn spec_truncate_list(items: Seq<ValueModel>, depth: nat) -> Seq<ValueModel>
    decreases items,
{
    if items.len() == 0 {
        Seq::empty()
    } else {
        spec_truncate_list(items.drop_last(), depth).push(spec_truncate(items.last(), depth))
    }
}

pub open spec fn spec_truncate_fields(
    fields: Seq<(Seq<char>, ValueModel)>,
    depth: nat,
) -> Seq<(Seq<char>, ValueModel)>
    decreases fields,
{
    if fields.len() == 0 {
        Seq::empty()
    } else {
        spec_truncate_fields(fields.drop_last(), depth).push(
            (fields.last().0, spec_truncate(fields.last().1, depth)),
        )
    }
}

/// A truncated value never nests deeper than the bound it was truncated at.
pub proof fn lemma_truncate_bounded(m: ValueModel, depth: nat)
    ensures
        spec_depth(spec_truncate(m, depth)) <= depth,
    decreases m,
{
    match m {
        ValueModel::Atom(_) => {},
        ValueModel::Array(items) => {
            if depth > 0 {
                lemma_truncate_list_bounded(items, (depth - 1) as nat);
            }
        },
        ValueModel::Record(fields) => {
            if depth > 0 {
                lemma_truncate_fields_bounded(fields, (depth - 1) as nat);
            }
        },
        ValueModel::Apply(_, args) => {
            if depth > 0 {
                lemma_truncate_list_bounded(args, (depth - 1) as nat);
            }
        },
    }
}

proof fn lemma_truncate_list_bounded(items: Seq<ValueModel>, depth: nat)
    ensures
        spec_depth_list(spec_truncate_list(items, depth)) <= depth,
    decreases items,
{
    if items.len() > 0 {
        lemma_truncate_list_bounded(items.drop_last(), depth);
        lemma_truncate_bounded(items.last(), depth);
        assert(spec_truncate_list(items, depth).drop_last() =~= spec_truncate_list(
            items.drop_last(),
            depth,
        ));
    }
}

proof fn lemma_truncate_fields_bounded(fields: Seq<(Seq<char>, ValueModel)>, depth: nat)
    ensures
        spec_depth_fields(spec_truncate_fields(fields, depth)) <= depth,
    decreases fields,
{
    if fields.len() > 0 {
        lemma_truncate_fields_bounded(fields.drop_last(), depth);
        lemma_truncate_bounded(fields.last().1, depth);
        assert(spec_truncate_fields(fields, depth).drop_last() =~= spec_truncate_fields(
            fields.drop_last(),
            depth,
        ));
    }
}

/// What the bounded rendering shows is exactly the rendering of the value
/// truncated at the bound: output nesting never exceeds the configured
/// bound, regardless of how deep the input value is.
pub proof fn lemma_render_is_truncated(m: ValueModel, depth: nat)
    ensures
        spec_render(m, depth) == spec_render(spec_truncate(m, depth), depth),
        spec_depth(spec_truncate(m, depth)) <= depth,
    decreases m,
{
    lemma_truncate_bounded(m, depth);
    match m {
        ValueModel::Atom(_) => {},
        ValueModel::Array(items) => {
            if depth > 0 {
                lemma_render_list_truncated(items, (depth - 1) as nat, ", "@);
            }
        },
        ValueModel::Record(fields) => {
            if depth > 0 {
                lemma_render_fields_truncated(fields, (depth - 1) as nat);
            }
        },
        ValueModel::Apply(_, args) => {
            if depth > 0 {
                lemma_render_args_truncated(args, (depth - 1) as nat);
            }
        },
    }
}

proof fn lemma_render_list_truncated(items: Seq<ValueModel>, depth: nat, sep: Seq<char>)
    ensures
        spec_render_list(items, depth, sep) == spec_render_list(
            spec_truncate_list(items, depth),
            depth,
            sep,
        ),
    decreases items,
{
    if items.len() > 0 {
        lemma_render_list_truncated(items.drop_last(), depth, sep);
        lemma_render_is_truncated(items.last(), depth);
        let t = spec_truncate_list(items, depth);
        assert(t.drop_last() =~= spec_truncate_list(items.drop_last(), depth));
        assert(t.last() == spec_truncate(items.last(), depth));
    }
}

proof fn lemma_render_fields_truncated(fields: Seq<(Seq<char>, ValueModel)>, depth: nat)
    ensures
        spec_render_fields(fields, depth) == spec_render_fields(
            spec_truncate_fields(fields, depth),
            depth,
        ),
    decreases fields,
{
    if fields.len() > 0 {
        lemma_render_fields_truncated(fields.drop_last(), depth);
        lemma_render_is_truncated(fields.last().1, depth);
        let t = spec_truncate_fields(fields, depth);
        assert(t.drop_last() =~= spec_truncate_fields(fields.drop_last(), depth));
        assert(t.last() == (fields.last().0, spec_truncate(fields.last().1, depth)));
    }
}

proof fn lemma_render_args_truncated(args: Seq<ValueModel>, depth: nat)
    ensures
        spec_render_args(args, depth) == spec_render_args(spec_truncate_list(args, depth), depth),
    decreases args,
{
    if args.len() > 0 {
        lemma_render_args_truncated(args.drop_last(), depth);
        lemma_render_is_truncated(args.last(), depth);
        let t = spec_truncate_list(args, depth);
        assert(t.drop_last() =~= spec_truncate_list(args.drop_last(), depth));
        assert(t.last() == spec_truncate(args.last(), depth));
    }
}

/// The number of nodes in a value, the measure the renderer recurses on.
pub open spec fn size_value(v: Value) -> nat
    decreases v,
{
    match v {
        Value::Atom(_) => 1,
        Value::Array(items) => 1 + size_items(items@),
        Value::Record(fields) => 1 + size_fields(fields@),
        Value::Apply(_, args) => 1 + size_items(args@),
    }
}

pub open spec fn size_items(items: Seq<Value>) -> nat
    decreases items,
{
    if items.len() == 0 {
        0
    } else {
        size_items(items.drop_last()) + size_value(items.last())
    }
}

pub open spec fn size_fields(fields: Seq<(String, Value)>) -> nat
    decreases fields,
{
    if fields.len() == 0 {
        0
    } else {
        size_fields(fields.drop_last()) + size_value(fields.last().1)
    }
}

proof fn lemma_size_item(items: Seq<Value>, i: int)
    requires
        0 <= i < items.len(),
    ensures
        size_value(items[i]) <= size_items(items),
    decreases items.len(),
{
    if i < items.len() - 1 {
        lemma_size_item(items.drop_last(), i);
    }
}

proof fn lemma_size_field(fields: Seq<(String, Value)>, i: int)
    requires
        0 <= i < fields.len(),
    ensures
        size_value(fields[i].1) <= size_fields(fields),
    decreases fields.len(),
{
    if i < fields.len() - 1 {
        lemma_size_field(fields.drop_last(), i);
    }
}

/// Renders a value, descending at most `depth` levels into its structure.
pub fn render_value(v: &Value, depth: u32) -> (s: String)
    ensures
        s@ == spec_render(v@, depth as nat),
    decreases size_value(*v),
{
    match v {
        Value::Atom(text) => text.clone(),
        Value::Array(items) => {
            if depth == 0 {
                String::from_str("..")
            } else {
                let mut out = String::from_str("[");
                let mut i: usize = 0;
                proof {
                    lemma_view_items(items@);
                }
                while i < items.len()
                    invariant
                        i <= items@.len(),
                        view_items(items@).len() == items@.len(),
                        forall|j: int|
                            0 <= j < items@.len() ==> view_items(items@)[j] == view_value(
                                items@[j],
                            ),
                        out@ == "["@ + spec_render_list(
                            view_items(items@).subrange(0, i as int),
                            (depth - 1) as nat,
                            ", "@,
                        ),
                        depth >= 1,
                        size_items(items@) < size_value(*v),
                    decreases items@.len() - i,
                {
                    if i > 0 {
                        out.append(", ");
                    }
                    proof {
                        lemma_size_item(items@, i as int);
                    }
                    let piece = render_value(&items[i], depth - 1);
                    out.append(piece.as_str());
                    proof {
                        let vs = view_items(items@);
                        assert(vs.subrange(0, i + 1).drop_last() =~= vs.subrange(0, i as int));
                        assert(vs.subrange(0, i + 1).last() == vs[i as int]);
                    }
                    i = i + 1;
                }
                proof {
                    assert(view_items(items@).subrange(0, items@.len() as int) =~= view_items(
                        items@,
                    ));
                }
                out.append("]");
                out
            }
        },
        Value::Record(fields) => {
            if depth == 0 {
                String::from_str("..")
            } else {
                let mut out = String::from_str("{ ");
                let mut i: usize = 0;
                proof {
                    lemma_view_fields(fields@);
                }
                while i < fields.len()
                    invariant
                        i <= fields@.len(),
                        view_fields(fields@).len() == fields@.len(),
                        forall|j: int|
                            0 <= j < fields@.len() ==> view_fields(fields@)[j] == (
                                fields@[j].0@,
                                view_value(fields@[j].1),
                            ),
                        out@ == "{ "@ + spec_render_fields(
                            view_fields(fields@).subrange(0, i as int),
                            (depth - 1) as nat,
                        ),
                        depth >= 1,
                        size_fields(fields@) < size_value(*v),
                    decreases fields@.len() - i,
                {
                    if i > 0 {
                        out.append(", ");
                    }
                    out.append(fields[i].0.as_str());
                    out.append(" = ");
                    proof {
                        lemma_size_field(fields@, i as int);
                    }
                    let piece = render_value(&fields[i].1, depth - 1);
                    out.append(piece.as_str());
                    proof {
                        let vs = view_fields(fields@);
                        assert(vs.subrange(0, i + 1).drop_last() =~= vs.subrange(0, i as int));
                        assert(vs.subrange(0, i + 1).last() == vs[i as int]);
                    }
                    i = i + 1;
                }
                proof {
                    assert(view_fields(fields@).subrange(0, fields@.len() as int) =~= view_fields(
                        fields@,
                    ));
                }
                out.append(" }");
                out
            }
        },
        Value::Apply(name, args) => {
            if depth == 0 {
                String::from_str("..")
            } else {
                let mut out = name.clone();
                let mut i: usize = 0;
                proof {
                    lemma_view_items(args@);
                }
                while i < args.len()
                    invariant
                        i <= args@.len(),
                        view_items(args@).len() == args@.len(),
                        forall|j: int|
                            0 <= j < args@.len() ==> view_items(args@)[j] == view_value(args@[j]),
                        out@ == name@ + spec_render_args(
                            view_items(args@).subrange(0, i as int),
                            (depth - 1) as nat,
                        ),
                        depth >= 1,
                        size_items(args@) < size_value(*v),
                    decreases args@.len() - i,
                {
                    out.append(" ");
                    proof {
                        lemma_size_item(args@, i as int);
                    }
                    let piece = render_value(&args[i], depth - 1);
                    out.append(piece.as_str());
                    proof {
                        let vs = view_items(args@);
                        assert(vs.subrange(0, i + 1).drop_last() =~= vs.subrange(0, i as int));
                        assert(vs.subrange(0, i + 1).last() == vs[i as int]);
                    }
                    i = i + 1;
                }
                proof {
                    assert(view_items(args@).subrange(0, args@.len() as int) =~= view_items(
                        args@,
                    ));
                }
                out
            }
        },
    }
}

/// The type environment the formatter renders under: one that resolves no
/// names at all, so values print by their own structure, with nothing
/// expanded through aliases.
pub struct EmptyEnv;

impl EmptyEnv {
    /// An empty environment knows no kind for any type name.
    pub fn find_kind(&self, _type_name: &str) -> (r: Option<String>)
        ensures
            r is None,
    {
        None
    }

    /// An empty environment binds no value names.
    pub fn find_type(&self, _id: &str) -> (r: Option<String>)
        ensures
            r is None,
    {
        None
    }

    /// An empty environment holds no type definitions.
    pub fn find_type_info(&self, _id: &str) -> (r: Option<String>)
        ensures
            r is None,
    {
        None
    }

    /// An empty environment has no record to offer for any field set.
    pub fn find_record(&self, _fields: &Vec<String>) -> (r: Option<(String, String)>)
        ensures
            r is None,
    {
        None
    }
}

/// Renders `"<value> : <type>"`, the value no deeper than `depth` levels.
pub fn format_value(value: &Value, type_text: &str, depth: u32) -> (s: String)
    ensures
        s@ == spec_render(value@, depth as nat) + " : "@ + type_text@,
{
    let rendered = render_value(value, depth);
    rendered.concat(" : ").concat(type_text)
}

} // verus!
