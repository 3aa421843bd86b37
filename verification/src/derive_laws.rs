//! What every expansion of the derive holds.
use vstd::prelude::*;

use crate::derive::{derive_watchable, impl_watchable, DeriveError, Piece};
use crate::derive_input::{Body, BodyView, FieldView, Header, HeaderView};

verus! {

/// `part` occurs in `text`.
#[verifier::opaque]
pub open spec fn holds_part(text: Seq<char>, part: Seq<char>) -> bool {
    exists|start: int|
        0 <= start <= text.len() - part.len() && #[trigger] text.subrange(
            start,
            start + part.len(),
        ) == part
}

/// A text holds what it ends with.
proof fn lemma_holds_end(text: Seq<char>, part: Seq<char>)
    ensures
        holds_part(text + part, part),
{
    reveal(holds_part);
    let start = text.len() as int;
    assert((text + part).subrange(start, start + part.len()) =~= part);
}

/// A text still holds what it held when more is written behind it.
broadcast proof fn lemma_more_keeps(text: Seq<char>, more: Seq<char>, part: Seq<char>)
    requires
        #[trigger] holds_part(text, part),
    ensures
        holds_part(#[trigger] text.add(more), part),
{
    reveal(holds_part);
    let start = choose|start: int|
        0 <= start <= text.len() - part.len() && #[trigger] text.subrange(
            start,
            start + part.len(),
        ) == part;
    assert(text.add(more).subrange(start, start + part.len()) =~= part);
}

/// A piece for one field, by itself.
pub open spec fn piece_text(piece: Piece, field: FieldView) -> Seq<char> {
    crate::derive::with_piece(Seq::empty(), piece, field)
}

/// A piece reads the same whatever it is written behind.
proof fn lemma_piece_text(out: Seq<char>, piece: Piece, field: FieldView)
    ensures
        crate::derive::with_piece(out, piece, field) == out + piece_text(piece, field),
{
    broadcast use lemma_regroup;

    assert(out + Seq::<char>::empty() =~= out);
}

/// Texts can be put together in any grouping.
broadcast proof fn lemma_regroup(a: Seq<char>, b: Seq<char>, c: Seq<char>)
    ensures
        #[trigger] a.add(b.add(c)) == a.add(b).add(c),
{
    assert(a.add(b.add(c)) =~= a.add(b).add(c));
}

/// A text still holds what it held when a piece for each field is written behind it.
broadcast proof fn lemma_each_keeps(
    out: Seq<char>,
    piece: Piece,
    fields: Seq<FieldView>,
    part: Seq<char>,
)
    requires
        #[trigger] holds_part(out, part),
    ensures
        holds_part(#[trigger] crate::derive::with_each(out, piece, fields), part),
    decreases fields.len(),
{
    if fields.len() > 0 {
        lemma_each_keeps(out, piece, fields.drop_last(), part);
        let before = crate::derive::with_each(out, piece, fields.drop_last());
        lemma_piece_text(before, piece, fields.last());
        lemma_more_keeps(before, piece_text(piece, fields.last()), part);
    }
}

/// Where a piece is written for each field, it is there for each of them.
broadcast proof fn lemma_each_holds(out: Seq<char>, piece: Piece, fields: Seq<FieldView>)
    ensures
        #![trigger crate::derive::with_each(out, piece, fields)]
        forall|i: int|
            0 <= i < fields.len() ==> holds_part(
                crate::derive::with_each(out, piece, fields),
                piece_text(piece, #[trigger] fields[i]),
            ),
    decreases fields.len(),
{
    if fields.len() > 0 {
        let before = crate::derive::with_each(out, piece, fields.drop_last());
        let last = piece_text(piece, fields.last());
        lemma_piece_text(before, piece, fields.last());
        lemma_holds_end(before, last);
        lemma_each_holds(out, piece, fields.drop_last());
        assert forall|i: int| 0 <= i < fields.len() implies holds_part(
            before + last,
            piece_text(piece, #[trigger] fields[i]),
        ) by {
            if i < fields.len() - 1 {
                assert(fields.drop_last()[i] == fields[i]);
                lemma_more_keeps(before, last, piece_text(piece, fields[i]));
            }
        }
    }
}

/// A text still holds what it held when the rest of an expansion is written behind it.
proof fn lemma_blocks_keep(
    out: Seq<char>,
    header: HeaderView,
    fields: Seq<FieldView>,
    part: Seq<char>,
)
    requires
        holds_part(out, part),
    ensures
        holds_part(crate::derive::with_watchable_impl(out, header, fields), part),
        holds_part(crate::derive::with_watchable_clone(out, header, fields), part),
        holds_part(crate::derive::with_watcher_struct(out, header, fields), part),
        holds_part(crate::derive::with_watcher_impl(out, header, fields), part),
        holds_part(crate::derive::with_watcher_clone(out, header, fields), part),
{
    broadcast use {lemma_more_keeps, lemma_each_keeps};

}

/// Every field of the struct is a field of the wrapper and of the watcher, has a setter on
/// the one and an accessor on the other.
pub proof fn law_every_field_is_covered(header: HeaderView, fields: Seq<FieldView>, i: int)
    requires
        0 <= i < fields.len(),
    ensures
        holds_part(
            crate::derive::expansion(header, fields),
            piece_text(Piece::WatchableField, fields[i]),
        ),
        holds_part(
            crate::derive::expansion(header, fields),
            piece_text(Piece::WatcherField, fields[i]),
        ),
        holds_part(
            crate::derive::expansion(header, fields),
            piece_text(Piece::Setter, fields[i]),
        ),
        holds_part(
            crate::derive::expansion(header, fields),
            piece_text(Piece::Accessor, fields[i]),
        ),
{
    broadcast use {lemma_more_keeps, lemma_each_keeps, lemma_each_holds};

    let field = fields[i];
    let first = crate::derive::with_watchable_struct(Seq::empty(), header, fields);
    let second = crate::derive::with_watchable_impl(first, header, fields);
    let third = crate::derive::with_watchable_clone(second, header, fields);
    let fourth = crate::derive::with_watcher_struct(third, header, fields);
    let fifth = crate::derive::with_watcher_impl(fourth, header, fields);
    assert(holds_part(first, piece_text(Piece::WatchableField, field)));
    lemma_blocks_keep(first, header, fields, piece_text(Piece::WatchableField, field));
    lemma_blocks_keep(second, header, fields, piece_text(Piece::WatchableField, field));
    lemma_blocks_keep(third, header, fields, piece_text(Piece::WatchableField, field));
    lemma_blocks_keep(fourth, header, fields, piece_text(Piece::WatchableField, field));
    lemma_blocks_keep(fifth, header, fields, piece_text(Piece::WatchableField, field));
    assert(holds_part(second, piece_text(Piece::Setter, field)));
    lemma_blocks_keep(second, header, fields, piece_text(Piece::Setter, field));
    lemma_blocks_keep(third, header, fields, piece_text(Piece::Setter, field));
    lemma_blocks_keep(fourth, header, fields, piece_text(Piece::Setter, field));
    lemma_blocks_keep(fifth, header, fields, piece_text(Piece::Setter, field));
    assert(holds_part(fourth, piece_text(Piece::WatcherField, field)));
    lemma_blocks_keep(fourth, header, fields, piece_text(Piece::WatcherField, field));
    lemma_blocks_keep(fifth, header, fields, piece_text(Piece::WatcherField, field));
    assert(holds_part(fifth, piece_text(Piece::Accessor, field)));
    lemma_blocks_keep(fifth, header, fields, piece_text(Piece::Accessor, field));
}

/// What is written for each of some fields, put together in their order.
pub open spec fn all_of(fields: Seq<FieldView>, text: spec_fn(FieldView) -> Seq<char>) -> Seq<char>
    decreases fields.len(),
{
    if fields.len() == 0 {
        Seq::empty()
    } else {
        all_of(fields.drop_last(), text) + text(fields.last())
    }
}

/// What is written for each field is there for each of them.
pub proof fn law_all_of_holds_each(
    fields: Seq<FieldView>,
    text: spec_fn(FieldView) -> Seq<char>,
    i: int,
)
    requires
        0 <= i < fields.len(),
    ensures
        holds_part(all_of(fields, text), text(fields[i])),
    decreases fields.len(),
{
    let before = all_of(fields.drop_last(), text);
    if i == fields.len() - 1 {
        lemma_holds_end(before, text(fields.last()));
    } else {
        law_all_of_holds_each(fields.drop_last(), text, i);
        lemma_more_keeps(before, text(fields.last()), text(fields[i]));
    }
}

/// Where a piece is written for each field, and it always reads as `text` says, all of it is
/// there.
proof fn lemma_each_reads(
    out: Seq<char>,
    piece: Piece,
    fields: Seq<FieldView>,
    text: spec_fn(FieldView) -> Seq<char>,
)
    requires
        forall|before: Seq<char>, field: FieldView| #[trigger]
            crate::derive::with_piece(before, piece, field) == before + text(field),
    ensures
        crate::derive::with_each(out, piece, fields) == out + all_of(fields, text),
    decreases fields.len(),
{
    if fields.len() == 0 {
        assert(out + Seq::<char>::empty() =~= out);
    } else {
        lemma_each_reads(out, piece, fields.drop_last(), text);
        assert(out + (all_of(fields.drop_last(), text) + text(fields.last())) =~= (out + all_of(
            fields.drop_last(),
            text,
        )) + text(fields.last()));
    }
}

/// The wrapper reads like this: each field of the struct, wrapped in a watchable.
pub proof fn law_wrapper_struct_reads(out: Seq<char>, header: HeaderView, fields: Seq<FieldView>)
    ensures
        crate::derive::with_watchable_struct(out, header, fields) == out + ("/// Observable wrapper where each field is independently watchable.\n"@
            + header.vis
            + " struct Watchable"@
            + crate::derive::fragment_of(header.name)
            + " "@
            + header.params
            + " "@
            + header.clause
            + " {\n"@
            + all_of(fields, |f: FieldView| "    "@ + f.vis + " "@ + f.name + ": watchable_rs::Watchable<"@ + f.ty + ">,\n"@)
            + "}\n"@),
{
    broadcast use lemma_regroup;

    let step = out;
    let step = step + "/// Observable wrapper where each field is independently watchable.\n"@;
    let step = step + header.vis;
    let step = step + " struct Watchable"@;
    let step = step + crate::derive::fragment_of(header.name);
    let step = step + " "@;
    let step = step + header.params;
    let step = step + " "@;
    let step = step + header.clause;
    let step = step + " {\n"@;
    lemma_each_reads(step, Piece::WatchableField, fields, |f: FieldView| "    "@ + f.vis + " "@ + f.name + ": watchable_rs::Watchable<"@ + f.ty + ">,\n"@);
    let step = crate::derive::with_each(step, Piece::WatchableField, fields);
    let step = step + "}\n"@;
}

/// The functions of the wrapper read like this. Creating it, getting, setting and watching
/// its value take care of every field, and every field has a setter.
pub proof fn law_wrapper_functions_read(out: Seq<char>, header: HeaderView, fields: Seq<FieldView>)
    ensures
        crate::derive::with_watchable_impl(out, header, fields) == out + ("impl "@
            + header.impl_params
            + " Watchable"@
            + crate::derive::fragment_of(header.name)
            + " "@
            + header.args
            + " where\n"@
            + all_of(fields, |f: FieldView| "    "@ + f.ty + ": Clone,\n"@)
            + "{\n    /// Creates a new watchable wrapper from a value.\n    pub fn new(value: "@
            + header.name
            + " "@
            + header.args
            + ") -> Self {\n        Self {\n"@
            + all_of(fields, |f: FieldView| "            "@ + f.name + ": watchable_rs::Watchable::new(value."@ + f.name + "),\n"@)
            + "        }\n    }\n    /// Returns a snapshot of all fields as the original struct.\n    pub fn get(&self) -> "@
            + header.name
            + " "@
            + header.args
            + " {\n        "@
            + header.name
            + " {\n"@
            + all_of(fields, |f: FieldView| "            "@ + f.name + ": self."@ + f.name + ".get(),\n"@)
            + "        }\n    }\n    /// Sets all fields from a value.\n    pub fn set(&self, value: "@
            + header.name
            + " "@
            + header.args
            + ") {\n"@
            + all_of(fields, |f: FieldView| "        self."@ + f.name + ".set(value."@ + f.name + ");\n"@)
            + "    }\n    /// Creates a watcher that observes all fields.\n    pub fn watch(&self) -> "@
            + crate::derive::fragment_of(header.name)
            + "Watcher "@
            + header.args
            + " {\n        "@
            + crate::derive::fragment_of(header.name)
            + "Watcher {\n"@
            + all_of(fields, |f: FieldView| "            "@ + f.name + ": self."@ + f.name + ".watch(),\n"@)
            + "        }\n    }\n"@
            + all_of(fields, |f: FieldView| "    /// Sets the value of the `\n    #[doc = stringify!("@ + f.name + ")]\n    /// ` field.\n    pub fn set_"@ + crate::derive::fragment_of(f.name) + "(&self, value: "@ + f.ty + ") {\n        self."@ + f.name + ".set(value);\n    }\n"@)
            + "}\n"@),
{
    broadcast use lemma_regroup;

    let step = out;
    let step = step + "impl "@;
    let step = step + header.impl_params;
    let step = step + " Watchable"@;
    let step = step + crate::derive::fragment_of(header.name);
    let step = step + " "@;
    let step = step + header.args;
    let step = step + " where\n"@;
    lemma_each_reads(step, Piece::CloneBound, fields, |f: FieldView| "    "@ + f.ty + ": Clone,\n"@);
    let step = crate::derive::with_each(step, Piece::CloneBound, fields);
    let step = step + "{\n    /// Creates a new watchable wrapper from a value.\n    pub fn new(value: "@;
    let step = step + header.name;
    let step = step + " "@;
    let step = step + header.args;
    let step = step + ") -> Self {\n        Self {\n"@;
    lemma_each_reads(step, Piece::NewField, fields, |f: FieldView| "            "@ + f.name + ": watchable_rs::Watchable::new(value."@ + f.name + "),\n"@);
    let step = crate::derive::with_each(step, Piece::NewField, fields);
    let step = step + "        }\n    }\n    /// Returns a snapshot of all fields as the original struct.\n    pub fn get(&self) -> "@;
    let step = step + header.name;
    let step = step + " "@;
    let step = step + header.args;
    let step = step + " {\n        "@;
    let step = step + header.name;
    let step = step + " {\n"@;
    lemma_each_reads(step, Piece::GetField, fields, |f: FieldView| "            "@ + f.name + ": self."@ + f.name + ".get(),\n"@);
    let step = crate::derive::with_each(step, Piece::GetField, fields);
    let step = step + "        }\n    }\n    /// Sets all fields from a value.\n    pub fn set(&self, value: "@;
    let step = step + header.name;
    let step = step + " "@;
    let step = step + header.args;
    let step = step + ") {\n"@;
    lemma_each_reads(step, Piece::SetField, fields, |f: FieldView| "        self."@ + f.name + ".set(value."@ + f.name + ");\n"@);
    let step = crate::derive::with_each(step, Piece::SetField, fields);
    let step = step + "    }\n    /// Creates a watcher that observes all fields.\n    pub fn watch(&self) -> "@;
    let step = step + crate::derive::fragment_of(header.name);
    let step = step + "Watcher "@;
    let step = step + header.args;
    let step = step + " {\n        "@;
    let step = step + crate::derive::fragment_of(header.name);
    let step = step + "Watcher {\n"@;
    lemma_each_reads(step, Piece::WatchField, fields, |f: FieldView| "            "@ + f.name + ": self."@ + f.name + ".watch(),\n"@);
    let step = crate::derive::with_each(step, Piece::WatchField, fields);
    let step = step + "        }\n    }\n"@;
    lemma_each_reads(step, Piece::Setter, fields, |f: FieldView| "    /// Sets the value of the `\n    #[doc = stringify!("@ + f.name + ")]\n    /// ` field.\n    pub fn set_"@ + crate::derive::fragment_of(f.name) + "(&self, value: "@ + f.ty + ") {\n        self."@ + f.name + ".set(value);\n    }\n"@);
    let step = crate::derive::with_each(step, Piece::Setter, fields);
    let step = step + "}\n"@;
}

/// Cloning the wrapper reads like this: every field is cloned.
pub proof fn law_wrapper_clone_reads(out: Seq<char>, header: HeaderView, fields: Seq<FieldView>)
    ensures
        crate::derive::with_watchable_clone(out, header, fields) == out + ("impl "@
            + header.impl_params
            + " Clone for Watchable"@
            + crate::derive::fragment_of(header.name)
            + " "@
            + header.args
            + " "@
            + header.clause
            + " {\n    fn clone(&self) -> Self {\n        Self {\n"@
            + all_of(fields, |f: FieldView| "            "@ + f.name + ": self."@ + f.name + ".clone(),\n"@)
            + "        }\n    }\n}\n"@),
{
    broadcast use lemma_regroup;

    let step = out;
    let step = step + "impl "@;
    let step = step + header.impl_params;
    let step = step + " Clone for Watchable"@;
    let step = step + crate::derive::fragment_of(header.name);
    let step = step + " "@;
    let step = step + header.args;
    let step = step + " "@;
    let step = step + header.clause;
    let step = step + " {\n    fn clone(&self) -> Self {\n        Self {\n"@;
    lemma_each_reads(step, Piece::CloneField, fields, |f: FieldView| "            "@ + f.name + ": self."@ + f.name + ".clone(),\n"@);
    let step = crate::derive::with_each(step, Piece::CloneField, fields);
    let step = step + "        }\n    }\n}\n"@;
}

/// The watcher reads like this: a watcher for each field of the struct.
pub proof fn law_watcher_struct_reads(out: Seq<char>, header: HeaderView, fields: Seq<FieldView>)
    ensures
        crate::derive::with_watcher_struct(out, header, fields) == out + ("/// Watcher that observes each field of the original struct independently.\n"@
            + header.vis
            + " struct "@
            + crate::derive::fragment_of(header.name)
            + "Watcher "@
            + header.params
            + " "@
            + header.clause
            + " {\n"@
            + all_of(fields, |f: FieldView| "    "@ + f.vis + " "@ + f.name + ": watchable_rs::Direct<"@ + f.ty + ">,\n"@)
            + "}\n"@),
{
    broadcast use lemma_regroup;

    let step = out;
    let step = step + "/// Watcher that observes each field of the original struct independently.\n"@;
    let step = step + header.vis;
    let step = step + " struct "@;
    let step = step + crate::derive::fragment_of(header.name);
    let step = step + "Watcher "@;
    let step = step + header.params;
    let step = step + " "@;
    let step = step + header.clause;
    let step = step + " {\n"@;
    lemma_each_reads(step, Piece::WatcherField, fields, |f: FieldView| "    "@ + f.vis + " "@ + f.name + ": watchable_rs::Direct<"@ + f.ty + ">,\n"@);
    let step = crate::derive::with_each(step, Piece::WatcherField, fields);
    let step = step + "}\n"@;
}

/// The functions of the watcher read like this. Getting and peeking at the value, updating, and
/// telling whether there is a change and whether the source is there go over every field, and every
/// field has an accessor.
pub proof fn law_watcher_functions_read(out: Seq<char>, header: HeaderView, fields: Seq<FieldView>)
    ensures
        crate::derive::with_watcher_impl(out, header, fields) == out + ("impl "@
            + header.impl_params
            + " "@
            + crate::derive::fragment_of(header.name)
            + "Watcher "@
            + header.args
            + " where\n"@
            + all_of(fields, |f: FieldView| "    "@ + f.ty + ": Clone,\n"@)
            + "{\n    /// Returns a snapshot of all fields as the original struct.\n    pub fn get(&mut self) -> "@
            + header.name
            + " "@
            + header.args
            + " {\n        "@
            + header.name
            + " {\n"@
            + all_of(fields, |f: FieldView| "            "@ + f.name + ": watchable_rs::Watcher::get(&mut self."@ + f.name + "),\n"@)
            + "        }\n    }\n    /// Returns a snapshot without updating internal state.\n    pub fn peek(&self) -> "@
            + header.name
            + " "@
            + header.args
            + " {\n        "@
            + header.name
            + " {\n"@
            + all_of(fields, |f: FieldView| "            "@ + f.name + ": watchable_rs::Watcher::peek(&self."@ + f.name + ").clone(),\n"@)
            + "        }\n    }\n    /// Updates all watchers, returns `true` if any field changed.\n    pub fn update(&mut self) -> bool {\n        let mut changed = false;\n"@
            + all_of(fields, |f: FieldView| "        changed |= watchable_rs::Watcher::update(&mut self."@ + f.name + ");\n"@)
            + "        changed\n    }\n    /// Returns `true` if any field has a pending change.\n    pub fn has_changed(&self) -> bool {\n        false"@
            + all_of(fields, |f: FieldView| " || watchable_rs::Watcher::has_changed(&self."@ + f.name + ")"@)
            + "\n    }\n    /// Returns `true` if all fields are still connected.\n    pub fn is_connected(&self) -> bool {\n        true"@
            + all_of(fields, |f: FieldView| " && watchable_rs::Watcher::is_connected(&self."@ + f.name + ")"@)
            + "\n    }\n"@
            + all_of(fields, |f: FieldView| "    /// Returns the current cached value of the `\n    #[doc = stringify!("@ + f.name + ")]\n    /// ` field.\n    pub fn "@ + f.name + "(&self) -> &"@ + f.ty + " {\n        watchable_rs::Watcher::peek(&self."@ + f.name + ")\n    }\n"@)
            + "}\n"@),
{
    broadcast use lemma_regroup;

    let step = out;
    let step = step + "impl "@;
    let step = step + header.impl_params;
    let step = step + " "@;
    let step = step + crate::derive::fragment_of(header.name);
    let step = step + "Watcher "@;
    let step = step + header.args;
    let step = step + " where\n"@;
    lemma_each_reads(step, Piece::CloneBound, fields, |f: FieldView| "    "@ + f.ty + ": Clone,\n"@);
    let step = crate::derive::with_each(step, Piece::CloneBound, fields);
    let step = step + "{\n    /// Returns a snapshot of all fields as the original struct.\n    pub fn get(&mut self) -> "@;
    let step = step + header.name;
    let step = step + " "@;
    let step = step + header.args;
    let step = step + " {\n        "@;
    let step = step + header.name;
    let step = step + " {\n"@;
    lemma_each_reads(step, Piece::WatcherGet, fields, |f: FieldView| "            "@ + f.name + ": watchable_rs::Watcher::get(&mut self."@ + f.name + "),\n"@);
    let step = crate::derive::with_each(step, Piece::WatcherGet, fields);
    let step = step + "        }\n    }\n    /// Returns a snapshot without updating internal state.\n    pub fn peek(&self) -> "@;
    let step = step + header.name;
    let step = step + " "@;
    let step = step + header.args;
    let step = step + " {\n        "@;
    let step = step + header.name;
    let step = step + " {\n"@;
    lemma_each_reads(step, Piece::WatcherPeek, fields, |f: FieldView| "            "@ + f.name + ": watchable_rs::Watcher::peek(&self."@ + f.name + ").clone(),\n"@);
    let step = crate::derive::with_each(step, Piece::WatcherPeek, fields);
    let step = step + "        }\n    }\n    /// Updates all watchers, returns `true` if any field changed.\n    pub fn update(&mut self) -> bool {\n        let mut changed = false;\n"@;
    lemma_each_reads(step, Piece::WatcherUpdate, fields, |f: FieldView| "        changed |= watchable_rs::Watcher::update(&mut self."@ + f.name + ");\n"@);
    let step = crate::derive::with_each(step, Piece::WatcherUpdate, fields);
    let step = step + "        changed\n    }\n    /// Returns `true` if any field has a pending change.\n    pub fn has_changed(&self) -> bool {\n        false"@;
    lemma_each_reads(step, Piece::HasChanged, fields, |f: FieldView| " || watchable_rs::Watcher::has_changed(&self."@ + f.name + ")"@);
    let step = crate::derive::with_each(step, Piece::HasChanged, fields);
    let step = step + "\n    }\n    /// Returns `true` if all fields are still connected.\n    pub fn is_connected(&self) -> bool {\n        true"@;
    lemma_each_reads(step, Piece::IsConnected, fields, |f: FieldView| " && watchable_rs::Watcher::is_connected(&self."@ + f.name + ")"@);
    let step = crate::derive::with_each(step, Piece::IsConnected, fields);
    let step = step + "\n    }\n"@;
    lemma_each_reads(step, Piece::Accessor, fields, |f: FieldView| "    /// Returns the current cached value of the `\n    #[doc = stringify!("@ + f.name + ")]\n    /// ` field.\n    pub fn "@ + f.name + "(&self) -> &"@ + f.ty + " {\n        watchable_rs::Watcher::peek(&self."@ + f.name + ")\n    }\n"@);
    let step = crate::derive::with_each(step, Piece::Accessor, fields);
    let step = step + "}\n"@;
}

/// Cloning the watcher reads like this: every field is cloned.
pub proof fn law_watcher_clone_reads(out: Seq<char>, header: HeaderView, fields: Seq<FieldView>)
    ensures
        crate::derive::with_watcher_clone(out, header, fields) == out + ("impl "@
            + header.impl_params
            + " Clone for "@
            + crate::derive::fragment_of(header.name)
            + "Watcher "@
            + header.args
            + " where\n"@
            + all_of(fields, |f: FieldView| "    "@ + f.ty + ": Clone,\n"@)
            + "{\n    fn clone(&self) -> Self {\n        Self {\n"@
            + all_of(fields, |f: FieldView| "            "@ + f.name + ": self."@ + f.name + ".clone(),\n"@)
            + "        }\n    }\n}\n"@),
{
    broadcast use lemma_regroup;

    let step = out;
    let step = step + "impl "@;
    let step = step + header.impl_params;
    let step = step + " Clone for "@;
    let step = step + crate::derive::fragment_of(header.name);
    let step = step + "Watcher "@;
    let step = step + header.args;
    let step = step + " where\n"@;
    lemma_each_reads(step, Piece::CloneBound, fields, |f: FieldView| "    "@ + f.ty + ": Clone,\n"@);
    let step = crate::derive::with_each(step, Piece::CloneBound, fields);
    let step = step + "{\n    fn clone(&self) -> Self {\n        Self {\n"@;
    lemma_each_reads(step, Piece::CloneField, fields, |f: FieldView| "            "@ + f.name + ": self."@ + f.name + ".clone(),\n"@);
    let step = crate::derive::with_each(step, Piece::CloneField, fields);
    let step = step + "        }\n    }\n}\n"@;
}

/// An expansion is the wrapper, its functions and how it is cloned, and the watcher, its functions
/// and how it is cloned, one after the other, and nothing else.
pub proof fn law_expansion_is_made_of_blocks(header: HeaderView, fields: Seq<FieldView>)
    ensures
        crate::derive::expansion(header, fields) == crate::derive::with_watchable_struct(
            Seq::empty(),
            header,
            fields,
        ) + crate::derive::with_watchable_impl(Seq::empty(), header, fields)
            + crate::derive::with_watchable_clone(Seq::empty(), header, fields)
            + crate::derive::with_watcher_struct(Seq::empty(), header, fields)
            + crate::derive::with_watcher_impl(Seq::empty(), header, fields)
            + crate::derive::with_watcher_clone(Seq::empty(), header, fields),
{
    let none = Seq::<char>::empty();
    let first = crate::derive::with_watchable_struct(none, header, fields);
    let second = crate::derive::with_watchable_impl(first, header, fields);
    let third = crate::derive::with_watchable_clone(second, header, fields);
    let fourth = crate::derive::with_watcher_struct(third, header, fields);
    let fifth = crate::derive::with_watcher_impl(fourth, header, fields);
    law_wrapper_functions_read(first, header, fields);
    law_wrapper_functions_read(none, header, fields);
    law_wrapper_clone_reads(second, header, fields);
    law_wrapper_clone_reads(none, header, fields);
    law_watcher_struct_reads(third, header, fields);
    law_watcher_struct_reads(none, header, fields);
    law_watcher_functions_read(fourth, header, fields);
    law_watcher_functions_read(none, header, fields);
    law_watcher_clone_reads(fifth, header, fields);
    law_watcher_clone_reads(none, header, fields);
    assert forall|text: Seq<char>| #[trigger] (none + text) == text by {
        assert(none + text =~= text);
    }
}

/// The generated `new` wraps every field of the value: its body is one line for each field, in
/// order, and the line of field `i` is among them.
pub proof fn law_new_wraps_every_field(header: HeaderView, fields: Seq<FieldView>, i: int)
    requires
        0 <= i < fields.len(),
    ensures
        holds_part(
            crate::derive::expansion(header, fields),
            "{\n    /// Creates a new watchable wrapper from a value.\n    pub fn new(value: "@
                + header.name
                + " "@
                + header.args
                + ") -> Self {\n        Self {\n"@
                + all_of(fields, |f: FieldView| "            "@ + f.name + ": watchable_rs::Watchable::new(value."@ + f.name + "),\n"@)
                + "        }\n    }\n    /// Returns a snapshot of all fields as the original struct.\n    pub fn get(&self) -> "@,
        ),
        holds_part(
            all_of(fields, |f: FieldView| "            "@ + f.name + ": watchable_rs::Watchable::new(value."@ + f.name + "),\n"@),
            "            "@ + fields[i].name + ": watchable_rs::Watchable::new(value."@ + fields[i].name + "),\n"@,
        ),
{
    broadcast use {lemma_regroup, lemma_more_keeps, lemma_each_keeps};

    let line = |f: FieldView| "            "@ + f.name + ": watchable_rs::Watchable::new(value."@ + f.name + "),\n"@;
    law_all_of_holds_each(fields, line, i);
    let out = Seq::<char>::empty();
    let out = crate::derive::with_watchable_struct(out, header, fields);
    let step = out;
    let step = step + "impl "@;
    let step = step + header.impl_params;
    let step = step + " Watchable"@;
    let step = step + crate::derive::fragment_of(header.name);
    let step = step + " "@;
    let step = step + header.args;
    let step = step + " where\n"@;
    let step = crate::derive::with_each(step, Piece::CloneBound, fields);
    let before = step;
    let step = step + "{\n    /// Creates a new watchable wrapper from a value.\n    pub fn new(value: "@;
    let step = step + header.name;
    let step = step + " "@;
    let step = step + header.args;
    let step = step + ") -> Self {\n        Self {\n"@;
    lemma_each_reads(step, Piece::NewField, fields, line);
    let step = crate::derive::with_each(step, Piece::NewField, fields);
    let step = step + "        }\n    }\n    /// Returns a snapshot of all fields as the original struct.\n    pub fn get(&self) -> "@;
    let part = "{\n    /// Creates a new watchable wrapper from a value.\n    pub fn new(value: "@
        + header.name
        + " "@
        + header.args
        + ") -> Self {\n        Self {\n"@
        + all_of(fields, line)
        + "        }\n    }\n    /// Returns a snapshot of all fields as the original struct.\n    pub fn get(&self) -> "@;
    assert(step == before + part);
    lemma_holds_end(before, part);
    assert(holds_part(step, part));
    let step = step + header.name;
    let step = step + " "@;
    let step = step + header.args;
    let step = step + " {\n        "@;
    let step = step + header.name;
    let step = step + " {\n"@;
    let step = crate::derive::with_each(step, Piece::GetField, fields);
    let step = step + "        }\n    }\n    /// Sets all fields from a value.\n    pub fn set(&self, value: "@;
    let step = step + header.name;
    let step = step + " "@;
    let step = step + header.args;
    let step = step + ") {\n"@;
    let step = crate::derive::with_each(step, Piece::SetField, fields);
    let step = step + "    }\n    /// Creates a watcher that observes all fields.\n    pub fn watch(&self) -> "@;
    let step = step + crate::derive::fragment_of(header.name);
    let step = step + "Watcher "@;
    let step = step + header.args;
    let step = step + " {\n        "@;
    let step = step + crate::derive::fragment_of(header.name);
    let step = step + "Watcher {\n"@;
    let step = crate::derive::with_each(step, Piece::WatchField, fields);
    let step = step + "        }\n    }\n"@;
    let step = crate::derive::with_each(step, Piece::Setter, fields);
    let step = step + "}\n"@;
    let out = crate::derive::with_watchable_impl(out, header, fields);
    assert(out == step);
    assert(holds_part(out, part));
    lemma_blocks_keep(out, header, fields, part);
    let out = crate::derive::with_watchable_clone(out, header, fields);
    lemma_blocks_keep(out, header, fields, part);
    let out = crate::derive::with_watcher_struct(out, header, fields);
    lemma_blocks_keep(out, header, fields, part);
    let out = crate::derive::with_watcher_impl(out, header, fields);
    lemma_blocks_keep(out, header, fields, part);
    let out = crate::derive::with_watcher_clone(out, header, fields);
}

/// The generated `get` reads every field: its body is one line for each field, in order, and the
/// line of field `i` is among them.
pub proof fn law_get_reads_every_field(header: HeaderView, fields: Seq<FieldView>, i: int)
    requires
        0 <= i < fields.len(),
    ensures
        holds_part(
            crate::derive::expansion(header, fields),
            "        }\n    }\n    /// Returns a snapshot of all fields as the original struct.\n    pub fn get(&self) -> "@
                + header.name
                + " "@
                + header.args
                + " {\n        "@
                + header.name
                + " {\n"@
                + all_of(fields, |f: FieldView| "            "@ + f.name + ": self."@ + f.name + ".get(),\n"@)
                + "        }\n    }\n    /// Sets all fields from a value.\n    pub fn set(&self, value: "@,
        ),
        holds_part(
            all_of(fields, |f: FieldView| "            "@ + f.name + ": self."@ + f.name + ".get(),\n"@),
            "            "@ + fields[i].name + ": self."@ + fields[i].name + ".get(),\n"@,
        ),
{
    broadcast use {lemma_regroup, lemma_more_keeps, lemma_each_keeps};

    let line = |f: FieldView| "            "@ + f.name + ": self."@ + f.name + ".get(),\n"@;
    law_all_of_holds_each(fields, line, i);
    let out = Seq::<char>::empty();
    let out = crate::derive::with_watchable_struct(out, header, fields);
    let step = out;
    let step = step + "impl "@;
    let step = step + header.impl_params;
    let step = step + " Watchable"@;
    let step = step + crate::derive::fragment_of(header.name);
    let step = step + " "@;
    let step = step + header.args;
    let step = step + " where\n"@;
    let step = crate::derive::with_each(step, Piece::CloneBound, fields);
    let step = step + "{\n    /// Creates a new watchable wrapper from a value.\n    pub fn new(value: "@;
    let step = step + header.name;
    let step = step + " "@;
    let step = step + header.args;
    let step = step + ") -> Self {\n        Self {\n"@;
    let step = crate::derive::with_each(step, Piece::NewField, fields);
    let before = step;
    let step = step + "        }\n    }\n    /// Returns a snapshot of all fields as the original struct.\n    pub fn get(&self) -> "@;
    let step = step + header.name;
    let step = step + " "@;
    let step = step + header.args;
    let step = step + " {\n        "@;
    let step = step + header.name;
    let step = step + " {\n"@;
    lemma_each_reads(step, Piece::GetField, fields, line);
    let step = crate::derive::with_each(step, Piece::GetField, fields);
    let step = step + "        }\n    }\n    /// Sets all fields from a value.\n    pub fn set(&self, value: "@;
    let part = "        }\n    }\n    /// Returns a snapshot of all fields as the original struct.\n    pub fn get(&self) -> "@
        + header.name
        + " "@
        + header.args
        + " {\n        "@
        + header.name
        + " {\n"@
        + all_of(fields, line)
        + "        }\n    }\n    /// Sets all fields from a value.\n    pub fn set(&self, value: "@;
    assert(step == before + part);
    lemma_holds_end(before, part);
    assert(holds_part(step, part));
    let step = step + header.name;
    let step = step + " "@;
    let step = step + header.args;
    let step = step + ") {\n"@;
    let step = crate::derive::with_each(step, Piece::SetField, fields);
    let step = step + "    }\n    /// Creates a watcher that observes all fields.\n    pub fn watch(&self) -> "@;
    let step = step + crate::derive::fragment_of(header.name);
    let step = step + "Watcher "@;
    let step = step + header.args;
    let step = step + " {\n        "@;
    let step = step + crate::derive::fragment_of(header.name);
    let step = step + "Watcher {\n"@;
    let step = crate::derive::with_each(step, Piece::WatchField, fields);
    let step = step + "        }\n    }\n"@;
    let step = crate::derive::with_each(step, Piece::Setter, fields);
    let step = step + "}\n"@;
    let out = crate::derive::with_watchable_impl(out, header, fields);
    assert(out == step);
    assert(holds_part(out, part));
    lemma_blocks_keep(out, header, fields, part);
    let out = crate::derive::with_watchable_clone(out, header, fields);
    lemma_blocks_keep(out, header, fields, part);
    let out = crate::derive::with_watcher_struct(out, header, fields);
    lemma_blocks_keep(out, header, fields, part);
    let out = crate::derive::with_watcher_impl(out, header, fields);
    lemma_blocks_keep(out, header, fields, part);
    let out = crate::derive::with_watcher_clone(out, header, fields);
}

/// The generated `set` stores every field of the value: its body is one line for each field, in
/// order, and the line of field `i` is among them.
pub proof fn law_set_stores_every_field(header: HeaderView, fields: Seq<FieldView>, i: int)
    requires
        0 <= i < fields.len(),
    ensures
        holds_part(
            crate::derive::expansion(header, fields),
            "        }\n    }\n    /// Sets all fields from a value.\n    pub fn set(&self, value: "@
                + header.name
                + " "@
                + header.args
                + ") {\n"@
                + all_of(fields, |f: FieldView| "        self."@ + f.name + ".set(value."@ + f.name + ");\n"@)
                + "    }\n    /// Creates a watcher that observes all fields.\n    pub fn watch(&self) -> "@,
        ),
        holds_part(
            all_of(fields, |f: FieldView| "        self."@ + f.name + ".set(value."@ + f.name + ");\n"@),
            "        self."@ + fields[i].name + ".set(value."@ + fields[i].name + ");\n"@,
        ),
{
    broadcast use {lemma_regroup, lemma_more_keeps, lemma_each_keeps};

    let line = |f: FieldView| "        self."@ + f.name + ".set(value."@ + f.name + ");\n"@;
    law_all_of_holds_each(fields, line, i);
    let out = Seq::<char>::empty();
    let out = crate::derive::with_watchable_struct(out, header, fields);
    let step = out;
    let step = step + "impl "@;
    let step = step + header.impl_params;
    let step = step + " Watchable"@;
    let step = step + crate::derive::fragment_of(header.name);
    let step = step + " "@;
    let step = step + header.args;
    let step = step + " where\n"@;
    let step = crate::derive::with_each(step, Piece::CloneBound, fields);
    let step = step + "{\n    /// Creates a new watchable wrapper from a value.\n    pub fn new(value: "@;
    let step = step + header.name;
    let step = step + " "@;
    let step = step + header.args;
    let step = step + ") -> Self {\n        Self {\n"@;
    let step = crate::derive::with_each(step, Piece::NewField, fields);
    let step = step + "        }\n    }\n    /// Returns a snapshot of all fields as the original struct.\n    pub fn get(&self) -> "@;
    let step = step + header.name;
    let step = step + " "@;
    let step = step + header.args;
    let step = step + " {\n        "@;
    let step = step + header.name;
    let step = step + " {\n"@;
    let step = crate::derive::with_each(step, Piece::GetField, fields);
    let before = step;
    let step = step + "        }\n    }\n    /// Sets all fields from a value.\n    pub fn set(&self, value: "@;
    let step = step + header.name;
    let step = step + " "@;
    let step = step + header.args;
    let step = step + ") {\n"@;
    lemma_each_reads(step, Piece::SetField, fields, line);
    let step = crate::derive::with_each(step, Piece::SetField, fields);
    let step = step + "    }\n    /// Creates a watcher that observes all fields.\n    pub fn watch(&self) -> "@;
    let part = "        }\n    }\n    /// Sets all fields from a value.\n    pub fn set(&self, value: "@
        + header.name
        + " "@
        + header.args
        + ") {\n"@
        + all_of(fields, line)
        + "    }\n    /// Creates a watcher that observes all fields.\n    pub fn watch(&self) -> "@;
    assert(step == before + part);
    lemma_holds_end(before, part);
    assert(holds_part(step, part));
    let step = step + crate::derive::fragment_of(header.name);
    let step = step + "Watcher "@;
    let step = step + header.args;
    let step = step + " {\n        "@;
    let step = step + crate::derive::fragment_of(header.name);
    let step = step + "Watcher {\n"@;
    let step = crate::derive::with_each(step, Piece::WatchField, fields);
    let step = step + "        }\n    }\n"@;
    let step = crate::derive::with_each(step, Piece::Setter, fields);
    let step = step + "}\n"@;
    let out = crate::derive::with_watchable_impl(out, header, fields);
    assert(out == step);
    assert(holds_part(out, part));
    lemma_blocks_keep(out, header, fields, part);
    let out = crate::derive::with_watchable_clone(out, header, fields);
    lemma_blocks_keep(out, header, fields, part);
    let out = crate::derive::with_watcher_struct(out, header, fields);
    lemma_blocks_keep(out, header, fields, part);
    let out = crate::derive::with_watcher_impl(out, header, fields);
    lemma_blocks_keep(out, header, fields, part);
    let out = crate::derive::with_watcher_clone(out, header, fields);
}

/// The generated `watch` watches every field: its body is one line for each field, in order, and
/// the line of field `i` is among them.
pub proof fn law_watch_watches_every_field(header: HeaderView, fields: Seq<FieldView>, i: int)
    requires
        0 <= i < fields.len(),
    ensures
        holds_part(
            crate::derive::expansion(header, fields),
            "    }\n    /// Creates a watcher that observes all fields.\n    pub fn watch(&self) -> "@
                + crate::derive::fragment_of(header.name)
                + "Watcher "@
                + header.args
                + " {\n        "@
                + crate::derive::fragment_of(header.name)
                + "Watcher {\n"@
                + all_of(fields, |f: FieldView| "            "@ + f.name + ": self."@ + f.name + ".watch(),\n"@)
                + "        }\n    }\n"@,
        ),
        holds_part(
            all_of(fields, |f: FieldView| "            "@ + f.name + ": self."@ + f.name + ".watch(),\n"@),
            "            "@ + fields[i].name + ": self."@ + fields[i].name + ".watch(),\n"@,
        ),
{
    broadcast use {lemma_regroup, lemma_more_keeps, lemma_each_keeps};

    let line = |f: FieldView| "            "@ + f.name + ": self."@ + f.name + ".watch(),\n"@;
    law_all_of_holds_each(fields, line, i);
    let out = Seq::<char>::empty();
    let out = crate::derive::with_watchable_struct(out, header, fields);
    let step = out;
    let step = step + "impl "@;
    let step = step + header.impl_params;
    let step = step + " Watchable"@;
    let step = step + crate::derive::fragment_of(header.name);
    let step = step + " "@;
    let step = step + header.args;
    let step = step + " where\n"@;
    let step = crate::derive::with_each(step, Piece::CloneBound, fields);
    let step = step + "{\n    /// Creates a new watchable wrapper from a value.\n    pub fn new(value: "@;
    let step = step + header.name;
    let step = step + " "@;
    let step = step + header.args;
    let step = step + ") -> Self {\n        Self {\n"@;
    let step = crate::derive::with_each(step, Piece::NewField, fields);
    let step = step + "        }\n    }\n    /// Returns a snapshot of all fields as the original struct.\n    pub fn get(&self) -> "@;
    let step = step + header.name;
    let step = step + " "@;
    let step = step + header.args;
    let step = step + " {\n        "@;
    let step = step + header.name;
    let step = step + " {\n"@;
    let step = crate::derive::with_each(step, Piece::GetField, fields);
    let step = step + "        }\n    }\n    /// Sets all fields from a value.\n    pub fn set(&self, value: "@;
    let step = step + header.name;
    let step = step + " "@;
    let step = step + header.args;
    let step = step + ") {\n"@;
    let step = crate::derive::with_each(step, Piece::SetField, fields);
    let before = step;
    let step = step + "    }\n    /// Creates a watcher that observes all fields.\n    pub fn watch(&self) -> "@;
    let step = step + crate::derive::fragment_of(header.name);
    let step = step + "Watcher "@;
    let step = step + header.args;
    let step = step + " {\n        "@;
    let step = step + crate::derive::fragment_of(header.name);
    let step = step + "Watcher {\n"@;
    lemma_each_reads(step, Piece::WatchField, fields, line);
    let step = crate::derive::with_each(step, Piece::WatchField, fields);
    let step = step + "        }\n    }\n"@;
    let part = "    }\n    /// Creates a watcher that observes all fields.\n    pub fn watch(&self) -> "@
        + crate::derive::fragment_of(header.name)
        + "Watcher "@
        + header.args
        + " {\n        "@
        + crate::derive::fragment_of(header.name)
        + "Watcher {\n"@
        + all_of(fields, line)
        + "        }\n    }\n"@;
    assert(step == before + part);
    lemma_holds_end(before, part);
    assert(holds_part(step, part));
    let step = crate::derive::with_each(step, Piece::Setter, fields);
    let step = step + "}\n"@;
    let out = crate::derive::with_watchable_impl(out, header, fields);
    assert(out == step);
    assert(holds_part(out, part));
    lemma_blocks_keep(out, header, fields, part);
    let out = crate::derive::with_watchable_clone(out, header, fields);
    lemma_blocks_keep(out, header, fields, part);
    let out = crate::derive::with_watcher_struct(out, header, fields);
    lemma_blocks_keep(out, header, fields, part);
    let out = crate::derive::with_watcher_impl(out, header, fields);
    lemma_blocks_keep(out, header, fields, part);
    let out = crate::derive::with_watcher_clone(out, header, fields);
}

/// The generated `clone` of the wrapper clones every field: its body is one line for each field,
/// in order, and the line of field `i` is among them.
pub proof fn law_wrapper_clone_clones_every_field(header: HeaderView, fields: Seq<FieldView>, i: int)
    requires
        0 <= i < fields.len(),
    ensures
        holds_part(
            crate::derive::expansion(header, fields),
            "impl "@
                + header.impl_params
                + " Clone for Watchable"@
                + crate::derive::fragment_of(header.name)
                + " "@
                + header.args
                + " "@
                + header.clause
                + " {\n    fn clone(&self) -> Self {\n        Self {\n"@
                + all_of(fields, |f: FieldView| "            "@ + f.name + ": self."@ + f.name + ".clone(),\n"@)
                + "        }\n    }\n}\n"@,
        ),
        holds_part(
            all_of(fields, |f: FieldView| "            "@ + f.name + ": self."@ + f.name + ".clone(),\n"@),
            "            "@ + fields[i].name + ": self."@ + fields[i].name + ".clone(),\n"@,
        ),
{
    broadcast use {lemma_regroup, lemma_more_keeps, lemma_each_keeps};

    let line = |f: FieldView| "            "@ + f.name + ": self."@ + f.name + ".clone(),\n"@;
    law_all_of_holds_each(fields, line, i);
    let out = Seq::<char>::empty();
    let out = crate::derive::with_watchable_struct(out, header, fields);
    let out = crate::derive::with_watchable_impl(out, header, fields);
    let step = out;
    let before = step;
    let step = step + "impl "@;
    let step = step + header.impl_params;
    let step = step + " Clone for Watchable"@;
    let step = step + crate::derive::fragment_of(header.name);
    let step = step + " "@;
    let step = step + header.args;
    let step = step + " "@;
    let step = step + header.clause;
    let step = step + " {\n    fn clone(&self) -> Self {\n        Self {\n"@;
    lemma_each_reads(step, Piece::CloneField, fields, line);
    let step = crate::derive::with_each(step, Piece::CloneField, fields);
    let step = step + "        }\n    }\n}\n"@;
    let part = "impl "@
        + header.impl_params
        + " Clone for Watchable"@
        + crate::derive::fragment_of(header.name)
        + " "@
        + header.args
        + " "@
        + header.clause
        + " {\n    fn clone(&self) -> Self {\n        Self {\n"@
        + all_of(fields, line)
        + "        }\n    }\n}\n"@;
    assert(step == before + part);
    lemma_holds_end(before, part);
    assert(holds_part(step, part));
    let out = crate::derive::with_watchable_clone(out, header, fields);
    assert(out == step);
    assert(holds_part(out, part));
    lemma_blocks_keep(out, header, fields, part);
    let out = crate::derive::with_watcher_struct(out, header, fields);
    lemma_blocks_keep(out, header, fields, part);
    let out = crate::derive::with_watcher_impl(out, header, fields);
    lemma_blocks_keep(out, header, fields, part);
    let out = crate::derive::with_watcher_clone(out, header, fields);
}

/// The generated `get` of the watcher gets every field: its body is one line for each field, in
/// order, and the line of field `i` is among them.
pub proof fn law_watcher_get_reads_every_field(header: HeaderView, fields: Seq<FieldView>, i: int)
    requires
        0 <= i < fields.len(),
    ensures
        holds_part(
            crate::derive::expansion(header, fields),
            "{\n    /// Returns a snapshot of all fields as the original struct.\n    pub fn get(&mut self) -> "@
                + header.name
                + " "@
                + header.args
                + " {\n        "@
                + header.name
                + " {\n"@
                + all_of(fields, |f: FieldView| "            "@ + f.name + ": watchable_rs::Watcher::get(&mut self."@ + f.name + "),\n"@)
                + "        }\n    }\n    /// Returns a snapshot without updating internal state.\n    pub fn peek(&self) -> "@,
        ),
        holds_part(
            all_of(fields, |f: FieldView| "            "@ + f.name + ": watchable_rs::Watcher::get(&mut self."@ + f.name + "),\n"@),
            "            "@ + fields[i].name + ": watchable_rs::Watcher::get(&mut self."@ + fields[i].name + "),\n"@,
        ),
{
    broadcast use {lemma_regroup, lemma_more_keeps, lemma_each_keeps};

    let line = |f: FieldView| "            "@ + f.name + ": watchable_rs::Watcher::get(&mut self."@ + f.name + "),\n"@;
    law_all_of_holds_each(fields, line, i);
    let out = Seq::<char>::empty();
    let out = crate::derive::with_watchable_struct(out, header, fields);
    let out = crate::derive::with_watchable_impl(out, header, fields);
    let out = crate::derive::with_watchable_clone(out, header, fields);
    let out = crate::derive::with_watcher_struct(out, header, fields);
    let step = out;
    let step = step + "impl "@;
    let step = step + header.impl_params;
    let step = step + " "@;
    let step = step + crate::derive::fragment_of(header.name);
    let step = step + "Watcher "@;
    let step = step + header.args;
    let step = step + " where\n"@;
    let step = crate::derive::with_each(step, Piece::CloneBound, fields);
    let before = step;
    let step = step + "{\n    /// Returns a snapshot of all fields as the original struct.\n    pub fn get(&mut self) -> "@;
    let step = step + header.name;
    let step = step + " "@;
    let step = step + header.args;
    let step = step + " {\n        "@;
    let step = step + header.name;
    let step = step + " {\n"@;
    lemma_each_reads(step, Piece::WatcherGet, fields, line);
    let step = crate::derive::with_each(step, Piece::WatcherGet, fields);
    let step = step + "        }\n    }\n    /// Returns a snapshot without updating internal state.\n    pub fn peek(&self) -> "@;
    let part = "{\n    /// Returns a snapshot of all fields as the original struct.\n    pub fn get(&mut self) -> "@
        + header.name
        + " "@
        + header.args
        + " {\n        "@
        + header.name
        + " {\n"@
        + all_of(fields, line)
        + "        }\n    }\n    /// Returns a snapshot without updating internal state.\n    pub fn peek(&self) -> "@;
    assert(step == before + part);
    lemma_holds_end(before, part);
    assert(holds_part(step, part));
    let step = step + header.name;
    let step = step + " "@;
    let step = step + header.args;
    let step = step + " {\n        "@;
    let step = step + header.name;
    let step = step + " {\n"@;
    let step = crate::derive::with_each(step, Piece::WatcherPeek, fields);
    let step = step + "        }\n    }\n    /// Updates all watchers, returns `true` if any field changed.\n    pub fn update(&mut self) -> bool {\n        let mut changed = false;\n"@;
    let step = crate::derive::with_each(step, Piece::WatcherUpdate, fields);
    let step = step + "        changed\n    }\n    /// Returns `true` if any field has a pending change.\n    pub fn has_changed(&self) -> bool {\n        false"@;
    let step = crate::derive::with_each(step, Piece::HasChanged, fields);
    let step = step + "\n    }\n    /// Returns `true` if all fields are still connected.\n    pub fn is_connected(&self) -> bool {\n        true"@;
    let step = crate::derive::with_each(step, Piece::IsConnected, fields);
    let step = step + "\n    }\n"@;
    let step = crate::derive::with_each(step, Piece::Accessor, fields);
    let step = step + "}\n"@;
    let out = crate::derive::with_watcher_impl(out, header, fields);
    assert(out == step);
    assert(holds_part(out, part));
    lemma_blocks_keep(out, header, fields, part);
    let out = crate::derive::with_watcher_clone(out, header, fields);
}

/// The generated `peek` of the watcher peeks at every field: its body is one line for each field,
/// in order, and the line of field `i` is among them.
pub proof fn law_watcher_peek_reads_every_field(header: HeaderView, fields: Seq<FieldView>, i: int)
    requires
        0 <= i < fields.len(),
    ensures
        holds_part(
            crate::derive::expansion(header, fields),
            "        }\n    }\n    /// Returns a snapshot without updating internal state.\n    pub fn peek(&self) -> "@
                + header.name
                + " "@
                + header.args
                + " {\n        "@
                + header.name
                + " {\n"@
                + all_of(fields, |f: FieldView| "            "@ + f.name + ": watchable_rs::Watcher::peek(&self."@ + f.name + ").clone(),\n"@)
                + "        }\n    }\n    /// Updates all watchers, returns `true` if any field changed.\n    pub fn update(&mut self) -> bool {\n        let mut changed = false;\n"@,
        ),
        holds_part(
            all_of(fields, |f: FieldView| "            "@ + f.name + ": watchable_rs::Watcher::peek(&self."@ + f.name + ").clone(),\n"@),
            "            "@ + fields[i].name + ": watchable_rs::Watcher::peek(&self."@ + fields[i].name + ").clone(),\n"@,
        ),
{
    broadcast use {lemma_regroup, lemma_more_keeps, lemma_each_keeps};

    let line = |f: FieldView| "            "@ + f.name + ": watchable_rs::Watcher::peek(&self."@ + f.name + ").clone(),\n"@;
    law_all_of_holds_each(fields, line, i);
    let out = Seq::<char>::empty();
    let out = crate::derive::with_watchable_struct(out, header, fields);
    let out = crate::derive::with_watchable_impl(out, header, fields);
    let out = crate::derive::with_watchable_clone(out, header, fields);
    let out = crate::derive::with_watcher_struct(out, header, fields);
    let step = out;
    let step = step + "impl "@;
    let step = step + header.impl_params;
    let step = step + " "@;
    let step = step + crate::derive::fragment_of(header.name);
    let step = step + "Watcher "@;
    let step = step + header.args;
    let step = step + " where\n"@;
    let step = crate::derive::with_each(step, Piece::CloneBound, fields);
    let step = step + "{\n    /// Returns a snapshot of all fields as the original struct.\n    pub fn get(&mut self) -> "@;
    let step = step + header.name;
    let step = step + " "@;
    let step = step + header.args;
    let step = step + " {\n        "@;
    let step = step + header.name;
    let step = step + " {\n"@;
    let step = crate::derive::with_each(step, Piece::WatcherGet, fields);
    let before = step;
    let step = step + "        }\n    }\n    /// Returns a snapshot without updating internal state.\n    pub fn peek(&self) -> "@;
    let step = step + header.name;
    let step = step + " "@;
    let step = step + header.args;
    let step = step + " {\n        "@;
    let step = step + header.name;
    let step = step + " {\n"@;
    lemma_each_reads(step, Piece::WatcherPeek, fields, line);
    let step = crate::derive::with_each(step, Piece::WatcherPeek, fields);
    let step = step + "        }\n    }\n    /// Updates all watchers, returns `true` if any field changed.\n    pub fn update(&mut self) -> bool {\n        let mut changed = false;\n"@;
    let part = "        }\n    }\n    /// Returns a snapshot without updating internal state.\n    pub fn peek(&self) -> "@
        + header.name
        + " "@
        + header.args
        + " {\n        "@
        + header.name
        + " {\n"@
        + all_of(fields, line)
        + "        }\n    }\n    /// Updates all watchers, returns `true` if any field changed.\n    pub fn update(&mut self) -> bool {\n        let mut changed = false;\n"@;
    assert(step == before + part);
    lemma_holds_end(before, part);
    assert(holds_part(step, part));
    let step = crate::derive::with_each(step, Piece::WatcherUpdate, fields);
    let step = step + "        changed\n    }\n    /// Returns `true` if any field has a pending change.\n    pub fn has_changed(&self) -> bool {\n        false"@;
    let step = crate::derive::with_each(step, Piece::HasChanged, fields);
    let step = step + "\n    }\n    /// Returns `true` if all fields are still connected.\n    pub fn is_connected(&self) -> bool {\n        true"@;
    let step = crate::derive::with_each(step, Piece::IsConnected, fields);
    let step = step + "\n    }\n"@;
    let step = crate::derive::with_each(step, Piece::Accessor, fields);
    let step = step + "}\n"@;
    let out = crate::derive::with_watcher_impl(out, header, fields);
    assert(out == step);
    assert(holds_part(out, part));
    lemma_blocks_keep(out, header, fields, part);
    let out = crate::derive::with_watcher_clone(out, header, fields);
}

/// The generated `update` of the watcher updates every field, and tells whether one of them
/// changed: it goes over all fields in order, field `i` among them.
pub proof fn law_watcher_update_updates_every_field(header: HeaderView, fields: Seq<FieldView>, i: int)
    requires
        0 <= i < fields.len(),
    ensures
        holds_part(
            crate::derive::expansion(header, fields),
            "        }\n    }\n    /// Updates all watchers, returns `true` if any field changed.\n    pub fn update(&mut self) -> bool {\n        let mut changed = false;\n"@
                + all_of(fields, |f: FieldView| "        changed |= watchable_rs::Watcher::update(&mut self."@ + f.name + ");\n"@)
                + "        changed\n    }\n    /// Returns `true` if any field has a pending change.\n    pub fn has_changed(&self) -> bool {\n        false"@,
        ),
        holds_part(
            all_of(fields, |f: FieldView| "        changed |= watchable_rs::Watcher::update(&mut self."@ + f.name + ");\n"@),
            "        changed |= watchable_rs::Watcher::update(&mut self."@ + fields[i].name + ");\n"@,
        ),
{
    broadcast use {lemma_regroup, lemma_more_keeps, lemma_each_keeps};

    let line = |f: FieldView| "        changed |= watchable_rs::Watcher::update(&mut self."@ + f.name + ");\n"@;
    law_all_of_holds_each(fields, line, i);
    let out = Seq::<char>::empty();
    let out = crate::derive::with_watchable_struct(out, header, fields);
    let out = crate::derive::with_watchable_impl(out, header, fields);
    let out = crate::derive::with_watchable_clone(out, header, fields);
    let out = crate::derive::with_watcher_struct(out, header, fields);
    let step = out;
    let step = step + "impl "@;
    let step = step + header.impl_params;
    let step = step + " "@;
    let step = step + crate::derive::fragment_of(header.name);
    let step = step + "Watcher "@;
    let step = step + header.args;
    let step = step + " where\n"@;
    let step = crate::derive::with_each(step, Piece::CloneBound, fields);
    let step = step + "{\n    /// Returns a snapshot of all fields as the original struct.\n    pub fn get(&mut self) -> "@;
    let step = step + header.name;
    let step = step + " "@;
    let step = step + header.args;
    let step = step + " {\n        "@;
    let step = step + header.name;
    let step = step + " {\n"@;
    let step = crate::derive::with_each(step, Piece::WatcherGet, fields);
    let step = step + "        }\n    }\n    /// Returns a snapshot without updating internal state.\n    pub fn peek(&self) -> "@;
    let step = step + header.name;
    let step = step + " "@;
    let step = step + header.args;
    let step = step + " {\n        "@;
    let step = step + header.name;
    let step = step + " {\n"@;
    let step = crate::derive::with_each(step, Piece::WatcherPeek, fields);
    let before = step;
    let step = step + "        }\n    }\n    /// Updates all watchers, returns `true` if any field changed.\n    pub fn update(&mut self) -> bool {\n        let mut changed = false;\n"@;
    lemma_each_reads(step, Piece::WatcherUpdate, fields, line);
    let step = crate::derive::with_each(step, Piece::WatcherUpdate, fields);
    let step = step + "        changed\n    }\n    /// Returns `true` if any field has a pending change.\n    pub fn has_changed(&self) -> bool {\n        false"@;
    let part = "        }\n    }\n    /// Updates all watchers, returns `true` if any field changed.\n    pub fn update(&mut self) -> bool {\n        let mut changed = false;\n"@
        + all_of(fields, line)
        + "        changed\n    }\n    /// Returns `true` if any field has a pending change.\n    pub fn has_changed(&self) -> bool {\n        false"@;
    assert(step == before + part);
    lemma_holds_end(before, part);
    assert(holds_part(step, part));
    let step = crate::derive::with_each(step, Piece::HasChanged, fields);
    let step = step + "\n    }\n    /// Returns `true` if all fields are still connected.\n    pub fn is_connected(&self) -> bool {\n        true"@;
    let step = crate::derive::with_each(step, Piece::IsConnected, fields);
    let step = step + "\n    }\n"@;
    let step = crate::derive::with_each(step, Piece::Accessor, fields);
    let step = step + "}\n"@;
    let out = crate::derive::with_watcher_impl(out, header, fields);
    assert(out == step);
    assert(holds_part(out, part));
    lemma_blocks_keep(out, header, fields, part);
    let out = crate::derive::with_watcher_clone(out, header, fields);
}

/// The generated `has_changed` of the watcher asks every field, until one says yes: it goes over
/// all fields in order, field `i` among them.
pub proof fn law_watcher_has_changed_asks_every_field(header: HeaderView, fields: Seq<FieldView>, i: int)
    requires
        0 <= i < fields.len(),
    ensures
        holds_part(
            crate::derive::expansion(header, fields),
            "        changed\n    }\n    /// Returns `true` if any field has a pending change.\n    pub fn has_changed(&self) -> bool {\n        false"@
                + all_of(fields, |f: FieldView| " || watchable_rs::Watcher::has_changed(&self."@ + f.name + ")"@)
                + "\n    }\n    /// Returns `true` if all fields are still connected.\n    pub fn is_connected(&self) -> bool {\n        true"@,
        ),
        holds_part(
            all_of(fields, |f: FieldView| " || watchable_rs::Watcher::has_changed(&self."@ + f.name + ")"@),
            " || watchable_rs::Watcher::has_changed(&self."@ + fields[i].name + ")"@,
        ),
{
    broadcast use {lemma_regroup, lemma_more_keeps, lemma_each_keeps};

    let line = |f: FieldView| " || watchable_rs::Watcher::has_changed(&self."@ + f.name + ")"@;
    law_all_of_holds_each(fields, line, i);
    let out = Seq::<char>::empty();
    let out = crate::derive::with_watchable_struct(out, header, fields);
    let out = crate::derive::with_watchable_impl(out, header, fields);
    let out = crate::derive::with_watchable_clone(out, header, fields);
    let out = crate::derive::with_watcher_struct(out, header, fields);
    let step = out;
    let step = step + "impl "@;
    let step = step + header.impl_params;
    let step = step + " "@;
    let step = step + crate::derive::fragment_of(header.name);
    let step = step + "Watcher "@;
    let step = step + header.args;
    let step = step + " where\n"@;
    let step = crate::derive::with_each(step, Piece::CloneBound, fields);
    let step = step + "{\n    /// Returns a snapshot of all fields as the original struct.\n    pub fn get(&mut self) -> "@;
    let step = step + header.name;
    let step = step + " "@;
    let step = step + header.args;
    let step = step + " {\n        "@;
    let step = step + header.name;
    let step = step + " {\n"@;
    let step = crate::derive::with_each(step, Piece::WatcherGet, fields);
    let step = step + "        }\n    }\n    /// Returns a snapshot without updating internal state.\n    pub fn peek(&self) -> "@;
    let step = step + header.name;
    let step = step + " "@;
    let step = step + header.args;
    let step = step + " {\n        "@;
    let step = step + header.name;
    let step = step + " {\n"@;
    let step = crate::derive::with_each(step, Piece::WatcherPeek, fields);
    let step = step + "        }\n    }\n    /// Updates all watchers, returns `true` if any field changed.\n    pub fn update(&mut self) -> bool {\n        let mut changed = false;\n"@;
    let step = crate::derive::with_each(step, Piece::WatcherUpdate, fields);
    let before = step;
    let step = step + "        changed\n    }\n    /// Returns `true` if any field has a pending change.\n    pub fn has_changed(&self) -> bool {\n        false"@;
    lemma_each_reads(step, Piece::HasChanged, fields, line);
    let step = crate::derive::with_each(step, Piece::HasChanged, fields);
    let step = step + "\n    }\n    /// Returns `true` if all fields are still connected.\n    pub fn is_connected(&self) -> bool {\n        true"@;
    let part = "        changed\n    }\n    /// Returns `true` if any field has a pending change.\n    pub fn has_changed(&self) -> bool {\n        false"@
        + all_of(fields, line)
        + "\n    }\n    /// Returns `true` if all fields are still connected.\n    pub fn is_connected(&self) -> bool {\n        true"@;
    assert(step == before + part);
    lemma_holds_end(before, part);
    assert(holds_part(step, part));
    let step = crate::derive::with_each(step, Piece::IsConnected, fields);
    let step = step + "\n    }\n"@;
    let step = crate::derive::with_each(step, Piece::Accessor, fields);
    let step = step + "}\n"@;
    let out = crate::derive::with_watcher_impl(out, header, fields);
    assert(out == step);
    assert(holds_part(out, part));
    lemma_blocks_keep(out, header, fields, part);
    let out = crate::derive::with_watcher_clone(out, header, fields);
}

/// The generated `is_connected` of the watcher asks every field, until one says no: it goes over
/// all fields in order, field `i` among them.
pub proof fn law_watcher_is_connected_asks_every_field(header: HeaderView, fields: Seq<FieldView>, i: int)
    requires
        0 <= i < fields.len(),
    ensures
        holds_part(
            crate::derive::expansion(header, fields),
            "\n    }\n    /// Returns `true` if all fields are still connected.\n    pub fn is_connected(&self) -> bool {\n        true"@
                + all_of(fields, |f: FieldView| " && watchable_rs::Watcher::is_connected(&self."@ + f.name + ")"@)
                + "\n    }\n"@,
        ),
        holds_part(
            all_of(fields, |f: FieldView| " && watchable_rs::Watcher::is_connected(&self."@ + f.name + ")"@),
            " && watchable_rs::Watcher::is_connected(&self."@ + fields[i].name + ")"@,
        ),
{
    broadcast use {lemma_regroup, lemma_more_keeps, lemma_each_keeps};

    let line = |f: FieldView| " && watchable_rs::Watcher::is_connected(&self."@ + f.name + ")"@;
    law_all_of_holds_each(fields, line, i);
    let out = Seq::<char>::empty();
    let out = crate::derive::with_watchable_struct(out, header, fields);
    let out = crate::derive::with_watchable_impl(out, header, fields);
    let out = crate::derive::with_watchable_clone(out, header, fields);
    let out = crate::derive::with_watcher_struct(out, header, fields);
    let step = out;
    let step = step + "impl "@;
    let step = step + header.impl_params;
    let step = step + " "@;
    let step = step + crate::derive::fragment_of(header.name);
    let step = step + "Watcher "@;
    let step = step + header.args;
    let step = step + " where\n"@;
    let step = crate::derive::with_each(step, Piece::CloneBound, fields);
    let step = step + "{\n    /// Returns a snapshot of all fields as the original struct.\n    pub fn get(&mut self) -> "@;
    let step = step + header.name;
    let step = step + " "@;
    let step = step + header.args;
    let step = step + " {\n        "@;
    let step = step + header.name;
    let step = step + " {\n"@;
    let step = crate::derive::with_each(step, Piece::WatcherGet, fields);
    let step = step + "        }\n    }\n    /// Returns a snapshot without updating internal state.\n    pub fn peek(&self) -> "@;
    let step = step + header.name;
    let step = step + " "@;
    let step = step + header.args;
    let step = step + " {\n        "@;
    let step = step + header.name;
    let step = step + " {\n"@;
    let step = crate::derive::with_each(step, Piece::WatcherPeek, fields);
    let step = step + "        }\n    }\n    /// Updates all watchers, returns `true` if any field changed.\n    pub fn update(&mut self) -> bool {\n        let mut changed = false;\n"@;
    let step = crate::derive::with_each(step, Piece::WatcherUpdate, fields);
    let step = step + "        changed\n    }\n    /// Returns `true` if any field has a pending change.\n    pub fn has_changed(&self) -> bool {\n        false"@;
    let step = crate::derive::with_each(step, Piece::HasChanged, fields);
    let before = step;
    let step = step + "\n    }\n    /// Returns `true` if all fields are still connected.\n    pub fn is_connected(&self) -> bool {\n        true"@;
    lemma_each_reads(step, Piece::IsConnected, fields, line);
    let step = crate::derive::with_each(step, Piece::IsConnected, fields);
    let step = step + "\n    }\n"@;
    let part = "\n    }\n    /// Returns `true` if all fields are still connected.\n    pub fn is_connected(&self) -> bool {\n        true"@
        + all_of(fields, line)
        + "\n    }\n"@;
    assert(step == before + part);
    lemma_holds_end(before, part);
    assert(holds_part(step, part));
    let step = crate::derive::with_each(step, Piece::Accessor, fields);
    let step = step + "}\n"@;
    let out = crate::derive::with_watcher_impl(out, header, fields);
    assert(out == step);
    assert(holds_part(out, part));
    lemma_blocks_keep(out, header, fields, part);
    let out = crate::derive::with_watcher_clone(out, header, fields);
}

/// The generated `clone` of the watcher clones every field: its body is one line for each field,
/// in order, and the line of field `i` is among them.
pub proof fn law_watcher_clone_clones_every_field(header: HeaderView, fields: Seq<FieldView>, i: int)
    requires
        0 <= i < fields.len(),
    ensures
        holds_part(
            crate::derive::expansion(header, fields),
            "{\n    fn clone(&self) -> Self {\n        Self {\n"@
                + all_of(fields, |f: FieldView| "            "@ + f.name + ": self."@ + f.name + ".clone(),\n"@)
                + "        }\n    }\n}\n"@,
        ),
        holds_part(
            all_of(fields, |f: FieldView| "            "@ + f.name + ": self."@ + f.name + ".clone(),\n"@),
            "            "@ + fields[i].name + ": self."@ + fields[i].name + ".clone(),\n"@,
        ),
{
    broadcast use {lemma_regroup, lemma_more_keeps, lemma_each_keeps};

    let line = |f: FieldView| "            "@ + f.name + ": self."@ + f.name + ".clone(),\n"@;
    law_all_of_holds_each(fields, line, i);
    let out = Seq::<char>::empty();
    let out = crate::derive::with_watchable_struct(out, header, fields);
    let out = crate::derive::with_watchable_impl(out, header, fields);
    let out = crate::derive::with_watchable_clone(out, header, fields);
    let out = crate::derive::with_watcher_struct(out, header, fields);
    let out = crate::derive::with_watcher_impl(out, header, fields);
    let step = out;
    let step = step + "impl "@;
    let step = step + header.impl_params;
    let step = step + " Clone for "@;
    let step = step + crate::derive::fragment_of(header.name);
    let step = step + "Watcher "@;
    let step = step + header.args;
    let step = step + " where\n"@;
    let step = crate::derive::with_each(step, Piece::CloneBound, fields);
    let before = step;
    let step = step + "{\n    fn clone(&self) -> Self {\n        Self {\n"@;
    lemma_each_reads(step, Piece::CloneField, fields, line);
    let step = crate::derive::with_each(step, Piece::CloneField, fields);
    let step = step + "        }\n    }\n}\n"@;
    let part = "{\n    fn clone(&self) -> Self {\n        Self {\n"@
        + all_of(fields, line)
        + "        }\n    }\n}\n"@;
    assert(step == before + part);
    lemma_holds_end(before, part);
    assert(holds_part(step, part));
    let out = crate::derive::with_watcher_clone(out, header, fields);
    assert(out == step);
    assert(holds_part(out, part));
}

/// As a part of a longer name, a raw identifier loses its mark, and any other name stays as it is.
pub proof fn law_fragment_drops_the_raw_mark(name: Seq<char>, rest: Seq<char>)
    ensures
        name == seq!['r', '#'] + rest ==> crate::derive::fragment_of(name) == rest,
        name.len() < 2 || name[0] != 'r' || name[1] != '#' ==> crate::derive::fragment_of(name)
            == name,
{
    if name == seq!['r', '#'] + rest {
        assert(name.skip(2) =~= rest);
    }
}

/// The derive succeeds exactly for a struct with named fields, with the expansion for its head and
/// its fields, in order. For another struct and for what is no struct it says so.
pub proof fn law_derive_succeeds_exactly_for_named_fields(
    header: &Header,
    body: &Body,
    result: Result<String, DeriveError>,
)
    requires
        call_ensures(impl_watchable, (header, body), result),
    ensures
        result is Ok <==> body is Named,
        body is Unnamed || body is Unit <==> result matches Err(DeriveError::UnnamedFields),
        body is Enum || body is Union <==> result matches Err(DeriveError::NotStruct),
        *body matches Body::Named(fields) ==> result matches Ok(text) && text@
            == crate::derive::expansion(
            HeaderView {
                name: header.name@,
                vis: header.vis@,
                params: header.params@,
                impl_params: header.impl_params@,
                args: header.args@,
                clause: header.clause@,
            },
            Seq::new(
                fields@.len(),
                |i: int|
                    FieldView { vis: fields@[i].vis@, name: fields@[i].name@, ty: fields@[i].ty@ },
            ),
        ),
{
    if let Body::Named(fields) = body {
        assert(Seq::new(
            fields@.len(),
            |i: int|
                FieldView { vis: fields@[i].vis@, name: fields@[i].name@, ty: fields@[i].ty@ },
        ) =~= crate::derive_input::field_views(fields@));
    }
}

/// The derive of a text goes by what the parser finds in it: a syntax error where it finds no item,
/// success for a struct with named fields, and the error that goes with it for any other item.
pub proof fn law_derive_goes_by_what_is_parsed(text: &str, result: Result<String, DeriveError>)
    requires
        call_ensures(derive_watchable, (text,), result),
    ensures
        match crate::derive_input::parsed_input(text@) {
            None => result matches Err(DeriveError::Syntax(_)),
            Some((header, BodyView::Named(fields))) => result matches Ok(written) && written@
                == crate::derive::expansion(header, fields),
            Some((_, BodyView::Unnamed)) => result matches Err(DeriveError::UnnamedFields),
            Some((_, BodyView::Unit)) => result matches Err(DeriveError::UnnamedFields),
            Some((_, BodyView::Enum)) => result matches Err(DeriveError::NotStruct),
            Some((_, BodyView::Union)) => result matches Err(DeriveError::NotStruct),
        },
{
}

} // verus!
