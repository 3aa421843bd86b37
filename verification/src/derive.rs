//! The expansion of the derive.
//!
//! For a struct `Foo`, this writes down:
//!
//! - `WatchableFoo` - each field wrapped in `Watchable<T>`, with per-field setters
//! - `FooWatcher` - each field is a `Direct<T>` watcher, with per-field accessors
use vstd::prelude::*;

use crate::derive_input::{
    parse_body, parse_header, Body, BodyView, Field, FieldView, Header, HeaderView,
};

verus! {

/// Why nothing was derived.
pub enum DeriveError {
    /// The text is not that of an item.
    Syntax(syn::Error),
    /// The item is a struct without named fields.
    UnnamedFields,
    /// The item is not a struct.
    NotStruct,
}

impl DeriveError {
    /// The error in words, unless `syn` has the words for it.
    pub fn message(&self) -> (text: Option<&'static str>)
        ensures
            match self {
                DeriveError::Syntax(_) => text is None,
                DeriveError::UnnamedFields => text matches Some(text) && text@
                    == "Watchable can only be derived for structs with named fields"@,
                DeriveError::NotStruct => text matches Some(text) && text@
                    == "Watchable can only be derived for structs"@,
            },
    {
        match self {
            DeriveError::Syntax(_) => None,
            DeriveError::UnnamedFields => Some(
                "Watchable can only be derived for structs with named fields",
            ),
            DeriveError::NotStruct => Some("Watchable can only be derived for structs"),
        }
    }
}

/// A name as a part of a longer name: without the mark of a raw identifier.
pub open spec fn fragment_of(name: Seq<char>) -> Seq<char> {
    if name.len() >= 2 && name[0] == 'r' && name[1] == '#' {
        name.skip(2)
    } else {
        name
    }
}

/// A name as a part of a longer name.
fn fragment<'a>(name: &'a str) -> (part: &'a str)
    ensures
        part@ == fragment_of(name@),
{
    let len = name.unicode_len();
    if len >= 2 && name.get_char(0) == 'r' && name.get_char(1) == '#' {
        name.substring_char(2, len)
    } else {
        name
    }
}

/// What is written down for one field.
pub enum Piece {
    /// Its declaration in the wrapper.
    WatchableField,
    /// The demand that its type can be cloned.
    CloneBound,
    /// Its wrapping.
    NewField,
    /// Its value.
    GetField,
    /// Its setting along with the others.
    SetField,
    /// Its watcher.
    WatchField,
    /// Its own setter.
    Setter,
    /// Its clone.
    CloneField,
    /// Its declaration in the watcher.
    WatcherField,
    /// Its latest value.
    WatcherGet,
    /// Its cached value.
    WatcherPeek,
    /// Its update.
    WatcherUpdate,
    /// The question whether it has changed.
    HasChanged,
    /// The question whether it is connected.
    IsConnected,
    /// Its own accessor.
    Accessor,
}

/// `out`, followed by `piece` for `field`.
pub open spec fn with_piece(out: Seq<char>, piece: Piece, field: FieldView) -> Seq<char> {
    match piece {
        Piece::WatchableField => {
            out + "    "@
                + field.vis
                + " "@
                + field.name
                + ": watchable_rs::Watchable<"@
                + field.ty
                + ">,\n"@
        },
        Piece::CloneBound => {
            out + "    "@
                + field.ty
                + ": Clone,\n"@
        },
        Piece::NewField => {
            out + "            "@
                + field.name
                + ": watchable_rs::Watchable::new(value."@
                + field.name
                + "),\n"@
        },
        Piece::GetField => {
            out + "            "@
                + field.name
                + ": self."@
                + field.name
                + ".get(),\n"@
        },
        Piece::SetField => {
            out + "        self."@
                + field.name
                + ".set(value."@
                + field.name
                + ");\n"@
        },
        Piece::WatchField => {
            out + "            "@
                + field.name
                + ": self."@
                + field.name
                + ".watch(),\n"@
        },
        Piece::Setter => {
            out + "    /// Sets the value of the `\n    #[doc = stringify!("@
                + field.name
                + ")]\n    /// ` field.\n    pub fn set_"@
                + fragment_of(field.name)
                + "(&self, value: "@
                + field.ty
                + ") {\n        self."@
                + field.name
                + ".set(value);\n    }\n"@
        },
        Piece::CloneField => {
            out + "            "@
                + field.name
                + ": self."@
                + field.name
                + ".clone(),\n"@
        },
        Piece::WatcherField => {
            out + "    "@
                + field.vis
                + " "@
                + field.name
                + ": watchable_rs::Direct<"@
                + field.ty
                + ">,\n"@
        },
        Piece::WatcherGet => {
            out + "            "@
                + field.name
                + ": watchable_rs::Watcher::get(&mut self."@
                + field.name
                + "),\n"@
        },
        Piece::WatcherPeek => {
            out + "            "@
                + field.name
                + ": watchable_rs::Watcher::peek(&self."@
                + field.name
                + ").clone(),\n"@
        },
        Piece::WatcherUpdate => {
            out + "        changed |= watchable_rs::Watcher::update(&mut self."@
                + field.name
                + ");\n"@
        },
        Piece::HasChanged => {
            out + " || watchable_rs::Watcher::has_changed(&self."@
                + field.name
                + ")"@
        },
        Piece::IsConnected => {
            out + " && watchable_rs::Watcher::is_connected(&self."@
                + field.name
                + ")"@
        },
        Piece::Accessor => {
            out + "    /// Returns the current cached value of the `\n    #[doc = stringify!("@
                + field.name
                + ")]\n    /// ` field.\n    pub fn "@
                + field.name
                + "(&self) -> &"@
                + field.ty
                + " {\n        watchable_rs::Watcher::peek(&self."@
                + field.name
                + ")\n    }\n"@
        },
    }
}

/// Writes `piece` down for `field`.
fn write_piece(out: &mut String, piece: &Piece, field: &Field)
    ensures
        final(out)@ == with_piece(old(out)@, *piece, field@),
{
    match piece {
        Piece::WatchableField => {
            out.append("    ");
            out.append(field.vis.as_str());
            out.append(" ");
            out.append(field.name.as_str());
            out.append(": watchable_rs::Watchable<");
            out.append(field.ty.as_str());
            out.append(">,\n");
        },
        Piece::CloneBound => {
            out.append("    ");
            out.append(field.ty.as_str());
            out.append(": Clone,\n");
        },
        Piece::NewField => {
            out.append("            ");
            out.append(field.name.as_str());
            out.append(": watchable_rs::Watchable::new(value.");
            out.append(field.name.as_str());
            out.append("),\n");
        },
        Piece::GetField => {
            out.append("            ");
            out.append(field.name.as_str());
            out.append(": self.");
            out.append(field.name.as_str());
            out.append(".get(),\n");
        },
        Piece::SetField => {
            out.append("        self.");
            out.append(field.name.as_str());
            out.append(".set(value.");
            out.append(field.name.as_str());
            out.append(");\n");
        },
        Piece::WatchField => {
            out.append("            ");
            out.append(field.name.as_str());
            out.append(": self.");
            out.append(field.name.as_str());
            out.append(".watch(),\n");
        },
        Piece::Setter => {
            out.append("    /// Sets the value of the `\n    #[doc = stringify!(");
            out.append(field.name.as_str());
            out.append(")]\n    /// ` field.\n    pub fn set_");
            out.append(fragment(field.name.as_str()));
            out.append("(&self, value: ");
            out.append(field.ty.as_str());
            out.append(") {\n        self.");
            out.append(field.name.as_str());
            out.append(".set(value);\n    }\n");
        },
        Piece::CloneField => {
            out.append("            ");
            out.append(field.name.as_str());
            out.append(": self.");
            out.append(field.name.as_str());
            out.append(".clone(),\n");
        },
        Piece::WatcherField => {
            out.append("    ");
            out.append(field.vis.as_str());
            out.append(" ");
            out.append(field.name.as_str());
            out.append(": watchable_rs::Direct<");
            out.append(field.ty.as_str());
            out.append(">,\n");
        },
        Piece::WatcherGet => {
            out.append("            ");
            out.append(field.name.as_str());
            out.append(": watchable_rs::Watcher::get(&mut self.");
            out.append(field.name.as_str());
            out.append("),\n");
        },
        Piece::WatcherPeek => {
            out.append("            ");
            out.append(field.name.as_str());
            out.append(": watchable_rs::Watcher::peek(&self.");
            out.append(field.name.as_str());
            out.append(").clone(),\n");
        },
        Piece::WatcherUpdate => {
            out.append("        changed |= watchable_rs::Watcher::update(&mut self.");
            out.append(field.name.as_str());
            out.append(");\n");
        },
        Piece::HasChanged => {
            out.append(" || watchable_rs::Watcher::has_changed(&self.");
            out.append(field.name.as_str());
            out.append(")");
        },
        Piece::IsConnected => {
            out.append(" && watchable_rs::Watcher::is_connected(&self.");
            out.append(field.name.as_str());
            out.append(")");
        },
        Piece::Accessor => {
            out.append("    /// Returns the current cached value of the `\n    #[doc = stringify!(");
            out.append(field.name.as_str());
            out.append(")]\n    /// ` field.\n    pub fn ");
            out.append(field.name.as_str());
            out.append("(&self) -> &");
            out.append(field.ty.as_str());
            out.append(" {\n        watchable_rs::Watcher::peek(&self.");
            out.append(field.name.as_str());
            out.append(")\n    }\n");
        },
    }
}

/// `out`, followed by `piece` for each of `fields`, in order.
pub open spec fn with_each(out: Seq<char>, piece: Piece, fields: Seq<FieldView>) -> Seq<char>
    decreases fields.len(),
{
    if fields.len() == 0 {
        out
    } else {
        with_piece(with_each(out, piece, fields.drop_last()), piece, fields.last())
    }
}

/// Writes `piece` down for each of `fields`, in order.
fn write_each(out: &mut String, piece: Piece, fields: &Vec<Field>)
    ensures
        final(out)@ == with_each(old(out)@, piece, crate::derive_input::field_views(fields@)),
{
    let ghost views = crate::derive_input::field_views(fields@);
    let mut i: usize = 0;
    while i < fields.len()
        invariant
            i <= fields.len(),
            views == crate::derive_input::field_views(fields@),
            out@ == with_each(old(out)@, piece, views.take(i as int)),
        decreases fields.len() - i,
    {
        write_piece(out, &piece, &fields[i]);
        proof {
            let next = views.take(i + 1);
            assert(next.drop_last() =~= views.take(i as int));
            assert(next.last() == fields@[i as int]@);
        }
        i += 1;
    }
    assert(views.take(i as int) =~= views);
}

/// `out`, followed by the wrapper, with every field watchable by itself.
pub open spec fn with_watchable_struct(
    out: Seq<char>,
    header: HeaderView,
    fields: Seq<FieldView>,
) -> Seq<char> {
    let out = out + "/// Observable wrapper where each field is independently watchable.\n"@
        + header.vis
        + " struct Watchable"@
        + fragment_of(header.name)
        + " "@
        + header.params
        + " "@
        + header.clause
        + " {\n"@;
    let out = with_each(out, Piece::WatchableField, fields);
    out + "}\n"@
}

/// Writes down the wrapper, with every field watchable by itself.
fn write_watchable_struct(out: &mut String, header: &Header, fields: &Vec<Field>)
    ensures
        final(out)@ == with_watchable_struct(
            old(out)@,
            header@,
            crate::derive_input::field_views(fields@),
        ),
{
    out.append("/// Observable wrapper where each field is independently watchable.\n");
    out.append(header.vis.as_str());
    out.append(" struct Watchable");
    out.append(fragment(header.name.as_str()));
    out.append(" ");
    out.append(header.params.as_str());
    out.append(" ");
    out.append(header.clause.as_str());
    out.append(" {\n");
    write_each(out, Piece::WatchableField, fields);
    out.append("}\n");
}

/// `out`, followed by what the wrapper can do.
pub open spec fn with_watchable_impl(
    out: Seq<char>,
    header: HeaderView,
    fields: Seq<FieldView>,
) -> Seq<char> {
    let out = out + "impl "@
        + header.impl_params
        + " Watchable"@
        + fragment_of(header.name)
        + " "@
        + header.args
        + " where\n"@;
    let out = with_each(out, Piece::CloneBound, fields);
    let out = out + "{\n    /// Creates a new watchable wrapper from a value.\n    pub fn new(value: "@
        + header.name
        + " "@
        + header.args
        + ") -> Self {\n        Self {\n"@;
    let out = with_each(out, Piece::NewField, fields);
    let out = out + "        }\n    }\n    /// Returns a snapshot of all fields as the original struct.\n    pub fn get(&self) -> "@
        + header.name
        + " "@
        + header.args
        + " {\n        "@
        + header.name
        + " {\n"@;
    let out = with_each(out, Piece::GetField, fields);
    let out = out + "        }\n    }\n    /// Sets all fields from a value.\n    pub fn set(&self, value: "@
        + header.name
        + " "@
        + header.args
        + ") {\n"@;
    let out = with_each(out, Piece::SetField, fields);
    let out = out + "    }\n    /// Creates a watcher that observes all fields.\n    pub fn watch(&self) -> "@
        + fragment_of(header.name)
        + "Watcher "@
        + header.args
        + " {\n        "@
        + fragment_of(header.name)
        + "Watcher {\n"@;
    let out = with_each(out, Piece::WatchField, fields);
    let out = out + "        }\n    }\n"@;
    let out = with_each(out, Piece::Setter, fields);
    out + "}\n"@
}

/// Writes down what the wrapper can do.
fn write_watchable_impl(out: &mut String, header: &Header, fields: &Vec<Field>)
    ensures
        final(out)@ == with_watchable_impl(
            old(out)@,
            header@,
            crate::derive_input::field_views(fields@),
        ),
{
    out.append("impl ");
    out.append(header.impl_params.as_str());
    out.append(" Watchable");
    out.append(fragment(header.name.as_str()));
    out.append(" ");
    out.append(header.args.as_str());
    out.append(" where\n");
    write_each(out, Piece::CloneBound, fields);
    out.append("{\n    /// Creates a new watchable wrapper from a value.\n    pub fn new(value: ");
    out.append(header.name.as_str());
    out.append(" ");
    out.append(header.args.as_str());
    out.append(") -> Self {\n        Self {\n");
    write_each(out, Piece::NewField, fields);
    out.append("        }\n    }\n    /// Returns a snapshot of all fields as the original struct.\n    pub fn get(&self) -> ");
    out.append(header.name.as_str());
    out.append(" ");
    out.append(header.args.as_str());
    out.append(" {\n        ");
    out.append(header.name.as_str());
    out.append(" {\n");
    write_each(out, Piece::GetField, fields);
    out.append("        }\n    }\n    /// Sets all fields from a value.\n    pub fn set(&self, value: ");
    out.append(header.name.as_str());
    out.append(" ");
    out.append(header.args.as_str());
    out.append(") {\n");
    write_each(out, Piece::SetField, fields);
    out.append("    }\n    /// Creates a watcher that observes all fields.\n    pub fn watch(&self) -> ");
    out.append(fragment(header.name.as_str()));
    out.append("Watcher ");
    out.append(header.args.as_str());
    out.append(" {\n        ");
    out.append(fragment(header.name.as_str()));
    out.append("Watcher {\n");
    write_each(out, Piece::WatchField, fields);
    out.append("        }\n    }\n");
    write_each(out, Piece::Setter, fields);
    out.append("}\n");
}

/// `out`, followed by how the wrapper is cloned.
pub open spec fn with_watchable_clone(
    out: Seq<char>,
    header: HeaderView,
    fields: Seq<FieldView>,
) -> Seq<char> {
    let out = out + "impl "@
        + header.impl_params
        + " Clone for Watchable"@
        + fragment_of(header.name)
        + " "@
        + header.args
        + " "@
        + header.clause
        + " {\n    fn clone(&self) -> Self {\n        Self {\n"@;
    let out = with_each(out, Piece::CloneField, fields);
    out + "        }\n    }\n}\n"@
}

/// Writes down how the wrapper is cloned.
fn write_watchable_clone(out: &mut String, header: &Header, fields: &Vec<Field>)
    ensures
        final(out)@ == with_watchable_clone(
            old(out)@,
            header@,
            crate::derive_input::field_views(fields@),
        ),
{
    out.append("impl ");
    out.append(header.impl_params.as_str());
    out.append(" Clone for Watchable");
    out.append(fragment(header.name.as_str()));
    out.append(" ");
    out.append(header.args.as_str());
    out.append(" ");
    out.append(header.clause.as_str());
    out.append(" {\n    fn clone(&self) -> Self {\n        Self {\n");
    write_each(out, Piece::CloneField, fields);
    out.append("        }\n    }\n}\n");
}

/// `out`, followed by the watcher, with a watcher for every field.
pub open spec fn with_watcher_struct(
    out: Seq<char>,
    header: HeaderView,
    fields: Seq<FieldView>,
) -> Seq<char> {
    let out = out + "/// Watcher that observes each field of the original struct independently.\n"@
        + header.vis
        + " struct "@
        + fragment_of(header.name)
        + "Watcher "@
        + header.params
        + " "@
        + header.clause
        + " {\n"@;
    let out = with_each(out, Piece::WatcherField, fields);
    out + "}\n"@
}

/// Writes down the watcher, with a watcher for every field.
fn write_watcher_struct(out: &mut String, header: &Header, fields: &Vec<Field>)
    ensures
        final(out)@ == with_watcher_struct(
            old(out)@,
            header@,
            crate::derive_input::field_views(fields@),
        ),
{
    out.append("/// Watcher that observes each field of the original struct independently.\n");
    out.append(header.vis.as_str());
    out.append(" struct ");
    out.append(fragment(header.name.as_str()));
    out.append("Watcher ");
    out.append(header.params.as_str());
    out.append(" ");
    out.append(header.clause.as_str());
    out.append(" {\n");
    write_each(out, Piece::WatcherField, fields);
    out.append("}\n");
}

/// `out`, followed by what the watcher can do.
pub open spec fn with_watcher_impl(
    out: Seq<char>,
    header: HeaderView,
    fields: Seq<FieldView>,
) -> Seq<char> {
    let out = out + "impl "@
        + header.impl_params
        + " "@
        + fragment_of(header.name)
        + "Watcher "@
        + header.args
        + " where\n"@;
    let out = with_each(out, Piece::CloneBound, fields);
    let out = out + "{\n    /// Returns a snapshot of all fields as the original struct.\n    pub fn get(&mut self) -> "@
        + header.name
        + " "@
        + header.args
        + " {\n        "@
        + header.name
        + " {\n"@;
    let out = with_each(out, Piece::WatcherGet, fields);
    let out = out + "        }\n    }\n    /// Returns a snapshot without updating internal state.\n    pub fn peek(&self) -> "@
        + header.name
        + " "@
        + header.args
        + " {\n        "@
        + header.name
        + " {\n"@;
    let out = with_each(out, Piece::WatcherPeek, fields);
    let out = out + "        }\n    }\n    /// Updates all watchers, returns `true` if any field changed.\n    pub fn update(&mut self) -> bool {\n        let mut changed = false;\n"@;
    let out = with_each(out, Piece::WatcherUpdate, fields);
    let out = out + "        changed\n    }\n    /// Returns `true` if any field has a pending change.\n    pub fn has_changed(&self) -> bool {\n        false"@;
    let out = with_each(out, Piece::HasChanged, fields);
    let out = out + "\n    }\n    /// Returns `true` if all fields are still connected.\n    pub fn is_connected(&self) -> bool {\n        true"@;
    let out = with_each(out, Piece::IsConnected, fields);
    let out = out + "\n    }\n"@;
    let out = with_each(out, Piece::Accessor, fields);
    out + "}\n"@
}

/// Writes down what the watcher can do.
fn write_watcher_impl(out: &mut String, header: &Header, fields: &Vec<Field>)
    ensures
        final(out)@ == with_watcher_impl(
            old(out)@,
            header@,
            crate::derive_input::field_views(fields@),
        ),
{
    out.append("impl ");
    out.append(header.impl_params.as_str());
    out.append(" ");
    out.append(fragment(header.name.as_str()));
    out.append("Watcher ");
    out.append(header.args.as_str());
    out.append(" where\n");
    write_each(out, Piece::CloneBound, fields);
    out.append("{\n    /// Returns a snapshot of all fields as the original struct.\n    pub fn get(&mut self) -> ");
    out.append(header.name.as_str());
    out.append(" ");
    out.append(header.args.as_str());
    out.append(" {\n        ");
    out.append(header.name.as_str());
    out.append(" {\n");
    write_each(out, Piece::WatcherGet, fields);
    out.append("        }\n    }\n    /// Returns a snapshot without updating internal state.\n    pub fn peek(&self) -> ");
    out.append(header.name.as_str());
    out.append(" ");
    out.append(header.args.as_str());
    out.append(" {\n        ");
    out.append(header.name.as_str());
    out.append(" {\n");
    write_each(out, Piece::WatcherPeek, fields);
    out.append("        }\n    }\n    /// Updates all watchers, returns `true` if any field changed.\n    pub fn update(&mut self) -> bool {\n        let mut changed = false;\n");
    write_each(out, Piece::WatcherUpdate, fields);
    out.append("        changed\n    }\n    /// Returns `true` if any field has a pending change.\n    pub fn has_changed(&self) -> bool {\n        false");
    write_each(out, Piece::HasChanged, fields);
    out.append("\n    }\n    /// Returns `true` if all fields are still connected.\n    pub fn is_connected(&self) -> bool {\n        true");
    write_each(out, Piece::IsConnected, fields);
    out.append("\n    }\n");
    write_each(out, Piece::Accessor, fields);
    out.append("}\n");
}

/// `out`, followed by how the watcher is cloned.
pub open spec fn with_watcher_clone(
    out: Seq<char>,
    header: HeaderView,
    fields: Seq<FieldView>,
) -> Seq<char> {
    let out = out + "impl "@
        + header.impl_params
        + " Clone for "@
        + fragment_of(header.name)
        + "Watcher "@
        + header.args
        + " where\n"@;
    let out = with_each(out, Piece::CloneBound, fields);
    let out = out + "{\n    fn clone(&self) -> Self {\n        Self {\n"@;
    let out = with_each(out, Piece::CloneField, fields);
    out + "        }\n    }\n}\n"@
}

/// Writes down how the watcher is cloned.
fn write_watcher_clone(out: &mut String, header: &Header, fields: &Vec<Field>)
    ensures
        final(out)@ == with_watcher_clone(
            old(out)@,
            header@,
            crate::derive_input::field_views(fields@),
        ),
{
    out.append("impl ");
    out.append(header.impl_params.as_str());
    out.append(" Clone for ");
    out.append(fragment(header.name.as_str()));
    out.append("Watcher ");
    out.append(header.args.as_str());
    out.append(" where\n");
    write_each(out, Piece::CloneBound, fields);
    out.append("{\n    fn clone(&self) -> Self {\n        Self {\n");
    write_each(out, Piece::CloneField, fields);
    out.append("        }\n    }\n}\n");
}

/// The expansion for a struct with named fields.
pub open spec fn expansion(header: HeaderView, fields: Seq<FieldView>) -> Seq<char> {
    let out = with_watchable_struct(Seq::empty(), header, fields);
    let out = with_watchable_impl(out, header, fields);
    let out = with_watchable_clone(out, header, fields);
    let out = with_watcher_struct(out, header, fields);
    let out = with_watcher_impl(out, header, fields);
    with_watcher_clone(out, header, fields)
}

/// `result` is what the derive comes to on an item: the expansion for a struct with named
/// fields, and an error that says why there is none for any other item.
pub open spec fn derives(
    header: HeaderView,
    body: BodyView,
    result: Result<String, DeriveError>,
) -> bool {
    match body {
        BodyView::Named(fields) => result matches Ok(text) && text@ == expansion(header, fields),
        BodyView::Unnamed | BodyView::Unit => result matches Err(DeriveError::UnnamedFields),
        BodyView::Enum | BodyView::Union => result matches Err(DeriveError::NotStruct),
    }
}

/// Expands the derive for an item.
pub fn impl_watchable(header: &Header, body: &Body) -> (result: Result<String, DeriveError>)
    ensures
        derives(header@, body@, result),
{
    match body {
        Body::Named(fields) => {
            let mut out = String::new();
            write_watchable_struct(&mut out, header, fields);
            write_watchable_impl(&mut out, header, fields);
            write_watchable_clone(&mut out, header, fields);
            write_watcher_struct(&mut out, header, fields);
            write_watcher_impl(&mut out, header, fields);
            write_watcher_clone(&mut out, header, fields);
            Ok(out)
        },
        Body::Unnamed | Body::Unit => Err(DeriveError::UnnamedFields),
        Body::Enum | Body::Union => Err(DeriveError::NotStruct),
    }
}

/// Expands the derive for the item in `text`.
///
/// The text is read with the tokenizer of `proc_macro2` itself, so that the same text is expanded
/// in the same way everywhere. Inside of a procedural macro this has an effect that lasts: the
/// whole process is switched over to that tokenizer, until someone calls
/// `proc_macro2::fallback::unforce`.
pub fn derive_watchable(text: &str) -> (result: Result<String, DeriveError>)
    ensures
        match crate::derive_input::parsed_input(text@) {
            Some((header, body)) => derives(header, body, result),
            None => result matches Err(DeriveError::Syntax(_)),
        },
{
    let header = match parse_header(text) {
        Ok(header) => header,
        Err(error) => return Err(DeriveError::Syntax(error)),
    };
    let body = match parse_body(text) {
        Ok(body) => body,
        Err(error) => return Err(DeriveError::Syntax(error)),
    };
    impl_watchable(&header, &body)
}

} // verus!
