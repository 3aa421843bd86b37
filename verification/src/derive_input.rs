//! What the derive has to know of the item that it is put on.
use proc_macro2::fallback;
use quote::ToTokens;
use syn::{Data, DeriveInput, Fields};
use vstd::prelude::*;

verus! {

/// A syntax error, with the place where it was found.
#[verifier::external_type_specification]
#[verifier::external_body]
pub struct ExSynError(syn::Error);

/// The head of an item, each part as it is written.
pub struct Header {
    /// The name.
    pub name: String,
    /// The visibility.
    pub vis: String,
    /// The generic parameters, with their bounds and defaults.
    pub params: String,
    /// The generic parameters, with their bounds, as after `impl`.
    pub impl_params: String,
    /// The generic parameters, without their bounds, as after the name of a type.
    pub args: String,
    /// The where clause.
    pub clause: String,
}

/// A named field, each part as it is written.
pub struct Field {
    /// The visibility.
    pub vis: String,
    /// The name.
    pub name: String,
    /// The type.
    pub ty: String,
}

/// The body of an item.
pub enum Body {
    /// A struct with named fields.
    Named(Vec<Field>),
    /// A tuple struct.
    Unnamed,
    /// A struct without fields.
    Unit,
    /// An enum.
    Enum,
    /// A union.
    Union,
}

/// The characters of a [`Header`].
#[verifier::ext_equal]
pub struct HeaderView {
    pub name: Seq<char>,
    pub vis: Seq<char>,
    pub params: Seq<char>,
    pub impl_params: Seq<char>,
    pub args: Seq<char>,
    pub clause: Seq<char>,
}

/// The characters of a [`Field`].
#[verifier::ext_equal]
pub struct FieldView {
    pub vis: Seq<char>,
    pub name: Seq<char>,
    pub ty: Seq<char>,
}

/// The characters of a [`Body`].
#[verifier::ext_equal]
pub enum BodyView {
    Named(Seq<FieldView>),
    Unnamed,
    Unit,
    Enum,
    Union,
}

impl View for Header {
    type V = HeaderView;

    open spec fn view(&self) -> HeaderView {
        HeaderView {
            name: self.name@,
            vis: self.vis@,
            params: self.params@,
            impl_params: self.impl_params@,
            args: self.args@,
            clause: self.clause@,
        }
    }
}

impl View for Field {
    type V = FieldView;

    open spec fn view(&self) -> FieldView {
        FieldView { vis: self.vis@, name: self.name@, ty: self.ty@ }
    }
}

/// The characters of each field.
pub open spec fn field_views(fields: Seq<Field>) -> Seq<FieldView> {
    Seq::new(fields.len(), |i: int| fields[i]@)
}

impl View for Body {
    type V = BodyView;

    open spec fn view(&self) -> BodyView {
        match self {
            Body::Named(fields) => BodyView::Named(field_views(fields@)),
            Body::Unnamed => BodyView::Unnamed,
            Body::Unit => BodyView::Unit,
            Body::Enum => BodyView::Enum,
            Body::Union => BodyView::Union,
        }
    }
}

/// The head and the body of the item that `syn` finds in a text, or `None` where it finds no
/// item.
pub uninterp spec fn parsed_input(text: Seq<char>) -> Option<(HeaderView, BodyView)>;

/// `syn::parse_str` on the text of an item, for its head: the name, the visibility and the
/// three forms of the generics that `Generics::split_for_impl` and the generics themselves
/// give, each as `quote` and `proc_macro2` write it down.
///
/// What comes out is a function of the text. Inside of a procedural macro, the tokens would
/// be those of the compiler, which spaces them differently, so `proc_macro2` is told first
/// to use its own. It goes on using them, in the whole process, until it is told otherwise.
/// What `syn` takes for an item, and how the parts of one are written down, is not stated
/// further.
#[verifier::external_body]
pub(crate) fn parse_header(text: &str) -> (result: Result<Header, syn::Error>)
    ensures
        match result {
            Ok(header) => parsed_input(text@) matches Some(found) && found.0 == header@,
            Err(_) => parsed_input(text@) is None,
        },
{
    fallback::force();
    let DeriveInput { vis, ident, generics, .. } = syn::parse_str(text)?;
    let (impl_params, args, clause) = generics.split_for_impl();
    let code = |part: &dyn ToTokens| part.to_token_stream().to_string();
    Ok(Header {
        name: code(&ident),
        vis: code(&vis),
        params: code(&generics),
        impl_params: code(&impl_params),
        args: code(&args),
        clause: code(&clause),
    })
}

/// `syn::parse_str` on the text of an item, for its body: of a struct with named fields, the
/// visibility, name and type of each of them in order, as `quote` and `proc_macro2` write
/// them down; of another item, which kind it is.
///
/// As with [`parse_header`], what comes out is a function of the text, and is not stated
/// further.
#[verifier::external_body]
pub(crate) fn parse_body(text: &str) -> (result: Result<Body, syn::Error>)
    ensures
        match result {
            Ok(body) => parsed_input(text@) matches Some(found) && found.1 == body@,
            Err(_) => parsed_input(text@) is None,
        },
{
    fallback::force();
    let code = |part: &dyn ToTokens| part.to_token_stream().to_string();
    let field = |f: &syn::Field| Field { vis: code(&f.vis), name: code(&f.ident), ty: code(&f.ty) };
    Ok(match syn::parse_str::<DeriveInput>(text)?.data {
        Data::Struct(data) => match data.fields {
            Fields::Named(fields) => Body::Named(fields.named.iter().map(field).collect()),
            Fields::Unnamed(_) => Body::Unnamed,
            Fields::Unit => Body::Unit,
        },
        Data::Enum(_) => Body::Enum,
        Data::Union(_) => Body::Union,
    })
}

} // verus!
