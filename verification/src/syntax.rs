//! What the generators read of a declaration, and the parsers that `syn` supplies.

use quote::ToTokens;
use syn::parse::Parser;
use vstd::prelude::*;

use crate::text::{decimal, decimal_text, texts};

verus! {

/// Why an expansion failed. Every failure is final: nothing is emitted.
#[derive(Debug, Clone, Copy, PartialEq, Eq, Structural)]
pub enum ExpandError {
    /// The input does not follow the grammar that the generator reads.
    Malformed,
    /// No rule of the macro has the shape of the invocation.
    NoRuleMatches,
    /// The declaration is not a struct.
    NotAStruct,
    /// Two captures that repeat together matched different numbers of items.
    CountMismatch { first: usize, second: usize },
}

impl ExpandError {
    /// The diagnostic that goes with the failure.
    pub open spec fn message_text(self) -> Seq<char> {
        match self {
            ExpandError::Malformed => "input does not follow the expected grammar"@,
            ExpandError::NoRuleMatches => "no rule matches the invocation"@,
            ExpandError::NotAStruct => "MyDebug can only be derived for structs"@,
            ExpandError::CountMismatch { first, second } => "one capture repeats "@ + decimal(
                first as nat,
            ) + " times, but another repeats "@ + decimal(second as nat) + " times"@,
        }
    }

    /// Writes the diagnostic.
    pub fn message(&self) -> (r: String)
        ensures
            r@ == self.message_text(),
    {
        let mut out = String::new();
        match self {
            ExpandError::Malformed => {
                out.push_str("input does not follow the expected grammar");
            },
            ExpandError::NoRuleMatches => {
                out.push_str("no rule matches the invocation");
            },
            ExpandError::NotAStruct => {
                out.push_str("MyDebug can only be derived for structs");
            },
            ExpandError::CountMismatch { first, second } => {
                out.push_str("one capture repeats ");
                out.push_str(decimal_text(*first).as_str());
                out.push_str(" times, but another repeats ");
                out.push_str(decimal_text(*second).as_str());
                out.push_str(" times");
            },
        }
        proof {
            assert(out@ =~= self.message_text());
        }
        out
    }
}

/// The fields of a struct.
#[derive(Debug, Clone)]
pub enum FieldShape {
    /// Fields with names, in the order of the declaration.
    Named(Vec<String>),
    /// This many fields without names.
    Positional(usize),
    /// No fields at all.
    Unit,
}

/// The fields of a struct, with each name as its characters.
pub enum FieldShapeView {
    Named(Seq<Seq<char>>),
    Positional(nat),
    Unit,
}

impl View for FieldShape {
    type V = FieldShapeView;

    open spec fn view(&self) -> FieldShapeView {
        match self {
            FieldShape::Named(names) => FieldShapeView::Named(texts(names@)),
            FieldShape::Positional(count) => FieldShapeView::Positional(*count as nat),
            FieldShape::Unit => FieldShapeView::Unit,
        }
    }
}

/// Which kind of type a declaration introduces.
#[derive(Debug, Clone)]
pub enum Shape {
    Struct(FieldShape),
    Enum,
    Union,
}

/// The kind of type, with the fields of a struct as their view.
pub enum ShapeView {
    Struct(FieldShapeView),
    Enum,
    Union,
}

impl View for Shape {
    type V = ShapeView;

    open spec fn view(&self) -> ShapeView {
        match self {
            Shape::Struct(fields) => ShapeView::Struct(fields@),
            Shape::Enum => ShapeView::Enum,
            Shape::Union => ShapeView::Union,
        }
    }
}

/// A type declaration, as far as a derive reads it.
#[derive(Debug, Clone)]
pub struct Declaration {
    pub name: String,
    pub shape: Shape,
}

/// A declaration, with its name as its characters.
pub struct DeclarationView {
    pub name: Seq<char>,
    pub shape: ShapeView,
}

impl View for Declaration {
    type V = DeclarationView;

    open spec fn view(&self) -> DeclarationView {
        DeclarationView { name: self.name@, shape: self.shape@ }
    }
}

/// A function declaration taken apart. Each part but `name` is the text of its tokens.
#[derive(Debug, Clone)]
pub struct FunctionDecl {
    /// The attributes above the function, in order.
    pub attrs: Vec<String>,
    /// The visibility; empty where none is written.
    pub vis: String,
    /// The signature, from `fn` (or a qualifier before it) to the return type.
    pub sig: String,
    /// The function's name.
    pub name: String,
    /// The body, braces included.
    pub body: String,
}

/// A function taken apart, with each part as its characters.
pub struct FunctionDeclView {
    pub attrs: Seq<Seq<char>>,
    pub vis: Seq<char>,
    pub sig: Seq<char>,
    pub name: Seq<char>,
    pub body: Seq<char>,
}

impl View for FunctionDecl {
    type V = FunctionDeclView;

    open spec fn view(&self) -> FunctionDeclView {
        FunctionDeclView {
            attrs: texts(self.attrs@),
            vis: self.vis@,
            sig: self.sig@,
            name: self.name@,
            body: self.body@,
        }
    }
}

/// The expressions that `syn` reads in a list separated by commas, each as the text
/// of its tokens; `None` where the input is no such list.
///
/// Token text, here and below, is what `proc_macro2` prints for the tokens with its
/// own implementation, the one it has where no compiler is running it.
pub uninterp spec fn parsed_expressions(input: Seq<char>) -> Option<Seq<Seq<char>>>;

/// The type declaration that `syn` reads in the input; `None` where it is none.
pub uninterp spec fn parsed_declaration(input: Seq<char>) -> Option<DeclarationView>;

/// The function that `syn` reads in the input; `None` where it is none.
pub uninterp spec fn parsed_function(input: Seq<char>) -> Option<FunctionDeclView>;

/// Runs `syn`'s `Punctuated::<Expr, Comma>::parse_terminated` on the input, through
/// `Parser::parse_str`, and hands out the token text of each expression in order.
/// The contract only gives the outcome its name, `parsed_expressions`.
///
/// For the length of the call `proc_macro2` is held to its own implementation, so
/// that the outcome is the same whether or not a compiler is running the caller.
#[verifier::external_body]
pub(crate) fn parse_expressions(input: &str) -> (r: Option<Vec<String>>)
    ensures
        match r {
            Some(items) => parsed_expressions(input@) == Some(texts(items@)),
            None => parsed_expressions(input@) is None,
        },
{
    proc_macro2::fallback::force();
    let parser = syn::punctuated::Punctuated::<syn::Expr, syn::token::Comma>::parse_terminated;
    let list = parser.parse_str(input).ok();
    let items = list.map(|l| l.iter().map(|e| e.to_token_stream().to_string()).collect());
    proc_macro2::fallback::unforce();
    items
}

/// Runs `syn::parse_str::<DeriveInput>` on the input and copies out the name, the
/// kind of type and, for a struct, its field names or their number.
/// The contract only gives the outcome its name, `parsed_declaration`.
///
/// `proc_macro2` is held to its own implementation as in `parse_expressions`.
#[verifier::external_body]
pub(crate) fn parse_declaration(input: &str) -> (r: Option<Declaration>)
    ensures
        match r {
            Some(decl) => parsed_declaration(input@) == Some(decl@),
            None => parsed_declaration(input@) is None,
        },
{
    proc_macro2::fallback::force();
    let ast = syn::parse_str::<syn::DeriveInput>(input).ok();
    let decl = ast.map(|ast| Declaration { name: ast.ident.to_string(), shape: match ast.data {
        syn::Data::Struct(data) => Shape::Struct(match data.fields {
            syn::Fields::Named(f) => FieldShape::Named(
                f.named.iter().map(|x| x.ident.to_token_stream().to_string()).collect()),
            syn::Fields::Unnamed(f) => FieldShape::Positional(f.unnamed.len()),
            syn::Fields::Unit => FieldShape::Unit,
        }),
        syn::Data::Enum(_) => Shape::Enum,
        syn::Data::Union(_) => Shape::Union,
    } });
    proc_macro2::fallback::unforce();
    decl
}

/// Runs `syn::parse_str::<ItemFn>` on the input and copies out the token text of
/// the attributes, the visibility, the signature and the body, and the name.
/// The contract only gives the outcome its name, `parsed_function`.
///
/// `proc_macro2` is held to its own implementation as in `parse_expressions`.
#[verifier::external_body]
pub(crate) fn parse_function(input: &str) -> (r: Option<FunctionDecl>)
    ensures
        match r {
            Some(decl) => parsed_function(input@) == Some(decl@),
            None => parsed_function(input@) is None,
        },
{
    proc_macro2::fallback::force();
    let decl = syn::parse_str::<syn::ItemFn>(input).ok().map(|f| FunctionDecl {
        attrs: f.attrs.iter().map(|a| a.to_token_stream().to_string()).collect(),
        vis: f.vis.to_token_stream().to_string(),
        sig: f.sig.to_token_stream().to_string(),
        name: f.sig.ident.to_string(),
        body: f.block.to_token_stream().to_string(),
    });
    proc_macro2::fallback::unforce();
    decl
}

} // verus!
