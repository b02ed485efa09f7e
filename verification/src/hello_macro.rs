//! A trait whose implementations are all alike but for the type's name, and
//! what a derive macro has to do to write them: find the name in the type's
//! declaration, and put it into the text of the implementation.

use vstd::prelude::*;
use vstd::string::*;

verus! {

/// The greeting of a type called `name`.
pub open spec fn hello_text(name: Seq<char>) -> Seq<char> {
    "Hello, Macro! I'm a "@ + name + "!"@
}

/// A type that greets with its own name.
pub trait HelloMacro {
    /// The name of the type.
    spec fn name_of_type() -> Seq<char>;

    /// Composes the greeting of the type.
    fn hello_macro() -> (greeting: String)
        ensures
            greeting@ == hello_text(Self::name_of_type()),
    ;
}

/// Composes the greeting of a type called `name`.
pub fn hello(name: &str) -> (greeting: String)
    ensures
        greeting@ == hello_text(name@),
{
    let mut greeting = String::from_str("Hello, Macro! I'm a ");
    greeting.append(name);
    greeting.append("!");
    greeting
}

/// A type with the implementation that deriving gives it.
#[derive(Debug)]
pub struct Cat;

impl HelloMacro for Cat {
    open spec fn name_of_type() -> Seq<char> {
        "Cat"@
    }

    fn hello_macro() -> (greeting: String) {
        hello("Cat")
    }
}

/// What deriving reads of a type's declaration: the name of the type.
pub struct DeriveInput {
    pub ident: String,
}

/// The implementation that deriving writes for a type called `name`, as
/// source text. It is written for programs that print: there the trait's
/// method takes and returns nothing, prints the greeting, and leaves it to
/// the compiler to turn the name into text.
pub open spec fn impl_text(name: Seq<char>) -> Seq<char> {
    "impl HelloMacro for "@ + name
        + " { fn hello_macro() { println!(\"Hello, Macro! I'm a {}!\", stringify!("@ + name
        + ")); } }"@
}

/// Writes the implementation of [`HelloMacro`] for the declared type.
pub fn impl_hello_macro(ast: &DeriveInput) -> (code: String)
    ensures
        code@ == impl_text(ast.ident@),
{
    let name = ast.ident.as_str();
    let mut code = String::from_str("impl HelloMacro for ");
    code.append(name);
    code.append(" { fn hello_macro() { println!(\"Hello, Macro! I'm a {}!\", stringify!(");
    code.append(name);
    code.append(")); } }");
    code
}

/// The identifier that `syn` finds when it parses `source` as the input of
/// a derive macro, which is the declaration of one struct, enum or union;
/// `None` where `syn` rejects the text.
pub uninterp spec fn declared_ident(source: Seq<char>) -> Option<Seq<char>>;

/// Parses the declaration of a type with `syn::parse_str`, as a
/// `syn::DeriveInput`, and keeps the type's name.
///
/// Trusted: the result is `None` exactly where `syn` reports an error, and
/// otherwise holds the identifier that `syn` found, as text. Without the
/// compiler behind it `syn` reads the text with its own lexer, so the
/// outcome depends on the text alone; [`declared_ident`] stands for it.
#[verifier::external_body]
fn parse_derive_input(source: &str) -> (parsed: Option<DeriveInput>)
    ensures
        match parsed {
            Some(ast) => declared_ident(source@) == Some(ast.ident@),
            None => declared_ident(source@) is None,
        },
{
    match syn::parse_str::<syn::DeriveInput>(source) {
        Ok(ast) => Some(DeriveInput { ident: ast.ident.to_string() }),
        Err(_) => None,
    }
}

/// Derives [`HelloMacro`]: given the declaration of a type, writes the
/// implementation for it. Where `input` is no such declaration there is
/// nothing to write.
pub fn hello_macro_derive(input: &str) -> (code: Option<String>)
    ensures
        match declared_ident(input@) {
            Some(name) => code matches Some(text) && text@ == impl_text(name),
            None => code is None,
        },
{
    match parse_derive_input(input) {
        Some(ast) => Some(impl_hello_macro(&ast)),
        None => None,
    }
}

} // verus!
