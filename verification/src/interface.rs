//! Resolution of the program interface from the stored document.

use vstd::prelude::*;
use anchor_syn::idl::Idl;
use crate::error::ResolveError;
use crate::workspace::Workspace;

verus! {

#[verifier::external_type_specification]
#[verifier::external_body]
pub struct ExIdl(Idl);

#[verifier::external_type_specification]
#[verifier::external_body]
pub struct ExJsonError(serde_json::Error);

/// A parsed interface description together with the document it was
/// parsed from.
#[derive(Debug)]
pub struct Interface {
    /// The document as the workspace stored it.
    pub document: String,
    /// Its structured form: instructions, accounts and types.
    pub idl: Idl,
}

/// What an interface is: its stored document and its structured form.
pub struct InterfaceView {
    pub document: Seq<char>,
    pub idl: Idl,
}

impl View for Interface {
    type V = InterfaceView;

    open spec fn view(&self) -> InterfaceView {
        InterfaceView { document: self.document@, idl: self.idl }
    }
}

/// The `Idl` that `serde_json::from_str` reads from a text, or `None`
/// where it rejects the text.
pub uninterp spec fn idl_of_text(text: Seq<char>) -> Option<Idl>;

/// Calls `serde_json::from_str` for an `Idl`. What it yields is a function
/// of the text alone: the description read from the text, or an error.
#[verifier::external_body]
fn idl_from_str(text: &str) -> (parsed: Result<Idl, serde_json::Error>)
    ensures
        match parsed {
            Ok(idl) => idl_of_text(text@) == Some(idl),
            Err(_) => idl_of_text(text@).is_none(),
        },
{
    serde_json::from_str::<Idl>(text)
}

/// What the interface resolver answers for the stored document: what the
/// parser read from it, kept with the document; `InterfaceMalformed` where
/// it does not parse; `InterfaceNotFound` where none is stored.
pub open spec fn interface_of(stored: Option<Seq<char>>) -> Result<InterfaceView, ResolveError> {
    match stored {
        Some(text) => match idl_of_text(text) {
            Some(idl) => Ok(InterfaceView { document: text, idl }),
            None => Err(ResolveError::InterfaceMalformed),
        },
        None => Err(ResolveError::InterfaceNotFound),
    }
}

/// A resolved interface by its view, or the error.
pub open spec fn outcome_view(outcome: Result<Interface, ResolveError>) -> Result<
    InterfaceView,
    ResolveError,
> {
    match outcome {
        Ok(interface) => Ok(interface@),
        Err(e) => Err(e),
    }
}

/// Builds the interface from a document and the parser's answer for it:
/// a parsed description is kept with its document, a parse error becomes
/// `InterfaceMalformed`.
pub fn interface_from(text: &str, parsed: Result<Idl, serde_json::Error>) -> (outcome: Result<
    Interface,
    ResolveError,
>)
    ensures
        outcome_view(outcome) == match parsed {
            Ok(idl) => Ok::<InterfaceView, ResolveError>(InterfaceView { document: text@, idl }),
            Err(_) => Err::<InterfaceView, ResolveError>(ResolveError::InterfaceMalformed),
        },
{
    match parsed {
        Ok(idl) => Ok(Interface { document: text.to_owned(), idl }),
        Err(_) => Err(ResolveError::InterfaceMalformed),
    }
}

/// Parses an interface document: the result is what the parser read,
/// unchanged.
pub fn parse_idl(text: &str) -> (outcome: Result<Interface, ResolveError>)
    ensures
        outcome_view(outcome) == interface_of(Some(text@)),
        outcome matches Ok(interface) ==> idl_of_text(text@) == Some(interface.idl),
{
    interface_from(text, idl_from_str(text))
}

/// Resolves the interface from an optional stored document.
pub fn resolve_idl(stored: Option<&str>) -> (outcome: Result<Interface, ResolveError>)
    ensures
        outcome_view(outcome) == interface_of(
            match stored {
                Some(text) => Some(text@),
                None => None,
            },
        ),
        outcome matches Ok(interface) ==> (stored matches Some(text) ==> idl_of_text(text@)
            == Some(interface.idl)),
{
    match stored {
        Some(text) => parse_idl(text),
        None => Err(ResolveError::InterfaceNotFound),
    }
}

/// Resolves the interface of a workspace snapshot: `InterfaceNotFound`
/// where no document is stored, else the parse of the stored document.
pub fn get_idl(workspace: &Workspace) -> (outcome: Result<Interface, ResolveError>)
    ensures
        outcome_view(outcome) == interface_of(workspace.idl_text()),
        outcome matches Ok(interface) ==> (workspace.idl_text() matches Some(text)
            ==> idl_of_text(text) == Some(interface.idl)),
{
    match &workspace.idl_string {
        Some(text) => resolve_idl(Some(text.as_str())),
        None => resolve_idl(None),
    }
}

/// The answer is `InterfaceNotFound` exactly when no document is stored,
/// and a stored document that the parser reads resolves to what the
/// parser read.
pub proof fn lemma_interface_found(stored: Option<Seq<char>>)
    ensures
        interface_of(stored) == Err::<InterfaceView, ResolveError>(
            ResolveError::InterfaceNotFound,
        ) <==> stored.is_none(),
        stored matches Some(text) ==> (idl_of_text(text) matches Some(idl) ==> interface_of(stored)
            == Ok::<InterfaceView, ResolveError>(InterfaceView { document: text, idl })),
{
}

/// Resolution keeps nothing between calls: storing the document of a
/// resolved interface and resolving again yields an equal interface.
pub proof fn lemma_document_round_trip(stored: Option<Seq<char>>)
    requires
        interface_of(stored).is_ok(),
    ensures
        interface_of(Some(interface_of(stored).unwrap().document)) == interface_of(stored),
{
}

} // verus!
