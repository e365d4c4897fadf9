//! The marker attributes that only mean something inside a handler module, the
//! pass-through attributes, and the diagnostics.

use vstd::prelude::*;
use vstd::string::*;
use crate::model::{Declaration, DeclarationView, ExpandError};

verus! {

/// The diagnostic for a marker used outside an annotated module.
pub open spec fn misplaced_text(marker: Seq<char>) -> Seq<char> {
    "the #["@ + marker
        + "] attribute is being used in the wrong context, possibly #[module_handler] or #[account_handler] has not been applied to the enclosing module"@
}

/// The diagnostic for a method with both kinds of tag.
pub open spec fn conflict_text(method: Seq<char>) -> Seq<char> {
    "on_create and publish attributes must not be attached to the same function: "@ + method
}

impl ExpandError {
    /// The diagnostic text of an error.
    pub open spec fn text(self) -> Seq<char> {
        match self {
            ExpandError::MissingContent => "expected a module with a body"@,
            ExpandError::ConflictingTags { method } => conflict_text(method@),
            ExpandError::ExpectedIdentifier => "expected identifier"@,
            ExpandError::MisplacedMarker { marker } => misplaced_text(marker@),
        }
    }

    /// The diagnostic text of an error.
    pub fn message(&self) -> (r: String)
        ensures
            r@ == self.text(),
    {
        match self {
            ExpandError::MissingContent => String::from_str("expected a module with a body"),
            ExpandError::ConflictingTags { method } => String::from_str(
                "on_create and publish attributes must not be attached to the same function: ",
            ).concat(method.as_str()),
            ExpandError::ExpectedIdentifier => String::from_str("expected identifier"),
            ExpandError::MisplacedMarker { marker } => String::from_str("the #[").concat(
                marker.as_str(),
            ).concat(
                "] attribute is being used in the wrong context, possibly #[module_handler] or #[account_handler] has not been applied to the enclosing module",
            ),
        }
    }
}

/// The `publish` marker applied on its own: always an error, since the marker
/// only means something inside a handler module.
pub fn publish(_attr: &str, _item: &str) -> (r: Result<String, ExpandError>)
    ensures
        match r {
            Err(ExpandError::MisplacedMarker { marker }) => marker@ == "publish"@,
            _ => false,
        },
{
    Err(ExpandError::MisplacedMarker { marker: String::from_str("publish") })
}

/// The `on_create` marker applied on its own: always an error, since the
/// marker only means something inside a handler module.
pub fn on_create(_attr: &str, _item: &str) -> (r: Result<String, ExpandError>)
    ensures
        match r {
            Err(ExpandError::MisplacedMarker { marker }) => marker@ == "on_create"@,
            _ => false,
        },
{
    Err(ExpandError::MisplacedMarker { marker: String::from_str("on_create") })
}

/// The module handler marker: hands its item back as it is.
pub fn module_handler(_attr: &str, item: String) -> (r: String)
    ensures
        r == item,
{
    item
}

/// The account API marker: hands its item back as it is.
pub fn account_api(_attr: &str, item: String) -> (r: String)
    ensures
        r == item,
{
    item
}

/// The module API marker: hands its item back as it is.
pub fn module_api(_attr: &str, item: String) -> (r: String)
    ensures
        r == item,
{
    item
}

/// The marker registration that the `Resources` derive emits for a struct.
pub fn derive_resources(name: &str) -> (r: Declaration)
    ensures
        r@ == (DeclarationView::ResourcesImpl { name: name@ }),
{
    Declaration::ResourcesImpl { name: String::from_str(name) }
}

/// The package root: hands its item back as it is.
pub fn package_root(item: String) -> (r: String)
    ensures
        r == item,
{
    item
}

} // verus!
