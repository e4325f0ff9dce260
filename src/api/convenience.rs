//! Calls built from others: the name of a snap from its id.
use vstd::prelude::*;

use super::assertions::{SnapDeclaration, SnapDeclarationError};
use super::snap::{SnapId, SnapName, ToOwnedInner};
use super::query::{encode_query_value, query_encoded};
use super::Get;

verus! {

/// The call that asks for the declaration of the snap with a given id, which names it.
#[derive(Debug, Hash, PartialEq, Eq, Default)]
pub struct SnapNameFromId<'a> {
    pub name: SnapId<'a>,
}

impl<'a> Get for SnapNameFromId<'a> {
    open spec fn reference_spec(&self) -> Seq<char> {
        "/v2/assertions/snap-declaration?series=16&remote=true&snap-id="@ + query_encoded(self.name@)
    }

    fn reference(&self) -> (r: String) {
        let mut r = String::from_str("/v2/assertions/snap-declaration?series=16&remote=true&snap-id=");
        r.append(encode_query_value(self.name.as_str()).as_str());
        r
    }
    open spec fn headers_spec(&self) -> Seq<(Seq<char>, Seq<char>)> {
        super::json_headers_spec()
    }

    fn headers(&self) -> (r: Vec<(String, String)>) {
        super::json_headers()
    }
}

impl<'a> SnapNameFromId<'a> {
    /// The name that a declaration gives; a declaration without one means that no snap has the
    /// id asked for.
    pub fn name_from_declaration(declaration: SnapDeclaration<'_>) -> (r: Result<SnapName<'static>, SnapDeclarationError>)
        ensures
            declaration.snap_name@.len() == 0 ==> r == Err::<SnapName<'static>, SnapDeclarationError>(
                SnapDeclarationError::NoSnapsFound,
            ),
            declaration.snap_name@.len() > 0 ==> (r matches Ok(n) && n@ == declaration.snap_name@),
    {
        if declaration.snap_name.as_str().unicode_len() == 0 {
            return Err(SnapDeclarationError::NoSnapsFound);
        }
        Ok(declaration.snap_name.to_owned_inner())
    }
}

} // verus!
