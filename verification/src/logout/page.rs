//! The page that ends a logout.

use vstd::prelude::*;

verus! {

/// The page that sends the browser to a URI after a logout.
pub open spec fn logout_page(uri: Seq<char>) -> Seq<char> {
    "\n        <head>\n          <meta http-equiv=\"Refresh\" content=\"0; URL="@ + uri
        + "\" />\n        </head>"@
}

/// Builds the page that sends the browser to a URI after a logout.
pub fn build_logout_page(uri: &str) -> (page: String)
    ensures
        page@ == logout_page(uri@),
{
    let mut page =
        "\n        <head>\n          <meta http-equiv=\"Refresh\" content=\"0; URL=".to_owned();
    page.append(uri);
    page.append("\" />\n        </head>");
    page
}

} // verus!
