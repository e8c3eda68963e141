//! Classifying a profile's cookies by the login flow they belong to. The
//! shop-helper flow is recognised by its token cookie; everything else is
//! treated as the channels-helper flow, which is also the default.

use vstd::prelude::*;
use vstd::string::*;

use crate::text::str_eq;

verus! {

/// One cookie, as the browser hands it out.
#[derive(Debug)]
pub struct CookieItem {
    pub name: String,
    pub value: String,
    pub domain: Option<String>,
}

/// Whether a cookie of this name is present.
pub open spec fn spec_has_cookie(cookies: Seq<CookieItem>, name: Seq<char>) -> bool {
    exists|i: int| 0 <= i < cookies.len() && #[trigger] cookies[i].name@ == name
}

/// Whether a cookie of this name is present.
pub fn has_cookie(cookies: &[CookieItem], name: &str) -> (r: bool)
    ensures
        r == spec_has_cookie(cookies@, name@),
{
    let mut i: usize = 0;
    while i < cookies.len()
        invariant
            i <= cookies@.len(),
            forall|k: int| 0 <= k < i ==> #[trigger] cookies@[k].name@ != name@,
        decreases cookies@.len() - i,
    {
        if str_eq(cookies[i].name.as_str(), name) {
            proof {
                assert(cookies@[i as int].name@ == name@);
            }
            return true;
        }
        i = i + 1;
    }
    false
}

/// The login flow a cookie set belongs to: nothing for an empty set, the
/// shop-helper flow when its token cookie is present, and the
/// channels-helper flow otherwise.
pub fn detect_login_method(cookies: &[CookieItem]) -> (r: Option<String>)
    ensures
        cookies@.len() == 0 ==> r is None,
        cookies@.len() > 0 && spec_has_cookie(cookies@, "talent_token"@) ==> (r matches Some(m)
            && m@ == "shop_helper"@),
        cookies@.len() > 0 && !spec_has_cookie(cookies@, "talent_token"@) ==> (r matches Some(m)
            && m@ == "channels_helper"@),
{
    if cookies.len() == 0 {
        return None;
    }
    if has_cookie(cookies, "talent_token") {
        Some(String::from_str("shop_helper"))
    } else {
        Some(String::from_str("channels_helper"))
    }
}

/// Whether the channels-helper session cookies are present, as checked for
/// shop-helper accounts.
pub fn has_channels_cookie(cookies: &[CookieItem]) -> (r: bool)
    ensures
        r == (spec_has_cookie(cookies@, "sessionid"@) || spec_has_cookie(cookies@, "wxuin"@)),
{
    has_cookie(cookies, "sessionid") || has_cookie(cookies, "wxuin")
}

} // verus!
