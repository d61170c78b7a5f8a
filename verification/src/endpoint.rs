//! The URLs of the endpoints that the client reads.
//!
//! Each is the origin, a fixed path, and the decimal numeral of a numeric ID
//! inside that path. All of them are read with GET.
use vstd::prelude::*;
use crate::decimal::{decimal_text, format_i32};
use crate::session::BASE_URL_HTTPS;

verus! {

/// The origin, then `before`, the numeral of `id`, and `after`.
pub open spec fn endpoint_text(before: Seq<char>, id: i32, after: Seq<char>) -> Seq<char> {
    BASE_URL_HTTPS@ + before + decimal_text(id as int) + after
}

/// Puts an endpoint URL together from the parts around the ID.
fn endpoint_url(before: &str, id: i32, after: &str) -> (url: String)
    ensures
        url@ == endpoint_text(before@, id, after@),
{
    let mut url: String = String::from_str(BASE_URL_HTTPS);
    url.append(before);
    let numeral: String = format_i32(id);
    url.append(numeral.as_str());
    url.append(after);
    url
}

/// The URL of a user's profile: `/ajax/user/{id}?full=1`.
pub fn user_info_url(user_id: i32) -> (url: String)
    ensures
        url@ == endpoint_text("/ajax/user/"@, user_id, "?full=1"@),
{
    endpoint_url("/ajax/user/", user_id, "?full=1")
}

/// The URL of a user's top works: `/ajax/user/{id}/profile/top`.
pub fn user_top_works_url(user_id: i32) -> (url: String)
    ensures
        url@ == endpoint_text("/ajax/user/"@, user_id, "/profile/top"@),
{
    endpoint_url("/ajax/user/", user_id, "/profile/top")
}

/// The URL of the list of all of a user's works: `/ajax/user/{id}/profile/all`.
pub fn user_all_works_url(user_id: i32) -> (url: String)
    ensures
        url@ == endpoint_text("/ajax/user/"@, user_id, "/profile/all"@),
{
    endpoint_url("/ajax/user/", user_id, "/profile/all")
}

/// The URL of an illust's metadata: `/ajax/illust/{id}`.
pub fn illust_info_url(illust_id: i32) -> (url: String)
    ensures
        url@ == endpoint_text("/ajax/illust/"@, illust_id, ""@),
{
    endpoint_url("/ajax/illust/", illust_id, "")
}

/// The URL of an illust's pages: `/ajus/illust/{id}/pages`.
pub fn illust_pages_url(illust_id: i32) -> (url: String)
    ensures
        url@ == endpoint_text("/ajus/illust/"@, illust_id, "/pages"@),
{
    endpoint_url("/ajus/illust/", illust_id, "/pages")
}

} // verus!
