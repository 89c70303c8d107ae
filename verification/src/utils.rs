//! Small helpers: waiting times, collection names, timeline addresses.

use vstd::prelude::*;
use vstd::string::StringExecFns;
use rand::Rng;
use crate::text::{decimal, push_decimal};

verus! {

/// The fixed tail of a timeline query.
pub const REMAINDER_STR: &'static str = "\n        includePromotedContent%22%3Atrue%2C%22withQuickPromoteEligibilityTweetFields%22%3Atrue%2C%22withSuperFollowsUserFields%22%3Atrue%2C%22withDownvotePerspective%22%3Afalse%2C%22withReactionsMetadata%22%3Afalse%2C%22withReactionsPerspective%22%3Afalse%2C%22withSuperFollowsTweetFields%22%3Atrue%2C%22withVoice%22%3Atrue%2C%22withV2Timeline%22%3Atrue%2C%22__fs_responsive_web_like_by_author_enabled%22%3Afalse%2C%22__fs_dont_mention_me_view_api_enabled%22%3Atrue%2C%22__fs_interactive_text_enabled%22%3Atrue%2C%22__fs_responsive_web_uc_gql_enabled%22%3Afalse%2C%22__fs_responsive_web_edit_tweet_api_enabled%22%3Afalse%7D\n    ";

/// Draws a number from `low..high` with `rand::thread_rng` and
/// `Rng::gen_range`, which gives a value of the range and panics on an empty
/// one.
#[verifier::external_body]
pub(crate) fn sample_range(low: u8, high: u8) -> (n: u8)
    requires
        low < high,
    ensures
        low <= n < high,
{
    rand::thread_rng().gen_range(low..high)
}

/// The format in which a collection's name holds its date: year, month and
/// day, with hyphens between them.
pub const DATE_FORMAT: &'static str = "%Y-%m-%d";

/// Today's date in UTC, read with `chrono::Utc::now` and written by
/// `NaiveDate::format` in `format`. Nothing is claimed of the text: it
/// depends on the day. Writing the date unwinds on a format that chrono
/// cannot read, so only the library's date format is admitted; `Utc::now`
/// unwinds where the system clock stands before 1970.
#[verifier::external_body]
fn today_text(format: &str) -> (date: String)
    requires
        format@ == DATE_FORMAT@,
{
    chrono::Utc::now().date_naive().format(format).to_string()
}

/// Whether `s` ends with `tail`.
pub open spec fn ends_with(s: Seq<char>, tail: Seq<char>) -> bool {
    s.len() >= tail.len() && s.subrange(s.len() - tail.len(), s.len() as int) == tail
}

/// A pause between two keystrokes, in milliseconds: at least 120 and under
/// 255.
pub fn rand_num_wait() -> (n: u8)
    ensures
        120 <= n < 255,
{
    sample_range(120, 255)
}

/// The name of the collection that holds the posts recorded on `date`.
pub fn coll_name_for(date: &str) -> (name: String)
    ensures
        name@ == date@ + "-posts"@,
{
    let mut name = String::from_str(date);
    name.append("-posts");
    name
}

/// The name of the collection that holds today's posts: today's date in
/// UTC, in the library's date format, and the posts suffix. The date is read
/// through `chrono::Utc::now`, which unwinds where the system clock stands
/// before 1970.
pub fn today_date_coll_name() -> (name: String)
    ensures
        ends_with(name@, "-posts"@),
{
    let date = today_text(DATE_FORMAT);
    let name = coll_name_for(date.as_str());
    proof {
        let tail = "-posts"@;
        assert(name@.subrange(name@.len() - tail.len(), name@.len() as int) =~= tail);
    }
    name
}

/// The address of a timeline query for `count` posts of user `id`, through
/// the query `linkid`.
pub open spec fn post_url(id: Seq<char>, count: nat, linkid: Seq<char>) -> Seq<char> {
    "https://twitter.com/i/api/graphql/"@ + linkid + "/UserTweets?variables="@
        + "%7B%22userId%22%3A%"@ + id + "%22%2C%22count%22%3A"@ + decimal(count) + "%2C%22"@
        + REMAINDER_STR@
}

pub fn make_get_post_url(id: String, count: u32, linkid: String) -> (url: String)
    ensures
        url@ == post_url(id@, count as nat, linkid@),
{
    let mut url = String::from_str("https://twitter.com/i/api/graphql/");
    url.append(linkid.as_str());
    url.append("/UserTweets?variables=");
    url.append("%7B%22userId%22%3A%");
    url.append(id.as_str());
    url.append("%22%2C%22count%22%3A");
    push_decimal(&mut url, count);
    url.append("%2C%22");
    url.append(REMAINDER_STR);
    url
}

} // verus!
