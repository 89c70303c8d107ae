//! Recording a profile's posts: which posts to take, and how their
//! identifiers are read out of a timeline response.
//!
//! A search of the response gives the place of a match as two offsets. The
//! text of the match is taken as the cells between the two (see
//! [`crate::text::cells`]), so it starts one character before the first
//! offset and ends one character before the second.

use vstd::prelude::*;
use vstd::string::StringExecFns;
use crate::pattern::{find_first, find_spans, regex_first, regex_spans};
use crate::text::{
    after_last, cells, cells_defined, cut, last_segment, remove_all, remove_text, texts,
};
use crate::utils::{make_get_post_url, post_url};

verus! {

/// The expression that finds a post in a timeline response.
pub const POST_PATTERN: &'static str = "\"__typename\":\"Tweet\",\"rest_id\":\"\\d+\"";

/// The expression that finds a run of digits.
pub const NUMBER_PATTERN: &'static str = "\\d+";

/// The expression that finds a screen name in a timeline response.
pub const USER_NAME_PATTERN: &'static str = "\"screen_name\":\"([A-Za-z0-9\\_]+)\"";

/// How many of the posts found are recorded.
#[derive(Clone, Copy, Debug, PartialEq, Eq, Structural)]
pub enum RecordMode {
    Last,
    LastFive,
    LastTen,
    AllFound,
}

impl RecordMode {
    /// How many posts the mode asks for when `found` were found.
    pub open spec fn wanted(self, found: nat) -> nat {
        match self {
            RecordMode::Last => 1,
            RecordMode::LastFive => 5,
            RecordMode::LastTen => 10,
            RecordMode::AllFound => found,
        }
    }

    /// Whether `found` posts are enough for the mode. Taking all of them
    /// counts them in 32 bits.
    pub open spec fn enough(self, found: nat) -> bool {
        self.wanted(found) <= found && (self == RecordMode::AllFound ==> found <= u32::MAX)
    }

    /// How many of `found` posts are taken, or `None` where they are too
    /// few.
    pub fn take_count(&self, found: usize) -> (count: Option<usize>)
        ensures
            count == (if self.enough(found as nat) {
                Some(self.wanted(found as nat) as usize)
            } else {
                None
            }),
    {
        let wanted: usize = match self {
            RecordMode::Last => 1,
            RecordMode::LastFive => 5,
            RecordMode::LastTen => 10,
            RecordMode::AllFound => found,
        };
        let fits: bool = match self {
            RecordMode::AllFound => found <= 0xffff_ffff,
            _ => true,
        };
        if wanted <= found && fits {
            Some(wanted)
        } else {
            None
        }
    }
}

/// The tab of a profile that is read.
#[derive(Clone, Copy, Debug, PartialEq, Eq, Structural)]
pub enum TweetType {
    Reply,
    Post,
    Media,
    Likes,
}

/// Recording by reading the profile page in the automation session.
#[derive(Debug, PartialEq, Eq)]
pub struct PostRecordScrape {
    pub profile_url: String,
    pub record_mode: RecordMode,
    pub tweet_type: TweetType,
}

impl Clone for PostRecordScrape {
    fn clone(&self) -> (copy: Self)
        ensures
            copy == *self,
    {
        PostRecordScrape {
            profile_url: self.profile_url.clone(),
            record_mode: self.record_mode,
            tweet_type: self.tweet_type,
        }
    }
}

/// The request headers sent with a timeline query.
#[derive(Debug, PartialEq, Eq)]
pub struct SearchHeader {
    pub x_csrf_token: String,
    pub cookie: String,
    pub authorization: String,
    pub x_twitter_active_user: String,
    pub x_twitter_auth_type: String,
    pub content_type: String,
    pub te: String,
    pub host: String,
    pub referer: String,
    pub accept: String,
    pub user_agent: String,
}

impl Clone for SearchHeader {
    fn clone(&self) -> (copy: Self)
        ensures
            copy == *self,
    {
        SearchHeader {
            x_csrf_token: self.x_csrf_token.clone(),
            cookie: self.cookie.clone(),
            authorization: self.authorization.clone(),
            x_twitter_active_user: self.x_twitter_active_user.clone(),
            x_twitter_auth_type: self.x_twitter_auth_type.clone(),
            content_type: self.content_type.clone(),
            te: self.te.clone(),
            host: self.host.clone(),
            referer: self.referer.clone(),
            accept: self.accept.clone(),
            user_agent: self.user_agent.clone(),
        }
    }
}

/// Recording by querying the timeline service directly.
#[derive(Debug, PartialEq, Eq)]
pub struct PostRecordRequest {
    pub user_id: String,
    pub link_id: String,
    pub count: u32,
    pub json: String,
    pub record_mode: RecordMode,
    pub search_header: SearchHeader,
}

impl Clone for PostRecordRequest {
    fn clone(&self) -> (copy: Self)
        ensures
            copy == *self,
    {
        PostRecordRequest {
            user_id: self.user_id.clone(),
            link_id: self.link_id.clone(),
            count: self.count,
            json: self.json.clone(),
            record_mode: self.record_mode,
            search_header: self.search_header.clone(),
        }
    }
}

/// What is recorded of one post.
#[derive(Clone, Debug, PartialEq, Eq)]
pub struct PostDocument {
    pub username: String,
    pub post: String,
}

/// Nothing could be recorded.
#[derive(Debug)]
pub struct DBInsertError {
    details: String,
}

impl DBInsertError {
    pub closed spec fn spec_details(&self) -> Seq<char> {
        self.details@
    }

    pub fn new(details: &str) -> (err: Box<Self>)
        ensures
            err.spec_details() == details@,
    {
        Box::new(DBInsertError { details: String::from_str(details) })
    }

    /// What went wrong, in words.
    pub fn details(&self) -> (text: &String)
        ensures
            text@ == self.spec_details(),
    {
        &self.details
    }
}

/// The documents for the posts at the addresses `posts`: each is recorded
/// under `user_name`, by what stands behind the last slash of its address.
pub open spec fn documents_of(user_name: Seq<char>, posts: Seq<Seq<char>>) -> Seq<
    (Seq<char>, Seq<char>),
> {
    Seq::new(posts.len(), |i: int| (user_name, after_last(posts[i], '/')))
}

/// What a sequence of documents holds.
pub open spec fn documents_view(docs: Seq<PostDocument>) -> Seq<(Seq<char>, Seq<char>)> {
    Seq::new(docs.len(), |i: int| (docs[i].username@, docs[i].post@))
}

/// The documents to insert for `posts`, or the error that there is no post.
pub fn post_documents(user_name: &str, posts: &Vec<String>) -> (r: Result<
    Vec<PostDocument>,
    Box<DBInsertError>,
>)
    ensures
        r is Err <==> posts@.len() == 0,
        r matches Err(e) ==> e.spec_details() == "Length of posts is 0"@,
        r matches Ok(docs) ==> documents_view(docs@) == documents_of(user_name@, texts(posts@)),
{
    if posts.len() == 0 {
        return Err(DBInsertError::new("Length of posts is 0"));
    }
    let mut docs: Vec<PostDocument> = Vec::new();
    let mut i: usize = 0;
    while i < posts.len()
        invariant
            i <= posts.len(),
            docs@.len() == i,
            forall|k: int|
                0 <= k < i ==> (#[trigger] docs@[k]).username@ == user_name@ && docs@[k].post@
                    == after_last(posts@[k]@, '/'),
        decreases posts.len() - i,
    {
        let doc = PostDocument {
            username: String::from_str(user_name),
            post: last_segment(posts[i].as_str(), '/'),
        };
        docs.push(doc);
        i = i + 1;
    }
    assert(documents_view(docs@) =~= documents_of(user_name@, texts(posts@)));
    Ok(docs)
}

/// The digits that `found` points at in `piece`, where `found` is what a
/// search for [`NUMBER_PATTERN`] gave.
pub open spec fn number_in(piece: Seq<char>, found: Option<Option<(usize, usize)>>) -> Option<
    Seq<char>,
> {
    match found {
        Some(Some(span)) => if cells_defined(piece, span.0 as int, span.1 as int) {
            Some(cells(piece, span.0 as int, span.1 as int))
        } else {
            None
        },
        _ => None,
    }
}

/// The cells of `piece` that `found` points at, or `None` where nothing was
/// found or the range leaves the cells.
pub fn number_from(piece: &str, found: Option<Option<(usize, usize)>>) -> (number: Option<String>)
    ensures
        number is Some <==> number_in(piece@, found) is Some,
        number matches Some(n) ==> number_in(piece@, found) == Some(n@),
{
    match found {
        Some(Some(span)) => cut(piece, span.0, span.1),
        _ => None,
    }
}

/// The identifier read for the post that `span` points at in `json`.
pub open spec fn post_number(json: Seq<char>, span: (usize, usize)) -> Option<Seq<char>> {
    if cells_defined(json, span.0 as int, span.1 as int) {
        let piece = cells(json, span.0 as int, span.1 as int);
        number_in(piece, regex_first(NUMBER_PATTERN@, piece))
    } else {
        None
    }
}

/// The identifiers read for the posts that `spans` point at, in order;
/// `None` as soon as one of them cannot be read.
pub open spec fn post_numbers(json: Seq<char>, spans: Seq<(usize, usize)>) -> Option<
    Seq<Seq<char>>,
>
    decreases spans.len(),
{
    if spans.len() == 0 {
        Some(Seq::empty())
    } else {
        match (post_numbers(json, spans.drop_last()), post_number(json, spans.last())) {
            (Some(earlier), Some(last)) => Some(earlier.push(last)),
            _ => None,
        }
    }
}

/// The identifiers of the posts that `mode` takes from the response `json`,
/// where `spans` are the places of its posts: those of the first posts, as
/// many as the mode asks for.
pub open spec fn ids_at(json: Seq<char>, mode: RecordMode, spans: Seq<(usize, usize)>) -> Option<
    Seq<Seq<char>>,
> {
    if mode.enough(spans.len()) {
        post_numbers(json, spans.take(mode.wanted(spans.len()) as int))
    } else {
        None
    }
}

/// The identifiers of the posts that `mode` takes from the response `json`.
pub open spec fn post_ids(json: Seq<char>, mode: RecordMode) -> Option<Seq<Seq<char>>> {
    match regex_spans(POST_PATTERN@, json) {
        Some(spans) => ids_at(json, mode, spans),
        None => None,
    }
}

/// The screen name read from the response `json`, where `found` is what a
/// search for [`USER_NAME_PATTERN`] gave.
pub open spec fn screen_name_in(json: Seq<char>, found: Option<Option<(usize, usize)>>) -> Option<
    Seq<char>,
> {
    match found {
        Some(Some(span)) => if cells_defined(json, span.0 as int, span.1 as int) {
            Some(
                remove_all(
                    remove_all(cells(json, span.0 as int, span.1 as int), "\"screen_name\""@),
                    "\""@,
                ),
            )
        } else {
            None
        },
        _ => None,
    }
}

/// The cells of `json` that `found` points at, without the label
/// `"screen_name"` and without quotation marks.
pub fn screen_name_from(json: &str, found: Option<Option<(usize, usize)>>) -> (name: Option<
    String,
>)
    ensures
        name is Some <==> screen_name_in(json@, found) is Some,
        name matches Some(n) ==> screen_name_in(json@, found) == Some(n@),
{
    match found {
        Some(Some(span)) => match cut(json, span.0, span.1) {
            Some(piece) => {
                let unlabelled = remove_text(piece.as_str(), "\"screen_name\"");
                Some(remove_text(unlabelled.as_str(), "\""))
            },
            None => None,
        },
        _ => None,
    }
}

impl PostRecordRequest {
    pub fn new(
        user_id: String,
        link_id: String,
        count: u32,
        record_mode: RecordMode,
        search_header: SearchHeader,
    ) -> (req: Self)
        ensures
            req.user_id == user_id,
            req.link_id == link_id,
            req.count == count,
            req.json@ == Seq::<char>::empty(),
            req.record_mode == record_mode,
            req.search_header == search_header,
    {
        PostRecordRequest { user_id, link_id, count, json: String::new(), record_mode, search_header }
    }

    /// The identifiers of the posts that the record mode takes from the
    /// response held, where `spans` are the places of its posts; `None`
    /// where they are too few or one of the posts cannot be read.
    pub fn posts_at(&self, spans: &Vec<(usize, usize)>) -> (ids: Option<Vec<String>>)
        ensures
            ids is Some <==> ids_at(self.json@, self.record_mode, spans@) is Some,
            ids matches Some(v) ==> ids_at(self.json@, self.record_mode, spans@) == Some(
                texts(v@),
            ),
    {
        let count: usize = match self.record_mode.take_count(spans.len()) {
            Some(count) => count,
            None => { return None; },
        };
        let ghost chosen = spans@.take(count as int);
        let mut rets: Vec<String> = Vec::new();
        let mut n: usize = 0;
        proof {
            assert(chosen.take(0) =~= Seq::<(usize, usize)>::empty());
            assert(texts(rets@) =~= Seq::<Seq<char>>::empty());
        }
        while n < count
            invariant
                n <= count <= spans.len(),
                chosen == spans@.take(count as int),
                self.record_mode.enough(spans@.len()),
                count == self.record_mode.wanted(spans@.len()),
                post_numbers(self.json@, chosen.take(n as int)) == Some(texts(rets@)),
            decreases count - n,
        {
            let span = spans[n];
            proof {
                assert(chosen.take(n + 1).drop_last() =~= chosen.take(n as int));
                assert(chosen.take(n + 1).last() == span);
            }
            let piece = match cut(self.json.as_str(), span.0, span.1) {
                Some(piece) => piece,
                None => {
                    proof {
                        lemma_post_numbers_fail(self.json@, chosen, n as int);
                    }
                    return None;
                },
            };
            let found = find_first(NUMBER_PATTERN, piece.as_str());
            match number_from(piece.as_str(), found) {
                Some(number) => {
                    let ghost before = texts(rets@);
                    rets.push(number);
                    assert(texts(rets@) =~= before.push(number@));
                },
                None => {
                    proof {
                        lemma_post_numbers_fail(self.json@, chosen, n as int);
                    }
                    return None;
                },
            }
            n = n + 1;
        }
        proof {
            assert(chosen.take(count as int) =~= chosen);
        }
        Some(rets)
    }

    /// The identifiers of the posts that the record mode takes from the
    /// response held, or `None` where the response holds too few posts or
    /// one of them cannot be read.
    pub fn get_posts(&self) -> (ids: Option<Vec<String>>)
        ensures
            ids is Some <==> post_ids(self.json@, self.record_mode) is Some,
            ids matches Some(v) ==> post_ids(self.json@, self.record_mode) == Some(texts(v@)),
    {
        match find_spans(POST_PATTERN, self.json.as_str()) {
            Some(spans) => self.posts_at(&spans),
            None => None,
        }
    }

    /// The screen name in the response held, or `None` where it holds none
    /// or the name cannot be read.
    pub fn extract_user_name(&self) -> (name: Option<String>)
        ensures
            name is Some <==> screen_name_in(
                self.json@,
                regex_first(USER_NAME_PATTERN@, self.json@),
            ) is Some,
            name matches Some(n) ==> screen_name_in(
                self.json@,
                regex_first(USER_NAME_PATTERN@, self.json@),
            ) == Some(n@),
    {
        let found = find_first(USER_NAME_PATTERN, self.json.as_str());
        screen_name_from(self.json.as_str(), found)
    }
}

/// Where one post of a sequence cannot be read, none of the longer
/// sequences can.
pub proof fn lemma_post_numbers_fail(json: Seq<char>, spans: Seq<(usize, usize)>, at: int)
    requires
        0 <= at < spans.len(),
        post_number(json, spans[at]) is None,
    ensures
        post_numbers(json, spans) is None,
    decreases spans.len(),
{
    if at < spans.len() - 1 {
        assert(spans.drop_last()[at] == spans[at]);
        lemma_post_numbers_fail(json, spans.drop_last(), at);
    }
}

impl RecordMode {
    /// The places, among `found` links of which the first `pinned` belong to
    /// a pinned post, of the links that the mode takes; `None` where the
    /// links are too few. Taking all links takes the pinned one too.
    pub open spec fn link_places(self, found: nat, pinned: nat) -> Option<Seq<int>> {
        match self {
            RecordMode::Last => if pinned < found {
                Some(seq![pinned as int])
            } else {
                None
            },
            RecordMode::LastFive => if found >= 5 + pinned {
                Some(Seq::new(5, |i: int| i + pinned))
            } else {
                None
            },
            RecordMode::LastTen => if found >= 10 + pinned {
                Some(Seq::new(10, |i: int| i + pinned))
            } else {
                None
            },
            RecordMode::AllFound => Some(Seq::new(found, |i: int| i)),
        }
    }
}

/// What a sequence of places holds.
pub open spec fn places_view(places: Seq<usize>) -> Seq<int> {
    Seq::new(places.len(), |i: int| places[i] as int)
}

fn place_run(first: usize, count: usize) -> (places: Vec<usize>)
    requires
        first + count <= usize::MAX,
    ensures
        places_view(places@) == Seq::new(count as nat, |i: int| i + first),
{
    let mut places: Vec<usize> = Vec::new();
    let mut i: usize = 0;
    while i < count
        invariant
            i <= count,
            first + count <= usize::MAX,
            places@.len() == i,
            forall|k: int| 0 <= k < i ==> places@[k] == k + first,
        decreases count - i,
    {
        places.push(i + first);
        i = i + 1;
    }
    assert(places_view(places@) =~= Seq::new(count as nat, |i: int| i + first));
    places
}

impl TweetType {
    /// What the address of the tab adds to that of the profile.
    pub open spec fn tab_suffix(self) -> Seq<char> {
        match self {
            TweetType::Reply => "/with_replies"@,
            TweetType::Post => ""@,
            TweetType::Media => "/media"@,
            TweetType::Likes => "/likes"@,
        }
    }
}

impl PostRecordScrape {
    pub fn new(profile_url: String, record_mode: RecordMode, tweet_type: TweetType) -> (scrape:
        Self)
        ensures
            scrape.profile_url == profile_url,
            scrape.record_mode == record_mode,
            scrape.tweet_type == tweet_type,
    {
        PostRecordScrape { profile_url, record_mode, tweet_type }
    }

    /// The user whose profile is read: what stands behind the last slash of
    /// the profile's address.
    pub open spec fn user_name_text(&self) -> Seq<char> {
        after_last(self.profile_url@, '/')
    }

    /// The path of the tab that is read.
    pub open spec fn tab_path_text(&self) -> Seq<char> {
        "/"@ + self.user_name_text() + self.tweet_type.tab_suffix()
    }

    pub fn user_name(&self) -> (name: String)
        ensures
            name@ == self.user_name_text(),
    {
        last_segment(self.profile_url.as_str(), '/')
    }

    pub fn tab_path(&self) -> (path: String)
        ensures
            path@ == self.tab_path_text(),
    {
        let mut path = String::from_str("/");
        path.append(self.user_name().as_str());
        match self.tweet_type {
            TweetType::Reply => path.append("/with_replies"),
            TweetType::Post => path.append(""),
            TweetType::Media => path.append("/media"),
            TweetType::Likes => path.append("/likes"),
        }
        path
    }

    /// The expression that finds the link to the tab on the profile page.
    pub fn tab_xpath(&self) -> (xpath: String)
        ensures
            xpath@ == "//a[@href = "@ + self.tab_path_text() + "]"@,
    {
        let mut xpath = String::from_str("//a[@href = ");
        xpath.append(self.tab_path().as_str());
        xpath.append("]");
        xpath
    }

    /// The places of the links to record, among `found` links on a page
    /// that shows a pinned post or not; `None` where the links are too few.
    pub fn selected_places(&self, found: usize, has_pinned: bool) -> (places: Option<Vec<usize>>)
        ensures
            places is Some <==> self.record_mode.link_places(
                found as nat,
                if has_pinned { 1nat } else { 0nat },
            ) is Some,
            places matches Some(v) ==> self.record_mode.link_places(
                found as nat,
                if has_pinned { 1nat } else { 0nat },
            ) == Some(places_view(v@)),
    {
        let pinned: usize = if has_pinned { 1 } else { 0 };
        match self.record_mode {
            RecordMode::Last => {
                if pinned < found {
                    Some(place_run(pinned, 1))
                } else {
                    None
                }
            },
            RecordMode::LastFive => {
                if found >= 5 && found - 5 >= pinned {
                    Some(place_run(pinned, 5))
                } else {
                    None
                }
            },
            RecordMode::LastTen => {
                if found >= 10 && found - 10 >= pinned {
                    Some(place_run(pinned, 10))
                } else {
                    None
                }
            },
            RecordMode::AllFound => Some(place_run(0, found)),
        }
    }

    /// The documents to insert for the posts at the addresses `posts`.
    pub fn documents(&self, posts: &Vec<String>) -> (r: Result<Vec<PostDocument>, Box<DBInsertError>>)
        ensures
            r is Err <==> posts@.len() == 0,
            r matches Err(e) ==> e.spec_details() == "Length of posts is 0"@,
            r matches Ok(docs) ==> documents_view(docs@) == documents_of(
                self.user_name_text(),
                texts(posts@),
            ),
    {
        post_documents(self.user_name().as_str(), posts)
    }
}

/// The names of the request headers, in the order in which they are set.
pub open spec fn header_names() -> Seq<Seq<char>> {
    seq![
        "user-agent"@,
        "referer"@,
        "accept"@,
        "content-type"@,
        "x-twitter-auth-type"@,
        "x-twitter-active-user"@,
        "authorization"@,
        "host"@,
        "cookie"@,
        "TE"@,
        "X_CSRF_TOKEN"@,
    ]
}

impl SearchHeader {
    /// The values of the request headers, in the order of their names.
    pub open spec fn values(&self) -> Seq<Seq<char>> {
        seq![
            self.user_agent@,
            self.referer@,
            self.accept@,
            self.content_type@,
            self.x_twitter_auth_type@,
            self.x_twitter_active_user@,
            self.authorization@,
            self.host@,
            self.cookie@,
            self.te@,
            self.x_csrf_token@,
        ]
    }
}

fn header(name: &str, value: &String) -> (pair: (String, String))
    ensures
        pair.0@ == name@,
        pair.1@ == value@,
{
    (String::from_str(name), value.clone())
}

impl PostRecordRequest {
    /// The address that the timeline is asked at.
    pub fn request_url(&self) -> (url: String)
        ensures
            url@ == post_url(self.user_id@, self.count as nat, self.link_id@),
    {
        make_get_post_url(self.user_id.clone(), self.count, self.link_id.clone())
    }

    /// The headers that the request carries, each as its name and its
    /// value.
    pub fn request_headers(&self) -> (headers: Vec<(String, String)>)
        ensures
            headers@.len() == 11,
            forall|i: int|
                0 <= i < 11 ==> (#[trigger] headers@[i]).0@ == header_names()[i] && headers@[i].1@
                    == self.search_header.values()[i],
    {
        let h = &self.search_header;
        let mut headers: Vec<(String, String)> = Vec::new();
        headers.push(header("user-agent", &h.user_agent));
        headers.push(header("referer", &h.referer));
        headers.push(header("accept", &h.accept));
        headers.push(header("content-type", &h.content_type));
        headers.push(header("x-twitter-auth-type", &h.x_twitter_auth_type));
        headers.push(header("x-twitter-active-user", &h.x_twitter_active_user));
        headers.push(header("authorization", &h.authorization));
        headers.push(header("host", &h.host));
        headers.push(header("cookie", &h.cookie));
        headers.push(header("TE", &h.te));
        headers.push(header("X_CSRF_TOKEN", &h.x_csrf_token));
        headers
    }

    /// The documents to insert for the response held: its posts, recorded
    /// under its screen name. `None` where the name or the posts cannot be
    /// read.
    pub fn documents(&self) -> (r: Option<Result<Vec<PostDocument>, Box<DBInsertError>>>)
        ensures
            r is Some <==> post_ids(self.json@, self.record_mode) is Some && screen_name_in(
                self.json@,
                regex_first(USER_NAME_PATTERN@, self.json@),
            ) is Some,
            r matches Some(Err(e)) ==> e.spec_details() == "Length of posts is 0"@ && post_ids(
                self.json@,
                self.record_mode,
            ) == Some(Seq::<Seq<char>>::empty()),
            r matches Some(Ok(docs)) ==> Some(documents_view(docs@)) == (match (
                screen_name_in(self.json@, regex_first(USER_NAME_PATTERN@, self.json@)),
                post_ids(self.json@, self.record_mode),
            ) {
                (Some(name), Some(ids)) => Some(documents_of(name, ids)),
                _ => None,
            }),
    {
        let name = match self.extract_user_name() {
            Some(name) => name,
            None => { return None; },
        };
        let posts = match self.get_posts() {
            Some(posts) => posts,
            None => { return None; },
        };
        let r = post_documents(name.as_str(), &posts);
        proof {
            if posts@.len() == 0 {
                assert(texts(posts@) =~= Seq::<Seq<char>>::empty());
            }
        }
        Some(r)
    }
}

} // verus!
