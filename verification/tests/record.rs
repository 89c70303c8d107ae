use cronueue::record_posts::{
    number_from, post_documents, screen_name_from, DBInsertError, PostDocument,
    PostRecordRequest, PostRecordScrape, RecordMode, SearchHeader, TweetType,
};
use cronueue::text::{cut, last_segment, remove_text};

fn header() -> SearchHeader {
    SearchHeader {
        x_csrf_token: String::from("csrf"),
        cookie: String::from("ck"),
        authorization: String::from("auth"),
        x_twitter_active_user: String::from("yes"),
        x_twitter_auth_type: String::from("OAuth2Session"),
        content_type: String::from("application/json"),
        te: String::from("trailers"),
        host: String::from("twitter.com"),
        referer: String::from("https://twitter.com/u"),
        accept: String::from("*/*"),
        user_agent: String::from("agent"),
    }
}

fn request(json: &str, mode: RecordMode) -> PostRecordRequest {
    let mut req =
        PostRecordRequest::new(String::from("42"), String::from("LINK"), 20, mode, header());
    req.json = String::from(json);
    req
}

fn post(id: &str) -> String {
    format!("{{\"__typename\":\"Tweet\",\"rest_id\":\"{}\"}}", id)
}

#[test]
fn new_request_holds_no_response() {
    let req = PostRecordRequest::new(
        String::from("42"),
        String::from("LINK"),
        20,
        RecordMode::LastFive,
        header(),
    );
    assert_eq!(req.user_id, "42");
    assert_eq!(req.link_id, "LINK");
    assert_eq!(req.count, 20);
    assert_eq!(req.json, "");
    assert_eq!(req.record_mode, RecordMode::LastFive);
    assert_eq!(req.search_header, header());
}

#[test]
fn cells_are_one_behind_the_offsets() {
    assert_eq!(cut("abc", 0, 0), Some(String::from("")));
    assert_eq!(cut("abc", 0, 1), Some(String::from("")));
    assert_eq!(cut("abc", 0, 2), Some(String::from("a")));
    assert_eq!(cut("abc", 1, 3), Some(String::from("ab")));
    assert_eq!(cut("abc", 1, 4), Some(String::from("abc")));
    assert_eq!(cut("abc", 2, 5), Some(String::from("bc")));
    assert_eq!(cut("abc", 4, 5), Some(String::from("")));
    assert_eq!(cut("abc", 2, 6), None);
    assert_eq!(cut("abc", 7, 6), Some(String::from("")));
    assert_eq!(cut("", 0, 2), Some(String::from("")));
    assert_eq!(cut("", 0, 3), None);
    assert_eq!(cut("héé", 1, 4), Some(String::from("héé")));
}

#[test]
fn number_follows_the_found_span() {
    assert_eq!(number_from("id:12345", Some(Some((3, 8)))), Some(String::from(":1234")));
    assert_eq!(number_from("id:12345", Some(None)), None);
    assert_eq!(number_from("id:12345", None), None);
    assert_eq!(number_from("id", Some(Some((1, 9)))), None);
}

#[test]
fn single_post_is_read_one_cell_early() {
    let req = request(&post("12345"), RecordMode::Last);
    assert_eq!(req.get_posts(), Some(vec![String::from("\"1234")]));
    let bare = request("\"__typename\":\"Tweet\",\"rest_id\":\"777\"", RecordMode::AllFound);
    assert_eq!(bare.get_posts(), Some(vec![String::from("\"77")]));
}

#[test]
fn all_found_reads_every_post() {
    let json = "[{\"__typename\":\"Tweet\",\"rest_id\":\"111\"},{\"__typename\":\"Tweet\",\"rest_id\":\"2222\"},{\"x\":1,\"__typename\":\"Tweet\",\"rest_id\":\"9\"}]";
    let req = request(json, RecordMode::AllFound);
    assert_eq!(
        req.get_posts(),
        Some(vec![String::from("\"11"), String::from("\"222"), String::from("\"")])
    );
    assert_eq!(request(json, RecordMode::Last).get_posts(), Some(vec![String::from("\"11")]));
    assert_eq!(request(json, RecordMode::LastFive).get_posts(), None);
    assert_eq!(request("no posts here", RecordMode::AllFound).get_posts(), Some(Vec::new()));
    assert_eq!(request("no posts here", RecordMode::Last).get_posts(), None);
}

#[test]
fn five_and_ten_take_the_first_posts() {
    let many: Vec<String> = (0..12).map(|i| post(&format!("{}", 1000 + i))).collect();
    let json = many.join(",");
    let five = request(&json, RecordMode::LastFive).get_posts().unwrap();
    assert_eq!(five, vec!["\"100", "\"100", "\"100", "\"100", "\"100"]);
    let ten = request(&json, RecordMode::LastTen).get_posts().unwrap();
    assert_eq!(ten.len(), 10);
    assert_eq!(ten[9], "\"100");
    let all = request(&json, RecordMode::AllFound).get_posts().unwrap();
    assert_eq!(all.len(), 12);
    assert_eq!(all[11], "\"101");
    let nine: Vec<String> = (0..9).map(|i| post(&format!("{}", i))).collect();
    assert_eq!(request(&nine.join(","), RecordMode::LastTen).get_posts(), None);
}

#[test]
fn screen_name_is_read_one_cell_early() {
    let req = request("{\"screen_name\":\"bob_1\"}", RecordMode::Last);
    assert_eq!(req.extract_user_name(), Some(String::from("{:bob_1")));
    let bare = request("\"screen_name\":\"al\"", RecordMode::Last);
    assert_eq!(bare.extract_user_name(), Some(String::from(":al")));
    let two = request("xx\"screen_name\":\"carol\",\"screen_name\":\"dave\"", RecordMode::Last);
    assert_eq!(two.extract_user_name(), Some(String::from("x:carol")));
    assert_eq!(request("{}", RecordMode::Last).extract_user_name(), None);
    assert_eq!(
        screen_name_from("{\"screen_name\":\"bob_1\"}", Some(Some((1, 22)))),
        Some(String::from("{:bob_1"))
    );
    assert_eq!(screen_name_from("abc", Some(None)), None);
    assert_eq!(screen_name_from("abc", Some(Some((0, 9)))), None);
}

#[test]
fn request_documents_join_name_and_posts() {
    let json = format!("{{\"screen_name\":\"bob\"}},{}", post("12345"));
    let req = request(&json, RecordMode::Last);
    let docs = req.documents().unwrap().unwrap();
    assert_eq!(
        docs,
        vec![PostDocument { username: String::from("{:bob"), post: String::from("\"1234") }]
    );
    let none = request("{\"screen_name\":\"bob\"}", RecordMode::AllFound);
    let err = none.documents().unwrap().unwrap_err();
    assert_eq!(err.details().as_str(), "Length of posts is 0");
    assert!(request(&post("1"), RecordMode::Last).documents().is_none());
    assert!(request("{\"screen_name\":\"bob\"}", RecordMode::Last).documents().is_none());
}

#[test]
fn request_address_and_headers() {
    let req = request("", RecordMode::Last);
    let url = req.request_url();
    assert!(url.starts_with(
        "https://twitter.com/i/api/graphql/LINK/UserTweets?variables=%7B%22userId%22%3A%42%22%2C%22count%22%3A20%2C%22\n        includePromotedContent%22%3Atrue"
    ));
    let headers = req.request_headers();
    let expected = [
        ("user-agent", "agent"),
        ("referer", "https://twitter.com/u"),
        ("accept", "*/*"),
        ("content-type", "application/json"),
        ("x-twitter-auth-type", "OAuth2Session"),
        ("x-twitter-active-user", "yes"),
        ("authorization", "auth"),
        ("host", "twitter.com"),
        ("cookie", "ck"),
        ("TE", "trailers"),
        ("X_CSRF_TOKEN", "csrf"),
    ];
    assert_eq!(headers.len(), expected.len());
    for (got, want) in headers.iter().zip(expected.iter()) {
        assert_eq!(got.0, want.0);
        assert_eq!(got.1, want.1);
    }
}

#[test]
fn counts_by_mode() {
    assert_eq!(RecordMode::Last.take_count(0), None);
    assert_eq!(RecordMode::Last.take_count(1), Some(1));
    assert_eq!(RecordMode::Last.take_count(9), Some(1));
    assert_eq!(RecordMode::LastFive.take_count(4), None);
    assert_eq!(RecordMode::LastFive.take_count(5), Some(5));
    assert_eq!(RecordMode::LastTen.take_count(9), None);
    assert_eq!(RecordMode::LastTen.take_count(30), Some(10));
    assert_eq!(RecordMode::AllFound.take_count(0), Some(0));
    assert_eq!(RecordMode::AllFound.take_count(17), Some(17));
}

#[test]
fn scrape_reads_the_profile_tab() {
    let scrape = |t: TweetType| {
        PostRecordScrape::new(String::from("https://twitter.com/alice"), RecordMode::Last, t)
    };
    assert_eq!(scrape(TweetType::Post).user_name(), "alice");
    assert_eq!(scrape(TweetType::Post).tab_path(), "/alice");
    assert_eq!(scrape(TweetType::Reply).tab_path(), "/alice/with_replies");
    assert_eq!(scrape(TweetType::Media).tab_path(), "/alice/media");
    assert_eq!(scrape(TweetType::Likes).tab_path(), "/alice/likes");
    assert_eq!(scrape(TweetType::Likes).tab_xpath(), "//a[@href = /alice/likes]");
    let trailing =
        PostRecordScrape::new(String::from("https://twitter.com/alice/"), RecordMode::Last, TweetType::Media);
    assert_eq!(trailing.user_name(), "");
    assert_eq!(trailing.tab_path(), "//media");
    let plain = PostRecordScrape::new(String::from("alice"), RecordMode::Last, TweetType::Post);
    assert_eq!(plain.user_name(), "alice");
}

#[test]
fn scrape_places_skip_the_pinned_post() {
    let scrape = |m: RecordMode| {
        PostRecordScrape::new(String::from("https://twitter.com/alice"), m, TweetType::Post)
    };
    assert_eq!(scrape(RecordMode::Last).selected_places(3, false), Some(vec![0]));
    assert_eq!(scrape(RecordMode::Last).selected_places(3, true), Some(vec![1]));
    assert_eq!(scrape(RecordMode::Last).selected_places(1, true), None);
    assert_eq!(scrape(RecordMode::Last).selected_places(0, false), None);
    assert_eq!(scrape(RecordMode::LastFive).selected_places(5, false), Some(vec![0, 1, 2, 3, 4]));
    assert_eq!(scrape(RecordMode::LastFive).selected_places(5, true), None);
    assert_eq!(scrape(RecordMode::LastFive).selected_places(6, true), Some(vec![1, 2, 3, 4, 5]));
    assert_eq!(scrape(RecordMode::LastFive).selected_places(4, false), None);
    assert_eq!(
        scrape(RecordMode::LastTen).selected_places(11, true),
        Some(vec![1, 2, 3, 4, 5, 6, 7, 8, 9, 10])
    );
    assert_eq!(scrape(RecordMode::LastTen).selected_places(10, true), None);
    assert_eq!(scrape(RecordMode::AllFound).selected_places(3, true), Some(vec![0, 1, 2]));
    assert_eq!(scrape(RecordMode::AllFound).selected_places(0, false), Some(Vec::new()));
}

#[test]
fn scrape_documents_take_the_last_segment() {
    let scrape = PostRecordScrape::new(
        String::from("https://twitter.com/alice"),
        RecordMode::AllFound,
        TweetType::Post,
    );
    let posts = vec![
        String::from("https://twitter.com/alice/status/1"),
        String::from("https://twitter.com/alice/status/22/"),
        String::from("bare"),
    ];
    let docs = scrape.documents(&posts).unwrap();
    assert_eq!(
        docs,
        vec![
            PostDocument { username: String::from("alice"), post: String::from("1") },
            PostDocument { username: String::from("alice"), post: String::from("") },
            PostDocument { username: String::from("alice"), post: String::from("bare") },
        ]
    );
    let err = scrape.documents(&Vec::new()).unwrap_err();
    assert_eq!(err.details().as_str(), "Length of posts is 0");
    assert_eq!(
        post_documents("u", &Vec::new()).unwrap_err().details().as_str(),
        "Length of posts is 0"
    );
    assert_eq!(DBInsertError::new("broken").details().as_str(), "broken");
}

#[test]
fn segments_and_removal() {
    assert_eq!(last_segment("a/b/c", '/'), "c");
    assert_eq!(last_segment("a/b/", '/'), "");
    assert_eq!(last_segment("abc", '/'), "abc");
    assert_eq!(last_segment("", '/'), "");
    assert_eq!(remove_text("aaa", "aa"), "a");
    assert_eq!(remove_text("abcabc", "bc"), "aa");
    assert_eq!(remove_text("abc", ""), "abc");
    assert_eq!(remove_text("abc", "abcd"), "abc");
    assert_eq!(remove_text("ababa", "aba"), "ba");
    assert_eq!(remove_text("\"x\"", "\""), "x");
    assert_eq!(remove_text("", "x"), "");
}

#[test]
fn posts_are_read_at_the_places_given() {
    let json = post("12345");
    let req = request(&json, RecordMode::AllFound);
    assert_eq!(req.posts_at(&vec![(1, 39)]), Some(vec![String::from("\"1234")]));
    assert_eq!(
        req.posts_at(&vec![(34, 39), (1, 39)]),
        Some(vec![String::from("1234"), String::from("\"1234")])
    );
    assert_eq!(req.posts_at(&Vec::new()), Some(Vec::new()));
    assert_eq!(req.posts_at(&vec![(1, 39), (1, 43)]), None);
    assert_eq!(req.posts_at(&vec![(1, 5)]), None);
    let last = request(&json, RecordMode::Last);
    assert_eq!(last.posts_at(&vec![(1, 39), (1, 43)]), Some(vec![String::from("\"1234")]));
    assert_eq!(last.posts_at(&Vec::new()), None);
    assert_eq!(request(&json, RecordMode::LastFive).posts_at(&vec![(1, 39)]), None);
}

#[test]
fn copy_of_a_request_is_the_same_request() {
    let req = request("{\"rest_id\":\"7\"}", RecordMode::LastTen);
    let copy = req.clone();
    assert_eq!(copy, req);
    assert_eq!(copy.json, "{\"rest_id\":\"7\"}");
    assert_eq!(copy.search_header, header());
    assert_eq!(header().clone(), header());
    assert_eq!(copy.request_url(), req.request_url());
}
