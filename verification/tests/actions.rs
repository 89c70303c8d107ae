use cronueue::action::{
    Action, ImageComment, ImagePost, KeyWait, LinkCollector, PostNumber, PostRecorderMode,
    PostRetweetLike, RtQuotePost, Step, TextComment, TextPost, FILE_INPUT, LAST_TEXT_AREA,
    QUOTE_LINK, RETWEET_CONFIRM, TEXT_AREA, TWEET_BUTTON,
};
use cronueue::record_posts::{PostRecordScrape, RecordMode, TweetType};
use cronueue::search::Search;

fn s(text: &str) -> String {
    String::from(text)
}

#[test]
fn selectors_by_post_number() {
    assert_eq!(PostNumber::First.target_xpath("like"), "//*[@data-testid = \"like\"]");
    assert_eq!(PostNumber::Last.target_xpath("like"), "//*[@data-testid = \"like\"][last()]");
    assert_eq!(PostNumber::Nth(3).target_xpath("retweet"), "(//*[@data-testid = \"retweet\"])[3]");
    assert_eq!(PostNumber::Nth(0).target_xpath("retweet"), "(//*[@data-testid = \"retweet\"])[0]");
    assert_eq!(
        PostNumber::Nth(4294967295).target_xpath("x"),
        "(//*[@data-testid = \"x\"])[4294967295]"
    );
}

#[test]
fn fixed_selectors() {
    assert_eq!(TEXT_AREA, "//*[@data-testid = \"tweetTextarea_0\"]");
    assert_eq!(LAST_TEXT_AREA, "//*[@data-testid = \"tweetTextarea_0\"][last()]");
    assert_eq!(TWEET_BUTTON, "//*[@data-testid = \"tweetButtonInline\"]");
    assert_eq!(FILE_INPUT, "//input[@data-testid = \"fileInput\"]");
    assert_eq!(RETWEET_CONFIRM, "//*[@data-testid = \"retweetConfirm\"]");
    assert_eq!(QUOTE_LINK, "//a[@href = \"/compose/tweet/\"][last()]");
}

#[test]
fn text_post_steps() {
    let post = TextPost { url: s("https://t/compose"), content: s("hello") };
    assert_eq!(
        Action::PostText(post).steps(),
        Some(vec![
            Step::Open(s("https://t/compose")),
            Step::Type { target: s(TEXT_AREA), text: s("hello"), wait: KeyWait::Random },
            Step::Pause,
            Step::Click(s(TWEET_BUTTON)),
        ])
    );
}

#[test]
fn image_post_steps() {
    let with_text = ImagePost { path: s("/tmp/a.png"), text: Some(s("look")) };
    assert_eq!(
        with_text.steps(),
        vec![
            Step::Upload { target: s(FILE_INPUT), path: s("/tmp/a.png") },
            Step::Pause,
            Step::Type { target: s(TEXT_AREA), text: s("look"), wait: KeyWait::Fixed(100) },
            Step::Pause,
            Step::Click(s(TWEET_BUTTON)),
        ]
    );
    let bare = ImagePost { path: s("/tmp/a.png"), text: None };
    assert_eq!(
        Action::PostImage(bare).steps(),
        Some(vec![
            Step::Upload { target: s(FILE_INPUT), path: s("/tmp/a.png") },
            Step::Pause,
            Step::Click(s(TWEET_BUTTON)),
        ])
    );
}

#[test]
fn like_and_retweet_steps() {
    let target = PostRetweetLike { url: s("https://t/u"), number: PostNumber::Nth(2) };
    assert_eq!(
        Action::LikePost(target.clone()).steps(),
        Some(vec![
            Step::Open(s("https://t/u")),
            Step::Pause,
            Step::Click(s("(//*[@data-testid = \"like\"])[2]")),
        ])
    );
    assert_eq!(
        Action::Retweet(target).steps(),
        Some(vec![
            Step::Open(s("https://t/u")),
            Step::Pause,
            Step::Click(s("(//*[@data-testid = \"retweet\"])[2]")),
            Step::Pause,
            Step::Click(s(RETWEET_CONFIRM)),
        ])
    );
}

#[test]
fn quote_steps() {
    let quote = RtQuotePost { url: s("https://t/u"), number: PostNumber::Last, text: Some(s("yes")) };
    assert_eq!(
        Action::QuoteRetweet(quote).steps(),
        Some(vec![
            Step::Open(s("https://t/u")),
            Step::Pause,
            Step::Click(s("//*[@data-testid = \"retweet\"][last()]")),
            Step::Pause,
            Step::Click(s(QUOTE_LINK)),
            Step::Type { target: s(LAST_TEXT_AREA), text: s("yes"), wait: KeyWait::Random },
            Step::Pause,
            Step::Click(s(TWEET_BUTTON)),
        ])
    );
    let silent = RtQuotePost { url: s("https://t/u"), number: PostNumber::First, text: None };
    assert_eq!(silent.steps().len(), 6);
}

#[test]
fn comment_steps() {
    let text = TextComment { url: s("https://t/p"), text: s("nice") };
    assert_eq!(
        Action::CommentText(text).steps(),
        Some(vec![
            Step::Open(s("https://t/p")),
            Step::Pause,
            Step::Type { target: s(LAST_TEXT_AREA), text: s("nice"), wait: KeyWait::Random },
            Step::Pause,
            Step::Click(s(TWEET_BUTTON)),
        ])
    );
    let image = ImageComment { url: s("https://t/p"), path: s("/i.png"), text: Some(s("see")) };
    assert_eq!(
        Action::CommentImage(image).steps(),
        Some(vec![
            Step::Open(s("https://t/p")),
            Step::Pause,
            Step::Upload { target: s(FILE_INPUT), path: s("/i.png") },
            Step::Pause,
            Step::Type { target: s(TEXT_AREA), text: s("see"), wait: KeyWait::Fixed(100) },
            Step::Pause,
            Step::Click(s(TWEET_BUTTON)),
        ])
    );
}

#[test]
fn search_and_recording_have_no_fixed_steps() {
    assert_eq!(Action::SearchTwitter(Search::default()).steps(), None);
    let scrape = PostRecordScrape::new(s("https://t/u"), RecordMode::Last, TweetType::Post);
    assert_eq!(Action::RecordPost(PostRecorderMode::Scrape(scrape)).steps(), None);
}

#[test]
fn collector_keeps_each_address_once() {
    let mut c = LinkCollector::new();
    assert_eq!(c.len(), 0);
    assert!(!c.is_complete());
    c.absorb(&vec![s("a"), s("b"), s("a")]);
    assert_eq!(c.len(), 2);
    assert!(c.contains(&s("a")));
    assert!(!c.contains(&s("c")));
    c.absorb(&vec![s("b"), s("c")]);
    c.absorb(&Vec::new());
    assert_eq!(c.into_links(), vec![s("a"), s("b"), s("c")]);
}

#[test]
fn collector_is_complete_at_exactly_one_hundred() {
    let mut c = LinkCollector::new();
    let first: Vec<String> = (0..99).map(|i| format!("l{}", i)).collect();
    c.absorb(&first);
    assert!(!c.is_complete());
    c.absorb(&vec![s("l5"), s("last")]);
    assert_eq!(c.len(), 100);
    assert!(c.is_complete());
    c.absorb(&vec![s("more")]);
    assert_eq!(c.len(), 101);
    assert!(!c.is_complete());
}

#[test]
fn copy_of_an_action_is_the_same_action() {
    let target = PostRetweetLike { url: s("https://t/u"), number: PostNumber::Nth(2) };
    let actions = vec![
        Action::PostText(TextPost { url: s("https://t/compose"), content: s("hello") }),
        Action::PostImage(ImagePost { path: s("/tmp/a.png"), text: Some(s("look")) }),
        Action::PostImage(ImagePost { path: s("/tmp/a.png"), text: None }),
        Action::LikePost(target.clone()),
        Action::Retweet(target),
        Action::QuoteRetweet(RtQuotePost {
            url: s("https://t/u"),
            number: PostNumber::Last,
            text: Some(s("so true")),
        }),
        Action::CommentText(TextComment { url: s("https://t/p/1"), text: s("nice") }),
        Action::CommentImage(ImageComment {
            url: s("https://t/p/1"),
            path: s("/tmp/b.png"),
            text: None,
        }),
        Action::RecordPost(PostRecorderMode::Scrape(PostRecordScrape::new(
            s("https://t/somebody"),
            RecordMode::LastFive,
            TweetType::Media,
        ))),
    ];
    for action in actions.iter() {
        let copy = action.clone();
        assert_eq!(copy, *action);
        assert_eq!(copy.steps(), action.steps());
    }
}

#[test]
fn copy_of_a_search_asks_for_the_same() {
    let search = Search {
        all_words: Some(vec![s("rust"), s("verus")]),
        none_words: Some(vec![]),
        language: Some(s("en")),
        minimum_likes: Some(10),
        date_to: Some(s("2023-01-01")),
        ..Search::default()
    };
    let copy = search.clone();
    assert_eq!(copy, search);
    assert_eq!(copy.all_words, Some(vec![s("rust"), s("verus")]));
    assert_eq!(copy.none_words, Some(vec![]));
    assert_eq!(copy.hashtags, None);
    let action = Action::SearchTwitter(search.clone());
    assert_eq!(action.clone(), action);
    assert_eq!(copy.format_text(), search.format_text());
}
