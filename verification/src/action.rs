//! The units of work that a task can carry.

use vstd::prelude::*;
use vstd::string::StringExecFns;
use crate::record_posts::{PostRecordRequest, PostRecordScrape};
use crate::search::Search;
use crate::text::{copy_text, decimal, push_decimal, texts};

verus! {

/// Which of the posts on a page an action is aimed at.
#[derive(Clone, Copy, Debug, PartialEq, Eq, Structural)]
pub enum PostNumber {
    First,
    Last,
    Nth(u32),
}

#[derive(Debug, PartialEq, Eq)]
pub struct TextPost {
    pub url: String,
    pub content: String,
}

#[derive(Debug, PartialEq, Eq)]
pub struct ImagePost {
    pub path: String,
    pub text: Option<String>,
}

#[derive(Debug, PartialEq, Eq)]
pub struct TextComment {
    pub url: String,
    pub text: String,
}

#[derive(Debug, PartialEq, Eq)]
pub struct ImageComment {
    pub url: String,
    pub path: String,
    pub text: Option<String>,
}

#[derive(Debug, PartialEq, Eq)]
pub struct PostRetweetLike {
    pub url: String,
    pub number: PostNumber,
}

#[derive(Debug, PartialEq, Eq)]
pub struct RtQuotePost {
    pub url: String,
    pub number: PostNumber,
    pub text: Option<String>,
}

/// The two ways of recording posts.
#[derive(Debug, PartialEq, Eq)]
pub enum PostRecorderMode {
    Request(PostRecordRequest),
    Scrape(PostRecordScrape),
}

/// One remote interaction, with what it needs to run.
#[derive(Debug, PartialEq, Eq)]
pub enum Action {
    PostText(TextPost),
    PostImage(ImagePost),
    LikePost(PostRetweetLike),
    SearchTwitter(Search),
    Retweet(PostRetweetLike),
    QuoteRetweet(RtQuotePost),
    CommentText(TextComment),
    CommentImage(ImageComment),
    RecordPost(PostRecorderMode),
}

impl Clone for TextPost {
    fn clone(&self) -> (copy: Self)
        ensures
            copy == *self,
    {
        TextPost { url: self.url.clone(), content: self.content.clone() }
    }
}

impl Clone for ImagePost {
    fn clone(&self) -> (copy: Self)
        ensures
            copy == *self,
    {
        ImagePost { path: self.path.clone(), text: copy_text(&self.text) }
    }
}

impl Clone for TextComment {
    fn clone(&self) -> (copy: Self)
        ensures
            copy == *self,
    {
        TextComment { url: self.url.clone(), text: self.text.clone() }
    }
}

impl Clone for ImageComment {
    fn clone(&self) -> (copy: Self)
        ensures
            copy == *self,
    {
        ImageComment {
            url: self.url.clone(),
            path: self.path.clone(),
            text: copy_text(&self.text),
        }
    }
}

impl Clone for PostRetweetLike {
    fn clone(&self) -> (copy: Self)
        ensures
            copy == *self,
    {
        PostRetweetLike { url: self.url.clone(), number: self.number }
    }
}

impl Clone for RtQuotePost {
    fn clone(&self) -> (copy: Self)
        ensures
            copy == *self,
    {
        RtQuotePost { url: self.url.clone(), number: self.number, text: copy_text(&self.text) }
    }
}

impl Clone for PostRecorderMode {
    fn clone(&self) -> (copy: Self)
        ensures
            copy == *self,
    {
        match self {
            PostRecorderMode::Request(request) => PostRecorderMode::Request(request.clone()),
            PostRecorderMode::Scrape(scrape) => PostRecorderMode::Scrape(scrape.clone()),
        }
    }
}

impl Action {
    /// Whether two actions do the same: they are searches that ask for the
    /// same, or they are equal.
    pub open spec fn agrees(&self, other: &Action) -> bool {
        match (*self, *other) {
            (Action::SearchTwitter(a), Action::SearchTwitter(b)) => a.agrees(&b),
            _ => *self == *other,
        }
    }
}

impl Clone for Action {
    /// An action that does the same. The copy of a search holds lists of
    /// its own, with the same words; the copy of any other action is equal
    /// to it.
    fn clone(&self) -> (copy: Self)
        ensures
            copy.agrees(self),
            !(self is SearchTwitter) ==> copy == *self,
    {
        match self {
            Action::PostText(post) => Action::PostText(post.clone()),
            Action::PostImage(post) => Action::PostImage(post.clone()),
            Action::LikePost(target) => Action::LikePost(target.clone()),
            Action::SearchTwitter(search) => Action::SearchTwitter(search.clone()),
            Action::Retweet(target) => Action::Retweet(target.clone()),
            Action::QuoteRetweet(quote) => Action::QuoteRetweet(quote.clone()),
            Action::CommentText(comment) => Action::CommentText(comment.clone()),
            Action::CommentImage(comment) => Action::CommentImage(comment.clone()),
            Action::RecordPost(mode) => Action::RecordPost(mode.clone()),
        }
    }
}

/// The text area of a new post.
pub const TEXT_AREA: &'static str = "//*[@data-testid = \"tweetTextarea_0\"]";

/// The text area that comes last on the page: that of a reply or a quote.
pub const LAST_TEXT_AREA: &'static str = "//*[@data-testid = \"tweetTextarea_0\"][last()]";

/// The button that sends a post.
pub const TWEET_BUTTON: &'static str = "//*[@data-testid = \"tweetButtonInline\"]";

/// The field that takes the path of an image.
pub const FILE_INPUT: &'static str = "//input[@data-testid = \"fileInput\"]";

/// The entry that confirms a repost.
pub const RETWEET_CONFIRM: &'static str = "//*[@data-testid = \"retweetConfirm\"]";

/// The entry that opens a quote.
pub const QUOTE_LINK: &'static str = "//a[@href = \"/compose/tweet/\"][last()]";

/// How long the session waits after each keystroke.
#[derive(Clone, Copy, Debug, PartialEq, Eq, Structural)]
pub enum KeyWait {
    /// A time drawn anew for each keystroke.
    Random,
    /// So many milliseconds.
    Fixed(u32),
}

/// One thing done in the session.
#[derive(Clone, Debug, PartialEq, Eq)]
pub enum Step {
    /// Go to an address.
    Open(String),
    /// Wait as the behaviour profile says.
    Pause,
    /// Find an element and type a text into it, one character at a time.
    Type { target: String, text: String, wait: KeyWait },
    /// Find an element and hand it the path of a file.
    Upload { target: String, path: String },
    /// Find an element and click it.
    Click(String),
}

/// What a step holds.
pub enum StepView {
    Open(Seq<char>),
    Pause,
    Type { target: Seq<char>, text: Seq<char>, wait: KeyWait },
    Upload { target: Seq<char>, path: Seq<char> },
    Click(Seq<char>),
}

impl Step {
    pub open spec fn view(&self) -> StepView {
        match self {
            Step::Open(url) => StepView::Open(url@),
            Step::Pause => StepView::Pause,
            Step::Type { target, text, wait } => StepView::Type {
                target: target@,
                text: text@,
                wait: *wait,
            },
            Step::Upload { target, path } => StepView::Upload { target: target@, path: path@ },
            Step::Click(target) => StepView::Click(target@),
        }
    }
}

/// What a sequence of steps holds.
pub open spec fn step_views(steps: Seq<Step>) -> Seq<StepView> {
    Seq::new(steps.len(), |i: int| steps[i]@)
}

/// The steps that type an optional text: none where there is no text.
pub open spec fn typing_steps(text: Option<String>, target: Seq<char>, wait: KeyWait) -> Seq<
    StepView,
> {
    match text {
        Some(t) => seq![StepView::Type { target, text: t@, wait }, StepView::Pause],
        None => Seq::empty(),
    }
}

impl PostNumber {
    /// The expression that finds the element marked `test_id` of the post
    /// aimed at.
    pub open spec fn target_text(self, test_id: Seq<char>) -> Seq<char> {
        match self {
            PostNumber::First => "//*[@data-testid = \""@ + test_id + "\"]"@,
            PostNumber::Last => "//*[@data-testid = \""@ + test_id + "\"][last()]"@,
            PostNumber::Nth(n) => "(//*[@data-testid = \""@ + test_id + "\"])["@ + decimal(
                n as nat,
            ) + "]"@,
        }
    }

    pub fn target_xpath(&self, test_id: &str) -> (xpath: String)
        ensures
            xpath@ == self.target_text(test_id@),
    {
        match self {
            PostNumber::First => {
                let mut xpath = String::from_str("//*[@data-testid = \"");
                xpath.append(test_id);
                xpath.append("\"]");
                xpath
            },
            PostNumber::Last => {
                let mut xpath = String::from_str("//*[@data-testid = \"");
                xpath.append(test_id);
                xpath.append("\"][last()]");
                xpath
            },
            PostNumber::Nth(n) => {
                let mut xpath = String::from_str("(//*[@data-testid = \"");
                xpath.append(test_id);
                xpath.append("\"])[");
                push_decimal(&mut xpath, *n);
                xpath.append("]");
                xpath
            },
        }
    }
}

fn open_step(url: &String) -> (step: Step)
    ensures
        step@ == StepView::Open(url@),
{
    Step::Open(url.clone())
}

fn click_step(target: &str) -> (step: Step)
    ensures
        step@ == StepView::Click(target@),
{
    Step::Click(String::from_str(target))
}

fn upload_step(target: &str, path: &String) -> (step: Step)
    ensures
        step@ == (StepView::Upload { target: target@, path: path@ }),
{
    Step::Upload { target: String::from_str(target), path: path.clone() }
}

fn type_step(target: &str, text: &String, wait: KeyWait) -> (step: Step)
    ensures
        step@ == (StepView::Type { target: target@, text: text@, wait }),
{
    Step::Type { target: String::from_str(target), text: text.clone(), wait }
}

fn push_typing(steps: &mut Vec<Step>, text: &Option<String>, target: &str, wait: KeyWait)
    ensures
        step_views(final(steps)@) == step_views(old(steps)@) + typing_steps(*text, target@, wait),
{
    match text {
        Some(t) => {
            steps.push(type_step(target, t, wait));
            steps.push(Step::Pause);
            assert(step_views(steps@) =~= step_views(old(steps)@) + typing_steps(
                *text,
                target@,
                wait,
            ));
        },
        None => {
            assert(step_views(steps@) =~= step_views(old(steps)@) + typing_steps(
                *text,
                target@,
                wait,
            ));
        },
    }
}

impl TextPost {
    pub open spec fn plan(&self) -> Seq<StepView> {
        seq![
            StepView::Open(self.url@),
            StepView::Type { target: TEXT_AREA@, text: self.content@, wait: KeyWait::Random },
            StepView::Pause,
            StepView::Click(TWEET_BUTTON@),
        ]
    }

    /// Opens the page, types the post and sends it.
    pub fn steps(&self) -> (steps: Vec<Step>)
        ensures
            step_views(steps@) == self.plan(),
    {
        let mut steps: Vec<Step> = Vec::new();
        steps.push(open_step(&self.url));
        steps.push(type_step(TEXT_AREA, &self.content, KeyWait::Random));
        steps.push(Step::Pause);
        steps.push(click_step(TWEET_BUTTON));
        assert(step_views(steps@) =~= self.plan());
        steps
    }
}

impl ImagePost {
    pub open spec fn plan(&self) -> Seq<StepView> {
        seq![StepView::Upload { target: FILE_INPUT@, path: self.path@ }, StepView::Pause]
            + typing_steps(self.text, TEXT_AREA@, KeyWait::Fixed(100)) + seq![
            StepView::Click(TWEET_BUTTON@),
        ]
    }

    /// Attaches the image on the page that is open, types the text if there
    /// is one, and sends the post.
    pub fn steps(&self) -> (steps: Vec<Step>)
        ensures
            step_views(steps@) == self.plan(),
    {
        let mut steps: Vec<Step> = Vec::new();
        steps.push(upload_step(FILE_INPUT, &self.path));
        steps.push(Step::Pause);
        let ghost head = step_views(steps@);
        push_typing(&mut steps, &self.text, TEXT_AREA, KeyWait::Fixed(100));
        let ghost body = step_views(steps@);
        steps.push(click_step(TWEET_BUTTON));
        proof {
            assert(head =~= seq![
                StepView::Upload { target: FILE_INPUT@, path: self.path@ },
                StepView::Pause,
            ]);
            assert(step_views(steps@) =~= body + seq![StepView::Click(TWEET_BUTTON@)]);
        }
        steps
    }
}

impl TextComment {
    pub open spec fn plan(&self) -> Seq<StepView> {
        seq![
            StepView::Open(self.url@),
            StepView::Pause,
            StepView::Type { target: LAST_TEXT_AREA@, text: self.text@, wait: KeyWait::Random },
            StepView::Pause,
            StepView::Click(TWEET_BUTTON@),
        ]
    }

    /// Opens the post, types the comment and sends it.
    pub fn steps(&self) -> (steps: Vec<Step>)
        ensures
            step_views(steps@) == self.plan(),
    {
        let mut steps: Vec<Step> = Vec::new();
        steps.push(open_step(&self.url));
        steps.push(Step::Pause);
        steps.push(type_step(LAST_TEXT_AREA, &self.text, KeyWait::Random));
        steps.push(Step::Pause);
        steps.push(click_step(TWEET_BUTTON));
        assert(step_views(steps@) =~= self.plan());
        steps
    }
}

impl ImageComment {
    pub open spec fn plan(&self) -> Seq<StepView> {
        seq![
            StepView::Open(self.url@),
            StepView::Pause,
            StepView::Upload { target: FILE_INPUT@, path: self.path@ },
            StepView::Pause,
        ] + typing_steps(self.text, TEXT_AREA@, KeyWait::Fixed(100)) + seq![
            StepView::Click(TWEET_BUTTON@),
        ]
    }

    /// Opens the post, attaches the image, types the text if there is one,
    /// and sends the comment.
    pub fn steps(&self) -> (steps: Vec<Step>)
        ensures
            step_views(steps@) == self.plan(),
    {
        let mut steps: Vec<Step> = Vec::new();
        steps.push(open_step(&self.url));
        steps.push(Step::Pause);
        steps.push(upload_step(FILE_INPUT, &self.path));
        steps.push(Step::Pause);
        let ghost head = step_views(steps@);
        push_typing(&mut steps, &self.text, TEXT_AREA, KeyWait::Fixed(100));
        let ghost body = step_views(steps@);
        steps.push(click_step(TWEET_BUTTON));
        proof {
            assert(head =~= seq![
                StepView::Open(self.url@),
                StepView::Pause,
                StepView::Upload { target: FILE_INPUT@, path: self.path@ },
                StepView::Pause,
            ]);
            assert(step_views(steps@) =~= body + seq![StepView::Click(TWEET_BUTTON@)]);
        }
        steps
    }
}

impl PostRetweetLike {
    pub open spec fn like_plan(&self) -> Seq<StepView> {
        seq![
            StepView::Open(self.url@),
            StepView::Pause,
            StepView::Click(self.number.target_text("like"@)),
        ]
    }

    pub open spec fn retweet_plan(&self) -> Seq<StepView> {
        seq![
            StepView::Open(self.url@),
            StepView::Pause,
            StepView::Click(self.number.target_text("retweet"@)),
            StepView::Pause,
            StepView::Click(RETWEET_CONFIRM@),
        ]
    }

    /// Opens the page and likes the post aimed at.
    pub fn like_steps(&self) -> (steps: Vec<Step>)
        ensures
            step_views(steps@) == self.like_plan(),
    {
        let mut steps: Vec<Step> = Vec::new();
        steps.push(open_step(&self.url));
        steps.push(Step::Pause);
        steps.push(click_step(self.number.target_xpath("like").as_str()));
        assert(step_views(steps@) =~= self.like_plan());
        steps
    }

    /// Opens the page, reposts the post aimed at and confirms.
    pub fn retweet_steps(&self) -> (steps: Vec<Step>)
        ensures
            step_views(steps@) == self.retweet_plan(),
    {
        let mut steps: Vec<Step> = Vec::new();
        steps.push(open_step(&self.url));
        steps.push(Step::Pause);
        steps.push(click_step(self.number.target_xpath("retweet").as_str()));
        steps.push(Step::Pause);
        steps.push(click_step(RETWEET_CONFIRM));
        assert(step_views(steps@) =~= self.retweet_plan());
        steps
    }
}

impl RtQuotePost {
    pub open spec fn plan(&self) -> Seq<StepView> {
        seq![
            StepView::Open(self.url@),
            StepView::Pause,
            StepView::Click(self.number.target_text("retweet"@)),
            StepView::Pause,
            StepView::Click(QUOTE_LINK@),
        ] + typing_steps(self.text, LAST_TEXT_AREA@, KeyWait::Random) + seq![
            StepView::Click(TWEET_BUTTON@),
        ]
    }

    /// Opens the page, starts a quote of the post aimed at, types the text
    /// if there is one, and sends it.
    pub fn steps(&self) -> (steps: Vec<Step>)
        ensures
            step_views(steps@) == self.plan(),
    {
        let mut steps: Vec<Step> = Vec::new();
        steps.push(open_step(&self.url));
        steps.push(Step::Pause);
        steps.push(click_step(self.number.target_xpath("retweet").as_str()));
        steps.push(Step::Pause);
        steps.push(click_step(QUOTE_LINK));
        let ghost head = step_views(steps@);
        push_typing(&mut steps, &self.text, LAST_TEXT_AREA, KeyWait::Random);
        let ghost body = step_views(steps@);
        steps.push(click_step(TWEET_BUTTON));
        proof {
            assert(head =~= seq![
                StepView::Open(self.url@),
                StepView::Pause,
                StepView::Click(self.number.target_text("retweet"@)),
                StepView::Pause,
                StepView::Click(QUOTE_LINK@),
            ]);
            assert(step_views(steps@) =~= body + seq![StepView::Click(TWEET_BUTTON@)]);
        }
        steps
    }
}

impl Action {
    /// The steps of an action that is a fixed sequence of steps; `None` for
    /// a search and for a recording, which go by what they find.
    pub open spec fn plan(&self) -> Option<Seq<StepView>> {
        match self {
            Action::PostText(post) => Some(post.plan()),
            Action::PostImage(post) => Some(post.plan()),
            Action::LikePost(target) => Some(target.like_plan()),
            Action::SearchTwitter(_) => None,
            Action::Retweet(target) => Some(target.retweet_plan()),
            Action::QuoteRetweet(quote) => Some(quote.plan()),
            Action::CommentText(comment) => Some(comment.plan()),
            Action::CommentImage(comment) => Some(comment.plan()),
            Action::RecordPost(_) => None,
        }
    }

    /// Actions that do the same go by the same steps.
    pub proof fn law_agreeing_actions_share_plan(&self, other: &Action)
        requires
            self.agrees(other),
        ensures
            self.plan() == other.plan(),
            !(self is SearchTwitter) ==> *self == *other,
            (self is SearchTwitter) == (other is SearchTwitter),
    {
    }

    pub fn steps(&self) -> (steps: Option<Vec<Step>>)
        ensures
            steps is Some <==> self.plan() is Some,
            steps matches Some(v) ==> self.plan() == Some(step_views(v@)),
    {
        match self {
            Action::PostText(post) => Some(post.steps()),
            Action::PostImage(post) => Some(post.steps()),
            Action::LikePost(target) => Some(target.like_steps()),
            Action::SearchTwitter(_) => None,
            Action::Retweet(target) => Some(target.retweet_steps()),
            Action::QuoteRetweet(quote) => Some(quote.steps()),
            Action::CommentText(comment) => Some(comment.steps()),
            Action::CommentImage(comment) => Some(comment.steps()),
            Action::RecordPost(_) => None,
        }
    }
}

/// The addresses gathered by a search: each once, in the order in which
/// they were first seen.
pub struct LinkCollector {
    seen: Vec<String>,
}

/// `seen`, followed by the items of `batch` that are new, each once.
pub open spec fn gathered(seen: Seq<Seq<char>>, batch: Seq<Seq<char>>) -> Seq<Seq<char>>
    decreases batch.len(),
{
    if batch.len() == 0 {
        seen
    } else {
        let earlier = gathered(seen, batch.drop_last());
        if earlier.contains(batch.last()) {
            earlier
        } else {
            earlier.push(batch.last())
        }
    }
}

impl LinkCollector {
    /// The addresses held, oldest first.
    pub closed spec fn links(&self) -> Seq<Seq<char>> {
        texts(self.seen@)
    }

    /// No address is held twice.
    pub open spec fn wf(&self) -> bool {
        self.links().no_duplicates()
    }

    /// How many addresses make the collection complete.
    pub open spec fn target() -> nat {
        100
    }

    pub fn new() -> (c: Self)
        ensures
            c.links() == Seq::<Seq<char>>::empty(),
            c.wf(),
    {
        let c = LinkCollector { seen: Vec::new() };
        assert(c.links() =~= Seq::<Seq<char>>::empty());
        c
    }

    pub fn len(&self) -> (n: usize)
        ensures
            n == self.links().len(),
    {
        self.seen.len()
    }

    pub fn contains(&self, link: &String) -> (yes: bool)
        ensures
            yes == self.links().contains(link@),
    {
        let mut i: usize = 0;
        while i < self.seen.len()
            invariant
                i <= self.seen.len(),
                forall|k: int| 0 <= k < i ==> self.links()[k] != link@,
            decreases self.seen.len() - i,
        {
            if self.seen[i] == *link {
                assert(self.links()[i as int] == link@);
                return true;
            }
            i = i + 1;
        }
        false
    }

    /// Takes in the addresses of `batch` that are not held yet.
    pub fn absorb(&mut self, batch: &Vec<String>)
        requires
            old(self).wf(),
        ensures
            final(self).wf(),
            final(self).links() == gathered(old(self).links(), texts(batch@)),
    {
        let ghost all = texts(batch@);
        let mut i: usize = 0;
        proof {
            assert(all.take(0) =~= Seq::<Seq<char>>::empty());
        }
        while i < batch.len()
            invariant
                i <= batch.len(),
                all == texts(batch@),
                self.wf(),
                self.links() == gathered(old(self).links(), all.take(i as int)),
            decreases batch.len() - i,
        {
            proof {
                assert(all.take(i + 1).drop_last() =~= all.take(i as int));
                assert(all.take(i + 1).last() == batch@[i as int]@);
            }
            if !self.contains(&batch[i]) {
                let ghost before = self.links();
                self.seen.push(batch[i].clone());
                proof {
                    assert(self.links() =~= before.push(batch@[i as int]@));
                }
            }
            i = i + 1;
        }
        proof {
            assert(all.take(batch.len() as int) =~= all);
        }
    }

    /// Whether the collection is complete: it holds exactly as many
    /// addresses as the target says.
    pub fn is_complete(&self) -> (done: bool)
        ensures
            done == (self.links().len() == Self::target()),
    {
        self.seen.len() == 100
    }

    /// Hands the addresses out.
    pub fn into_links(self) -> (links: Vec<String>)
        ensures
            texts(links@) == self.links(),
    {
        self.seen
    }
}

} // verus!
