//! Advanced-search queries and the address that runs them.

use vstd::prelude::*;
use vstd::string::StringExecFns;
use crate::text::{
    copy_text, copy_texts, decimal, join, join_prefixed, join_strings, prefix_each, push_decimal,
    texts,
};

verus! {

/// The fields of an advanced search. A field left at `None` adds nothing to
/// the query.
#[derive(Debug, PartialEq, Eq, Default)]
pub struct Search {
    pub all_words: Option<Vec<String>>,
    pub exact_phrase: Option<Vec<String>>,
    pub any_words: Option<Vec<String>>,
    pub none_words: Option<Vec<String>>,
    pub hashtags: Option<Vec<String>>,
    pub language: Option<String>,
    pub from_accounts: Option<Vec<String>>,
    pub to_these_accounts: Option<Vec<String>>,
    pub mentioning_accounts: Option<Vec<String>>,
    pub minimum_replies: Option<u32>,
    pub minimum_likes: Option<u32>,
    pub minimum_retweets: Option<u32>,
    pub date_from: Option<String>,
    pub date_to: Option<String>,
}

/// The words that an optional list holds, in order.
pub open spec fn words(list: Option<Vec<String>>) -> Option<Seq<Seq<char>>> {
    match list {
        Some(v) => Some(texts(v@)),
        None => None,
    }
}

fn copy_words(list: &Option<Vec<String>>) -> (copy: Option<Vec<String>>)
    ensures
        words(copy) == words(*list),
{
    match list {
        Some(v) => Some(copy_texts(v)),
        None => None,
    }
}

impl Search {
    /// Whether two searches ask for the same: field by field the same words
    /// in the same order, the same thresholds, the same language and the
    /// same dates.
    pub open spec fn agrees(&self, other: &Search) -> bool {
        &&& words(self.all_words) == words(other.all_words)
        &&& words(self.exact_phrase) == words(other.exact_phrase)
        &&& words(self.any_words) == words(other.any_words)
        &&& words(self.none_words) == words(other.none_words)
        &&& words(self.hashtags) == words(other.hashtags)
        &&& self.language == other.language
        &&& words(self.from_accounts) == words(other.from_accounts)
        &&& words(self.to_these_accounts) == words(other.to_these_accounts)
        &&& words(self.mentioning_accounts) == words(other.mentioning_accounts)
        &&& self.minimum_replies == other.minimum_replies
        &&& self.minimum_likes == other.minimum_likes
        &&& self.minimum_retweets == other.minimum_retweets
        &&& self.date_from == other.date_from
        &&& self.date_to == other.date_to
    }
}

impl Clone for Search {
    /// A search that asks for the same.
    fn clone(&self) -> (copy: Self)
        ensures
            copy.agrees(self),
    {
        Search {
            all_words: copy_words(&self.all_words),
            exact_phrase: copy_words(&self.exact_phrase),
            any_words: copy_words(&self.any_words),
            none_words: copy_words(&self.none_words),
            hashtags: copy_words(&self.hashtags),
            language: copy_text(&self.language),
            from_accounts: copy_words(&self.from_accounts),
            to_these_accounts: copy_words(&self.to_these_accounts),
            mentioning_accounts: copy_words(&self.mentioning_accounts),
            minimum_replies: self.minimum_replies,
            minimum_likes: self.minimum_likes,
            minimum_retweets: self.minimum_retweets,
            date_from: copy_text(&self.date_from),
            date_to: copy_text(&self.date_to),
        }
    }
}

/// How one character stands in the query part of an address: the five
/// characters `+ " : # @` as a percent sign and two hexadecimal digits, any
/// other character as itself.
pub open spec fn encode_char(c: char) -> Seq<char> {
    if c == '+' {
        seq!['%', '2', 'B']
    } else if c == '"' {
        seq!['%', '2', '2']
    } else if c == ':' {
        seq!['%', '3', 'A']
    } else if c == '#' {
        seq!['%', '2', '3']
    } else if c == '@' {
        seq!['%', '4', '0']
    } else {
        seq![c]
    }
}

/// A text with each character encoded as [`encode_char`] says.
pub open spec fn url_encode(s: Seq<char>) -> Seq<char>
    decreases s.len(),
{
    if s.len() == 0 {
        Seq::empty()
    } else {
        url_encode(s.drop_last()) + encode_char(s.last())
    }
}

/// The term that a list of words adds to a query: nothing where the list is
/// absent; else the words, each behind `prefix`, joined by `sep`, between
/// `open` and `close`.
pub open spec fn group_term(
    list: Option<Vec<String>>,
    open: Seq<char>,
    prefix: Seq<char>,
    sep: Seq<char>,
    close: Seq<char>,
) -> Seq<Seq<char>> {
    match list {
        Some(words) => seq![open + join(prefix_each(prefix, texts(words@)), sep) + close],
        None => Seq::empty(),
    }
}

/// The term that a threshold adds to a query.
pub open spec fn number_term(value: Option<u32>, label: Seq<char>) -> Seq<Seq<char>> {
    match value {
        Some(n) => seq![label + decimal(n as nat)],
        None => Seq::empty(),
    }
}

/// The term that a single text adds to a query.
pub open spec fn text_term(value: Option<String>, label: Seq<char>) -> Seq<Seq<char>> {
    match value {
        Some(t) => seq![label + t@],
        None => Seq::empty(),
    }
}

/// Encodes `s` for the query part of an address.
pub fn encode_query(s: &str) -> (out: String)
    ensures
        out@ == url_encode(s@),
{
    let mut out = String::new();
    for c in it: s.chars()
        invariant
            it.seq() == s@,
            out@ == url_encode(s@.take(it.index())),
    {
        proof {
            assert(s@.take(it.index() + 1).drop_last() =~= s@.take(it.index()));
            assert(s@.take(it.index() + 1).last() == c);
        }
        if c == '+' {
            out.push('%');
            out.push('2');
            out.push('B');
        } else if c == '"' {
            out.push('%');
            out.push('2');
            out.push('2');
        } else if c == ':' {
            out.push('%');
            out.push('3');
            out.push('A');
        } else if c == '#' {
            out.push('%');
            out.push('2');
            out.push('3');
        } else if c == '@' {
            out.push('%');
            out.push('4');
            out.push('0');
        } else {
            out.push(c);
        }
        assert(out@ =~= url_encode(s@.take(it.index())) + encode_char(c));
    }
    assert(s@.take(s@.len() as int) =~= s@);
    out
}

fn push_group(
    params: &mut Vec<String>,
    list: &Option<Vec<String>>,
    open: &str,
    prefix: &str,
    sep: &str,
    close: &str,
)
    ensures
        texts(final(params)@) == texts(old(params)@) + group_term(
            *list,
            open@,
            prefix@,
            sep@,
            close@,
        ),
{
    match list {
        Some(words) => {
            let mut term = String::from_str(open);
            term.append(join_prefixed(words, prefix, sep).as_str());
            term.append(close);
            params.push(term);
            assert(texts(params@) =~= texts(old(params)@) + group_term(
                *list,
                open@,
                prefix@,
                sep@,
                close@,
            ));
        },
        None => {
            assert(texts(params@) =~= texts(old(params)@) + group_term(
                *list,
                open@,
                prefix@,
                sep@,
                close@,
            ));
        },
    }
}

fn push_number(params: &mut Vec<String>, value: Option<u32>, label: &str)
    ensures
        texts(final(params)@) == texts(old(params)@) + number_term(value, label@),
{
    match value {
        Some(n) => {
            let mut term = String::from_str(label);
            push_decimal(&mut term, n);
            params.push(term);
            assert(texts(params@) =~= texts(old(params)@) + number_term(value, label@));
        },
        None => {
            assert(texts(params@) =~= texts(old(params)@) + number_term(value, label@));
        },
    }
}

fn push_text(params: &mut Vec<String>, value: &Option<String>, label: &str)
    ensures
        texts(final(params)@) == texts(old(params)@) + text_term(*value, label@),
{
    match value {
        Some(t) => {
            let mut term = String::from_str(label);
            term.append(t.as_str());
            params.push(term);
            assert(texts(params@) =~= texts(old(params)@) + text_term(*value, label@));
        },
        None => {
            assert(texts(params@) =~= texts(old(params)@) + text_term(*value, label@));
        },
    }
}

impl Search {
    /// The terms of the query, in the order in which they stand in the
    /// address. The excluded words stand three times: once each behind a
    /// minus sign, and twice as a group of alternatives. The sender accounts
    /// stand twice: as senders and as recipients. Both dates stand behind
    /// `since:`, the closing date first.
    pub open spec fn terms(&self) -> Seq<Seq<char>> {
        group_term(self.all_words, ""@, ""@, "+"@, ""@) + group_term(
            self.exact_phrase,
            "\""@,
            ""@,
            "+"@,
            "\""@,
        ) + group_term(self.any_words, "("@, ""@, "+OR+"@, ")"@) + group_term(
            self.none_words,
            "-"@,
            ""@,
            "+-"@,
            ""@,
        ) + group_term(self.none_words, "("@, ""@, "+OR+"@, ")"@) + group_term(
            self.from_accounts,
            "("@,
            "from:"@,
            "+OR+"@,
            ")"@,
        ) + group_term(self.from_accounts, "("@, "to:"@, "+OR+"@, ")"@) + group_term(
            self.none_words,
            "("@,
            ""@,
            "+OR+"@,
            ")"@,
        ) + number_term(self.minimum_replies, "min_replies:"@) + number_term(
            self.minimum_likes,
            "min_faves:"@,
        ) + number_term(self.minimum_retweets, "min_retweets:"@) + text_term(
            self.language,
            "lang::"@,
        ) + text_term(self.date_to, "since:"@) + text_term(self.date_from, "since:"@)
    }

    /// The address of the search: the terms joined by plus signs and
    /// encoded, plus signs included, between the fixed head and tail.
    pub open spec fn address(&self) -> Seq<char> {
        "https://twitter.com/search?lang=en&q="@ + url_encode(join(self.terms(), "+"@))
            + "&src=typed_query"@
    }

    /// Searches that ask for the same have the same terms and run at the
    /// same address.
    pub proof fn law_agreeing_searches_share_address(&self, other: &Search)
        requires
            self.agrees(other),
        ensures
            self.terms() == other.terms(),
            self.address() == other.address(),
    {
    }

    /// The address that runs this search.
    pub fn format_text(self) -> (url: String)
        ensures
            url@ == self.address(),
    {
        let mut params: Vec<String> = Vec::new();
        assert(texts(params@) =~= Seq::<Seq<char>>::empty());
        push_group(&mut params, &self.all_words, "", "", "+", "");
        push_group(&mut params, &self.exact_phrase, "\"", "", "+", "\"");
        push_group(&mut params, &self.any_words, "(", "", "+OR+", ")");
        push_group(&mut params, &self.none_words, "-", "", "+-", "");
        push_group(&mut params, &self.none_words, "(", "", "+OR+", ")");
        push_group(&mut params, &self.from_accounts, "(", "from:", "+OR+", ")");
        push_group(&mut params, &self.from_accounts, "(", "to:", "+OR+", ")");
        push_group(&mut params, &self.none_words, "(", "", "+OR+", ")");
        push_number(&mut params, self.minimum_replies, "min_replies:");
        push_number(&mut params, self.minimum_likes, "min_faves:");
        push_number(&mut params, self.minimum_retweets, "min_retweets:");
        push_text(&mut params, &self.language, "lang::");
        push_text(&mut params, &self.date_to, "since:");
        push_text(&mut params, &self.date_from, "since:");
        assert(texts(params@) =~= self.terms());
        let joined = join_strings(&params, "+");
        let mut url = String::from_str("https://twitter.com/search?lang=en&q=");
        url.append(encode_query(joined.as_str()).as_str());
        url.append("&src=typed_query");
        url
    }
}

} // verus!
