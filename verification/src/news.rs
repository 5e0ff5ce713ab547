//! Yahoo Finance company-news feed.
//!
//! The feed (`/xhr/ncp`, POST) powers the news tabs on the ticker page. It
//! returns recent editorial articles, the full feed including syndicated
//! items, or only press releases — pick via [`NewsTab`]. This module holds
//! the tab names and the reading of the reply into [`NewsArticle`]s.

use vstd::prelude::*;

use crate::json::Json;

verus! {

/// Which news category to fetch. Mirrors the tabs on the Yahoo ticker page.
#[derive(Debug, Clone, Copy, PartialEq, Eq, Structural)]
pub enum NewsTab {
    /// Editorial / latest news (default).
    LatestNews,
    /// Editorial + syndicated stories.
    All,
    /// Press releases only.
    PressReleases,
}

impl Default for NewsTab {
    fn default() -> (r: Self)
        ensures
            r == NewsTab::LatestNews,
    {
        NewsTab::LatestNews
    }
}

pub open spec fn tab_query_ref(t: NewsTab) -> Seq<char> {
    match t {
        NewsTab::LatestNews => "latestNews"@,
        NewsTab::All => "newsAll"@,
        NewsTab::PressReleases => "pressRelease"@,
    }
}

impl NewsTab {
    /// The `queryRef` parameter naming the tab.
    pub fn as_query_ref(self) -> (r: &'static str)
        ensures
            r@ == tab_query_ref(self),
    {
        match self {
            NewsTab::LatestNews => "latestNews",
            NewsTab::All => "newsAll",
            NewsTab::PressReleases => "pressRelease",
        }
    }
}

/// One news article.
#[derive(Debug, Clone, PartialEq, Eq)]
pub struct NewsArticle {
    /// Internal Yahoo identifier (its `id`).
    pub uuid: String,
    /// Headline.
    pub title: String,
    /// Publisher display name (`Reuters`, `Bloomberg`, …).
    pub publisher: Option<String>,
    /// Canonical URL to the article.
    pub link: Option<String>,
    /// Publication time as UNIX seconds. `None` if Yahoo returned no `pubDate`
    /// or it failed RFC3339 parsing.
    pub published_at: Option<i64>,
}

/// `provider` of an item.
#[derive(Debug, Clone, PartialEq, Eq)]
pub struct Provider {
    /// `displayName`.
    pub display_name: Option<String>,
}

/// `canonicalUrl` of an item.
#[derive(Debug, Clone, PartialEq, Eq)]
pub struct CanonicalUrl {
    pub url: Option<String>,
}

/// `content` of an item.
#[derive(Debug, Clone, PartialEq, Eq)]
pub struct Content {
    pub title: Option<String>,
    /// `pubDate`.
    pub pub_date: Option<String>,
    pub provider: Option<Provider>,
    /// `canonicalUrl`.
    pub canonical_url: Option<CanonicalUrl>,
}

/// One entry of the feed. An entry with `ad` set is a sponsored placement.
#[derive(Debug)]
pub struct StreamItem {
    pub id: String,
    pub content: Option<Content>,
    pub ad: Option<Json>,
}

/// `tickerStream` of the reply.
#[derive(Debug)]
pub struct TickerStream {
    pub stream: Option<Vec<StreamItem>>,
}

/// `data` of the reply.
#[derive(Debug)]
pub struct NewsData {
    /// `tickerStream`.
    pub ticker_stream: Option<TickerStream>,
}

/// The reply of the news endpoint.
#[derive(Debug)]
pub struct NewsEnvelope {
    pub data: Option<NewsData>,
}

/// UNIX seconds of an RFC 3339 timestamp, as chrono reads it.
pub uninterp spec fn rfc3339_seconds(s: Seq<char>) -> Option<i64>;

/// `chrono::DateTime::parse_from_rfc3339(s)`, read as UNIX seconds
/// (`DateTime::timestamp`); `None` when chrono rejects the text.
#[verifier::external_body]
fn parse_rfc3339_seconds(s: &str) -> (r: Option<i64>)
    ensures
        r == rfc3339_seconds(s@),
{
    chrono::DateTime::parse_from_rfc3339(s).ok().map(|dt| dt.timestamp())
}

/// The feed entries of a reply (none when a level is missing).
pub open spec fn envelope_items(e: NewsEnvelope) -> Seq<StreamItem> {
    match e.data {
        Some(NewsData { ticker_stream: Some(TickerStream { stream: Some(v) }) }) => v@,
        _ => Seq::empty(),
    }
}

/// An entry becomes an article: it is not an ad and has content with a title.
pub open spec fn item_is_article(it: StreamItem) -> bool {
    it.ad is None && (it.content matches Some(c) && c.title is Some)
}

/// `a` is the article read from entry `it`.
pub open spec fn article_of(it: StreamItem, a: NewsArticle) -> bool {
    match it.content {
        Some(c) => {
            &&& a.uuid == it.id
            &&& c.title == Some(a.title)
            &&& a.publisher == match c.provider {
                Some(p) => p.display_name,
                None => None,
            }
            &&& a.link == match c.canonical_url {
                Some(u) => u.url,
                None => None,
            }
            &&& a.published_at == match c.pub_date {
                Some(d) => rfc3339_seconds(d@),
                None => None,
            }
        },
        None => false,
    }
}

/// The entries of `items` that become articles, in order.
pub open spec fn article_items(items: Seq<StreamItem>) -> Seq<StreamItem> {
    items.filter(|it: StreamItem| item_is_article(it))
}

fn article(item: StreamItem) -> (r: Option<NewsArticle>)
    ensures
        item_is_article(item) <==> r is Some,
        r matches Some(a) ==> article_of(item, a),
{
    if item.ad.is_some() {
        return None;
    }
    let content = match item.content {
        Some(c) => c,
        None => {
            return None;
        },
    };
    let title = match content.title {
        Some(t) => t,
        None => {
            return None;
        },
    };
    let published_at = match &content.pub_date {
        Some(s) => parse_rfc3339_seconds(s.as_str()),
        None => None,
    };
    let publisher = match content.provider {
        Some(p) => p.display_name,
        None => None,
    };
    let link = match content.canonical_url {
        Some(u) => u.url,
        None => None,
    };
    Some(NewsArticle { uuid: item.id, title, publisher, link, published_at })
}

impl NewsEnvelope {
    /// The articles of the reply, in feed order: sponsored entries and
    /// entries without content or title are dropped.
    pub fn into_articles(self) -> (r: Vec<NewsArticle>)
        ensures
            r@.len() == article_items(envelope_items(self)).len(),
            forall|i: int|
                0 <= i < r@.len() ==> article_of(
                    #[trigger] article_items(envelope_items(self))[i],
                    r@[i],
                ),
    {
        let ghost items = envelope_items(self);
        let ghost pred = |it: StreamItem| item_is_article(it);
        let mut stream: Vec<StreamItem> = match self.data {
            Some(NewsData { ticker_stream: Some(TickerStream { stream: Some(v) }) }) => v,
            _ => Vec::new(),
        };
        assert(stream@ == items);
        let mut out: Vec<NewsArticle> = Vec::new();
        let n = stream.len();
        let mut rest: Vec<StreamItem> = Vec::new();
        // Take the entries from the back, then read them front to back.
        while stream.len() > 0
            invariant
                stream@.len() + rest@.len() == n,
                items == stream@ + rest@.reverse(),
            decreases stream@.len(),
        {
            let ghost before = stream@;
            let ghost rbefore = rest@;
            let it = stream.pop().unwrap();
            rest.push(it);
            assert(items =~= stream@ + rest@.reverse()) by {
                assert(rest@.reverse() =~= seq![it] + rbefore.reverse());
                assert(before =~= stream@ + seq![it]);
            }
        }
        assert(items =~= rest@.reverse());
        let mut k: usize = 0;
        assert(items.skip(0) =~= items);
        while rest.len() > 0
            invariant
                rest@.reverse() == items.skip(k as int),
                k + rest@.len() == n,
                n == items.len(),
                pred == (|it: StreamItem| item_is_article(it)),
                out@.len() == article_items(items.take(k as int)).len(),
                forall|i: int|
                    0 <= i < out@.len() ==> article_of(
                        #[trigger] article_items(items.take(k as int))[i],
                        out@[i],
                    ),
            decreases rest@.len(),
        {
            let ghost rbefore = rest@;
            let it = rest.pop().unwrap();
            let ghost g = it;
            assert(rbefore =~= rest@.push(g));
            assert(rbefore.reverse() =~= seq![g] + rest@.reverse());
            assert(items.skip(k as int)[0] == g);
            assert(items[k as int] == g);
            proof {
                reveal(Seq::filter);
                assert(items.take(k + 1).drop_last() =~= items.take(k as int));
                assert(items.take(k + 1).last() == g);
            }
            let ghost out_before = out@;
            match article(it) {
                Some(a) => {
                    out.push(a);
                },
                None => {},
            }
            assert(items.skip(k + 1) =~= items.skip(k as int).drop_first());
            assert((seq![g] + rest@.reverse()).drop_first() =~= rest@.reverse());
            k += 1;
            assert(rest@.reverse() =~= items.skip(k as int));
        }
        assert(items.take(k as int) =~= items);
        out
    }
}

/// Sponsored entries never become news: every entry that the reply's
/// articles are read from (see [`NewsEnvelope::into_articles`], one article
/// per entry, in order) has no `ad` and has content with a title; and every
/// entry of the feed without `ad` whose content has a title is read.
pub proof fn articles_skip_sponsored(items: Seq<StreamItem>)
    ensures
        forall|i: int|
            0 <= i < article_items(items).len() ==> {
                &&& (#[trigger] article_items(items)[i]).ad is None
                &&& article_items(items)[i].content matches Some(c)
                &&& c.title is Some
            },
        forall|j: int|
            0 <= j < items.len() && (#[trigger] items[j]).ad is None && (items[j].content matches Some(
                c,
            ) && c.title is Some) ==> article_items(items).contains(items[j]),
{
    let pred = |it: StreamItem| item_is_article(it);
    items.filter_lemma(pred);
    assert forall|i: int| 0 <= i < article_items(items).len() implies {
        &&& (#[trigger] article_items(items)[i]).ad is None
        &&& article_items(items)[i].content matches Some(c)
        &&& c.title is Some
    } by {
        assert(pred(items.filter(pred)[i]));
    }
    assert forall|j: int|
        0 <= j < items.len() && (#[trigger] items[j]).ad is None && (items[j].content matches Some(
            c,
        ) && c.title is Some) implies article_items(items).contains(items[j]) by {
        assert(pred(items[j]));
    }
}

} // verus!
