use yfinance::json::Json;
use yfinance::news::{
    CanonicalUrl, Content, NewsData, NewsEnvelope, NewsTab, Provider, StreamItem, TickerStream,
};

fn article(id: &str, title: &str, date: Option<&str>) -> StreamItem {
    StreamItem {
        id: id.to_string(),
        content: Some(Content {
            title: Some(title.to_string()),
            pub_date: date.map(String::from),
            provider: Some(Provider { display_name: Some("Reuters".to_string()) }),
            canonical_url: Some(CanonicalUrl { url: Some("https://example.com/x".to_string()) }),
        }),
        ad: None,
    }
}

fn envelope(items: Vec<StreamItem>) -> NewsEnvelope {
    NewsEnvelope {
        data: Some(NewsData { ticker_stream: Some(TickerStream { stream: Some(items) }) }),
    }
}

#[test]
fn parses_minimal_envelope() {
    let ad = StreamItem {
        id: "ad1".to_string(),
        content: None,
        ad: Some(Json::Object(vec![("anything".to_string(), Json::Bool(true))])),
    };
    let env = envelope(vec![article("abc", "Hello", Some("2025-05-01T12:00:00Z")), ad]);
    let articles = env.into_articles();
    assert_eq!(articles.len(), 1);
    assert_eq!(articles[0].title, "Hello");
    assert_eq!(articles[0].publisher.as_deref(), Some("Reuters"));
    assert_eq!(articles[0].published_at, Some(1_746_100_800));
}

#[test]
fn empty_envelope_yields_empty_vec() {
    let env = NewsEnvelope { data: None };
    assert!(env.into_articles().is_empty());
}

#[test]
fn article_fields_are_carried_over() {
    let env = envelope(vec![article("abc", "Hello", Some("2025-05-01T14:00:00+02:00"))]);
    let a = &env.into_articles()[0];
    assert_eq!(a.uuid, "abc");
    assert_eq!(a.link.as_deref(), Some("https://example.com/x"));
    assert_eq!(a.published_at, Some(1_746_100_800));
}

#[test]
fn bad_or_missing_dates_give_no_timestamp() {
    let env = envelope(vec![
        article("a", "One", Some("yesterday")),
        article("b", "Two", None),
    ]);
    let v = env.into_articles();
    assert_eq!(v.len(), 2);
    assert_eq!(v[0].published_at, None);
    assert_eq!(v[1].published_at, None);
    assert_eq!(v[1].title, "Two");
}

#[test]
fn items_without_content_are_skipped() {
    let bare = StreamItem { id: "x".to_string(), content: None, ad: None };
    let env = envelope(vec![bare, article("abc", "Hello", None)]);
    let v = env.into_articles();
    assert_eq!(v.len(), 1);
    assert_eq!(v[0].uuid, "abc");
}

#[test]
fn tab_query_refs() {
    assert_eq!(NewsTab::default(), NewsTab::LatestNews);
    assert_eq!(NewsTab::LatestNews.as_query_ref(), "latestNews");
    assert_eq!(NewsTab::All.as_query_ref(), "newsAll");
    assert_eq!(NewsTab::PressReleases.as_query_ref(), "pressRelease");
}
