use rust_basics::traits::{
    returns_summarizable, some_function, Display, NewsArticle, Summarizable, Summary,
    SummaryWithDefaultImplementation, Tweet,
};

fn article() -> NewsArticle {
    NewsArticle {
        headline: String::from("Penguins win the Stanley Cup Championship!"),
        location: String::from("Pittsburgh, PA, USA"),
        author: String::from("Iceburgh Slim"),
        content: String::from("The Pittsburgh Penguins once again are the best hockey team in the NHL."),
    }
}

fn tweet() -> Tweet {
    Tweet {
        username: String::from("MrEd"),
        content: String::from("a horse is a horse, of course, of course"),
        reply: false,
        retweet: false,
    }
}

#[test]
fn tweet_summary() {
    let t = tweet();
    assert_eq!(t.summarize(), "MrEd: a horse is a horse, of course, of course");
    t.display();
}

#[test]
fn article_summaries() {
    let a = article();
    assert_eq!(
        a.summarize(),
        "Penguins win the Stanley Cup Championship!, by Iceburgh Slim Pittsburgh, PA, USA"
    );
    assert_eq!(a.summarize_author(), "Iceburgh Slim");
    assert_eq!(a.default_summarize(), "Read more from Iceburgh Slim...");
}

#[test]
fn summarizable_by_switch() {
    assert_eq!(
        returns_summarizable(true).summarize(),
        "Penguins win the Stanley Cup Championship!, by Iceburgh Pittsburgh, PA, USA"
    );
    let s = returns_summarizable(false);
    assert!(matches!(s, Summarizable::Post(_)));
    assert_eq!(s.summarize(), "horse_ebooks: of course, as you probably already know, people");
}

#[derive(Clone)]
struct Shown;

impl Display for Shown {}

#[derive(Clone)]
struct Inspected;

impl rust_basics::traits::Debug for Inspected {}

#[test]
fn some_function_returns_one() {
    assert_eq!(some_function(&Shown, &Inspected), 1);
}
