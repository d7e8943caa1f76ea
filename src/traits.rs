use vstd::prelude::*;

verus! {

/// Something that can describe itself in one line.
pub trait Summary {
    /// The text that `summarize` returns.
    spec fn summary(&self) -> Seq<char>;

    fn summarize(&self) -> (r: String)
        ensures
            r@ == self.summary(),
    ;
}

/// A summary built from an author line, with a default wording.
pub trait SummaryWithDefaultImplementation {
    /// The text that `summarize_author` returns.
    spec fn author_line(&self) -> Seq<char>;

    fn summarize_author(&self) -> (r: String)
        ensures
            r@ == self.author_line(),
    ;

    /// `Read more from <author>...`.
    fn default_summarize(&self) -> (r: String)
        ensures
            r@ == "Read more from "@ + self.author_line() + "..."@,
    {
        let mut r = String::from_str("Read more from ");
        let author = self.summarize_author();
        r.append(author.as_str());
        r.append("...");
        r
    }
}

/// A news story.
pub struct NewsArticle {
    pub headline: String,
    pub location: String,
    pub author: String,
    pub content: String,
}

impl Summary for NewsArticle {
    /// `<headline>, by <author> <location>`.
    open spec fn summary(&self) -> Seq<char> {
        self.headline@ + ", by "@ + self.author@ + " "@ + self.location@
    }

    fn summarize(&self) -> (r: String) {
        let mut r = self.headline.clone();
        r.append(", by ");
        r.append(self.author.as_str());
        r.append(" ");
        r.append(self.location.as_str());
        r
    }
}

impl SummaryWithDefaultImplementation for NewsArticle {
    open spec fn author_line(&self) -> Seq<char> {
        self.author@
    }

    fn summarize_author(&self) -> (r: String) {
        self.author.clone()
    }
}

/// A short post.
pub struct Tweet {
    pub username: String,
    pub content: String,
    pub reply: bool,
    pub retweet: bool,
}

impl Summary for Tweet {
    /// `<username>: <content>`.
    open spec fn summary(&self) -> Seq<char> {
        self.username@ + ": "@ + self.content@
    }

    fn summarize(&self) -> (r: String) {
        let mut r = self.username.clone();
        r.append(": ");
        r.append(self.content.as_str());
        r
    }
}

/// A type that can be shown; showing does nothing unless an impl says otherwise.
pub trait Display {
    fn display(&self) {
    }
}

impl Display for Tweet {

}

/// A marker for types that can be inspected.
pub trait Debug {

}

/// Accepts any pair of suitably bounded values and returns one.
pub fn some_function<T, U>(_t: &T, _u: &U) -> (r: i32) where T: Display + Clone, U: Clone + Debug
    ensures
        r == 1,
{
    1
}

/// Either kind of summarizable item.
pub enum Summarizable {
    Article(NewsArticle),
    Post(Tweet),
}

impl Summary for Summarizable {
    open spec fn summary(&self) -> Seq<char> {
        match self {
            Summarizable::Article(a) => a.summary(),
            Summarizable::Post(t) => t.summary(),
        }
    }

    fn summarize(&self) -> (r: String) {
        match self {
            Summarizable::Article(a) => a.summarize(),
            Summarizable::Post(t) => t.summarize(),
        }
    }
}

/// A fixed news article when `switch` holds, a fixed tweet otherwise.
pub fn returns_summarizable(switch: bool) -> (r: Summarizable)
    ensures
        switch ==> (r matches Summarizable::Article(a) && a.headline@
            == "Penguins win the Stanley Cup Championship!"@ && a.location@ == "Pittsburgh, PA, USA"@
            && a.author@ == "Iceburgh"@ && a.content@
            == "The Pittsburgh Penguins once again are the best hockey team in the NHL."@),
        !switch ==> (r matches Summarizable::Post(t) && t.username@ == "horse_ebooks"@
            && t.content@ == "of course, as you probably already know, people"@ && !t.reply
            && !t.retweet),
{
    if switch {
        Summarizable::Article(
            NewsArticle {
                headline: String::from_str("Penguins win the Stanley Cup Championship!"),
                location: String::from_str("Pittsburgh, PA, USA"),
                author: String::from_str("Iceburgh"),
                content: String::from_str(
                    "The Pittsburgh Penguins once again are the best hockey team in the NHL.",
                ),
            },
        )
    } else {
        Summarizable::Post(
            Tweet {
                username: String::from_str("horse_ebooks"),
                content: String::from_str("of course, as you probably already know, people"),
                reply: false,
                retweet: false,
            },
        )
    }
}

} // verus!
