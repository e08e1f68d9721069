//! Summaries of articles and tweets, and a few small generic helpers.
use vstd::prelude::*;
use vstd::string::StringExecFns;

verus! {

/// Something that can be summarised in one line.
pub trait Summary {
    /// Who wrote it.
    fn summarize_author(&self) -> String;

    /// A one-line summary; by default it points to the author.
    fn summarize(&self) -> String {
        let mut s = String::from_str("(Read more from ");
        let author = self.summarize_author();
        s.append(author.as_str());
        s.append("...)");
        s
    }
}

/// A news article.
pub struct NewsArticle {
    pub headline: String,
    pub location: String,
    pub author: String,
    pub content: String,
}

/// A tweet.
pub struct Tweet {
    pub username: String,
    pub content: String,
    pub reply: bool,
    pub retweet: bool,
}

impl Summary for NewsArticle {
    fn summarize_author(&self) -> (r: String)
        ensures
            r@ == "@"@ + self.author@,
    {
        let mut s = String::from_str("@");
        s.append(self.author.as_str());
        s
    }

    fn summarize(&self) -> (r: String)
        ensures
            r@ == self.headline@ + ", by "@ + self.author@ + " ("@ + self.location@ + ")"@,
    {
        let mut s = self.headline.clone();
        s.append(", by ");
        s.append(self.author.as_str());
        s.append(" (");
        s.append(self.location.as_str());
        s.append(")");
        s
    }
}

impl Summary for Tweet {
    fn summarize_author(&self) -> (r: String)
        ensures
            r@ == "@"@ + self.username@,
    {
        let mut s = String::from_str("@");
        s.append(self.username.as_str());
        s
    }

    fn summarize(&self) -> (r: String)
        ensures
            r@ == "(Read more from @"@ + self.username@ + "...)"@,
    {
        let mut s = String::from_str("(Read more from ");
        let author = self.summarize_author();
        s.append(author.as_str());
        s.append("...)");
        proof {
            reveal_strlit("(Read more from ");
            reveal_strlit("@");
            reveal_strlit("(Read more from @");
        }
        assert(s@ =~= "(Read more from @"@ + self.username@ + "...)"@);
        s
    }
}

/// A tweet by `horse_ebooks`, returned as something to summarise.
pub fn returns_summarizable() -> (r: Tweet)
    ensures
        r.username@ == "horse_ebooks"@,
        r.content@ == "of course, as you probably already know, people"@,
        !r.reply,
        !r.retweet,
{
    Tweet {
        username: String::from_str("horse_ebooks"),
        content: String::from_str("of course, as you probably already know, people"),
        reply: false,
        retweet: false,
    }
}

/// The largest element of a non-empty list.
pub fn largest(list: &[i32]) -> (r: &i32)
    requires
        list@.len() > 0,
    ensures
        exists|i: int| 0 <= i < list@.len() && list@[i] == *r,
        forall|i: int| 0 <= i < list@.len() ==> list@[i] <= *r,
{
    let mut largest = &list[0];
    let mut k: usize = 1;
    while k < list.len()
        invariant
            1 <= k <= list@.len(),
            exists|i: int| 0 <= i < k && list@[i] == *largest,
            forall|i: int| 0 <= i < k ==> list@[i] <= *largest,
        decreases list@.len() - k,
    {
        if list[k] > *largest {
            largest = &list[k];
        }
        k = k + 1;
    }
    largest
}

/// Two values of one type.
pub struct Pair<T> {
    pub x: T,
    pub y: T,
}

impl<T> Pair<T> {
    pub fn new(x: T, y: T) -> (r: Self)
        ensures
            r.x == x,
            r.y == y,
    {
        Self { x, y }
    }
}

impl Pair<i64> {
    /// Whether `x` is the larger member (or the members are equal).
    pub fn x_is_largest(&self) -> (r: bool)
        ensures
            r == (self.x >= self.y),
    {
        self.x >= self.y
    }
}

/// A point whose two coordinates may have different types.
pub struct PointDiff<X1, Y1> {
    pub x: X1,
    pub y: Y1,
}

impl<X1, Y1> PointDiff<X1, Y1> {
    /// The `x` of this point with the `y` of the other.
    pub fn mixup<X2, Y2>(self, other: PointDiff<X2, Y2>) -> (r: PointDiff<X1, Y2>)
        ensures
            r.x == self.x,
            r.y == other.y,
    {
        PointDiff { x: self.x, y: other.y }
    }
}

/// A point with two coordinates of one type.
pub struct Point<T> {
    pub x: T,
    pub y: T,
}

impl<T> Point<T> {
    pub fn x(&self) -> (r: &T)
        ensures
            *r == self.x,
    {
        &self.x
    }
}

} // verus!
