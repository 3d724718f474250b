//! Summarizable things: articles and tweets that can introduce themselves.

use vstd::prelude::*;
use vstd::string::StringExecFns;
use core::fmt::Display;

verus! {

/// Something that can summarize itself. Each implementation states, as the
/// two spec functions, exactly which texts its methods produce.
pub trait Summary {
    /// The author line this implementation produces.
    spec fn spec_summarize_author(&self) -> Seq<char>;

    /// The summary text this implementation produces.
    spec fn spec_summarize(&self) -> Seq<char>;

    /// The author line.
    fn summarize_author(&self) -> (r: String)
        ensures
            r@ == self.spec_summarize_author(),
    ;

    /// The summary text.
    fn summarize(&self) -> (r: String)
        ensures
            r@ == self.spec_summarize(),
    ;
}

/// A news article with a byline and a location.
#[derive(Debug)]
pub struct NewsArticle {
    pub headline: String,
    pub location: String,
    pub author: String,
    pub content: String,
}

/// A short message from one user.
#[derive(Debug)]
pub struct Tweet {
    pub username: String,
    pub content: String,
    pub reply: bool,
    pub retweet: bool,
}

impl Summary for NewsArticle {
    open spec fn spec_summarize_author(&self) -> Seq<char> {
        "Author: "@ + self.author@
    }

    open spec fn spec_summarize(&self) -> Seq<char> {
        "(Read more from "@ + self.spec_summarize_author() + "...)"@
    }

    fn summarize_author(&self) -> (r: String) {
        String::from_str("Author: ").concat(self.author.as_str())
    }

    fn summarize(&self) -> (r: String) {
        let author = self.summarize_author();
        String::from_str("(Read more from ").concat(author.as_str()).concat("...)")
    }
}

impl Summary for Tweet {
    open spec fn spec_summarize_author(&self) -> Seq<char> {
        "@"@ + self.username@
    }

    open spec fn spec_summarize(&self) -> Seq<char> {
        self.username@ + ": "@ + self.content@
    }

    fn summarize_author(&self) -> (r: String) {
        String::from_str("@").concat(self.username.as_str())
    }

    fn summarize(&self) -> (r: String) {
        String::from_str(self.username.as_str()).concat(": ").concat(self.content.as_str())
    }
}

pub fn some_fun(item: &(impl Summary + Display)) {
}

pub fn some_fun2<T: Summary + Display>(item: &T) {
}

#[allow(dead_code)]
fn some_function(t: &(impl Display + Clone), u: &(impl Clone + Summary)) -> (r: i32)
    ensures
        r == 0,
{
    0
}

#[allow(dead_code)]
fn some_function2<T: Display + Clone, U: Clone + Summary>(t: &T, u: &U) -> (r: i32)
    ensures
        r == 0,
{
    0
}

#[allow(dead_code)]
fn some_function3<T, U>(t: &T, u: &U) -> (r: i32) where T: Display + Clone, U: Clone + Summary
    ensures
        r == 0,
{
    0
}

/// A tweet worth reading more of.
pub fn returns_summarizable() -> (s: impl Summary)
    ensures
        s.spec_summarize_author() == "@"@ + "horse_ebooks"@,
        s.spec_summarize() == "horse_ebooks"@ + ": "@
            + "of course, as you probably already know, people"@,
{
    Tweet {
        username: "horse_ebooks".to_owned(),
        content: "of course, as you probably already know, people".to_owned(),
        reply: false,
        retweet: false,
    }
}

/// A pair of two values of one type.
pub struct Pair<T> {
    pub x: T,
    pub y: T,
}

impl<T> Pair<T> {
    /// Pairs the two values up.
    pub fn new(x: T, y: T) -> (pair: Self)
        ensures
            pair.x == x,
            pair.y == y,
    {
        Self { x, y }
    }
}

} // verus!
