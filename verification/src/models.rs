//! The records of the service.

use vstd::prelude::*;

verus! {

/// What a stored joke is, mathematically: its identifier and its text.
pub struct JokeView {
    pub id: int,
    pub url: Seq<char>,
}

/// A stored joke: the identifier that the table gave it, and its address.
#[derive(Debug, PartialEq, Eq)]
pub struct Joke {
    pub id: i32,
    pub url: String,
}

/// A joke that has not been stored yet, and so has no identifier.
#[derive(Debug, PartialEq, Eq)]
pub struct NewJoke {
    pub url: String,
}

impl View for Joke {
    type V = JokeView;

    open spec fn view(&self) -> JokeView {
        JokeView { id: self.id as int, url: self.url@ }
    }
}

impl View for NewJoke {
    type V = Seq<char>;

    open spec fn view(&self) -> Seq<char> {
        self.url@
    }
}

impl Clone for Joke {
    fn clone(&self) -> (copy: Self)
        ensures
            copy == *self,
    {
        Joke { id: self.id, url: self.url.clone() }
    }
}

impl Clone for NewJoke {
    fn clone(&self) -> (copy: Self)
        ensures
            copy == *self,
    {
        NewJoke { url: self.url.clone() }
    }
}

/// The views of a sequence of jokes, in the same order.
pub open spec fn views(jokes: Seq<Joke>) -> Seq<JokeView> {
    jokes.map_values(|j: Joke| j@)
}

/// The view of a joke that may be absent.
pub open spec fn option_view(joke: Option<Joke>) -> Option<JokeView> {
    match joke {
        Some(j) => Some(j@),
        None => None,
    }
}

} // verus!
