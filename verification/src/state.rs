//! The state demonstration: an article changes behavior with its
//! editorial state.  Editing always puts it back into draft; only a draft
//! can be approved, and only an approved article can be published.

use vstd::prelude::*;

verus! {

#[derive(Clone, Copy, PartialEq, Eq, Structural, Debug)]
pub enum ArticleState {
    Draft,
    Approved,
    Published,
}

pub struct Article {
    content: String,
    state: ArticleState,
}

impl Article {
    pub closed spec fn spec_content(&self) -> Seq<char> {
        self.content@
    }

    pub closed spec fn spec_state(&self) -> ArticleState {
        self.state
    }

    pub fn new() -> (a: Article)
        ensures
            a.spec_content() =~= Seq::<char>::empty(),
            a.spec_state() is Draft,
    {
        Article { content: String::new(), state: ArticleState::Draft }
    }

    pub fn content(&self) -> (s: &str)
        ensures
            s@ == self.spec_content(),
    {
        self.content.as_str()
    }

    pub fn state(&self) -> (s: ArticleState)
        ensures
            s == self.spec_state(),
    {
        self.state
    }

    /// Editing replaces the content and sends the article back to draft,
    /// whatever state it was in.  Returns the announced transition.
    pub fn set_content(&mut self, text: &str) -> (note: String)
        ensures
            final(self).spec_content() == text@,
            final(self).spec_state() is Draft,
            note@ == match old(self).spec_state() {
                ArticleState::Draft => "DraftState -> DraftState"@,
                ArticleState::Approved => "ApprovedState -> DraftState"@,
                ArticleState::Published => "PublishedState -> DraftState"@,
            },
    {
        self.content = text.to_owned();
        let note = match self.state {
            ArticleState::Draft => "DraftState -> DraftState",
            ArticleState::Approved => "ApprovedState -> DraftState",
            ArticleState::Published => "PublishedState -> DraftState",
        };
        self.state = ArticleState::Draft;
        note.to_owned()
    }

    /// Only a draft can be approved; in every other state approval changes
    /// nothing.  Returns the announced transition, if any.
    pub fn approve(&mut self) -> (note: Option<String>)
        ensures
            final(self).spec_content() == old(self).spec_content(),
            final(self).spec_state() == (match old(self).spec_state() {
                ArticleState::Draft => ArticleState::Approved,
                ArticleState::Approved => ArticleState::Approved,
                ArticleState::Published => ArticleState::Published,
            }),
            note is Some <==> old(self).spec_state() is Draft,
            note is Some ==> note->0@ == "DraftState -> ApprovedState"@,
    {
        match self.state {
            ArticleState::Draft => {
                self.state = ArticleState::Approved;
                Some("DraftState -> ApprovedState".to_owned())
            },
            ArticleState::Approved => None,
            ArticleState::Published => None,
        }
    }

    /// Only an approved article can be published; a draft stays a draft
    /// and a published article stays published.  Returns the announced
    /// transition, if any.
    pub fn publish(&mut self) -> (note: Option<String>)
        ensures
            final(self).spec_content() == old(self).spec_content(),
            final(self).spec_state() == (match old(self).spec_state() {
                ArticleState::Draft => ArticleState::Draft,
                ArticleState::Approved => ArticleState::Published,
                ArticleState::Published => ArticleState::Published,
            }),
            note is Some <==> old(self).spec_state() is Approved,
            note is Some ==> note->0@ == "ApprovedState -> PublishedState"@,
    {
        match self.state {
            ArticleState::Draft => None,
            ArticleState::Approved => {
                self.state = ArticleState::Published;
                Some("ApprovedState -> PublishedState".to_owned())
            },
            ArticleState::Published => None,
        }
    }
}

} // verus!
