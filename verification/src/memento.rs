//! The memento demonstration: an article whose content can be snapshotted
//! and rolled back, one saved state at a time.

use std::collections::VecDeque;

use vstd::prelude::*;

verus! {

/// A snapshot of an article's content, opaque to everyone but the article.
pub struct MementoArticle {
    content: String,
}

impl MementoArticle {
    pub closed spec fn spec_content(&self) -> Seq<char> {
        self.content@
    }

    pub fn new(content: &str) -> (m: MementoArticle)
        ensures
            m.spec_content() == content@,
    {
        MementoArticle { content: content.to_owned() }
    }

    pub fn get_content(self) -> (s: String)
        ensures
            s@ == self.spec_content(),
    {
        self.content
    }
}

/// An article with undo-via-rollback: `save` pushes a snapshot, `restore`
/// pops the most recent one back into the content.
pub struct Article {
    content: String,
    memento: VecDeque<MementoArticle>,
}

impl Article {
    pub closed spec fn spec_content(&self) -> Seq<char> {
        self.content@
    }

    /// The stack of saved snapshots, oldest first.
    pub closed spec fn saved(&self) -> Seq<Seq<char>> {
        self.memento@.map_values(|m: MementoArticle| m.spec_content())
    }

    pub fn new() -> (a: Article)
        ensures
            a.spec_content() =~= Seq::<char>::empty(),
            a.saved() =~= Seq::<Seq<char>>::empty(),
    {
        Article { content: String::new(), memento: VecDeque::new() }
    }

    pub fn set_content(&mut self, content: &str)
        ensures
            final(self).spec_content() == content@,
            final(self).saved() == old(self).saved(),
    {
        self.content = content.to_owned();
    }

    pub fn get_content(&self) -> (s: &str)
        ensures
            s@ == self.spec_content(),
    {
        self.content.as_str()
    }

    /// Snapshot the current content.
    pub fn save(&mut self)
        ensures
            final(self).spec_content() == old(self).spec_content(),
            final(self).saved() == old(self).saved().push(old(self).spec_content()),
    {
        self.memento.push_back(MementoArticle::new(self.content.as_str()));
        proof {
            assert(self.saved() =~= old(self).saved().push(old(self).spec_content()));
        }
    }

    /// Roll back to the most recent snapshot; without one, nothing changes.
    pub fn restore(&mut self)
        ensures
            old(self).saved().len() > 0 ==> {
                &&& final(self).spec_content() == old(self).saved().last()
                &&& final(self).saved() == old(self).saved().drop_last()
            },
            old(self).saved().len() == 0 ==> {
                &&& final(self).spec_content() == old(self).spec_content()
                &&& final(self).saved() == old(self).saved()
            },
    {
        if let Some(memento) = self.memento.pop_back() {
            self.content = memento.get_content();
        }
        proof {
            if old(self).saved().len() > 0 {
                assert(self.saved() =~= old(self).saved().drop_last());
            } else {
                assert(self.saved() =~= old(self).saved());
            }
        }
    }
}

} // verus!
