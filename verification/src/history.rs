//! The lines submitted so far, and the cursor that walks through them.
use vstd::prelude::*;
use vstd::string::*;
use crate::text::{lines_of, push_char, split_lines, text_of, texts};

verus! {

/// The history of submitted lines.
///
/// The entries stand in the order in which they were submitted. The cursor
/// lies between 0 and the number of entries; at the number of entries no
/// entry is recalled and the line being typed is shown.
pub struct History {
    /// The submitted lines, oldest first.
    content: Vec<String>,
    /// The entry that is recalled, or the number of entries.
    cursor: usize,
    /// Where the entries are kept between runs, if anywhere.
    store: Option<String>,
}

impl History {
    /// The submitted lines, oldest first.
    pub closed spec fn entries(&self) -> Seq<Seq<char>> {
        texts(self.content@)
    }

    /// The position of the cursor.
    pub closed spec fn position(&self) -> nat {
        self.cursor as nat
    }

    /// The path of the store, where one is configured.
    pub closed spec fn store_path(&self) -> Option<Seq<char>> {
        match self.store {
            Some(path) => Some(path@),
            None => None,
        }
    }

    /// The cursor is at an entry or just behind the last one. This holds
    /// of every history.
    #[verifier::type_invariant]
    pub open spec fn wf(&self) -> bool {
        self.position() <= self.entries().len()
    }

    /// The entry at the cursor, if the cursor is at one.
    pub open spec fn recalled(&self) -> Option<Seq<char>> {
        if self.position() < self.entries().len() {
            Some(self.entries()[self.position() as int])
        } else {
            None
        }
    }

    /// An empty history without a store.
    pub fn new() -> (history: History)
        ensures
            history.wf(),
            history.entries() == Seq::<Seq<char>>::empty(),
            history.position() == 0,
            history.store_path() is None,
    {
        let history = History { content: Vec::new(), cursor: 0, store: None };
        assert(history.entries() =~= Seq::<Seq<char>>::empty());
        history
    }

    /// The number of entries.
    pub fn len(&self) -> (count: usize)
        ensures
            count == self.entries().len(),
    {
        self.content.len()
    }

    /// The position of the cursor.
    pub fn cursor(&self) -> (cursor: usize)
        ensures
            cursor == self.position(),
            cursor <= self.entries().len(),
    {
        proof {
            use_type_invariant(self);
        }
        self.cursor
    }

    /// The entry at `index`, oldest first.
    pub fn entry(&self, index: usize) -> (entry: Option<&str>)
        ensures
            index < self.entries().len() ==> entry is Some && entry->0@
                == self.entries()[index as int],
            index >= self.entries().len() ==> entry is None,
    {
        if index < self.content.len() {
            Some(self.content[index].as_str())
        } else {
            None
        }
    }

    /// Whether a store is configured.
    pub fn has_store(&self) -> (configured: bool)
        ensures
            configured == self.store_path() is Some,
    {
        self.store.is_some()
    }

    /// Moves one entry down, towards the newest, and recalls the entry
    /// reached. One step behind the newest entry there is none: that is the
    /// line being typed.
    pub fn down(&mut self) -> (recalled: Option<&str>)
        ensures
            final(self).wf(),
            final(self).entries() == old(self).entries(),
            final(self).store_path() == old(self).store_path(),
            final(self).position() == if old(self).position() < old(self).entries().len() {
                old(self).position() + 1
            } else {
                old(self).position()
            },
            (match recalled {
                Some(line) => Some(line@),
                None => None,
            }) == final(self).recalled(),
    {
        proof {
            use_type_invariant(&*self);
        }
        if self.cursor < self.content.len() {
            self.cursor = self.cursor + 1;
            if self.cursor < self.content.len() {
                Some(self.content[self.cursor].as_str())
            } else {
                None
            }
        } else {
            None
        }
    }

    /// Moves one entry up, towards the oldest, and recalls the entry
    /// reached. At the oldest entry the cursor stays.
    pub fn up(&mut self) -> (recalled: Option<&str>)
        ensures
            final(self).wf(),
            final(self).entries() == old(self).entries(),
            final(self).store_path() == old(self).store_path(),
            final(self).position() == if old(self).position() > 0 {
                old(self).position() - 1
            } else {
                0
            },
            (match recalled {
                Some(line) => Some(line@),
                None => None,
            }) == final(self).recalled(),
    {
        proof {
            use_type_invariant(&*self);
        }
        if self.cursor > 0 {
            self.cursor = self.cursor - 1;
        }
        if self.cursor < self.content.len() {
            Some(self.content[self.cursor].as_str())
        } else {
            None
        }
    }

    /// Takes `text`, the whole content of the store, as the entries, one
    /// per line, and puts the cursor behind the last. Without a store
    /// nothing changes.
    pub fn load(&mut self, text: &str)
        ensures
            final(self).wf(),
            final(self).store_path() == old(self).store_path(),
            old(self).store_path() is Some ==> final(self).entries() == lines_of(text@)
                && final(self).position() == final(self).entries().len(),
            old(self).store_path() is None ==> final(self).entries() == old(self).entries()
                && final(self).position() == old(self).position(),
    {
        proof {
            use_type_invariant(&*self);
        }
        if self.store.is_some() {
            self.cursor = 0;
            self.content = split_lines(text);
            self.cursor = self.content.len();
        }
    }

    /// Appends `line` to the entries and puts the cursor behind it. Returns
    /// what is to be appended to the store, if one is configured: the line
    /// and a line feed.
    pub fn push(&mut self, line: String) -> (record: Option<String>)
        ensures
            final(self).wf(),
            final(self).entries() == old(self).entries().push(line@),
            final(self).entries().last() == line@,
            final(self).position() == final(self).entries().len(),
            final(self).store_path() == old(self).store_path(),
            text_of(record) == match old(self).store_path() {
                Some(_) => Some(line@.push('\n')),
                None => None,
            },
    {
        let record = if self.store.is_some() {
            let mut record = line.clone();
            push_char(&mut record, '\n');
            Some(record)
        } else {
            None
        };
        let mut content = Vec::new();
        self.cursor = 0;
        core::mem::swap(&mut self.content, &mut content);
        proof {
            assert(texts(content@.push(line)) =~= texts(content@).push(line@));
        }
        content.push(line);
        self.content = content;
        self.cursor = self.content.len();
        record
    }

    /// Turns persistence on: from now on every pushed line is owed to the
    /// store at `path`.
    pub fn store(&mut self, path: String)
        ensures
            final(self).wf(),
            final(self).store_path() == Some(path@),
            final(self).entries() == old(self).entries(),
            final(self).position() == old(self).position(),
    {
        proof {
            use_type_invariant(&*self);
        }
        self.store = Some(path);
    }
}

impl Default for History {
    fn default() -> (history: History)
        ensures
            history.wf(),
            history.entries() == Seq::<Seq<char>>::empty(),
            history.position() == 0,
            history.store_path() is None,
    {
        History::new()
    }
}

} // verus!
