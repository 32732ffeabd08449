//! Two hand-written producers: an endless source of ones and a shelf of books
//! that hands its titles out from the last one added to the first.

use crate::text::{lemma_texts_push, opt_text, texts};
use vstd::prelude::*;
use vstd::string::*;

verus! {

/// A producer that yields the number one for as long as it is asked.
pub struct GivesOne;

impl GivesOne {
    /// Advances the producer. There is always a next element, and it is one.
    pub fn next(&mut self) -> (item: Option<i32>)
        ensures
            item == Some(1i32),
    {
        Some(1)
    }

    /// Collects the first `n` elements of the producer: `n` ones.
    pub fn take(&mut self, n: usize) -> (prefix: Vec<i32>)
        ensures
            prefix@ == Seq::new(n as nat, |i: int| 1i32),
    {
        let mut prefix: Vec<i32> = Vec::new();
        let mut taken: usize = 0;
        while taken < n
            invariant
                taken <= n,
                prefix@ == Seq::new(taken as nat, |i: int| 1i32),
            decreases n - taken,
        {
            let item = self.next();
            prefix.push(item.unwrap());
            taken = taken + 1;
        }
        prefix
    }
}

/// The titles on a shelf, in the order in which they were added. Advancing
/// takes the last title off the shelf.
pub struct BookCollection(Vec<String>);

impl View for BookCollection {
    type V = Seq<Seq<char>>;

    closed spec fn view(&self) -> Seq<Seq<char>> {
        texts(self.0@)
    }
}

impl BookCollection {
    /// What an advance yields from a shelf that holds `titles`: the last title,
    /// or nothing from an empty shelf.
    pub open spec fn yields(titles: Seq<Seq<char>>) -> Option<Seq<char>> {
        if titles.len() > 0 {
            Some(titles.last())
        } else {
            None
        }
    }

    /// What is left on a shelf that held `titles` after an advance.
    pub open spec fn remaining(titles: Seq<Seq<char>>) -> Seq<Seq<char>> {
        if titles.len() > 0 {
            titles.drop_last()
        } else {
            titles
        }
    }

    /// What is left on a shelf that held `titles` after `count` advances.
    pub open spec fn after_advances(titles: Seq<Seq<char>>, count: nat) -> Seq<Seq<char>>
        decreases count,
    {
        if count == 0 {
            titles
        } else {
            Self::remaining(Self::after_advances(titles, (count - 1) as nat))
        }
    }

    /// The line that an advance writes to the log.
    pub open spec fn notice(yielded: Option<Seq<char>>) -> Seq<char> {
        match yielded {
            Some(title) => "Accessing book: "@ + title,
            None => "Out of books at the library!"@,
        }
    }

    /// Advances the shelf: takes off the title that was added last and returns
    /// it, or returns `None` and leaves the shelf empty as it was. Either way one
    /// line is added to `log`, which names the title or says that none is left.
    pub fn next(&mut self, log: &mut Vec<String>) -> (book: Option<String>)
        ensures
            opt_text(book) == Self::yields(old(self)@),
            final(self)@ == Self::remaining(old(self)@),
            texts(final(log)@) == texts(old(log)@).push(Self::notice(Self::yields(old(self)@))),
    {
        match self.0.pop() {
            Some(book) => {
                let mut line = String::from_str("Accessing book: ");
                line.append(book.as_str());
                proof {
                    lemma_texts_push(log@, line);
                    assert(self@ =~= old(self)@.drop_last());
                }
                log.push(line);
                Some(book)
            },
            None => {
                let line = String::from_str("Out of books at the library!");
                proof {
                    lemma_texts_push(log@, line);
                }
                log.push(line);
                None
            },
        }
    }

    /// Successive advances hand the titles out from the last one added to the
    /// first. After as many advances as there were titles the shelf is empty, an
    /// advance yields nothing, and it leaves the shelf as it is.
    pub proof fn lemma_advances_yield_in_reverse(titles: Seq<Seq<char>>, count: nat)
        ensures
            count <= titles.len() ==> Self::after_advances(titles, count) == titles.take(
                titles.len() - count,
            ),
            count < titles.len() ==> Self::yields(Self::after_advances(titles, count)) == Some(
                titles[titles.len() - 1 - count],
            ),
            count >= titles.len() ==> Self::after_advances(titles, count).len() == 0,
            count >= titles.len() ==> Self::yields(Self::after_advances(titles, count)) is None,
            count >= titles.len() ==> Self::after_advances(titles, count + 1)
                == Self::after_advances(titles, count),
        decreases count,
    {
        if count == 0 {
            assert(titles.take(titles.len() as int) =~= titles);
        } else {
            Self::lemma_advances_yield_in_reverse(titles, (count - 1) as nat);
            if count <= titles.len() {
                assert(titles.take(titles.len() - count + 1).drop_last() =~= titles.take(
                    titles.len() - count,
                ));
            }
        }
    }
}

/// A library: its name and the books on its shelf.
pub struct Library {
    name: String,
    books: BookCollection,
}

impl Library {
    /// The name of the library.
    pub closed spec fn name(&self) -> Seq<char> {
        self.name@
    }

    /// The titles on the shelf, in the order in which they were added.
    pub closed spec fn titles(&self) -> Seq<Seq<char>> {
        self.books@
    }

    /// Puts a book on the shelf, behind those that are there.
    pub fn add_book(&mut self, book: &str)
        ensures
            final(self).titles() == old(self).titles().push(book@),
            final(self).name() == old(self).name(),
    {
        let title = book.to_string();
        proof {
            lemma_texts_push(self.books.0@, title);
        }
        self.books.0.push(title);
    }

    /// A library of the given name with an empty shelf.
    pub fn new(name: &str) -> (library: Self)
        ensures
            library.name() == name@,
            library.titles() == Seq::<Seq<char>>::empty(),
    {
        let library = Self { name: name.to_string(), books: BookCollection(Vec::new()) };
        assert(library.titles() =~= Seq::<Seq<char>>::empty());
        library
    }

    /// A shelf of its own with the same titles: advancing it leaves the
    /// library's books where they are.
    pub fn get_books(&self) -> (books: BookCollection)
        ensures
            books@ == self.titles(),
    {
        BookCollection(self.books.0.clone())
    }
}

} // verus!
