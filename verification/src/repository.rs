//! The puzzle collections, one for each difficulty, and the random draw of a
//! puzzle from one of them.

use vstd::prelude::*;
use rand::seq::SliceRandom;
use crate::error::GameError;
use crate::puzzle::Puzzle;

verus! {

/// The puzzle collections that have been read, each under the name of its
/// difficulty.
pub struct PuzzleRepository {
    names: Vec<String>,
    collections: Vec<Vec<Puzzle>>,
}

impl View for PuzzleRepository {
    type V = Map<Seq<char>, Seq<Puzzle>>;

    /// The collections by the name of their difficulty.
    closed spec fn view(&self) -> Map<Seq<char>, Seq<Puzzle>> {
        Map::new(
            |name: Seq<char>| exists|i: int| self.shelved(i, name),
            |name: Seq<char>| self.collections[self.shelf_of(name)]@,
        )
    }
}

/// Why no puzzle of the difficulty `difficulty` can be drawn from the
/// collections `held`, if none can: no collection has that name, or the
/// collection is empty.
pub open spec fn refusal(held: Map<Seq<char>, Seq<Puzzle>>, difficulty: Seq<char>) -> Option<
    GameError,
> {
    if !held.dom().contains(difficulty) {
        Some(GameError::SourceUnavailable)
    } else if held[difficulty].len() == 0 {
        Some(GameError::EmptyCollection)
    } else {
        None
    }
}

/// Returns a reference to one entry of `entries`, chosen at random, by calling
/// `rand::seq::SliceRandom::choose` on the slice with the generator that
/// `rand::thread_rng` hands out.
///
/// The body is not verified. Its contract states what `choose` does for a
/// slice: it returns `None` exactly when the slice is empty, and otherwise a
/// reference to the element at an index below the length. Which index is left
/// open, so nothing is claimed about how the draws are distributed.
/// `thread_rng` panics if the operating system cannot seed the generator.
#[verifier::external_body]
fn choose_entry<'a>(entries: &'a Vec<Puzzle>) -> (chosen: Option<&'a Puzzle>)
    ensures
        chosen is None <==> entries@.len() == 0,
        chosen matches Some(entry) ==> entries@.contains(*entry),
{
    entries.choose(&mut rand::thread_rng())
}

impl PuzzleRepository {
    /// Whether position `i` holds the collection named `name`.
    spec fn shelved(&self, i: int, name: Seq<char>) -> bool {
        0 <= i < self.names.len() && self.names[i]@ == name
    }

    /// A position that holds the collection named `name`.
    spec fn shelf_of(&self, name: Seq<char>) -> int {
        choose|i: int| self.shelved(i, name)
    }

    /// Every name has its collection, and no name occurs twice.
    pub closed spec fn wf(&self) -> bool {
        &&& self.names.len() == self.collections.len()
        &&& forall|i: int, j: int, name: Seq<char>|
            #![trigger self.shelved(i, name), self.shelved(j, name)]
            self.shelved(i, name) && self.shelved(j, name) ==> i == j
    }

    /// A repository without any collection.
    pub fn new() -> (repository: PuzzleRepository)
        ensures
            repository.wf(),
            repository@ == Map::<Seq<char>, Seq<Puzzle>>::empty(),
    {
        let repository = PuzzleRepository { names: Vec::new(), collections: Vec::new() };
        repository
    }

    /// The position of the collection named `difficulty`, if there is one.
    fn position(&self, difficulty: &str) -> (found: Option<usize>)
        requires
            self.wf(),
        ensures
            found is Some <==> self@.dom().contains(difficulty@),
            found matches Some(i) ==> (self.shelved(i as int, difficulty@)
                && self.collections[i as int]@ == self@[difficulty@]),
    {
        let wanted: String = difficulty.to_owned();
        let mut i: usize = 0;
        while i < self.names.len()
            invariant
                i <= self.names.len(),
                self.wf(),
                wanted@ == difficulty@,
                forall|j: int| 0 <= j < i ==> !self.shelved(j, difficulty@),
            decreases self.names.len() - i,
        {
            if self.names[i] == wanted {
                assert(self.shelved(i as int, difficulty@));
                return Some(i);
            }
            i += 1;
        }
        None
    }

    /// Whether a collection is held under the name `difficulty`.
    pub fn contains(&self, difficulty: &str) -> (held: bool)
        requires
            self.wf(),
        ensures
            held == self@.dom().contains(difficulty@),
    {
        self.position(difficulty).is_some()
    }

    /// Puts the collection `puzzles` under the name `difficulty`, in place of
    /// any collection held under that name before.
    pub fn insert(&mut self, difficulty: &str, puzzles: Vec<Puzzle>)
        requires
            old(self).wf(),
        ensures
            final(self).wf(),
            final(self)@ == old(self)@.insert(difficulty@, puzzles@),
    {
        let ghost before = *self;
        match self.position(difficulty) {
            Some(i) => {
                self.collections[i] = puzzles;
                assert forall|j: int, name: Seq<char>| #[trigger]
                    self.shelved(j, name) implies before.shelved(j, name) by {}
                assert forall|j: int, name: Seq<char>| #[trigger]
                    before.shelved(j, name) implies self.shelved(j, name) by {}
            },
            None => {
                self.names.push(difficulty.to_owned());
                self.collections.push(puzzles);
                let ghost last = before.names.len() as int;
                assert(self.shelved(last, difficulty@));
                assert forall|j: int, name: Seq<char>| #[trigger]
                    self.shelved(j, name) implies before.shelved(j, name) || (j == last && name
                    == difficulty@) by {}
                assert forall|j: int, name: Seq<char>| #[trigger]
                    before.shelved(j, name) implies self.shelved(j, name) && name
                    != difficulty@ by {}
            },
        }
        assert(self@ =~= before@.insert(difficulty@, puzzles@));
    }

    /// Draws one puzzle at random from the collection named `difficulty`.
    /// Fails with `SourceUnavailable` if no collection is held under that name
    /// and with `EmptyCollection` if the collection holds no puzzle; otherwise
    /// the result is one of the collection's puzzles.
    pub fn load(&self, difficulty: &str) -> (r: Result<&Puzzle, GameError>)
        requires
            self.wf(),
        ensures
            r matches Err(e) ==> refusal(self@, difficulty@) == Some(e),
            r matches Ok(puzzle) ==> refusal(self@, difficulty@) is None
                && self@[difficulty@].contains(*puzzle),
    {
        match self.position(difficulty) {
            None => Err(GameError::SourceUnavailable),
            Some(i) => match choose_entry(&self.collections[i]) {
                None => Err(GameError::EmptyCollection),
                Some(puzzle) => Ok(puzzle),
            },
        }
    }
}

} // verus!
