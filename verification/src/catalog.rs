//! The game catalog: games under identifiers, no identifier twice.

use crate::game::{
    game_json, game_object, listed, Game, GameListing, GameListingView, GameView,
};
use crate::json::{
    array, json_string, json_strings, member, member_text, object, object_text, quote,
};
use crate::text::same_text;
use vstd::prelude::*;

verus! {

/// What a catalog holds: identifiers with their games, in the order in
/// which the identifiers first came in.
pub type CatalogView = Seq<(Seq<char>, GameView)>;

/// What a listing holds: identifiers with the listed part of their games.
pub type ListingView = Seq<(Seq<char>, GameListingView)>;

/// Whether some entry stands under `id`.
pub open spec fn has_id(entries: CatalogView, id: Seq<char>) -> bool {
    exists|i: int| 0 <= i < entries.len() && (#[trigger] entries[i]).0 == id
}

/// The position of an entry under `id`.
pub open spec fn index_of(entries: CatalogView, id: Seq<char>) -> int {
    choose|i: int| 0 <= i < entries.len() && (#[trigger] entries[i]).0 == id
}

/// The game under `id`.
pub open spec fn game_of(entries: CatalogView, id: Seq<char>) -> GameView {
    entries[index_of(entries, id)].1
}

/// No identifier stands twice.
pub open spec fn distinct_ids(entries: CatalogView) -> bool {
    forall|i: int, j: int|
        0 <= i < j < entries.len() ==> (#[trigger] entries[i]).0 != (#[trigger] entries[j]).0
}

/// The entries after `game` was put under `id`: in the place of the entry
/// that stood there, or at the end where none did.
pub open spec fn inserted(entries: CatalogView, id: Seq<char>, game: GameView) -> CatalogView {
    if has_id(entries, id) {
        entries.update(index_of(entries, id), (id, game))
    } else {
        entries.push((id, game))
    }
}

/// Where identifiers are distinct, the entry under an identifier is the
/// one and only entry that carries it.
pub proof fn index_of_is_unique(entries: CatalogView, id: Seq<char>, i: int)
    requires
        distinct_ids(entries),
        0 <= i < entries.len(),
        entries[i].0 == id,
    ensures
        has_id(entries, id),
        index_of(entries, id) == i,
        game_of(entries, id) == entries[i].1,
{
    assert(has_id(entries, id));
    let j = index_of(entries, id);
    assert(entries[j].0 == id);
    if j < i {
        assert(entries[j].0 != entries[i].0);
    } else if i < j {
        assert(entries[i].0 != entries[j].0);
    }
}

/// A catalog is a map from identifiers to games: putting a game under an
/// identifier keeps the identifiers distinct, makes that game the one under
/// the identifier, and leaves every other identifier as it was.
pub proof fn inserted_is_map_update(entries: CatalogView, id: Seq<char>, game: GameView)
    requires
        distinct_ids(entries),
    ensures
        distinct_ids(inserted(entries, id, game)),
        has_id(inserted(entries, id, game), id),
        game_of(inserted(entries, id, game), id) == game,
        inserted(entries, id, game).len() == if has_id(entries, id) {
            entries.len()
        } else {
            entries.len() + 1
        },
        forall|other: Seq<char>|
            other != id ==> #[trigger] has_id(inserted(entries, id, game), other) == has_id(
                entries,
                other,
            ),
        forall|other: Seq<char>|
            other != id && has_id(entries, other) ==> #[trigger] game_of(
                inserted(entries, id, game),
                other,
            ) == game_of(entries, other),
{
    let after = inserted(entries, id, game);
    let at: int = if has_id(entries, id) {
        index_of(entries, id)
    } else {
        entries.len() as int
    };
    assert(0 <= at < after.len() && after[at] == (id, game));
    assert forall|i: int, j: int| 0 <= i < j < after.len() implies (#[trigger] after[i]).0 != (
    #[trigger] after[j]).0 by {
        if has_id(entries, id) {
            assert(after[i].0 == entries[i].0 && after[j].0 == entries[j].0);
        } else if j == entries.len() {
            assert(after[i] == entries[i]);
        } else {
            assert(after[i] == entries[i] && after[j] == entries[j]);
        }
    }
    index_of_is_unique(after, id, at);
    assert forall|other: Seq<char>| other != id implies #[trigger] has_id(after, other) == has_id(
        entries,
        other,
    ) by {
        if has_id(after, other) {
            let k = index_of(after, other);
            assert(after[k].0 == other);
            assert(k != at);
            assert(entries[k].0 == other);
        }
        if has_id(entries, other) {
            let k = index_of(entries, other);
            assert(entries[k].0 == other);
            assert(after[k].0 == other);
        }
    }
    assert forall|other: Seq<char>| other != id && has_id(entries, other) implies (
    #[trigger] game_of(after, other)) == game_of(entries, other) by {
        let k = index_of(entries, other);
        assert(entries[k].0 == other);
        assert(k != at);
        assert(after[k] == entries[k]);
        index_of_is_unique(after, other, k);
    }
}

/// The listing of a catalog: the same identifiers in the same order, each
/// with the listed part of its game.
pub open spec fn listing_of(entries: CatalogView) -> ListingView {
    Seq::new(entries.len(), |i: int| (entries[i].0, listed(entries[i].1)))
}

/// One member of the listing's JSON object: the identifier as the key, the
/// listed game as the value.
pub open spec fn member_json(entry: (Seq<char>, GameListingView)) -> Seq<char> {
    member(json_string(entry.0), game_json(entry.1))
}

/// The members of the listing's JSON object, one for each entry, in order.
pub open spec fn members_json(listing: ListingView) -> Seq<Seq<char>> {
    Seq::new(listing.len(), |i: int| member_json(listing[i]))
}

/// The JSON object of a listing, keyed by identifier.
pub open spec fn listing_json(listing: ListingView) -> Seq<char> {
    object(members_json(listing))
}

/// What a list of identifiers and listed games holds.
pub open spec fn listing_view(list: Seq<(String, GameListing)>) -> ListingView {
    Seq::new(list.len(), |i: int| (list[i].0@, list[i].1@))
}

/// A listing does not depend on executables or their arguments: two
/// catalogs that agree on the identifiers and on the listed part of every
/// game have the same listing and the same JSON text.
pub proof fn listing_hides_launch_fields(a: CatalogView, b: CatalogView)
    requires
        a.len() == b.len(),
        forall|i: int| 0 <= i < a.len() ==> (#[trigger] a[i]).0 == b[i].0,
        forall|i: int| 0 <= i < a.len() ==> listed((#[trigger] a[i]).1) == listed(b[i].1),
    ensures
        listing_of(a) == listing_of(b),
        listing_json(listing_of(a)) == listing_json(listing_of(b)),
{
    assert(listing_of(a) =~= listing_of(b));
}

/// Every entry of a listing has its game's name, description, genres and
/// thumbnail path, and stands under its game's identifier.
pub proof fn listing_keeps_shown_fields(entries: CatalogView, i: int)
    requires
        0 <= i < entries.len(),
    ensures
        listing_of(entries).len() == entries.len(),
        listing_of(entries)[i].0 == entries[i].0,
        listing_of(entries)[i].1.name == entries[i].1.name,
        listing_of(entries)[i].1.description == entries[i].1.description,
        listing_of(entries)[i].1.genres == entries[i].1.genres,
        listing_of(entries)[i].1.thumbnail_path == entries[i].1.thumbnail_path,
{
}

/// The JSON text of a listing is an object with one member for each entry
/// of the catalog, in order: the identifier as the key, and as the value
/// an object of the game's name, description, genres and thumbnail path,
/// and of nothing else.
pub proof fn listing_json_members(entries: CatalogView, i: int)
    requires
        0 <= i < entries.len(),
    ensures
        listing_json(listing_of(entries)) == object(members_json(listing_of(entries))),
        members_json(listing_of(entries)).len() == entries.len(),
        members_json(listing_of(entries))[i] == member(
            json_string(entries[i].0),
            game_object(
                json_string(entries[i].1.name),
                json_string(entries[i].1.description),
                array(json_strings(entries[i].1.genres)),
                json_string(entries[i].1.thumbnail_path),
            ),
        ),
{
}

/// A game under its identifier.
#[derive(Debug, Clone, PartialEq)]
pub struct Entry {
    pub id: String,
    pub game: Game,
}

/// The games that can be listed and launched, each under its identifier.
#[derive(Debug, PartialEq)]
pub struct GameCatalog {
    entries: Vec<Entry>,
}

/// What a list of entries holds.
pub open spec fn entries_view(entries: Seq<Entry>) -> CatalogView {
    Seq::new(entries.len(), |i: int| (entries[i].id@, entries[i].game@))
}

impl View for GameCatalog {
    type V = CatalogView;

    closed spec fn view(&self) -> CatalogView {
        entries_view(self.entries@)
    }
}

impl GameCatalog {
    #[verifier::type_invariant]
    spec fn no_id_twice(self) -> bool {
        distinct_ids(self@)
    }

    /// A catalog without games.
    pub fn new() -> (catalog: Self)
        ensures
            catalog@.len() == 0,
    {
        GameCatalog { entries: Vec::new() }
    }

    /// How many games the catalog holds.
    pub fn len(&self) -> (count: usize)
        ensures
            count == self@.len(),
            distinct_ids(self@),
    {
        proof {
            use_type_invariant(self);
        }
        self.entries.len()
    }

    /// The entries, in the catalog's order.
    pub fn entries(&self) -> (entries: &Vec<Entry>)
        ensures
            entries_view(entries@) == self@,
            distinct_ids(self@),
    {
        proof {
            use_type_invariant(self);
        }
        &self.entries
    }

    /// Where the entry under `id` stands, if there is one.
    fn position(&self, id: &str) -> (at: Option<usize>)
        ensures
            distinct_ids(self@),
            match at {
                Some(i) => i < self@.len() && self@[i as int].0 == id@ && index_of(self@, id@) == i
                    && has_id(self@, id@),
                None => !has_id(self@, id@),
            },
    {
        proof {
            use_type_invariant(self);
        }
        let mut i: usize = 0;
        while i < self.entries.len()
            invariant
                i <= self.entries.len(),
                self@.len() == self.entries.len(),
                distinct_ids(self@),
                forall|k: int| 0 <= k < i ==> (#[trigger] self@[k]).0 != id@,
            decreases self.entries.len() - i,
        {
            if same_text(self.entries[i].id.as_str(), id) {
                proof {
                    index_of_is_unique(self@, id@, i as int);
                }
                return Some(i);
            }
            i = i + 1;
        }
        None
    }

    /// Whether a game stands under `id`.
    pub fn contains(&self, id: &str) -> (found: bool)
        ensures
            found == has_id(self@, id@),
    {
        self.position(id).is_some()
    }

    /// The game under `id`, if there is one.
    pub fn lookup(&self, id: &str) -> (found: Option<&Game>)
        ensures
            distinct_ids(self@),
            match found {
                Some(game) => has_id(self@, id@) && game@ == game_of(self@, id@),
                None => !has_id(self@, id@),
            },
    {
        match self.position(id) {
            Some(i) => Some(&self.entries[i].game),
            None => None,
        }
    }

    /// Puts `game` under `id`. Where a game stood there already, the new one
    /// takes its place and the old one is returned.
    pub fn insert(&mut self, id: String, game: Game) -> (replaced: Option<Game>)
        ensures
            final(self)@ == inserted(old(self)@, id@, game@),
            distinct_ids(final(self)@),
            has_id(final(self)@, id@),
            game_of(final(self)@, id@) == game@,
            forall|other: Seq<char>|
                other != id@ ==> #[trigger] has_id(final(self)@, other) == has_id(
                    old(self)@,
                    other,
                ),
            forall|other: Seq<char>|
                other != id@ && has_id(old(self)@, other) ==> #[trigger] game_of(
                    final(self)@,
                    other,
                ) == game_of(old(self)@, other),
            match replaced {
                Some(earlier) => has_id(old(self)@, id@) && earlier@ == game_of(old(self)@, id@),
                None => !has_id(old(self)@, id@),
            },
    {
        let at: Option<usize> = self.position(id.as_str());
        let ghost before = self@;
        proof {
            inserted_is_map_update(before, id@, game@);
        }
        // The entries are worked on outside the catalog and put back at the
        // end, so that the catalog never holds an identifier twice.
        let mut entries: Vec<Entry> = Vec::new();
        core::mem::swap(&mut self.entries, &mut entries);
        assert(entries_view(entries@) =~= before);
        // The new entry goes to the end. Where an entry stood under the
        // identifier, taking that one out moves the new one into its place.
        entries.push(Entry { id, game });
        let replaced: Option<Game> = match at {
            Some(i) => {
                let earlier: Entry = entries.swap_remove(i);
                Some(earlier.game)
            },
            None => None,
        };
        assert(entries_view(entries@) =~= inserted(before, id@, game@));
        core::mem::swap(&mut self.entries, &mut entries);
        replaced
    }

    /// The identifiers with the listed part of their games, in the
    /// catalog's order.
    pub fn list(&self) -> (list: Vec<(String, GameListing)>)
        ensures
            listing_view(list@) == listing_of(self@),
            distinct_ids(self@),
    {
        proof {
            use_type_invariant(self);
        }
        let mut list: Vec<(String, GameListing)> = Vec::new();
        let mut i: usize = 0;
        while i < self.entries.len()
            invariant
                i <= self.entries.len(),
                self@.len() == self.entries.len(),
                list.len() == i,
                forall|k: int|
                    0 <= k < i ==> (#[trigger] list[k]).0@ == self@[k].0 && list[k].1@ == listed(
                        self@[k].1,
                    ),
            decreases self.entries.len() - i,
        {
            let entry: &Entry = &self.entries[i];
            list.push((entry.id.clone(), entry.game.listing()));
            i = i + 1;
        }
        assert(listing_view(list@) =~= listing_of(self@));
        list
    }

    /// The listing as a JSON object keyed by identifier, in the catalog's
    /// order.
    pub fn to_json(&self) -> (text: String)
        ensures
            text@ == listing_json(listing_of(self@)),
    {
        let list: Vec<(String, GameListing)> = self.list();
        listing_text(&list)
    }
}

/// A listing as a JSON object keyed by identifier.
pub fn listing_text(list: &Vec<(String, GameListing)>) -> (text: String)
    ensures
        text@ == listing_json(listing_view(list@)),
{
    let ghost listing = listing_view(list@);
    let mut members: Vec<String> = Vec::new();
    let mut i: usize = 0;
    while i < list.len()
        invariant
            i <= list.len(),
            listing == listing_view(list@),
            members.len() == i,
            forall|k: int| 0 <= k < i ==> (#[trigger] members[k])@ == member_json(listing[k]),
        decreases list.len() - i,
    {
        let key: String = quote(list[i].0.as_str());
        let value: String = list[i].1.to_json();
        members.push(member_text(key.as_str(), value.as_str()));
        i = i + 1;
    }
    assert(members.deep_view() =~= members_json(listing));
    object_text(&members)
}

} // verus!
