use vstd::prelude::*;
use crate::text::{decimal, decimal_text, join2};

verus! {

/// A finished clip whose upload did not complete.
#[derive(Debug, PartialEq, Eq)]
pub struct FailedUpload {
    pub id: String,
    pub title: String,
    pub game: String,
    /// Where the finished clip lies.
    pub processed_path: String,
    /// Where the raw capture lies.
    pub full_path: String,
    /// When the record was made, in seconds since the Unix epoch.
    pub timestamp: u64,
}

pub struct FailedUploadView {
    pub id: Seq<char>,
    pub title: Seq<char>,
    pub game: Seq<char>,
    pub processed_path: Seq<char>,
    pub full_path: Seq<char>,
    pub timestamp: u64,
}

impl View for FailedUpload {
    type V = FailedUploadView;

    open spec fn view(&self) -> FailedUploadView {
        FailedUploadView {
            id: self.id@,
            title: self.title@,
            game: self.game@,
            processed_path: self.processed_path@,
            full_path: self.full_path@,
            timestamp: self.timestamp,
        }
    }
}

impl DeepView for FailedUpload {
    type V = FailedUploadView;

    open spec fn deep_view(&self) -> FailedUploadView {
        self@
    }
}

impl Clone for FailedUpload {
    fn clone(&self) -> (copy: Self)
        ensures
            copy@ == self@,
    {
        FailedUpload {
            id: self.id.clone(),
            title: self.title.clone(),
            game: self.game.clone(),
            processed_path: self.processed_path.clone(),
            full_path: self.full_path.clone(),
            timestamp: self.timestamp,
        }
    }
}

/// How many characters of the title enter the identifier.
pub const ID_TITLE_CHARS: usize = 20;

/// The first `ID_TITLE_CHARS` characters of `title`, or all of it where it is shorter.
pub open spec fn title_prefix(title: Seq<char>) -> Seq<char> {
    if title.len() <= ID_TITLE_CHARS {
        title
    } else {
        title.take(ID_TITLE_CHARS as int)
    }
}

/// The identifier of a record: the time it was made, a hyphen, and the start of its title.
pub open spec fn upload_id(timestamp: u64, title: Seq<char>) -> Seq<char> {
    decimal_text(timestamp as nat) + "-"@ + title_prefix(title)
}

/// The name under which a record is listed: the title, with the game in
/// brackets behind it where one is known.
pub open spec fn listed_name(title: Seq<char>, game: Seq<char>) -> Seq<char> {
    if game.len() == 0 {
        title
    } else {
        title + " ["@ + game + "]"@
    }
}

impl FailedUploadView {
    pub open spec fn display_name(self) -> Seq<char> {
        listed_name(self.title, self.game)
    }
}

impl FailedUpload {
    /// The record of an upload that failed at `timestamp` seconds since the Unix epoch.
    pub fn new(
        title: String,
        game: String,
        processed_path: String,
        full_path: String,
        timestamp: u64,
    ) -> (upload: Self)
        ensures
            upload@ == (FailedUploadView {
                id: upload_id(timestamp, title@),
                title: title@,
                game: game@,
                processed_path: processed_path@,
                full_path: full_path@,
                timestamp,
            }),
    {
        let mut id = decimal(timestamp);
        id.push('-');
        proof {
            reveal_strlit("-");
            assert(id@ =~= decimal_text(timestamp as nat) + "-"@);
        }
        let ghost head = id@;
        let mut taken: usize = 0;
        for c in it: title.as_str().chars()
            invariant
                it.seq() == title@,
                taken <= ID_TITLE_CHARS,
                taken == if it.index() <= ID_TITLE_CHARS {
                    it.index()
                } else {
                    ID_TITLE_CHARS as int
                },
                id@ == head + title@.take(taken as int),
        {
            if taken < ID_TITLE_CHARS {
                id.push(c);
                assert(title@.take(taken + 1) =~= title@.take(taken as int).push(c));
                assert(id@ =~= head + title@.take(taken + 1));
                taken = taken + 1;
            }
        }
        proof {
            if title@.len() <= ID_TITLE_CHARS {
                assert(title@.take(taken as int) =~= title@);
            }
        }
        FailedUpload { id, title, game, processed_path, full_path, timestamp }
    }

    pub fn display_name(&self) -> (name: String)
        ensures
            name@ == self@.display_name(),
    {
        if self.game.as_str().is_empty() {
            self.title.clone()
        } else {
            let mut name = join2(self.title.as_str(), " [");
            name.append(self.game.as_str());
            name.append("]");
            name
        }
    }
}

/// The uploads that failed, oldest first.
#[derive(Debug, PartialEq, Eq)]
pub struct FailedUploadsList {
    pub uploads: Vec<FailedUpload>,
}

impl View for FailedUploadsList {
    type V = Seq<FailedUploadView>;

    open spec fn view(&self) -> Seq<FailedUploadView> {
        self.uploads.deep_view()
    }
}

impl DeepView for FailedUploadsList {
    type V = Seq<FailedUploadView>;

    open spec fn deep_view(&self) -> Seq<FailedUploadView> {
        self@
    }
}

impl Clone for FailedUploadsList {
    fn clone(&self) -> (copy: Self)
        ensures
            copy@ == self@,
    {
        FailedUploadsList { uploads: self.uploads.clone() }
    }
}

impl Default for FailedUploadsList {
    fn default() -> (list: Self)
        ensures
            list@ == Seq::<FailedUploadView>::empty(),
    {
        let list = FailedUploadsList { uploads: Vec::new() };
        assert(list@ =~= Seq::<FailedUploadView>::empty());
        list
    }
}

/// Record `i` is the first of `uploads` that goes by `id`.
pub open spec fn is_first_with_id(uploads: Seq<FailedUploadView>, id: Seq<char>, i: int) -> bool {
    &&& 0 <= i < uploads.len()
    &&& uploads[i].id == id
    &&& forall|j: int| 0 <= j < i ==> (#[trigger] uploads[j]).id != id
}

/// Where the first record that goes by `id` stands, if there is one.
pub open spec fn position_of(uploads: Seq<FailedUploadView>, id: Seq<char>) -> Option<int> {
    if exists|i: int| is_first_with_id(uploads, id, i) {
        Some(choose|i: int| is_first_with_id(uploads, id, i))
    } else {
        None
    }
}

/// Whether some record goes by `id`.
pub open spec fn has_id(uploads: Seq<FailedUploadView>, id: Seq<char>) -> bool {
    exists|i: int| 0 <= i < uploads.len() && (#[trigger] uploads[i]).id == id
}

/// No two records share an identifier.
pub open spec fn unique_ids(uploads: Seq<FailedUploadView>) -> bool {
    forall|i: int, j: int|
        0 <= i < j < uploads.len() ==> (#[trigger] uploads[i]).id != (#[trigger] uploads[j]).id
}

/// The list without the first record that goes by `id`.
pub open spec fn without(uploads: Seq<FailedUploadView>, id: Seq<char>) -> Seq<FailedUploadView> {
    match position_of(uploads, id) {
        Some(i) => uploads.remove(i),
        None => uploads,
    }
}

/// The first record that goes by `id`, if there is one.
pub open spec fn lookup(uploads: Seq<FailedUploadView>, id: Seq<char>) -> Option<FailedUploadView> {
    match position_of(uploads, id) {
        Some(i) => Some(uploads[i]),
        None => None,
    }
}

/// At most one record is the first that goes by `id`.
pub proof fn lemma_first_with_id_unique(
    uploads: Seq<FailedUploadView>,
    id: Seq<char>,
    i: int,
    j: int,
)
    requires
        is_first_with_id(uploads, id, i),
        is_first_with_id(uploads, id, j),
    ensures
        i == j,
{
}

/// A record is found exactly when some record goes by the identifier.
pub proof fn lemma_position_found(uploads: Seq<FailedUploadView>, id: Seq<char>)
    ensures
        position_of(uploads, id) is Some <==> has_id(uploads, id),
        position_of(uploads, id) matches Some(i) ==> is_first_with_id(uploads, id, i),
    decreases uploads.len(),
{
    if has_id(uploads, id) {
        let k = choose|k: int| 0 <= k < uploads.len() && (#[trigger] uploads[k]).id == id;
        lemma_first_below(uploads, id, k);
    }
}

/// Below any record that goes by `id` stands the first that does, or it is the first itself.
proof fn lemma_first_below(uploads: Seq<FailedUploadView>, id: Seq<char>, k: int)
    requires
        0 <= k < uploads.len(),
        uploads[k].id == id,
    ensures
        exists|i: int| 0 <= i <= k && is_first_with_id(uploads, id, i),
    decreases k,
{
    if exists|j: int| 0 <= j < k && (#[trigger] uploads[j]).id == id {
        let j = choose|j: int| 0 <= j < k && (#[trigger] uploads[j]).id == id;
        lemma_first_below(uploads, id, j);
    } else {
        assert(is_first_with_id(uploads, id, k));
    }
}

/// Where identifiers are unique, taking a record out leaves none that goes by
/// its identifier, and the identifiers stay unique.
pub proof fn lemma_without_removes(uploads: Seq<FailedUploadView>, id: Seq<char>)
    requires
        unique_ids(uploads),
    ensures
        !has_id(without(uploads, id), id),
        unique_ids(without(uploads, id)),
        without(uploads, id).len() == uploads.len() - (if has_id(uploads, id) {
            1int
        } else {
            0int
        }),
{
    lemma_position_found(uploads, id);
    match position_of(uploads, id) {
        Some(i) => {
            let rest = uploads.remove(i);
            assert forall|k: int| 0 <= k < rest.len() implies (#[trigger] rest[k]).id != id by {
                if k < i {
                    assert(rest[k] == uploads[k]);
                } else {
                    assert(rest[k] == uploads[k + 1]);
                    assert(uploads[i].id != uploads[k + 1].id);
                }
            }
            assert forall|a: int, b: int| 0 <= a < b < rest.len() implies (#[trigger] rest[a]).id
                != (#[trigger] rest[b]).id by {
                let a0 = if a < i {
                    a
                } else {
                    a + 1
                };
                let b0 = if b < i {
                    b
                } else {
                    b + 1
                };
                assert(rest[a] == uploads[a0]);
                assert(rest[b] == uploads[b0]);
                assert(uploads[a0].id != uploads[b0].id);
            }
        },
        None => {},
    }
}

/// A record with a fresh identifier keeps the identifiers unique.
pub proof fn lemma_push_keeps_unique(uploads: Seq<FailedUploadView>, upload: FailedUploadView)
    requires
        unique_ids(uploads),
        !has_id(uploads, upload.id),
    ensures
        unique_ids(uploads.push(upload)),
{
    let grown = uploads.push(upload);
    assert forall|i: int, j: int| 0 <= i < j < grown.len() implies (#[trigger] grown[i]).id != (
    #[trigger] grown[j]).id by {
        if j < uploads.len() {
            assert(grown[i] == uploads[i]);
            assert(grown[j] == uploads[j]);
        } else {
            assert(grown[i] == uploads[i]);
        }
    }
}

impl FailedUploadsList {
    /// Where the first record that goes by `id` stands.
    fn position(&self, id: &str) -> (found: Option<usize>)
        ensures
            match found {
                Some(i) => position_of(self@, id@) == Some(i as int) && i < self.uploads.len(),
                None => position_of(self@, id@) is None,
            },
    {
        let mut i: usize = 0;
        while i < self.uploads.len()
            invariant
                i <= self.uploads.len(),
                forall|j: int| 0 <= j < i ==> (#[trigger] self@[j]).id != id@,
            decreases self.uploads.len() - i,
        {
            assert(self@[i as int] == self.uploads[i as int]@);
            if crate::text::same_text(self.uploads[i].id.as_str(), id) {
                proof {
                    assert(is_first_with_id(self@, id@, i as int));
                    let chosen = choose|k: int| is_first_with_id(self@, id@, k);
                    lemma_first_with_id_unique(self@, id@, i as int, chosen);
                }
                return Some(i);
            }
            i = i + 1;
        }
        None
    }

    /// Puts `upload` at the end of the list. The identifiers stay unique where
    /// the new one is not yet in use.
    pub fn add(&mut self, upload: FailedUpload)
        ensures
            final(self)@ == old(self)@.push(upload@),
            unique_ids(old(self)@) && !has_id(old(self)@, upload@.id) ==> unique_ids(final(self)@),
    {
        proof {
            if unique_ids(self@) && !has_id(self@, upload@.id) {
                lemma_push_keeps_unique(self@, upload@);
            }
        }
        self.uploads.push(upload);
        assert(self@ =~= old(self)@.push(upload@));
    }

    /// Takes the first record that goes by `id` out of the list and returns it.
    /// Where the identifiers are unique, none of the records left goes by `id`.
    pub fn remove(&mut self, id: &str) -> (removed: Option<FailedUpload>)
        ensures
            final(self)@ == without(old(self)@, id@),
            removed.deep_view() == lookup(old(self)@, id@),
            removed is Some <==> has_id(old(self)@, id@),
            unique_ids(old(self)@) ==> unique_ids(final(self)@) && !has_id(final(self)@, id@),
    {
        proof {
            lemma_position_found(self@, id@);
            if unique_ids(self@) {
                lemma_without_removes(self@, id@);
            }
        }
        match self.position(id) {
            Some(pos) => {
                let ghost before = self@;
                assert(before[pos as int] == self.uploads[pos as int]@);
                let upload = self.uploads.remove(pos);
                assert(self@ =~= before.remove(pos as int));
                Some(upload)
            },
            None => None,
        }
    }

    /// The first record that goes by `id`.
    pub fn get(&self, id: &str) -> (found: Option<&FailedUpload>)
        ensures
            found.deep_view() == lookup(self@, id@),
            found is Some <==> has_id(self@, id@),
            found matches Some(upload) ==> upload@.id == id@,
    {
        proof {
            lemma_position_found(self@, id@);
        }
        match self.position(id) {
            Some(pos) => {
                assert(self@[pos as int] == self.uploads[pos as int]@);
                Some(&self.uploads[pos])
            },
            None => None,
        }
    }
}

} // verus!
