use vstd::prelude::*;

use crate::clock::now_seconds;
use crate::errors::NoteStoreError;
use crate::ids::fresh_id;
use crate::model::{note_response_of, NoteRecord, NoteResponse, NoteView};

verus! {

/// The first position at or after `i` whose row holds `id`, or
/// `notes.len()` if none does.
pub open spec fn note_id_idx_from(notes: Seq<NoteView>, id: int, i: int) -> int
    decreases notes.len() - i,
{
    if i < 0 || i >= notes.len() {
        notes.len() as int
    } else if notes[i].id == id {
        i
    } else {
        note_id_idx_from(notes, id, i + 1)
    }
}

pub open spec fn note_id_idx(notes: Seq<NoteView>, id: int) -> int {
    note_id_idx_from(notes, id, 0)
}

pub open spec fn note_id_taken(notes: Seq<NoteView>, id: int) -> bool {
    note_id_idx(notes, id) < notes.len()
}

/// The row holding `id`, if any.
pub open spec fn find_note(notes: Seq<NoteView>, id: int) -> Option<NoteView> {
    if note_id_taken(notes, id) {
        Some(notes[note_id_idx(notes, id)])
    } else {
        None
    }
}

/// The first position at or after `i` whose row holds `title`, or
/// `notes.len()` if none does.
pub open spec fn note_title_idx_from(notes: Seq<NoteView>, title: Seq<char>, i: int) -> int
    decreases notes.len() - i,
{
    if i < 0 || i >= notes.len() {
        notes.len() as int
    } else if notes[i].title == title {
        i
    } else {
        note_title_idx_from(notes, title, i + 1)
    }
}

pub open spec fn note_title_idx(notes: Seq<NoteView>, title: Seq<char>) -> int {
    note_title_idx_from(notes, title, 0)
}

pub open spec fn note_title_taken(notes: Seq<NoteView>, title: Seq<char>) -> bool {
    note_title_idx(notes, title) < notes.len()
}

/// The store's invariant: no two rows share an id, and no two share a
/// title — the two uniqueness constraints of the `notes` table.
pub open spec fn notes_wf(notes: Seq<NoteView>) -> bool {
    forall|i: int, j: int|
        0 <= i < j < notes.len() ==> (#[trigger] notes[i]).id != (#[trigger] notes[j]).id
            && notes[i].title != notes[j].title
}

/// Creation: a taken title is a conflict, a taken id a key violation;
/// otherwise the row is appended with both timestamps set to `now`.
pub open spec fn create_note_tr(
    notes: Seq<NoteView>,
    title: Seq<char>,
    content: Seq<char>,
    id: int,
    now: int,
) -> (Seq<NoteView>, Result<NoteView, NoteStoreError>) {
    if note_title_taken(notes, title) {
        (notes, Err(NoteStoreError::DuplicateTitle))
    } else if note_id_taken(notes, id) {
        (notes, Err(NoteStoreError::DuplicateId))
    } else {
        let n = NoteView { id, title, content, created_at: now, updated_at: now };
        (notes.push(n), Ok(n))
    }
}

/// Update: an absent id updates nothing; a title held by another row is a
/// conflict; otherwise title and content are replaced and `updated_at`
/// advances to `now` while `created_at` stays.
pub open spec fn update_note_tr(
    notes: Seq<NoteView>,
    id: int,
    title: Seq<char>,
    content: Seq<char>,
    now: int,
) -> (Seq<NoteView>, Result<Option<NoteView>, NoteStoreError>) {
    let i = note_id_idx(notes, id);
    let t = note_title_idx(notes, title);
    if i == notes.len() {
        (notes, Ok(None))
    } else if t < notes.len() && t != i {
        (notes, Err(NoteStoreError::DuplicateTitle))
    } else {
        let n = NoteView {
            id: notes[i].id,
            title,
            content,
            created_at: notes[i].created_at,
            updated_at: now,
        };
        (notes.update(i, n), Ok(Some(n)))
    }
}

/// Deletion is unconditional: the row holding `id` goes if it is there,
/// and nothing fails if it is not.
pub open spec fn delete_note_tr(notes: Seq<NoteView>, id: int) -> Seq<NoteView> {
    let i = note_id_idx(notes, id);
    if i == notes.len() {
        notes
    } else {
        notes.remove(i)
    }
}

/// The verified model of the `notes` table: rows behind the uniqueness
/// constraints the schema declares.
pub struct NoteStore {
    pub(crate) notes: Vec<NoteRecord>,
}

impl View for NoteStore {
    type V = Seq<NoteView>;

    closed spec fn view(&self) -> Seq<NoteView> {
        Seq::new(self.notes@.len(), |i: int| self.notes@[i]@)
    }
}

impl NoteStore {
    pub open spec fn wf(&self) -> bool {
        notes_wf(self@)
    }

    /// An empty table.
    pub fn new() -> (s: NoteStore)
        ensures
            s@.len() == 0,
            s.wf(),
    {
        NoteStore { notes: Vec::new() }
    }

    /// The position of the row holding `id`, or the table's length.
    fn idx_of_id(&self, id: u128) -> (i: usize)
        ensures
            i as int == note_id_idx(self@, id as int),
            i <= self.notes.len(),
    {
        let n = self.notes.len();
        let mut i: usize = 0;
        while i < n
            invariant
                0 <= i <= n,
                n == self.notes.len(),
                note_id_idx(self@, id as int) == note_id_idx_from(self@, id as int, i as int),
            decreases n - i,
        {
            if self.notes[i].id == id {
                return i;
            }
            i += 1;
        }
        i
    }

    /// The position of the row holding `title`, or the table's length.
    fn idx_of_title(&self, title: &str) -> (i: usize)
        ensures
            i as int == note_title_idx(self@, title@),
            i <= self.notes.len(),
    {
        let wanted = title.to_owned();
        let n = self.notes.len();
        let mut i: usize = 0;
        while i < n
            invariant
                0 <= i <= n,
                n == self.notes.len(),
                wanted@ == title@,
                note_title_idx(self@, title@) == note_title_idx_from(self@, title@, i as int),
            decreases n - i,
        {
            if self.notes[i].title == wanted {
                return i;
            }
            i += 1;
        }
        i
    }

    /// Lists every note, in table order.
    pub fn get_notes(&self) -> (r: Vec<NoteResponse>)
        ensures
            r@.len() == self@.len(),
            forall|i: int| 0 <= i < r@.len() ==> #[trigger] r@[i]@ == self@[i],
    {
        let n = self.notes.len();
        let mut out: Vec<NoteResponse> = Vec::new();
        let mut i: usize = 0;
        while i < n
            invariant
                0 <= i <= n,
                n == self.notes.len(),
                out@.len() == i,
                forall|j: int| 0 <= j < i ==> #[trigger] out@[j]@ == self@[j],
            decreases n - i,
        {
            out.push(note_response_of(&self.notes[i]));
            i += 1;
        }
        out
    }

    /// Looks a note up by id; absence is an answer, not a failure.
    pub fn get_note_id(&self, id: u128) -> (r: Option<NoteResponse>)
        ensures
            match r {
                Some(note) => find_note(self@, id as int) == Some(note@),
                None => find_note(self@, id as int) is None,
            },
    {
        let i = self.idx_of_id(id);
        if i < self.notes.len() {
            Some(note_response_of(&self.notes[i]))
        } else {
            None
        }
    }

    /// Inserts a new row, refusing a taken title or a taken id, exactly as
    /// `create_note_tr` says.
    pub fn create_note_at(&mut self, title: &str, content: &str, new_id: u128, now: i64) -> (r:
        Result<NoteResponse, NoteStoreError>)
        requires
            old(self).wf(),
        ensures
            final(self).wf(),
            final(self)@ == create_note_tr(
                old(self)@,
                title@,
                content@,
                new_id as int,
                now as int,
            ).0,
            match r {
                Ok(note) => create_note_tr(
                    old(self)@,
                    title@,
                    content@,
                    new_id as int,
                    now as int,
                ).1 == Ok::<NoteView, NoteStoreError>(note@),
                Err(e) => create_note_tr(
                    old(self)@,
                    title@,
                    content@,
                    new_id as int,
                    now as int,
                ).1 == Err::<NoteView, NoteStoreError>(e),
            },
    {
        let t = self.idx_of_title(title);
        if t < self.notes.len() {
            return Err(NoteStoreError::DuplicateTitle);
        }
        let i = self.idx_of_id(new_id);
        if i < self.notes.len() {
            return Err(NoteStoreError::DuplicateId);
        }
        let record = NoteRecord {
            id: new_id,
            title: title.to_owned(),
            content: content.to_owned(),
            created_at: now,
            updated_at: now,
        };
        let response = note_response_of(&record);
        self.notes.push(record);
        proof {
            let nv = NoteView {
                id: new_id as int,
                title: title@,
                content: content@,
                created_at: now as int,
                updated_at: now as int,
            };
            assert(self@ =~= old(self)@.push(nv));
            lemma_note_id_absent(old(self)@, new_id as int, 0);
            lemma_note_title_absent(old(self)@, title@, 0);
            let u = old(self)@.push(nv);
            assert forall|p: int, q: int| 0 <= p < q < u.len() implies (#[trigger] u[p]).id != (
            #[trigger] u[q]).id && u[p].title != u[q].title by {
                if q < old(self)@.len() {
                    assert(old(self)@[p].id != old(self)@[q].id && old(self)@[p].title != old(
                        self,
                    )@[q].title);
                } else {
                    assert(old(self)@[p].id != new_id as int);
                    assert(old(self)@[p].title != title@);
                }
            }
        }
        Ok(response)
    }

    /// Rewrites the row holding `id` as `update_note_tr` says; an absent id
    /// leaves the table as it was.
    pub fn update_note_at(&mut self, id: u128, title: &str, content: &str, now: i64) -> (r: Result<
        Option<NoteResponse>,
        NoteStoreError,
    >)
        requires
            old(self).wf(),
        ensures
            final(self).wf(),
            final(self)@ == update_note_tr(old(self)@, id as int, title@, content@, now as int).0,
            match r {
                Ok(Some(note)) => update_note_tr(
                    old(self)@,
                    id as int,
                    title@,
                    content@,
                    now as int,
                ).1 == Ok::<Option<NoteView>, NoteStoreError>(Some(note@)),
                Ok(None) => update_note_tr(old(self)@, id as int, title@, content@, now as int).1
                    == Ok::<Option<NoteView>, NoteStoreError>(None),
                Err(e) => update_note_tr(old(self)@, id as int, title@, content@, now as int).1
                    == Err::<Option<NoteView>, NoteStoreError>(e),
            },
    {
        let i = self.idx_of_id(id);
        if i == self.notes.len() {
            return Ok(None);
        }
        let t = self.idx_of_title(title);
        if t < self.notes.len() && t != i {
            return Err(NoteStoreError::DuplicateTitle);
        }
        let record = NoteRecord {
            id: self.notes[i].id,
            title: title.to_owned(),
            content: content.to_owned(),
            created_at: self.notes[i].created_at,
            updated_at: now,
        };
        let response = note_response_of(&record);
        self.notes[i] = record;
        proof {
            let ghost updated = NoteView {
                id: old(self)@[i as int].id,
                title: title@,
                content: content@,
                created_at: old(self)@[i as int].created_at,
                updated_at: now as int,
            };
            assert(self@ =~= old(self)@.update(i as int, updated));
            lemma_update_wf(old(self)@, i as int, updated, title@);
        }
        Ok(Some(response))
    }

    /// Removes the row holding `id` if it is there; deleting an absent id
    /// succeeds all the same.
    pub fn delete_note(&mut self, id: u128)
        requires
            old(self).wf(),
        ensures
            final(self).wf(),
            final(self)@ == delete_note_tr(old(self)@, id as int),
    {
        let i = self.idx_of_id(id);
        if i < self.notes.len() {
            self.notes.remove(i);
            proof {
                assert(self@ =~= old(self)@.remove(i as int));
                lemma_remove_wf(old(self)@, i as int);
            }
        }
    }

    /// Creates a note as the HTTP route does: the id is drawn fresh, never
    /// client-supplied, and both timestamps come off the clock.
    pub fn create_note(&mut self, title: &str, content: &str) -> (r: Result<
        NoteResponse,
        NoteStoreError,
    >)
        requires
            old(self).wf(),
        ensures
            final(self).wf(),
            r matches Err(_) ==> final(self)@ == old(self)@,
            (r == Err::<NoteResponse, NoteStoreError>(NoteStoreError::DuplicateTitle))
                == note_title_taken(old(self)@, title@),
            r == Err::<NoteResponse, NoteStoreError>(NoteStoreError::DuplicateId) ==> old(
                self,
            )@.len() > 0,
            r matches Ok(n) ==> ({
                let stored = final(self)@.last();
                &&& final(self)@ == old(self)@.push(stored)
                &&& n@ == stored
                &&& stored.title == title@
                &&& stored.content == content@
                &&& stored.created_at == stored.updated_at
                &&& !note_id_taken(old(self)@, stored.id)
                &&& !note_title_taken(old(self)@, title@)
            }),
    {
        let new_id = fresh_id();
        let now = now_seconds();
        let r = self.create_note_at(title, content, new_id, now);
        proof {
            lemma_note_id_scan_le(old(self)@, new_id as int, 0);
        }
        r
    }

    /// Updates a note as the HTTP route does: `updated_at` comes off the
    /// clock; an absent id updates nothing, and only a title held by some
    /// other row fails.
    pub fn update_note(&mut self, id: u128, title: &str, content: &str) -> (r: Result<
        Option<NoteResponse>,
        NoteStoreError,
    >)
        requires
            old(self).wf(),
        ensures
            final(self).wf(),
            r matches Err(_) ==> final(self)@ == old(self)@,
            (find_note(old(self)@, id as int) is None) == (r == Ok::<
                Option<NoteResponse>,
                NoteStoreError,
            >(None)),
            find_note(old(self)@, id as int) is None ==> final(self)@ == old(self)@,
            r matches Err(e) ==> e == NoteStoreError::DuplicateTitle && find_note(
                old(self)@,
                id as int,
            ) is Some,
            r matches Ok(Some(n)) ==> ({
                let i = note_id_idx(old(self)@, id as int);
                &&& find_note(old(self)@, id as int) matches Some(prev)
                &&& n@.id == prev.id
                &&& n@.title == title@
                &&& n@.content == content@
                &&& n@.created_at == prev.created_at
                &&& final(self)@ == old(self)@.update(i, n@)
            }),
            find_note(old(self)@, id as int) is Some && (forall|k: int|
                0 <= k < old(self)@.len() && (#[trigger] old(self)@[k]).id != id as int ==> old(
                    self,
                )@[k].title != title@) ==> r matches Ok(Some(_)),
    {
        proof {
            lemma_note_id_scan_le(old(self)@, id as int, 0);
            if note_id_taken(old(self)@, id as int) {
                let i = note_id_idx(old(self)@, id as int);
                lemma_note_id_scan_match(old(self)@, id as int, 0);
                let t = note_title_idx(old(self)@, title@);
                lemma_note_title_scan_le(old(self)@, title@, 0);
                if t < old(self)@.len() {
                    lemma_note_title_scan_match(old(self)@, title@, 0);
                    if t != i {
                        if t < i {
                            assert(old(self)@[t].id != old(self)@[i].id);
                        } else {
                            assert(old(self)@[i].id != old(self)@[t].id);
                        }
                    }
                }
            }
        }
        let now = now_seconds();
        self.update_note_at(id, title, content, now)
    }
}

/// A scan for an id lands between its start and the table's length.
pub proof fn lemma_note_id_scan_le(notes: Seq<NoteView>, id: int, i: int)
    requires
        0 <= i <= notes.len(),
    ensures
        i <= note_id_idx_from(notes, id, i) <= notes.len(),
    decreases notes.len() - i,
{
    if i < notes.len() && notes[i].id != id {
        lemma_note_id_scan_le(notes, id, i + 1);
    }
}

/// A scan that lands inside the table points at the first row from its
/// start that holds the id.
pub proof fn lemma_note_id_scan_match(notes: Seq<NoteView>, id: int, i: int)
    requires
        0 <= i <= notes.len(),
        note_id_idx_from(notes, id, i) < notes.len(),
    ensures
        notes[note_id_idx_from(notes, id, i)].id == id,
        forall|k: int|
            i <= k < note_id_idx_from(notes, id, i) ==> (#[trigger] notes[k]).id != id,
    decreases notes.len() - i,
{
    if i < notes.len() && notes[i].id != id {
        lemma_note_id_scan_match(notes, id, i + 1);
    }
}

/// A scan that lands past the table says no row from its start holds the
/// id.
pub proof fn lemma_note_id_absent(notes: Seq<NoteView>, id: int, i: int)
    requires
        0 <= i <= notes.len(),
        note_id_idx_from(notes, id, i) >= notes.len(),
    ensures
        forall|k: int| i <= k < notes.len() ==> (#[trigger] notes[k]).id != id,
    decreases notes.len() - i,
{
    if i < notes.len() {
        lemma_note_id_absent(notes, id, i + 1);
    }
}

/// Where no row holds the id, a scan lands exactly past the table.
pub proof fn lemma_note_id_no_match_scan(notes: Seq<NoteView>, id: int, i: int)
    requires
        0 <= i <= notes.len(),
        forall|k: int| i <= k < notes.len() ==> (#[trigger] notes[k]).id != id,
    ensures
        note_id_idx_from(notes, id, i) == notes.len(),
    decreases notes.len() - i,
{
    if i < notes.len() {
        lemma_note_id_no_match_scan(notes, id, i + 1);
    }
}

/// Scanning a table extended by a row holding the id, where no earlier
/// row holds it, finds that row at the old length.
pub proof fn lemma_note_id_scan_push(notes: Seq<NoteView>, n: NoteView, k: int)
    requires
        0 <= k <= notes.len(),
        forall|j: int| 0 <= j < notes.len() ==> (#[trigger] notes[j]).id != n.id,
    ensures
        note_id_idx_from(notes.push(n), n.id, k) == notes.len(),
    decreases notes.len() - k,
{
    if k < notes.len() {
        lemma_note_id_scan_push(notes, n, k + 1);
    }
}

/// A scan for a title lands between its start and the table's length.
pub proof fn lemma_note_title_scan_le(notes: Seq<NoteView>, title: Seq<char>, i: int)
    requires
        0 <= i <= notes.len(),
    ensures
        i <= note_title_idx_from(notes, title, i) <= notes.len(),
    decreases notes.len() - i,
{
    if i < notes.len() && notes[i].title != title {
        lemma_note_title_scan_le(notes, title, i + 1);
    }
}

/// A title scan that lands inside the table points at the first row from
/// its start that holds the title.
pub proof fn lemma_note_title_scan_match(notes: Seq<NoteView>, title: Seq<char>, i: int)
    requires
        0 <= i <= notes.len(),
        note_title_idx_from(notes, title, i) < notes.len(),
    ensures
        notes[note_title_idx_from(notes, title, i)].title == title,
        forall|k: int|
            i <= k < note_title_idx_from(notes, title, i) ==> (#[trigger] notes[k]).title
                != title,
    decreases notes.len() - i,
{
    if i < notes.len() && notes[i].title != title {
        lemma_note_title_scan_match(notes, title, i + 1);
    }
}

/// A title scan that lands past the table says no row from its start
/// holds the title.
pub proof fn lemma_note_title_absent(notes: Seq<NoteView>, title: Seq<char>, i: int)
    requires
        0 <= i <= notes.len(),
        note_title_idx_from(notes, title, i) >= notes.len(),
    ensures
        forall|k: int| i <= k < notes.len() ==> (#[trigger] notes[k]).title != title,
    decreases notes.len() - i,
{
    if i < notes.len() {
        lemma_note_title_absent(notes, title, i + 1);
    }
}

/// Rewriting row `i` without handing it a title some other row holds keeps
/// the table well formed.
proof fn lemma_update_wf(notes: Seq<NoteView>, i: int, n: NoteView, title: Seq<char>)
    requires
        notes_wf(notes),
        0 <= i < notes.len(),
        n.id == notes[i].id,
        n.title == title,
        note_title_idx(notes, title) == notes.len() || note_title_idx(notes, title) == i,
    ensures
        notes_wf(notes.update(i, n)),
{
    if note_title_idx(notes, title) == notes.len() {
        lemma_note_title_absent(notes, title, 0);
    } else {
        lemma_first_title_match(notes, title, i);
    }
    let u = notes.update(i, n);
    assert forall|p: int, q: int| 0 <= p < q < u.len() implies (#[trigger] u[p]).id != (
    #[trigger] u[q]).id && u[p].title != u[q].title by {
        assert(notes[p].id != notes[q].id && notes[p].title != notes[q].title);
    }
}

/// The first title match leaves no other row with that title in a well
/// formed table.
proof fn lemma_first_title_match(notes: Seq<NoteView>, title: Seq<char>, i: int)
    requires
        notes_wf(notes),
        0 <= i < notes.len(),
        note_title_idx(notes, title) == i,
    ensures
        forall|k: int| 0 <= k < notes.len() && k != i ==> (#[trigger] notes[k]).title != title,
{
    lemma_note_title_scan_match(notes, title, 0);
    assert forall|k: int| 0 <= k < notes.len() && k != i implies (#[trigger] notes[k]).title
        != title by {
        if k > i {
            assert(notes[i].title != notes[k].title);
        }
    }
}

/// Removing a row keeps the table well formed.
proof fn lemma_remove_wf(notes: Seq<NoteView>, i: int)
    requires
        notes_wf(notes),
        0 <= i < notes.len(),
    ensures
        notes_wf(notes.remove(i)),
{
    let u = notes.remove(i);
    assert forall|p: int, q: int| 0 <= p < q < u.len() implies (#[trigger] u[p]).id != (
    #[trigger] u[q]).id && u[p].title != u[q].title by {
        let p2 = if p < i {
            p
        } else {
            p + 1
        };
        let q2 = if q < i {
            q
        } else {
            q + 1
        };
        assert(notes[p2].id != notes[q2].id && notes[p2].title != notes[q2].title);
    }
}

} // verus!
