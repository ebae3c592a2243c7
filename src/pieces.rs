use vstd::prelude::*;

use crate::square::BoardPos;

verus! {

/// A piece on the board: its identity and its centered position.
#[derive(Clone, Copy, Debug, PartialEq, Eq, Structural)]
pub struct PieceEntity {
    pub id: u32,
    pub position: BoardPos,
}

/// No two entities share an identity or a position.
pub open spec fn entities_unique(s: Seq<PieceEntity>) -> bool {
    forall|i: int, j: int|
        0 <= i < j < s.len() ==> s[i].id != s[j].id && s[i].position != s[j].position
}

/// Whether the move from `start` to `end` takes the entity: it stands on the
/// destination, or on the en-passant square.
pub open spec fn is_captured(p: PieceEntity, end: BoardPos, en_passant: Option<BoardPos>) -> bool {
    p.position == end || en_passant == Some(p.position)
}

/// The entity after the move: the one on `start` goes to `end`.
pub open spec fn relocated(p: PieceEntity, start: BoardPos, end: BoardPos) -> PieceEntity {
    if p.position == start {
        PieceEntity { id: p.id, position: end }
    } else {
        p
    }
}

/// The entities after a move from `start` to `end`: captured ones are gone,
/// the mover stands on `end`, the order of the others is kept.
pub open spec fn moved_entities(
    s: Seq<PieceEntity>,
    start: BoardPos,
    end: BoardPos,
    en_passant: Option<BoardPos>,
) -> Seq<PieceEntity>
    decreases s.len(),
{
    if s.len() == 0 {
        Seq::empty()
    } else {
        let rest = moved_entities(s.drop_last(), start, end, en_passant);
        if is_captured(s.last(), end, en_passant) {
            rest
        } else {
            rest.push(relocated(s.last(), start, end))
        }
    }
}

/// Each entity after a move comes from a surviving entity before it, every
/// survivor is there, and identities and positions stay unique.
pub proof fn lemma_moved_entities(
    s: Seq<PieceEntity>,
    start: BoardPos,
    end: BoardPos,
    en_passant: Option<BoardPos>,
)
    requires
        entities_unique(s),
    ensures
        entities_unique(moved_entities(s, start, end, en_passant)),
        forall|k: int| #![trigger moved_entities(s, start, end, en_passant)[k]]
            0 <= k < moved_entities(s, start, end, en_passant).len() ==> exists|j: int|
                0 <= j < s.len() && !is_captured(s[j], end, en_passant) && #[trigger] moved_entities(
                    s,
                    start,
                    end,
                    en_passant,
                )[k] == relocated(#[trigger] s[j], start, end),
        forall|j: int|
            0 <= j < s.len() && !is_captured(#[trigger] s[j], end, en_passant) ==> moved_entities(
                s,
                start,
                end,
                en_passant,
            ).contains(relocated(s[j], start, end)),
    decreases s.len(),
{
    if s.len() > 0 {
        let d = s.drop_last();
        assert(entities_unique(d));
        lemma_moved_entities(d, start, end, en_passant);
        let rest = moved_entities(d, start, end, en_passant);
        let r = moved_entities(s, start, end, en_passant);
        let n = s.len() - 1;
        if !is_captured(s.last(), end, en_passant) {
            assert(r == rest.push(relocated(s.last(), start, end)));
            assert forall|k: int| 0 <= k < rest.len() implies rest[k].id != relocated(
                s.last(),
                start,
                end,
            ).id && rest[k].position != relocated(s.last(), start, end).position by {
                let j = choose|j: int|
                    0 <= j < d.len() && !is_captured(d[j], end, en_passant) && rest[k]
                        == relocated(d[j], start, end);
                assert(s[j] == d[j]);
                assert(s[n] == s.last());
            }
            assert forall|k: int| #![trigger r[k]]
                0 <= k < r.len() implies exists|j: int|
                0 <= j < s.len() && !is_captured(#[trigger] s[j], end, en_passant) && r[k] == relocated(
                    s[j],
                    start,
                    end,
                ) by {
                if k < rest.len() {
                    let j = choose|j: int|
                        0 <= j < d.len() && !is_captured(d[j], end, en_passant) && rest[k]
                            == relocated(d[j], start, end);
                    assert(s[j] == d[j]);
                } else {
                    assert(r[k] == relocated(s[n], start, end));
                }
            }
            assert forall|j: int|
                0 <= j < s.len() && !is_captured(s[j], end, en_passant) implies r.contains(
                relocated(s[j], start, end),
            ) by {
                if j < n {
                    assert(s[j] == d[j]);
                    let k = choose|k: int|
                        0 <= k < rest.len() && rest[k] == relocated(d[j], start, end);
                    assert(r[k] == rest[k]);
                } else {
                    assert(r[rest.len() as int] == relocated(s[j], start, end));
                }
            }
        } else {
            assert forall|k: int| #![trigger r[k]]
                0 <= k < r.len() implies exists|j: int|
                0 <= j < s.len() && !is_captured(#[trigger] s[j], end, en_passant) && r[k] == relocated(
                    s[j],
                    start,
                    end,
                ) by {
                let j = choose|j: int|
                    0 <= j < d.len() && !is_captured(d[j], end, en_passant) && rest[k]
                        == relocated(d[j], start, end);
                assert(s[j] == d[j]);
            }
            assert forall|j: int|
                0 <= j < s.len() && !is_captured(s[j], end, en_passant) implies r.contains(
                relocated(s[j], start, end),
            ) by {
                assert(s[j] == d[j]);
            }
        }
    }
}

/// A legal capture: the entity on the destination is gone, the mover stands
/// on the destination, and it is the only entity there.
pub proof fn lemma_capture(
    s: Seq<PieceEntity>,
    mover: int,
    victim: int,
    en_passant: Option<BoardPos>,
)
    requires
        entities_unique(s),
        0 <= mover < s.len(),
        0 <= victim < s.len(),
        mover != victim,
        en_passant != Some(s[mover].position),
    ensures
        ({
            let r = moved_entities(s, s[mover].position, s[victim].position, en_passant);
            &&& forall|k: int| 0 <= k < r.len() ==> r[k].id != s[victim].id
            &&& r.contains(PieceEntity { id: s[mover].id, position: s[victim].position })
            &&& forall|k: int|
                0 <= k < r.len() && r[k].position == s[victim].position ==> r[k].id == s[mover].id
        }),
{
    let start = s[mover].position;
    let end = s[victim].position;
    lemma_moved_entities(s, start, end, en_passant);
    let r = moved_entities(s, start, end, en_passant);
    assert(!is_captured(s[mover], end, en_passant));
    assert(relocated(s[mover], start, end) == PieceEntity { id: s[mover].id, position: end });
    assert forall|k: int| 0 <= k < r.len() implies r[k].id != s[victim].id && (r[k].position
        == end ==> r[k].id == s[mover].id) by {
        let j = choose|j: int|
            0 <= j < s.len() && !is_captured(#[trigger] s[j], end, en_passant) && r[k] == relocated(
                s[j],
                start,
                end,
            );
        assert(j != victim);
        if s[j].position != start {
            assert(j != mover);
        } else {
            assert(j == mover);
        }
    }
}

/// The set of live pieces, each with its centered position.
pub struct PieceRegistry {
    entities: Vec<PieceEntity>,
}

impl View for PieceRegistry {
    type V = Seq<PieceEntity>;

    closed spec fn view(&self) -> Seq<PieceEntity> {
        self.entities@
    }
}

impl PieceRegistry {
    /// At most one entity per position, and one per identity.
    pub open spec fn wf(&self) -> bool {
        entities_unique(self@)
    }

    /// An empty registry.
    pub fn new() -> (r: PieceRegistry)
        ensures
            r@ == Seq::<PieceEntity>::empty(),
            r.wf(),
    {
        PieceRegistry { entities: Vec::new() }
    }

    /// Number of live entities.
    pub fn len(&self) -> (r: usize)
        ensures
            r == self@.len(),
    {
        self.entities.len()
    }

    /// The entity at index `i` of the registry's order.
    pub fn get(&self, i: usize) -> (r: PieceEntity)
        requires
            i < self@.len(),
        ensures
            r == self@[i as int],
    {
        self.entities[i]
    }

    /// A copy of all live entities, in order.
    pub fn entities(&self) -> (r: Vec<PieceEntity>)
        ensures
            r@ == self@,
    {
        let mut out: Vec<PieceEntity> = Vec::new();
        let mut i: usize = 0;
        while i < self.entities.len()
            invariant
                i <= self.entities@.len(),
                out@ == self.entities@.subrange(0, i as int),
            decreases self.entities@.len() - i,
        {
            out.push(self.entities[i]);
            i += 1;
            assert(out@ =~= self.entities@.subrange(0, i as int));
        }
        assert(self.entities@.subrange(0, i as int) =~= self.entities@);
        out
    }

    /// Index of the entity with the given identity, if any.
    pub fn index_of_id(&self, id: u32) -> (r: Option<usize>)
        ensures
            match r {
                Some(i) => i < self@.len() && self@[i as int].id == id,
                None => forall|k: int| 0 <= k < self@.len() ==> self@[k].id != id,
            },
    {
        let mut i: usize = 0;
        while i < self.entities.len()
            invariant
                i <= self.entities@.len(),
                forall|k: int| 0 <= k < i ==> self.entities@[k].id != id,
            decreases self.entities@.len() - i,
        {
            if self.entities[i].id == id {
                return Some(i);
            }
            i += 1;
        }
        None
    }

    /// Index of the entity standing on `pos`, if any.
    pub fn index_at(&self, pos: BoardPos) -> (r: Option<usize>)
        ensures
            match r {
                Some(i) => i < self@.len() && self@[i as int].position == pos,
                None => forall|k: int| 0 <= k < self@.len() ==> self@[k].position != pos,
            },
    {
        let mut i: usize = 0;
        while i < self.entities.len()
            invariant
                i <= self.entities@.len(),
                forall|k: int| 0 <= k < i ==> self.entities@[k].position != pos,
            decreases self.entities@.len() - i,
        {
            if self.entities[i].position == pos {
                return Some(i);
            }
            i += 1;
        }
        None
    }

    /// Adds an entity, unless its identity or position is already taken; says
    /// whether it was added.
    pub fn spawn(&mut self, id: u32, position: BoardPos) -> (added: bool)
        requires
            old(self).wf(),
        ensures
            final(self).wf(),
            added == forall|k: int|
                0 <= k < old(self)@.len() ==> old(self)@[k].id != id && old(self)@[k].position
                    != position,
            added ==> final(self)@ == old(self)@.push(PieceEntity { id, position }),
            !added ==> final(self)@ == old(self)@,
    {
        if self.index_of_id(id).is_some() {
            return false;
        }
        if self.index_at(position).is_some() {
            return false;
        }
        self.entities.push(PieceEntity { id, position });
        true
    }

    /// Removes the entity with identity `id`, if there is one.
    pub fn remove(&mut self, id: u32)
        requires
            old(self).wf(),
        ensures
            final(self).wf(),
            final(self)@ == old(self)@.filter(|p: PieceEntity| p.id != id),
    {
        match self.index_of_id(id) {
            Some(i) => {
                let ghost s = self@;
                self.entities.remove(i);
                proof {
                    lemma_remove_unique(s, i as int);
                }
            },
            None => {
                proof {
                    let s = self@;
                    assert(s.filter(|p: PieceEntity| p.id != id) =~= s) by {
                        lemma_filter_keeps_all(s, id);
                    }
                }
            },
        }
    }

    /// Moves the entity with identity `id` to `position`, unless another entity
    /// stands there; says whether it moved.
    pub fn relocate(&mut self, id: u32, position: BoardPos) -> (moved: bool)
        requires
            old(self).wf(),
        ensures
            final(self).wf(),
            moved == ((exists|i: int| 0 <= i < old(self)@.len() && old(self)@[i].id == id) && (
            forall|k: int|
                0 <= k < old(self)@.len() && old(self)@[k].position == position
                    ==> old(self)@[k].id == id)),
            moved ==> final(self)@ == old(self)@.map_values(
                |p: PieceEntity|
                    if p.id == id {
                        PieceEntity { id, position }
                    } else {
                        p
                    },
            ),
            !moved ==> final(self)@ == old(self)@,
    {
        let i = match self.index_of_id(id) {
            Some(i) => i,
            None => {
                return false;
            },
        };
        match self.index_at(position) {
            Some(j) => {
                if j != i {
                    return false;
                }
            },
            None => {},
        }
        let ghost s = self@;
        self.entities.set(i, PieceEntity { id, position });
        proof {
            assert(self@ =~= s.map_values(
                |p: PieceEntity|
                    if p.id == id {
                        PieceEntity { id, position }
                    } else {
                        p
                    },
            ));
        }
        true
    }

    /// Applies a legal move to the pieces: removes the entity on `end` and the
    /// one on the en-passant square, and moves the entity on `start` to `end`.
    pub fn apply_move(&mut self, start: BoardPos, end: BoardPos, en_passant: Option<BoardPos>)
        requires
            old(self).wf(),
        ensures
            final(self).wf(),
            final(self)@ == moved_entities(old(self)@, start, end, en_passant),
    {
        let ghost s = self@;
        let mut out: Vec<PieceEntity> = Vec::new();
        let mut i: usize = 0;
        while i < self.entities.len()
            invariant
                s == self@,
                i <= s.len(),
                out@ == moved_entities(s.subrange(0, i as int), start, end, en_passant),
            decreases s.len() - i,
        {
            let p = self.entities[i];
            let captured = p.position == end || en_passant == Some(p.position);
            if !captured {
                if p.position == start {
                    out.push(PieceEntity { id: p.id, position: end });
                } else {
                    out.push(p);
                }
            }
            proof {
                assert(s.subrange(0, i + 1).drop_last() =~= s.subrange(0, i as int));
            }
            i += 1;
        }
        proof {
            assert(s.subrange(0, i as int) =~= s);
            lemma_moved_entities(s, start, end, en_passant);
        }
        self.entities = out;
    }
}

/// Filtering out an identity that no entity has keeps every entity.
proof fn lemma_filter_keeps_all(s: Seq<PieceEntity>, id: u32)
    requires
        forall|k: int| 0 <= k < s.len() ==> s[k].id != id,
    ensures
        s.filter(|p: PieceEntity| p.id != id) == s,
    decreases s.len(),
{
    reveal(Seq::filter);
    if s.len() > 0 {
        lemma_filter_keeps_all(s.drop_last(), id);
        assert(s.drop_last().push(s.last()) =~= s);
    }
}

/// Removing the entity at `i` equals filtering out its identity, and keeps
/// entities unique.
proof fn lemma_remove_unique(s: Seq<PieceEntity>, i: int)
    requires
        entities_unique(s),
        0 <= i < s.len(),
    ensures
        entities_unique(s.remove(i)),
        s.remove(i) == s.filter(|p: PieceEntity| p.id != s[i].id),
    decreases s.len(),
{
    reveal(Seq::filter);
    let id = s[i].id;
    if i == s.len() - 1 {
        let d = s.drop_last();
        assert(s.remove(i) =~= d);
        lemma_filter_keeps_all(d, id);
    } else {
        let d = s.drop_last();
        assert(entities_unique(d));
        lemma_remove_unique(d, i);
        assert(s.remove(i) =~= d.remove(i).push(s.last()));
    }
}

} // verus!
