use vstd::prelude::*;

use crate::hit::BoardGeometry;
use crate::oracle::{
    board_after, color_at, color_on, default_board, en_passant, ep_of, is_legal, kind_at,
    legal_of, make_move_new, move_of, new_move, opponent, piece_on, side_of, side_to_move,
    start_color,
};
use crate::pieces::{entities_unique, lemma_capture, moved_entities, PieceEntity, PieceRegistry};
use crate::selection::{opt_square_wf, SelectingSquares, SelectionPhase};
use crate::sprite::PieceKind;
use crate::square::{square_pos, square_ref, BoardPos, Side, SquareRef};

verus! {

/// Position of an optional square reference.
pub open spec fn opt_position(r: Option<SquareRef>) -> Option<BoardPos> {
    match r {
        Some(s) => Some(s.position),
        None => None,
    }
}

/// The pieces after the selected move is applied to them.
pub open spec fn pieces_after(sel: SelectingSquares, pieces: Seq<PieceEntity>) -> Seq<PieceEntity> {
    moved_entities(
        pieces,
        sel.start.unwrap().position,
        sel.end.unwrap().position,
        opt_position(sel.en_passant),
    )
}

/// The move a completed selection asks for.
pub open spec fn selected_move(sel: SelectingSquares) -> chess::ChessMove {
    move_of(sel.start.unwrap().square, sel.end.unwrap().square)
}

/// The side owning square `sq`, when the rules engine reports a piece there.
pub open spec fn occupant_at(b: chess::Board, sq: u8) -> Option<Side> {
    match kind_at(b, sq) {
        Some(_) => color_at(b, sq),
        None => None,
    }
}

/// Kind and side of the piece on square `sq`, when the rules engine reports both.
pub open spec fn piece_info(b: chess::Board, sq: u8) -> Option<(PieceKind, Side)> {
    match (kind_at(b, sq), color_at(b, sq)) {
        (Some(k), Some(c)) => Some((k, c)),
        _ => None,
    }
}

/// Whether some entity has identity `id`.
pub open spec fn has_entity(s: Seq<PieceEntity>, id: u32) -> bool {
    exists|k: int| 0 <= k < s.len() && s[k].id == id
}

/// The state the board interaction owns: the rules engine's board, the
/// current selection and the live pieces.
pub struct ChessGame {
    board: chess::Board,
    selection: SelectingSquares,
    pieces: PieceRegistry,
}

impl ChessGame {
    pub closed spec fn spec_board(&self) -> chess::Board {
        self.board
    }

    pub closed spec fn spec_selection(&self) -> SelectingSquares {
        self.selection
    }

    pub closed spec fn spec_pieces(&self) -> PieceRegistry {
        self.pieces
    }

    /// The selection and the registry are well formed.
    pub open spec fn wf(&self) -> bool {
        self.spec_selection().wf() && self.spec_pieces().wf()
    }

    /// The starting position, White to move, with one entity on each occupied
    /// square (its identity is the square's index) and nothing selected.
    pub fn new() -> (r: ChessGame)
        ensures
            r.wf(),
            r.spec_selection() == SelectingSquares::spec_empty(),
            side_of(r.spec_board()) == Side::White,
            ep_of(r.spec_board()) == None::<u8>,
            forall|sq: u8| sq < 64 ==> #[trigger] color_at(r.spec_board(), sq) == start_color(sq),
            forall|sq: u8|
                sq < 64 ==> #[trigger] kind_at(r.spec_board(), sq).is_some() == start_color(
                    sq,
                ).is_some(),
            forall|sq: u8|
                sq < 64 ==> (#[trigger] has_entity(r.spec_pieces()@, sq as u32) <==> start_color(
                    sq,
                ).is_some()),
            forall|k: int|
                0 <= k < r.spec_pieces()@.len() ==> (#[trigger] r.spec_pieces()@[k]).id < 64
                    && r.spec_pieces()@[k].position == square_pos(r.spec_pieces()@[k].id as int),
    {
        let board = default_board();
        let mut pieces = PieceRegistry::new();
        let mut sq: u8 = 0;
        while sq < 64
            invariant
                sq <= 64,
                pieces.wf(),
                forall|t: u8| t < 64 ==> #[trigger] color_at(board, t) == start_color(t),
                forall|t: u8| t < 64 ==> #[trigger] kind_at(board, t).is_some() == start_color(t).is_some(),
                forall|k: int|
                    0 <= k < pieces@.len() ==> (#[trigger] pieces@[k]).id < sq
                        && pieces@[k].position == square_pos(pieces@[k].id as int),
                forall|t: u8| t < sq ==> (#[trigger] has_entity(pieces@, t as u32) <==> start_color(t).is_some()),
            decreases 64 - sq,
        {
            let ghost before = pieces@;
            assert(color_at(board, sq) == start_color(sq));
            assert(kind_at(board, sq).is_some() == start_color(sq).is_some());
            if occupant_of(&board, sq).is_some() {
                let pos = square_ref(sq).position;
                proof {
                    assert forall|k: int| 0 <= k < before.len() implies before[k].id != sq as u32
                        && before[k].position != pos by {
                        if before[k].position == pos {
                            lemma_square_pos_injective(before[k].id as int, sq as int);
                        }
                    }
                }
                let added = pieces.spawn(sq as u32, pos);
                assert(added);
                proof {
                    let n = before.len() as int;
                    assert(pieces@[n].id == sq as u32);
                    assert(has_entity(pieces@, sq as u32));
                    assert forall|t: u8| t < sq implies (#[trigger] has_entity(pieces@, t as u32) == has_entity(
                        before,
                        t as u32,
                    )) by {
                        if has_entity(before, t as u32) {
                            let k = choose|k: int| 0 <= k < before.len() && before[k].id == t as u32;
                            assert(pieces@[k] == before[k]);
                        }
                        if has_entity(pieces@, t as u32) {
                            let k = choose|k: int| 0 <= k < pieces@.len() && pieces@[k].id == t as u32;
                            assert(k != n);
                            assert(pieces@[k] == before[k]);
                        }
                    }
                }
            } else {
                assert(!has_entity(pieces@, sq as u32));
            }
            sq += 1;
        }
        ChessGame { board, selection: SelectingSquares::empty(), pieces }
    }

    /// The rules engine's current board.
    pub fn board(&self) -> (r: chess::Board)
        ensures
            r == self.spec_board(),
    {
        self.board
    }

    /// The current selection.
    pub fn selection(&self) -> (r: SelectingSquares)
        ensures
            r == self.spec_selection(),
    {
        self.selection
    }

    /// The live pieces.
    pub fn pieces(&self) -> (r: &PieceRegistry)
        ensures
            *r == self.spec_pieces(),
    {
        &self.pieces
    }

    /// The side to move, as the rules engine reports it.
    pub fn side_to_move(&self) -> (r: Side)
        ensures
            r == side_of(self.spec_board()),
    {
        side_to_move(&self.board)
    }

    /// Kind and side of the piece on square `sq`, as the rules engine reports them.
    pub fn piece_at(&self, sq: u8) -> (r: Option<(PieceKind, Side)>)
        requires
            sq < 64,
        ensures
            r == piece_info(self.spec_board(), sq),
    {
        match (piece_on(&self.board, sq), color_on(&self.board, sq)) {
            (Some(kind), Some(side)) => Some((kind, side)),
            _ => None,
        }
    }

    /// A press on square `sq`: steps the selection with the rules engine's
    /// answers on who owns the square, who moves and where an en-passant
    /// capture stands. The board and the pieces are untouched.
    pub fn click_square(&mut self, sq: u8)
        requires
            old(self).wf(),
            sq < 64,
        ensures
            final(self).wf(),
            final(self).spec_board() == old(self).spec_board(),
            final(self).spec_pieces() == old(self).spec_pieces(),
            final(self).spec_selection() == old(self).spec_selection().spec_after_click(
                sq,
                occupant_at(old(self).spec_board(), sq),
                side_of(old(self).spec_board()),
                ep_of(old(self).spec_board()),
            ),
    {
        let occupant = occupant_of(&self.board, sq);
        let to_move = side_to_move(&self.board);
        let ep = en_passant(&self.board);
        self.selection.on_click(sq, occupant, to_move, ep);
    }

    /// A pointer press at (px, py), anchored at the window's bottom-left
    /// corner: the square under the pointer, if any, is pressed; a press on
    /// no square changes nothing.
    pub fn click_at(&mut self, geometry: &BoardGeometry, px: i32, py: i32) -> (hit: Option<u8>)
        requires
            old(self).wf(),
        ensures
            final(self).wf(),
            final(self).spec_board() == old(self).spec_board(),
            final(self).spec_pieces() == old(self).spec_pieces(),
            match hit {
                Some(s) => {
                    &&& s < 64
                    &&& geometry.spec_contains(s as int, px as int, py as int)
                    &&& final(self).spec_selection() == old(self).spec_selection().spec_after_click(
                        s,
                        occupant_at(old(self).spec_board(), s),
                        side_of(old(self).spec_board()),
                        ep_of(old(self).spec_board()),
                    )
                },
                None => {
                    &&& forall|t: int| 0 <= t < 64 ==> !geometry.spec_contains(t, px as int, py as int)
                    &&& final(self).spec_selection() == old(self).spec_selection()
                },
            },
    {
        let hit = geometry.hit_test(px, py);
        if let Some(s) = hit {
            self.click_square(s);
        }
        hit
    }

    /// Resolves a completed selection with the rules engine's verdict on its
    /// move, and clears the selection.
    fn apply_verdict(&mut self, legal: bool)
        requires
            old(self).wf(),
            old(self).spec_selection().spec_phase() == SelectionPhase::Resolved,
            legal == legal_of(old(self).spec_board(), selected_move(old(self).spec_selection())),
        ensures
            final(self).wf(),
            final(self).spec_selection() == SelectingSquares::spec_empty(),
            !legal ==> final(self).spec_board() == old(self).spec_board(),
            !legal ==> final(self).spec_pieces() == old(self).spec_pieces(),
            legal ==> final(self).spec_board() == board_after(
                old(self).spec_board(),
                selected_move(old(self).spec_selection()),
            ),
            legal ==> side_of(final(self).spec_board()) == opponent(side_of(old(self).spec_board())),
            legal ==> final(self).spec_pieces()@ == pieces_after(
                old(self).spec_selection(),
                old(self).spec_pieces()@,
            ),
    {
        let start = self.selection.start.unwrap();
        let end = self.selection.end.unwrap();
        if legal {
            let m = new_move(start.square, end.square);
            self.board = make_move_new(&self.board, m);
            let ep = match self.selection.en_passant {
                Some(e) => Some(e.position),
                None => None,
            };
            self.pieces.apply_move(start.position, end.position, ep);
        }
        self.selection.reset();
    }

    /// Once both ends are selected, asks the rules engine whether the move is
    /// legal. A legal move replaces the board with the engine's board after
    /// it (the other side then moves), removes the captured pieces and moves
    /// the mover; an illegal one changes neither board nor pieces. Either way
    /// the selection is cleared. Before both ends are selected nothing changes.
    pub fn handle_chess_move(&mut self)
        requires
            old(self).wf(),
        ensures
            final(self).wf(),
            old(self).spec_selection().spec_phase() != SelectionPhase::Resolved ==> *final(self)
                == *old(self),
            old(self).spec_selection().spec_phase() == SelectionPhase::Resolved ==> final(self).spec_selection() == SelectingSquares::spec_empty(),
            old(self).spec_selection().spec_phase() == SelectionPhase::Resolved && legal_of(
                old(self).spec_board(),
                selected_move(old(self).spec_selection()),
            ) ==> {
                &&& final(self).spec_board() == board_after(
                    old(self).spec_board(),
                    selected_move(old(self).spec_selection()),
                )
                &&& side_of(final(self).spec_board()) == opponent(side_of(old(self).spec_board()))
                &&& final(self).spec_pieces()@ == pieces_after(
                    old(self).spec_selection(),
                    old(self).spec_pieces()@,
                )
            },
            old(self).spec_selection().spec_phase() == SelectionPhase::Resolved && !legal_of(
                old(self).spec_board(),
                selected_move(old(self).spec_selection()),
            ) ==> {
                &&& final(self).spec_board() == old(self).spec_board()
                &&& final(self).spec_pieces() == old(self).spec_pieces()
            },
    {
        match (self.selection.start, self.selection.end) {
            (Some(start), Some(end)) => {
                let m = new_move(start.square, end.square);
                let legal = is_legal(&self.board, m);
                self.apply_verdict(legal);
            },
            _ => {},
        }
    }
}

/// A legal capture as the resolver applies it: the entity on the end square
/// is gone, and the mover stands on the end square, the only entity there.
/// Stated where the mover is another entity than the one taken and the
/// en-passant square is not the start square.
pub proof fn lemma_resolved_capture(
    sel: SelectingSquares,
    pieces: Seq<PieceEntity>,
    mover: int,
    victim: int,
)
    requires
        entities_unique(pieces),
        sel.spec_phase() == SelectionPhase::Resolved,
        0 <= mover < pieces.len(),
        0 <= victim < pieces.len(),
        mover != victim,
        pieces[mover].position == sel.start.unwrap().position,
        pieces[victim].position == sel.end.unwrap().position,
        opt_position(sel.en_passant) != Some(pieces[mover].position),
    ensures
        ({
            let r = pieces_after(sel, pieces);
            &&& forall|k: int| 0 <= k < r.len() ==> r[k].id != pieces[victim].id
            &&& r.contains(
                PieceEntity { id: pieces[mover].id, position: sel.end.unwrap().position },
            )
            &&& forall|k: int|
                0 <= k < r.len() && r[k].position == sel.end.unwrap().position ==> r[k].id
                    == pieces[mover].id
        }),
{
    lemma_capture(pieces, mover, victim, opt_position(sel.en_passant));
}

/// Two squares with the same centered position are the same square.
proof fn lemma_square_pos_injective(a: int, b: int)
    requires
        0 <= a < 64,
        0 <= b < 64,
        square_pos(a) == square_pos(b),
    ensures
        a == b,
{
}

/// The side owning the piece on `sq`, when the rules engine reports both a
/// piece and its side there.
fn occupant_of(board: &chess::Board, sq: u8) -> (r: Option<Side>)
    requires
        sq < 64,
    ensures
        r == occupant_at(*board, sq),
{
    match piece_on(board, sq) {
        Some(_) => color_on(board, sq),
        None => None,
    }
}

} // verus!
