use vstd::prelude::*;

use crate::square::{
    spec_behind, spec_square_ref, square_down, square_ref, square_up, Side, SquareRef,
};

verus! {

/// Phase of the in-progress click gesture.
#[derive(Clone, Copy, Debug, PartialEq, Eq, Structural)]
pub enum SelectionPhase {
    /// Nothing is selected.
    Empty,
    /// A piece of the side to move has been picked up.
    StartChosen,
    /// Both ends are chosen; the move waits for the resolver.
    Resolved,
}

/// The user's current selection: start and end squares, and the square of a
/// pawn that the move would take en passant.
#[derive(Clone, Copy, Debug, PartialEq, Eq, Structural)]
pub struct SelectingSquares {
    pub start: Option<SquareRef>,
    pub end: Option<SquareRef>,
    pub en_passant: Option<SquareRef>,
}

/// The reference, if present, is well formed.
pub open spec fn opt_ref_wf(r: Option<SquareRef>) -> bool {
    match r {
        Some(s) => s.wf(),
        None => true,
    }
}

/// Square index carried by an optional en-passant target.
pub open spec fn opt_square_wf(t: Option<u8>) -> bool {
    match t {
        Some(s) => s < 64,
        None => true,
    }
}

impl SelectingSquares {
    /// `end` is only set once `start` is, `en_passant` only once `end` is, and
    /// every reference is well formed.
    pub open spec fn wf(&self) -> bool {
        &&& opt_ref_wf(self.start)
        &&& opt_ref_wf(self.end)
        &&& opt_ref_wf(self.en_passant)
        &&& self.end.is_some() ==> self.start.is_some()
        &&& self.en_passant.is_some() ==> self.end.is_some()
    }

    pub open spec fn spec_empty() -> SelectingSquares {
        SelectingSquares { start: None, end: None, en_passant: None }
    }

    pub open spec fn spec_phase(&self) -> SelectionPhase {
        if self.start.is_none() {
            SelectionPhase::Empty
        } else if self.end.is_none() {
            SelectionPhase::StartChosen
        } else {
            SelectionPhase::Resolved
        }
    }

    /// The selection after a press on square `sq`, given what the rules engine
    /// reports: the side owning the piece on `sq` (if any), the side to move,
    /// and the current en-passant square (if any).
    pub open spec fn spec_after_click(
        self,
        sq: u8,
        occupant: Option<Side>,
        to_move: Side,
        en_passant: Option<u8>,
    ) -> SelectingSquares {
        match self.spec_phase() {
            SelectionPhase::Empty => if occupant == Some(to_move) {
                SelectingSquares { start: Some(spec_square_ref(sq as int)), ..self }
            } else {
                self
            },
            SelectionPhase::StartChosen => {
                let ep = match en_passant {
                    Some(t) => if spec_behind(sq as int, to_move) == Some(t) {
                        Some(spec_square_ref(t as int))
                    } else {
                        self.en_passant
                    },
                    None => self.en_passant,
                };
                SelectingSquares { end: Some(spec_square_ref(sq as int)), en_passant: ep, ..self }
            },
            SelectionPhase::Resolved => self,
        }
    }

    /// A selection with nothing chosen.
    pub fn empty() -> (r: SelectingSquares)
        ensures
            r == Self::spec_empty(),
            r.wf(),
    {
        SelectingSquares { start: None, end: None, en_passant: None }
    }

    /// The current phase of the gesture.
    pub fn phase(&self) -> (r: SelectionPhase)
        ensures
            r == self.spec_phase(),
    {
        if self.start.is_none() {
            SelectionPhase::Empty
        } else if self.end.is_none() {
            SelectionPhase::StartChosen
        } else {
            SelectionPhase::Resolved
        }
    }

    /// Clears start, end and en-passant square together.
    pub fn reset(&mut self)
        ensures
            *final(self) == Self::spec_empty(),
    {
        self.start = None;
        self.end = None;
        self.en_passant = None;
    }

    /// Applies a press on square `sq`. While nothing is selected, a piece of
    /// the side to move becomes the start and any other press is ignored. Once
    /// a start is chosen, the press becomes the end; when the square one rank
    /// behind it (seen from the side to move) is the en-passant square, that
    /// square is recorded as the pawn to capture. A completed selection
    /// ignores presses until it is resolved.
    pub fn on_click(&mut self, sq: u8, occupant: Option<Side>, to_move: Side, en_passant: Option<u8>)
        requires
            old(self).wf(),
            sq < 64,
            opt_square_wf(en_passant),
        ensures
            *final(self) == old(self).spec_after_click(sq, occupant, to_move, en_passant),
            final(self).wf(),
    {
        match self.phase() {
            SelectionPhase::Empty => {
                if occupant == Some(to_move) {
                    self.start = Some(square_ref(sq));
                }
            },
            SelectionPhase::StartChosen => {
                if let Some(t) = en_passant {
                    let behind = match to_move {
                        Side::White => square_down(sq),
                        Side::Black => square_up(sq),
                    };
                    if behind == Some(t) {
                        self.en_passant = Some(square_ref(t));
                    }
                }
                self.end = Some(square_ref(sq));
            },
            SelectionPhase::Resolved => {},
        }
    }
}

/// A press while nothing is selected, on an empty square or on a piece of the
/// side not to move, leaves the selection empty.
pub proof fn lemma_ignored_first_click(
    s: SelectingSquares,
    sq: u8,
    occupant: Option<Side>,
    to_move: Side,
    en_passant: Option<u8>,
)
    requires
        s == SelectingSquares::spec_empty(),
        occupant != Some(to_move),
    ensures
        s.spec_after_click(sq, occupant, to_move, en_passant) == SelectingSquares::spec_empty(),
{
}

/// A press on a piece of the side to move, while nothing is selected, chooses
/// that square as the start and nothing else.
pub proof fn lemma_own_piece_starts(
    s: SelectingSquares,
    sq: u8,
    to_move: Side,
    en_passant: Option<u8>,
)
    requires
        s == SelectingSquares::spec_empty(),
        sq < 64,
    ensures
        s.spec_after_click(sq, Some(to_move), to_move, en_passant).spec_phase()
            == SelectionPhase::StartChosen,
        s.spec_after_click(sq, Some(to_move), to_move, en_passant) == (SelectingSquares {
            start: Some(spec_square_ref(sq as int)),
            end: None,
            en_passant: None,
        }),
{
}

/// With White to move, a start chosen and an en-passant square `t`, pressing
/// the square directly above `t` records `t` as the pawn to capture.
pub proof fn lemma_en_passant_recorded(
    s: SelectingSquares,
    t: u8,
    occupant: Option<Side>,
)
    requires
        s.wf(),
        s.spec_phase() == SelectionPhase::StartChosen,
        t < 56,
    ensures
        s.spec_after_click((t + 8) as u8, occupant, Side::White, Some(t)).en_passant == Some(
            spec_square_ref(t as int),
        ),
        s.spec_after_click((t + 8) as u8, occupant, Side::White, Some(t)).end == Some(
            spec_square_ref(t + 8),
        ),
{
}

} // verus!
