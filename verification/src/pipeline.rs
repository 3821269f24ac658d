//! The pipeline controller: seeds a random first generation, then drives
//! the generation loop, handing each completed frame to a persistence
//! channel, and finally signals shutdown. The controller is a state
//! machine; the caller performs the channel sends and the final join that
//! each transition asks for.

use vstd::prelude::*;
use crate::board::Board;
use crate::step::step;
use crate::step::step_spec;

verus! {

/// Relies on rand::random: one uniformly random byte; nothing is promised
/// of its value.
#[verifier::external_body]
fn random_byte() -> u8 {
    rand::random::<u8>()
}

/// The fair-coin decision for one cell: a drawn byte makes the cell Alive
/// when it is even and Dead when it is odd.
pub open spec fn coin_cell(b: u8) -> u8 {
    if b % 2 == 0 {
        1u8
    } else {
        0u8
    }
}

/// One drawn byte per cell of a fresh generation. The values are random,
/// so only the count is promised.
fn draw_coins(n: usize) -> (v: Vec<u8>)
    ensures
        v@.len() == n,
{
    let mut v: Vec<u8> = Vec::new();
    let mut i: usize = 0;
    while i < n
        invariant
            i <= n,
            v@.len() == i,
        decreases n - i,
    {
        v.push(random_byte());
        i = i + 1;
    }
    v
}

/// Overwrites every cell of the board with the coin decision on its drawn
/// byte: cell i becomes Alive exactly when `coins[i]` is even.
pub fn fill_from_coins(board: &mut Board, coins: &Vec<u8>)
    requires
        old(board).wf(),
        coins@.len() == old(board)@.len(),
    ensures
        final(board).wf(),
        final(board).width == old(board).width,
        final(board).height == old(board).height,
        final(board)@.len() == old(board)@.len(),
        forall|i: int| 0 <= i < final(board)@.len() ==> final(board)@[i] == coin_cell(coins@[i]),
{
    let w: usize = board.width;
    let h: usize = board.height;
    let n: usize = board.cells.len();
    proof {
        // the board's own buffer shows that w * h fits in usize
        assert(w * h == n);
    }
    let mut r: usize = 0;
    while r < h
        invariant
            board.wf(),
            board.width == w,
            board.height == h,
            board@.len() == w * h,
            coins@.len() == w * h,
            w * h <= usize::MAX,
            r <= h,
            forall|j: int| 0 <= j < r * w ==> board@[j] == coin_cell(coins@[j]),
        decreases h - r,
    {
        let mut c: usize = 0;
        while c < w
            invariant
                board.wf(),
                board.width == w,
                board.height == h,
                board@.len() == w * h,
                coins@.len() == w * h,
                w * h <= usize::MAX,
                r < h,
                c <= w,
                forall|j: int| 0 <= j < r * w + c ==> board@[j] == coin_cell(coins@[j]),
            decreases w - c,
        {
            proof {
                assert(r * w + c < w * h) by (nonlinear_arith)
                    requires
                        r < h,
                        c < w,
                ;
            }
            let i: usize = r * w + c;
            let v: u8 = if coins[i] % 2 == 0 {
                1u8
            } else {
                0u8
            };
            board.set(r, c, v);
            c = c + 1;
        }
        proof {
            assert(r * w + w == (r + 1) * w) by (nonlinear_arith);
        }
        r = r + 1;
    }
    proof {
        assert(h * w == w * h) by (nonlinear_arith);
    }
}

/// Sets every cell of the board independently to Alive or Dead by a fair
/// coin: draws one byte per cell and lets `fill_from_coins` decide each
/// cell from its byte. The randomized initial generation.
pub fn randomize(board: &mut Board)
    requires
        old(board).wf(),
    ensures
        final(board).wf(),
        final(board).width == old(board).width,
        final(board).height == old(board).height,
{
    let n: usize = board.cells.len();
    let coins: Vec<u8> = draw_coins(n);
    fill_from_coins(board, &coins);
}

/// The phases of one run: allocate and randomize the first board, loop over
/// the generations, send the shutdown sentinel, wait for persistence.
#[derive(Clone, Copy)]
pub enum CtrlState {
    Init,
    Seeded,
    Running(usize),
    Draining,
    Terminated,
}

/// One message on the persistence channel: a frame, or the sentinel that
/// says no more frames follow.
pub enum Message {
    Frame(usize, Board),
    Stop,
}

/// What the caller must do after a controller transition: send a message on
/// the persistence channel, nothing, or join the persistence worker.
pub enum Action {
    Emit(Message),
    Proceed,
    Join,
}

/// The iteration numbers 0, 1, ..., n - 1: the frames of a run's first n
/// emissions.
pub open spec fn frames_upto(n: int) -> Seq<int> {
    Seq::new(n as nat, |k: int| k)
}

/// Drives one run of the simulation. `current` is the single board the
/// controller owns; every frame handed out is a fresh copy, never aliased.
/// `emitted` records the iteration numbers of the frames handed to
/// persistence so far, in emission order.
pub struct Controller {
    pub iter_max: usize,
    pub state: CtrlState,
    pub current: Board,
    pub emitted: Ghost<Seq<int>>,
}

impl Controller {
    /// Each phase pins down exactly which frames have been emitted:
    /// nothing before seeding, frames 0 through i - 1 while generation i is
    /// next, and all of 0 through iter_max once the run drains.
    pub open spec fn wf(&self) -> bool {
        &&& self.current.wf()
        &&& self.iter_max < usize::MAX
        &&& match self.state {
            CtrlState::Init => self.emitted@ == frames_upto(0),
            CtrlState::Seeded => self.emitted@ == frames_upto(1),
            CtrlState::Running(i) => 1 <= i <= self.iter_max + 1 && self.emitted@ == frames_upto(
                i as int,
            ),
            CtrlState::Draining => self.emitted@ == frames_upto(self.iter_max + 1),
            CtrlState::Terminated => self.emitted@ == frames_upto(self.iter_max + 1),
        }
    }

    /// A controller for one run of `iter_max` generations on a
    /// width x height grid, ready to seed the first board.
    pub fn new(width: usize, height: usize, iter_max: usize) -> (ctrl: Controller)
        requires
            width * height <= usize::MAX,
            iter_max < usize::MAX,
        ensures
            ctrl.wf(),
            ctrl.state is Init,
            ctrl.iter_max == iter_max,
            ctrl.current.width == width,
            ctrl.current.height == height,
            ctrl.emitted@ == frames_upto(0),
    {
        let ctrl = Controller {
            iter_max,
            state: CtrlState::Init,
            current: Board::new(width, height),
            emitted: Ghost(Seq::empty()),
        };
        proof {
            assert(ctrl.emitted@ =~= frames_upto(0));
        }
        ctrl
    }

    /// One transition of the run. From Init it randomizes the first board
    /// and emits it as frame 0; from Running(i) with i <= iter_max it
    /// computes generation i and emits it as frame i; after the last
    /// generation it emits the shutdown sentinel; from Draining it asks the
    /// caller to join the persistence worker.
    pub fn advance(&mut self) -> (a: Action)
        requires
            old(self).wf(),
            !(old(self).state is Terminated),
        ensures
            final(self).wf(),
            final(self).iter_max == old(self).iter_max,
            final(self).current.width == old(self).current.width,
            final(self).current.height == old(self).current.height,
            old(self).state is Init ==> {
                &&& final(self).state is Seeded
                &&& final(self).emitted@ == old(self).emitted@.push(0)
                &&& a matches Action::Emit(Message::Frame(i, b)) && i == 0 && b.wf() && b@
                    == final(self).current@ && b.width == final(self).current.width && b.height
                    == final(self).current.height
            },
            old(self).state is Seeded ==> {
                &&& final(self).state matches CtrlState::Running(i) && i == 1
                &&& final(self).current == old(self).current
                &&& final(self).emitted@ == old(self).emitted@
                &&& a is Proceed
            },
            old(self).state matches CtrlState::Running(i) ==> (if i <= old(self).iter_max {
                &&& final(self).state matches CtrlState::Running(j) && j == i + 1
                &&& final(self).current@ == step_spec(
                    old(self).current@,
                    old(self).current.width as int,
                    old(self).current.height as int,
                )
                &&& final(self).emitted@ == old(self).emitted@.push(i as int)
                &&& a matches Action::Emit(Message::Frame(k, b)) && k == i && b.wf() && b@
                    == final(self).current@ && b.width == final(self).current.width && b.height
                    == final(self).current.height
            } else {
                &&& final(self).state is Draining
                &&& final(self).current == old(self).current
                &&& final(self).emitted@ == old(self).emitted@
                &&& a matches Action::Emit(Message::Stop)
            }),
            old(self).state is Draining ==> {
                &&& final(self).state is Terminated
                &&& final(self).current == old(self).current
                &&& final(self).emitted@ == old(self).emitted@
                &&& a is Join
            },
    {
        match self.state {
            CtrlState::Init => {
                randomize(&mut self.current);
                self.state = CtrlState::Seeded;
                self.emitted = Ghost(self.emitted@.push(0));
                proof {
                    assert(self.emitted@ =~= frames_upto(1));
                }
                let b = Board {
                    width: self.current.width,
                    height: self.current.height,
                    cells: self.current.snapshot(),
                };
                Action::Emit(Message::Frame(0, b))
            },
            CtrlState::Seeded => {
                self.state = CtrlState::Running(1);
                Action::Proceed
            },
            CtrlState::Running(i) => {
                if i <= self.iter_max {
                    self.current = step(&self.current);
                    self.state = CtrlState::Running(i + 1);
                    self.emitted = Ghost(self.emitted@.push(i as int));
                    proof {
                        assert(self.emitted@ =~= frames_upto(i + 1));
                    }
                    let b = Board {
                        width: self.current.width,
                        height: self.current.height,
                        cells: self.current.snapshot(),
                    };
                    Action::Emit(Message::Frame(i, b))
                } else {
                    self.state = CtrlState::Draining;
                    Action::Emit(Message::Stop)
                }
            },
            CtrlState::Draining => {
                self.state = CtrlState::Terminated;
                Action::Join
            },
            CtrlState::Terminated => {
                proof {
                    assert(false);
                }
                Action::Join
            },
        }
    }

    /// One Running transition where the next generation was computed by an
    /// outside strategy (a data-parallel fan-out, or the device offload):
    /// adopts the given board as the current generation and emits it as
    /// frame i. The board must be well-formed and of the run's dimensions;
    /// the controller takes it as given, so whether it follows the rule is
    /// the strategy's burden.
    pub fn advance_with_board(&mut self, next: Board) -> (a: Action)
        requires
            old(self).wf(),
            old(self).state matches CtrlState::Running(i) && i <= old(self).iter_max,
            next.wf(),
            next.width == old(self).current.width,
            next.height == old(self).current.height,
        ensures
            final(self).wf(),
            final(self).iter_max == old(self).iter_max,
            final(self).current.width == old(self).current.width,
            final(self).current.height == old(self).current.height,
            final(self).current@ == next@,
            old(self).state matches CtrlState::Running(i) ==> {
                &&& final(self).state matches CtrlState::Running(j) && j == i + 1
                &&& final(self).emitted@ == old(self).emitted@.push(i as int)
                &&& a matches Action::Emit(Message::Frame(k, b)) && k == i && b.wf() && b@
                    == next@ && b.width == next.width && b.height == next.height
            },
    {
        match self.state {
            CtrlState::Running(i) => {
                self.current = next;
                self.state = CtrlState::Running(i + 1);
                self.emitted = Ghost(self.emitted@.push(i as int));
                proof {
                    assert(self.emitted@ =~= frames_upto(i + 1));
                }
                let b = Board {
                    width: self.current.width,
                    height: self.current.height,
                    cells: self.current.snapshot(),
                };
                Action::Emit(Message::Frame(i, b))
            },
            _ => {
                proof {
                    assert(false);
                }
                Action::Join
            },
        }
    }
}

/// Law: frames are handed to persistence in strictly increasing iteration
/// order, in every phase of a run.
pub proof fn lemma_frames_in_order(ctrl: &Controller)
    requires
        ctrl.wf(),
    ensures
        forall|j: int, k: int|
            0 <= j < k < ctrl.emitted@.len() ==> ctrl.emitted@[j] < ctrl.emitted@[k],
{
}

/// Law: once a run drains, every frame 0 through iter_max was emitted,
/// each exactly once and in order.
pub proof fn lemma_all_frames_emitted(ctrl: &Controller)
    requires
        ctrl.wf(),
        ctrl.state is Draining || ctrl.state is Terminated,
    ensures
        ctrl.emitted@.len() == ctrl.iter_max + 1,
        forall|k: int| 0 <= k <= ctrl.iter_max ==> ctrl.emitted@[k] == k,
{
}

/// Law: a run of zero generations persists exactly one frame — the
/// randomized initial board — and computes no further one.
pub proof fn lemma_zero_iterations_one_frame(ctrl: &Controller)
    requires
        ctrl.wf(),
        ctrl.iter_max == 0,
        ctrl.state is Draining || ctrl.state is Terminated,
    ensures
        ctrl.emitted@.len() == 1,
        ctrl.emitted@[0] == 0,
{
}

} // verus!
