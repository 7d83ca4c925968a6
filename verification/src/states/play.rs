//! The round itself.

use vstd::prelude::*;
use crate::block::Block;
use crate::board::{
    Board, Row, bare, cleared, clearing_leaves_no_full_row, filled, full, full_rows, ROWS,
};
use crate::factory::{Factory, Piece, spawned};
use crate::host::{Host, HostView, Key, Paint, Request};
use crate::scene::{Scene, SceneSwitch};
use crate::utils::{Color, Direction, Shape, Tetromino};

verus! {

/// The round: a board, the piece in play if there is one, the score and the
/// best score known.
#[derive(Clone, Copy, Debug, PartialEq, Eq)]
pub struct PlayScene {
    /// The piece in play; none between the tick that locks a piece and the
    /// tick that brings the next.
    pub block: Option<Block>,
    pub board: Board,
    /// The rows cleared in this round.
    pub score: u16,
    /// Whether the round is halted.
    pub pause: bool,
    /// Whether the round is over; the scene leaves at its next tick.
    pub done: bool,
    /// The best score known.
    pub record: u16,
}

impl PlayScene {
    /// The piece that a tick works on: the piece in play, or else a new
    /// piece of the shape `shape`.
    pub open spec fn piece(self, shape: Shape) -> Block {
        match self.block {
            Some(block) => block,
            None => spawned(shape),
        }
    }

    /// Whether `block` moves down in a tick: it does unless it has landed or
    /// collides where it is.
    pub open spec fn falls(block: Block, board: Board) -> bool {
        !block.spec_has_landed() && !block.spec_collides(board)
    }

    /// Where a tick brings a piece that falls: one step down, and from
    /// there as far down as it can go if the key for the hard drop is held.
    pub open spec fn stepped(block: Block, board: Board, drop_held: bool) -> Block {
        let lower = block.pushed(Direction::D);
        if drop_held {
            lower.dropped(board)
        } else {
            lower
        }
    }

    /// The rows of the board once the piece has moved or has been locked: a
    /// piece that does not fall leaves its colour in those of its cells that
    /// lie on the board.
    pub open spec fn settled(block: Block, board: Board) -> Seq<Row> {
        if Self::falls(block, board) {
            board@
        } else {
            filled(board@, block.spec_footprint(), block.color)
        }
    }

    /// The score `score` with `count` rows more; it stops at the largest
    /// number that it can hold.
    pub open spec fn gained(score: u16, count: int) -> u16 {
        if score + count > u16::MAX {
            u16::MAX
        } else {
            (score + count) as u16
        }
    }

    /// What a tick asks of the host: to keep the music going; if the stack
    /// has reached the top, to stop the music and to play the crash; and if
    /// the score has passed the record, to store it.
    pub open spec fn asked(over: bool, score: u16, record: u16) -> Seq<Request> {
        seq![Request::PlayMusic] + (if over {
            seq![Request::StopMusic, Request::Crash]
        } else {
            Seq::empty()
        }) + (if score > record {
            seq![Request::Save(score)]
        } else {
            Seq::empty()
        })
    }

    /// Whether a tick in which `shape` is the shape to spawn takes the round
    /// from `before` to `after` and the host from `host` to `left`, and ends
    /// with `switch`.
    ///
    /// A halted round asks for the music to pause and does nothing else.
    /// Otherwise the tick takes the record from the inbox if one is there,
    /// sees whether the stack has reached the top, moves the piece down or
    /// locks it, clears the full rows and adds them to the score, raises the
    /// record to the score, and leaves if the round is over.
    pub open spec fn ticks(
        before: Self,
        shape: Shape,
        host: HostView,
        after: Self,
        left: HostView,
        switch: SceneSwitch<Self>,
    ) -> bool {
        if before.pause {
            &&& after == before
            &&& left == (HostView { requests: host.requests.push(Request::PauseMusic), ..host })
            &&& switch == SceneSwitch::<Self>::Stay
        } else {
            let block = before.piece(shape);
            let over = block.spec_has_stacked(before.board);
            let rows = Self::settled(block, before.board);
            let score = Self::gained(before.score, full_rows(rows));
            let record = match host.inbox {
                Some(record) => record,
                None => before.record,
            };
            &&& after.block == if Self::falls(block, before.board) {
                Some(Self::stepped(block, before.board, host.drop_held))
            } else {
                None
            }
            &&& after.board@ == cleared(rows)
            &&& after.score == score
            &&& !after.pause
            &&& after.done == (before.done || over)
            &&& after.record == if score > record {
                score
            } else {
                record
            }
            &&& left == (HostView {
                inbox: None,
                requests: host.requests + Self::asked(over, score, record),
                ..host
            })
            &&& switch == if after.done {
                SceneSwitch::<Self>::Pop
            } else {
                SceneSwitch::<Self>::Stay
            }
        }
    }

    /// The round after the key `key`: the arrows to the left and to the
    /// right push the piece and the arrow up turns it, whatever lies where
    /// that brings it; P halts the round or takes it up again; the return
    /// key ends the round. Without a piece the arrows do nothing, and a piece
    /// at the end of the coordinates is not pushed.
    pub open spec fn keyed(self, key: Key) -> PlayScene {
        match key {
            Key::Left => match self.block {
                Some(block) if block.can_move(Direction::L) => PlayScene {
                    block: Some(block.pushed(Direction::L)),
                    ..self
                },
                _ => self,
            },
            Key::Right => match self.block {
                Some(block) if block.can_move(Direction::R) => PlayScene {
                    block: Some(block.pushed(Direction::R)),
                    ..self
                },
                _ => self,
            },
            Key::Up => match self.block {
                Some(block) => PlayScene { block: Some(block.turned()), ..self },
                None => self,
            },
            Key::P => PlayScene { pause: !self.pause, ..self },
            Key::Return => PlayScene { done: true, ..self },
            _ => self,
        }
    }

    /// What the round shows: the score and the record on a black ground,
    /// the piece in play, and the locked cells of the board.
    pub open spec fn picture(self) -> Seq<Paint> {
        seq![
            Paint::Clear(Color::Black),
            Paint::Counter {
                label: "score",
                value: self.score,
                x: 16,
                y: 32,
                scale: 16,
                color: Color::White,
            },
            Paint::Counter {
                label: "record",
                value: self.record,
                x: 192,
                y: 32,
                scale: 16,
                color: Color::Cyan,
            },
        ] + (match self.block {
            Some(block) if block.drawable() => block.picture(),
            _ => Seq::empty(),
        }) + self.board.picture()
    }

    /// Whether the round has not begun: the board is empty, no piece is in
    /// play, nothing is scored and no record is known.
    pub open spec fn fresh(self) -> bool {
        &&& self.block.is_none()
        &&& self.board@ == bare()
        &&& self.score == 0
        &&& !self.pause
        &&& !self.done
        &&& self.record == 0
    }

    /// A round that has not begun. It asks the host for the stored record.
    pub fn new(ctx: &mut Host) -> (scene: Self)
        ensures
            scene.fresh(),
            final(ctx)@ == (HostView {
                requests: old(ctx)@.requests.push(Request::Fetch),
                ..old(ctx)@
            }),
    {
        ctx.requests.push(Request::Fetch);
        Self {
            block: None,
            board: Board::new(),
            score: 0,
            pause: false,
            done: false,
            record: 0,
        }
    }

    /// Moves `block` down if it falls, and locks it into the board if it
    /// does not.
    fn settle(&mut self, block: Block, drop_held: bool)
        ensures
            final(self).block == if Self::falls(block, old(self).board) {
                Some(Self::stepped(block, old(self).board, drop_held))
            } else {
                None
            },
            final(self).board@ == Self::settled(block, old(self).board),
            final(self).score == old(self).score,
            final(self).pause == old(self).pause,
            final(self).done == old(self).done,
            final(self).record == old(self).record,
    {
        let mut block = block;
        if !block.has_landed() && !block.collides(self.board) {
            proof {
                block.lemma_aloft_can_step_down();
            }
            block.move_down();
            if drop_held {
                block.drop(self.board);
            }
            self.block = Some(block);
        } else {
            self.board.fill(block.footprint(), block.color);
            self.block = None;
        }
    }

    /// Clears the full rows, adds them to the score, and raises the record
    /// `record` to the score if the score has passed it.
    fn reckon(&mut self, record: u16) -> (beaten: bool)
        ensures
            final(self).block == old(self).block,
            final(self).board@ == cleared(old(self).board@),
            final(self).score == Self::gained(old(self).score, full_rows(old(self).board@)),
            final(self).pause == old(self).pause,
            final(self).done == old(self).done,
            final(self).record == if final(self).score > record {
                final(self).score
            } else {
                record
            },
            beaten == (final(self).score > record),
    {
        let count = self.board.clear();
        let score = if count > u16::MAX - self.score {
            u16::MAX
        } else {
            self.score + count
        };
        self.score = score;
        if score > record {
            self.record = score;
            true
        } else {
            self.record = record;
            false
        }
    }

    /// One tick of the round; `shape` is the shape of the piece that enters
    /// if none is in play.
    pub fn tick(&mut self, shape: Shape, ctx: &mut Host) -> (switch: SceneSwitch<Self>)
        ensures
            Self::ticks(*old(self), shape, old(ctx)@, *final(self), final(ctx)@, switch),
    {
        if self.pause {
            ctx.requests.push(Request::PauseMusic);
            return SceneSwitch::Stay;
        }
        let record = match ctx.inbox {
            Some(record) => record,
            None => self.record,
        };
        ctx.inbox = None;
        ctx.requests.push(Request::PlayMusic);
        let block = match self.block {
            Some(block) => block,
            None => Piece::create(shape),
        };
        let over = block.has_stacked(self.board);
        if over {
            ctx.requests.push(Request::StopMusic);
            ctx.requests.push(Request::Crash);
            self.done = true;
        }
        self.settle(block, ctx.drop_held);
        if self.reckon(record) {
            ctx.requests.push(Request::Save(self.score));
        }
        proof {
            assert(ctx@.requests =~= old(ctx)@.requests + Self::asked(over, self.score, record));
        }
        if self.done {
            SceneSwitch::Pop
        } else {
            SceneSwitch::Stay
        }
    }
}

/// A tick of a round that is not halted keeps the books: the score does not
/// fall, the record is not below the score, no row of the board is full, and
/// the scene leaves if and only if the round is over.
pub proof fn tick_keeps_the_books(
    before: PlayScene,
    shape: Shape,
    host: HostView,
    after: PlayScene,
    left: HostView,
    switch: SceneSwitch<PlayScene>,
)
    requires
        PlayScene::ticks(before, shape, host, after, left, switch),
        !before.pause,
    ensures
        before.score <= after.score,
        after.score <= after.record,
        forall|y: int| 0 <= y < ROWS ==> !full(#[trigger] after.board@[y]),
        left.inbox.is_none(),
        (switch is Pop) == after.done,
        (switch is Stay) == !after.done,
{
    let block = before.piece(shape);
    let rows = PlayScene::settled(block, before.board);
    rows.lemma_filter_len(crate::board::kept());
    clearing_leaves_no_full_row(rows);
}

impl Scene for PlayScene {
    type Context = Host;

    type Event = Key;

    /// An update is a tick in which the shape of a piece that enters is
    /// whatever the die gives.
    open spec fn updates(
        before: Self,
        host: Host,
        after: Self,
        left: Host,
        switch: SceneSwitch<Self>,
    ) -> bool {
        exists|shape: Shape| #[trigger] Self::ticks(before, shape, host@, after, left@, switch)
    }

    open spec fn draws(self, host: Host, left: Host) -> bool {
        left@ == (HostView { canvas: host@.canvas + self.picture(), ..host@ })
    }

    open spec fn handles(before: Self, host: Host, event: Key, after: Self, left: Host) -> bool {
        &&& after == before.keyed(event)
        &&& left@ == host@
    }

    open spec fn label(self) -> &'static str {
        "play"
    }

    open spec fn layered(self) -> bool {
        false
    }

    fn update(&mut self, ctx: &mut Host) -> (switch: SceneSwitch<Self>) {
        let shape = if !self.pause && self.block.is_none() {
            Shape::random()
        } else {
            Shape::I
        };
        let switch = self.tick(shape, ctx);
        assert(Self::ticks(*old(self), shape, old(ctx)@, *self, ctx@, switch));
        switch
    }

    fn draw(&self, ctx: &mut Host) {
        ctx.canvas.push(Paint::Clear(Color::Black));
        ctx.canvas.push(
            Paint::Counter {
                label: "score",
                value: self.score,
                x: 16,
                y: 32,
                scale: 16,
                color: Color::White,
            },
        );
        ctx.canvas.push(
            Paint::Counter {
                label: "record",
                value: self.record,
                x: 192,
                y: 32,
                scale: 16,
                color: Color::Cyan,
            },
        );
        match self.block {
            Some(block) => {
                if block.position.x <= i32::MAX - 3 && block.position.y <= i32::MAX - 3 {
                    block.draw(&mut ctx.canvas);
                }
            },
            None => {},
        }
        self.board.render(&mut ctx.canvas);
        assert(ctx@.canvas =~= old(ctx)@.canvas + self.picture());
    }

    fn input(&mut self, _ctx: &mut Host, event: Key) {
        match event {
            Key::Left => {
                if let Some(mut block) = self.block {
                    if block.position.x > i32::MIN {
                        block.move_left();
                        self.block = Some(block);
                    }
                }
            },
            Key::Right => {
                if let Some(mut block) = self.block {
                    if block.position.x < i32::MAX {
                        block.move_right();
                        self.block = Some(block);
                    }
                }
            },
            Key::Up => {
                if let Some(mut block) = self.block {
                    block.rotate();
                    self.block = Some(block);
                }
            },
            Key::P => {
                self.pause = !self.pause;
            },
            Key::Return => {
                self.done = true;
            },
            _ => {},
        }
    }

    fn name(&self) -> (name: &'static str) {
        "play"
    }

    /// The scene covers the screen: nothing beneath it is drawn.
    fn draw_previous(&self) -> (beneath: bool) {
        false
    }
}

} // verus!
