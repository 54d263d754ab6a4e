//! The game session: the snake, the food, the movement clock and the
//! Playing / GameOver state machine, with one entry point per frame.

use vstd::prelude::*;
use crate::clock::{MOVE_PERIOD_NS, MovementClock, carried, fires};
use crate::collision::{is_food_collision, is_self_collision, is_wall_collision, self_hit};
use crate::food::spawn_food;
use crate::grid::{Cell, Direction, in_grid};
use crate::snake::{SnakeState, advanced_body, start_cell, steered};

verus! {

/// Whether the game runs or waits for a restart.
#[derive(Clone, Copy, Debug, PartialEq, Eq, Structural)]
pub enum GameState {
    Playing,
    GameOver,
}

/// What the rules see of a session: everything but the clock.
pub struct SessionView {
    pub body: Seq<Cell>,
    pub direction: Direction,
    pub growing: bool,
    pub food: Cell,
    pub state: GameState,
}

/// The heading after an optional request.
pub open spec fn heading_after(current: Direction, request: Option<Direction>) -> Direction {
    match request {
        Some(d) => steered(current, d),
        None => current,
    }
}

/// The body after a movement step of `v` under `request`.
pub open spec fn moved_body(v: SessionView, request: Option<Direction>) -> Seq<Cell> {
    advanced_body(v.body, heading_after(v.direction, request), v.growing)
}

/// A step of `v` that moves the snake onto the food.
pub open spec fn eats(v: SessionView, request: Option<Direction>, fired: bool) -> bool {
    v.state == GameState::Playing && fired && moved_body(v, request)[0] == v.food
}

/// One frame of the rules. In GameOver nothing changes. In Playing the
/// request steers; when the clock fired the snake moves, a head on the food
/// eats it (growth next step, `fresh` becomes the food), and a head off the
/// board or on its own body ends the game.
pub open spec fn next_view(v: SessionView, request: Option<Direction>, fired: bool, fresh: Cell) -> SessionView {
    if v.state == GameState::GameOver {
        v
    } else if !fired {
        SessionView { direction: heading_after(v.direction, request), ..v }
    } else {
        let body = moved_body(v, request);
        let ate = eats(v, request, fired);
        SessionView {
            body,
            direction: heading_after(v.direction, request),
            growing: ate,
            food: if ate { fresh } else { v.food },
            state: if !in_grid(body[0]) || self_hit(body) {
                GameState::GameOver
            } else {
                GameState::Playing
            },
        }
    }
}

/// The view at the start of a game with the given food.
pub open spec fn initial_view(food: Cell) -> SessionView {
    SessionView {
        body: seq![start_cell()],
        direction: Direction::Right,
        growing: false,
        food,
        state: GameState::Playing,
    }
}

/// The state of one game.
pub struct GameSession {
    pub snake: SnakeState,
    pub food: Cell,
    pub state: GameState,
    pub clock: MovementClock,
}

impl GameSession {
    pub open spec fn view(&self) -> SessionView {
        SessionView {
            body: self.snake.body@,
            direction: self.snake.direction,
            growing: self.snake.growing,
            food: self.food,
            state: self.state,
        }
    }

    /// The body is never empty, the food is on the board, the clock is
    /// sound, and while playing the head is on the board.
    pub open spec fn wf(&self) -> bool {
        &&& self.snake.wf()
        &&& in_grid(self.food)
        &&& self.clock.wf()
        &&& self.state == GameState::Playing ==> in_grid(self.snake.head_spec())
    }

    /// A new game with the given food cell and clock.
    pub fn with_food(food: Cell, clock: MovementClock) -> (r: GameSession)
        requires
            in_grid(food),
            clock.wf(),
        ensures
            r.wf(),
            r.view() == initial_view(food),
            r.clock == clock,
    {
        let snake = SnakeState::new();
        GameSession { snake, food, state: GameState::Playing, clock }
    }

    /// A new game: the start snake, food drawn over the board, and the
    /// movement clock at zero.
    pub fn new() -> (r: GameSession)
        ensures
            r.wf(),
            r.snake.is_initial(),
            in_grid(r.food),
            r.state == GameState::Playing,
            r.clock.period_ns == MOVE_PERIOD_NS,
            r.clock.elapsed_ns == 0,
    {
        let food = spawn_food();
        GameSession::with_food(food, MovementClock::movement())
    }
    /// One frame of the rules, with the clock's verdict and a food cell to
    /// use if the food gets eaten given as arguments. Food is checked first,
    /// then the wall, then the body; a wall or body hit ends the game.
    pub fn update(&mut self, request: Option<Direction>, fired: bool, fresh_food: Cell)
        requires
            old(self).wf(),
            in_grid(fresh_food),
        ensures
            final(self).wf(),
            final(self).view() == next_view(old(self).view(), request, fired, fresh_food),
            final(self).clock == old(self).clock,
    {
        if self.state == GameState::GameOver {
            return;
        }
        match request {
            Some(d) => self.snake.set_direction(d),
            None => {},
        }
        if !fired {
            return;
        }
        self.snake.advance();
        let head = self.snake.head();
        if is_food_collision(head, self.food) {
            self.snake.mark_growing();
            self.food = fresh_food;
        }
        if is_wall_collision(head) || is_self_collision(&self.snake.body) {
            self.state = GameState::GameOver;
        }
    }

    /// One frame of play: while playing, the clock advances by `delta_ns`,
    /// and when it fires the snake moves, with a fresh food cell drawn over
    /// the board for the case that it eats. In GameOver nothing changes.
    pub fn frame(&mut self, request: Option<Direction>, delta_ns: u64)
        requires
            old(self).wf(),
        ensures
            final(self).wf(),
            old(self).state == GameState::GameOver ==> final(self).view() == old(self).view()
                && final(self).clock == old(self).clock,
            old(self).state == GameState::Playing ==> {
                let c = old(self).clock;
                let fired = fires(c.period_ns as int, c.elapsed_ns as int, delta_ns as int);
                &&& final(self).clock.period_ns == c.period_ns
                &&& final(self).clock.elapsed_ns == carried(c.period_ns as int, c.elapsed_ns as int, delta_ns as int)
                &&& exists|f: Cell| in_grid(f) && #[trigger] next_view(old(self).view(), request, fired, f) == final(self).view()
            },
    {
        if self.state == GameState::GameOver {
            return;
        }
        let fired = self.clock.tick(delta_ns);
        let fresh = if fired {
            spawn_food()
        } else {
            self.food
        };
        self.update(request, fired, fresh);
    }

    /// Restarts a finished game with the given food cell: the start snake,
    /// that food, and Playing. A game in progress is left as it is.
    pub fn restart_with(&mut self, fresh_food: Cell)
        requires
            old(self).wf(),
            in_grid(fresh_food),
        ensures
            final(self).wf(),
            final(self).clock == old(self).clock,
            old(self).state == GameState::GameOver ==> final(self).view() == initial_view(fresh_food),
            old(self).state == GameState::Playing ==> final(self).view() == old(self).view(),
    {
        if self.state == GameState::GameOver {
            self.snake = SnakeState::new();
            self.food = fresh_food;
            self.state = GameState::Playing;
        }
    }

    /// Restarts a finished game: the start snake, one food cell drawn over
    /// the board, and Playing. A game in progress is left as it is.
    pub fn restart(&mut self)
        requires
            old(self).wf(),
        ensures
            final(self).wf(),
            final(self).clock == old(self).clock,
            old(self).state == GameState::GameOver ==> final(self).view() == initial_view(final(self).food),
            old(self).state == GameState::Playing ==> final(self).view() == old(self).view(),
    {
        if self.state == GameState::GameOver {
            let food = spawn_food();
            self.restart_with(food);
        }
    }

    /// The head cell.
    pub fn head(&self) -> (r: Cell)
        requires
            self.wf(),
        ensures
            r == self.view().body[0],
    {
        self.snake.head()
    }

    /// The score: the length of the body.
    pub fn score(&self) -> (r: usize)
        ensures
            r == self.view().body.len(),
    {
        self.snake.score()
    }

    /// The occupied cells, head first.
    pub fn body_cells(&self) -> (r: Vec<Cell>)
        ensures
            r@ == self.view().body,
    {
        let n = self.snake.body.len();
        let mut cells: Vec<Cell> = Vec::new();
        let mut i: usize = 0;
        while i < n
            invariant
                n == self.snake.body@.len(),
                i <= n,
                cells@ == self.snake.body@.subrange(0, i as int),
            decreases n - i,
        {
            cells.push(self.snake.body[i]);
            i = i + 1;
            assert(cells@ =~= self.snake.body@.subrange(0, i as int));
        }
        assert(cells@ =~= self.snake.body@);
        cells
    }

    /// True once the game has ended.
    pub fn is_game_over(&self) -> (r: bool)
        ensures
            r == (self.state == GameState::GameOver),
    {
        self.state == GameState::GameOver
    }
}

} // verus!
