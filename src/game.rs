use vstd::prelude::*;
use crate::cherry::{has_free_cell, Cherry};
use crate::grid::{cell_block, opposite, Block, Color, Direction};
use crate::snake::Snake;
use crate::state::{Outcome, State};

verus! {

/// A player's input, already told apart from the raw events of the window.
#[derive(Clone, Copy, Debug, PartialEq, Eq, Structural)]
pub enum Input {
    /// Leave the game (the window was closed, or the quit key pressed).
    Quit,
    /// A direction key was pressed.
    Turn(Direction),
}

/// The direction after asking for `wanted` while heading `current`: a request
/// for the exact reverse is ignored, any other is taken.
pub open spec fn steer(current: Direction, wanted: Direction) -> Direction {
    if wanted == opposite(current) {
        current
    } else {
        wanted
    }
}

/// Direction and quit flag after one input.
pub open spec fn apply_input(d: Direction, quit: bool, input: Input) -> (Direction, bool) {
    match input {
        Input::Quit => (d, true),
        Input::Turn(w) => (steer(d, w), quit),
    }
}

/// Direction and quit flag after the inputs in order.
pub open spec fn apply_inputs(d: Direction, quit: bool, inputs: Seq<Input>) -> (Direction, bool)
    decreases inputs.len(),
{
    if inputs.len() == 0 {
        (d, quit)
    } else {
        let before = apply_inputs(d, quit, inputs.drop_last());
        apply_input(before.0, before.1, inputs.last())
    }
}

/// The two components of a game, as one closed set.
pub enum Component {
    Snake(Snake),
    Cherry(Cherry),
}

impl Component {
    /// The component can be updated in `state`.
    pub open spec fn wf(&self, state: State) -> bool {
        match self {
            Component::Snake(s) => s.wf() && state.wf(),
            Component::Cherry(c) => state.has_cells(c.size),
        }
    }

    /// Updates the component: the snake moves one tick, the food is placed if
    /// none is out. The food's update always succeeds.
    pub fn update(&mut self, state: &mut State) -> (r: Outcome)
        requires
            old(self).wf(*old(state)),
        ensures
            final(self).wf(*final(state)),
            match (*old(self), *final(self)) {
                (Component::Snake(s0), Component::Snake(s1)) => {
                    &&& r == s0.outcome_of(*old(state))
                    &&& s1.body@ == s0.body_after(*old(state))
                },
                (Component::Cherry(c0), Component::Cherry(c1)) => {
                    &&& r == Outcome::Applied
                    &&& final(state).direction == old(state).direction
                    &&& final(state).occupied@ == old(state).occupied@
                    &&& old(state).cherry_pos.is_some() ==> final(state).cherry_pos
                        == old(state).cherry_pos
                    &&& old(state).cherry_pos.is_none() && has_free_cell(
                        old(state).occupied@,
                        old(state).cols(c0.size),
                        old(state).rows(c0.size),
                    ) ==> final(state).cherry_pos == Some(c1.pos)
                },
                _ => false,
            },
    {
        match self {
            Component::Snake(s) => s.update(state),
            Component::Cherry(c) => {
                c.update(state);
                Outcome::Applied
            },
        }
    }

    /// The rectangles that draw the component.
    pub fn render(&self) -> (r: Vec<Block>)
        requires
            match self {
                Component::Snake(s) => s.size > 0,
                Component::Cherry(c) => c.size > 0,
            },
        ensures
            match self {
                Component::Snake(s) => r@ == s.body@.map_values(
                    |p| cell_block(p, s.size, s.color),
                ),
                Component::Cherry(c) => r@ == seq![cell_block(c.pos, c.size, c.color)],
            },
    {
        match self {
            Component::Snake(s) => {
                let r = s.render();
                assert(r@ =~= s.body@.map_values(|p| cell_block(p, s.size, s.color)));
                r
            },
            Component::Cherry(c) => {
                let r = vec![c.render()];
                assert(r@ =~= seq![cell_block(c.pos, c.size, c.color)]);
                r
            },
        }
    }
}

/// A game: the shared state and its two components, the snake and the food,
/// updated and drawn in that order.
pub struct Game {
    pub draw_color: Color,
    pub snake: Snake,
    pub cherry: Cherry,
    pub state: State,
}

impl Game {
    /// A game on a window of the given size, with a light grey background.
    pub fn new(window_width: u32, window_height: u32, snake: Snake, cherry: Cherry) -> (r: Game)
        ensures
            r.draw_color == (Color { r: 211, g: 211, b: 211 }),
            r.snake == snake,
            r.cherry == cherry,
            r.state.window_width == window_width,
            r.state.window_height == window_height,
            r.state.direction == Direction::Right,
            r.state.occupied@.len() == 0,
            r.state.cherry_pos.is_none(),
            !r.state.quit,
    {
        Game { draw_color: Color::rgb(211, 211, 211), snake, cherry, state: State::new(window_width, window_height) }
    }

    /// Both components can be updated and drawn in this state.
    pub open spec fn wf(&self) -> bool {
        &&& self.snake.wf()
        &&& self.state.wf()
        &&& self.state.has_cells(self.cherry.size)
    }

    /// Applies one input to the direction and the quit flag.
    pub fn handle_input(&mut self, input: Input)
        ensures
            (final(self).state.direction, final(self).state.quit) == apply_input(
                old(self).state.direction,
                old(self).state.quit,
                input,
            ),
            final(self).state.window_width == old(self).state.window_width,
            final(self).state.window_height == old(self).state.window_height,
            final(self).state.occupied == old(self).state.occupied,
            final(self).state.cherry_pos == old(self).state.cherry_pos,
            final(self).snake == old(self).snake,
            final(self).cherry == old(self).cherry,
            final(self).draw_color == old(self).draw_color,
    {
        match input {
            Input::Quit => {
                self.state.quit = true;
            },
            Input::Turn(wanted) => {
                if wanted != self.state.direction.opposite() {
                    self.state.direction = wanted;
                }
            },
        }
    }

    /// Applies the inputs gathered since the last call, in order.
    pub fn process_input(&mut self, inputs: &Vec<Input>)
        ensures
            (final(self).state.direction, final(self).state.quit) == apply_inputs(
                old(self).state.direction,
                old(self).state.quit,
                inputs@,
            ),
            final(self).state.window_width == old(self).state.window_width,
            final(self).state.window_height == old(self).state.window_height,
            final(self).state.occupied == old(self).state.occupied,
            final(self).state.cherry_pos == old(self).state.cherry_pos,
            final(self).snake == old(self).snake,
            final(self).cherry == old(self).cherry,
            final(self).draw_color == old(self).draw_color,
    {
        let mut i: usize = 0;
        while i < inputs.len()
            invariant
                0 <= i <= inputs@.len(),
                (self.state.direction, self.state.quit) == apply_inputs(
                    old(self).state.direction,
                    old(self).state.quit,
                    inputs@.subrange(0, i as int),
                ),
                self.state.window_width == old(self).state.window_width,
                self.state.window_height == old(self).state.window_height,
                self.state.occupied == old(self).state.occupied,
                self.state.cherry_pos == old(self).state.cherry_pos,
                self.snake == old(self).snake,
                self.cherry == old(self).cherry,
                self.draw_color == old(self).draw_color,
            decreases inputs@.len() - i,
        {
            assert(inputs@.subrange(0, i + 1).drop_last() =~= inputs@.subrange(0, i as int));
            self.handle_input(inputs[i]);
            i += 1;
        }
        assert(inputs@.subrange(0, inputs@.len() as int) =~= inputs@);
    }

    /// One logic tick: the snake moves, then, unless the game is over, the food
    /// is placed if none is out. The result is the snake's: `Applied` lets the
    /// tick clock advance, `NotApplied` asks for the same tick again.
    pub fn update(&mut self) -> (r: Outcome)
        requires
            old(self).wf(),
        ensures
            final(self).wf(),
            r == old(self).snake.outcome_of(old(self).state),
            final(self).snake.body@ == old(self).snake.body_after(old(self).state),
            final(self).state.quit == old(self).state.quit,
            final(self).draw_color == old(self).draw_color,
            !(r is GameOver) ==> (final(self).state.cherry_pos.is_some() || !has_free_cell(
                final(self).state.occupied@,
                final(self).state.cols(final(self).cherry.size),
                final(self).state.rows(final(self).cherry.size),
            )),
    {
        let r = self.snake.update(&mut self.state);
        if let Outcome::GameOver(_) = r {
            return r;
        }
        self.cherry.update(&mut self.state);
        r
    }

    /// The rectangles of one frame: the snake's, head first, then the food's.
    pub fn render(&self) -> (r: Vec<Block>)
        requires
            self.wf(),
        ensures
            r@ == self.snake.body@.map_values(
                |p| cell_block(p, self.snake.size, self.snake.color),
            ).push(cell_block(self.cherry.pos, self.cherry.size, self.cherry.color)),
    {
        let mut r = self.snake.render();
        r.push(self.cherry.render());
        assert(r@ =~= self.snake.body@.map_values(
            |p| cell_block(p, self.snake.size, self.snake.color),
        ).push(cell_block(self.cherry.pos, self.cherry.size, self.cherry.color)));
        r
    }
}

} // verus!
