use vstd::prelude::*;
use crate::obstacle::{
    clamp_center, gap_size_for, hits, Obstacle, BASE_GAP_SIZE, GAP_CENTER_HIGH, GAP_CENTER_LOW,
};
use crate::physics::{Player, ANIMATION_FRAMES, FLAP_VELOCITY, SPAWN_X, SPAWN_Y};
use crate::random::RandomSource;

verus! {

/// Width of the playfield in cells.
pub const SCREEN_WIDTH: i32 = 80;

/// Height of the playfield in cells; a body below it has fallen out.
pub const SCREEN_HEIGHT: i32 = 50;

/// Frame time that must pass before a physics step fires (microseconds).
pub const FRAME_DURATION_US: u64 = 30000;

/// Glyph used for each cell of a wall.
pub const WALL_GLYPH: u16 = 4;

/// Drawing scale of the avatar.
pub const PLAYER_SCALE: u8 = 2;

/// Drawing scale of a wall cell.
pub const WALL_SCALE: u8 = 1;

#[derive(Clone, Copy, Debug, PartialEq, Eq, Structural)]
pub enum GameMode {
    Menu,
    Playing,
    GameOver,
}

/// The one input event honoured in a frame.
#[derive(Clone, Copy, Debug, PartialEq, Eq, Structural)]
pub enum Input {
    Idle,
    Flap,
    SelectPlay,
    SelectQuit,
}

/// A line of text to show; the renderer chooses the words.
#[derive(Clone, Copy, Debug, PartialEq, Eq, Structural)]
pub enum TextLine {
    Title,
    PlayOption,
    QuitOption,
    YouAreDead,
    /// Final score on the game-over screen.
    Earned(i32),
    FlapPrompt,
    /// Running score while playing.
    Score(i32),
}

/// One glyph to draw: screen column, height in tenths of a cell, scale and
/// glyph index.
#[derive(Clone, Copy, Debug, PartialEq, Eq, Structural)]
pub struct Sprite {
    pub x: i32,
    pub y: i32,
    pub scale: u8,
    pub glyph: u16,
}

/// What one frame shows.
pub struct RenderCommands {
    pub kind: GameMode,
    pub texts: Vec<TextLine>,
    pub sprites: Vec<Sprite>,
    pub score: i32,
}

/// The whole game: mode, one session's body, obstacle and score, the frame
/// time accumulated towards the next physics step, and whether the player
/// asked to quit.
pub struct State {
    pub player: Player,
    pub obstacle: Obstacle,
    pub frame_time: u64,
    pub mode: GameMode,
    pub score: i32,
    pub quitting: bool,
}

/// The character of a decimal digit.
pub open spec fn digit_char(d: nat) -> char {
    if d == 0 {
        '0'
    } else if d == 1 {
        '1'
    } else if d == 2 {
        '2'
    } else if d == 3 {
        '3'
    } else if d == 4 {
        '4'
    } else if d == 5 {
        '5'
    } else if d == 6 {
        '6'
    } else if d == 7 {
        '7'
    } else if d == 8 {
        '8'
    } else {
        '9'
    }
}

/// The decimal digits of `n`, most significant first, without leading zeros.
pub open spec fn digits(n: nat) -> Seq<char>
    decreases n,
{
    if n < 10 {
        seq![digit_char(n)]
    } else {
        digits(n / 10).push(digit_char(n % 10))
    }
}

/// `n` written in decimal, with a leading `-` when negative.
pub open spec fn decimal(n: int) -> Seq<char> {
    if n < 0 {
        seq!['-'] + digits((-n) as nat)
    } else {
        digits(n as nat)
    }
}

fn digit_text(d: u64) -> (r: &'static str)
    requires
        d < 10,
    ensures
        r@ == seq![digit_char(d as nat)],
{
    proof {
        reveal_strlit("0");
        reveal_strlit("1");
        reveal_strlit("2");
        reveal_strlit("3");
        reveal_strlit("4");
        reveal_strlit("5");
        reveal_strlit("6");
        reveal_strlit("7");
        reveal_strlit("8");
        reveal_strlit("9");
    }
    if d == 0 {
        "0"
    } else if d == 1 {
        "1"
    } else if d == 2 {
        "2"
    } else if d == 3 {
        "3"
    } else if d == 4 {
        "4"
    } else if d == 5 {
        "5"
    } else if d == 6 {
        "6"
    } else if d == 7 {
        "7"
    } else if d == 8 {
        "8"
    } else {
        "9"
    }
}

/// Appends the decimal digits of `n`.
fn push_digits(out: &mut String, n: u64)
    ensures
        final(out)@ == old(out)@ + digits(n as nat),
    decreases n,
{
    if n >= 10 {
        push_digits(out, n / 10);
    }
    out.append(digit_text(n % 10));
    assert(n >= 10 ==> digits(n as nat) == digits((n / 10) as nat).push(digit_char((n % 10) as nat)));
    assert(final(out)@ =~= old(out)@ + digits(n as nat));
}

/// The count followed by a space and the noun that goes with it: singular
/// exactly when the count is one ("1 point", "0 points").
pub fn pluralize(count: i32, singular: &str, plural: &str) -> (r: String)
    ensures
        r@ == decimal(count as int) + seq![' '] + (if count == 1 {
            singular@
        } else {
            plural@
        }),
{
    proof {
        reveal_strlit("-");
        reveal_strlit(" ");
    }
    let mut r = String::new();
    if count < 0 {
        r.append("-");
    }
    let magnitude: u64 = if count < 0 {
        (-(count as i64)) as u64
    } else {
        count as u64
    };
    push_digits(&mut r, magnitude);
    r.append(" ");
    if count == 1 {
        r.append(singular);
    } else {
        r.append(plural);
    }
    assert(r@ =~= decimal(count as int) + seq![' '] + (if count == 1 {
        singular@
    } else {
        plural@
    }));
    r
}

/// Animation glyph for each frame of the avatar's cycle.
pub open spec fn dragon_glyph(frame: int) -> u16 {
    if frame == 0 {
        64
    } else if frame == 1 || frame == 5 {
        1
    } else if frame == 2 || frame == 4 {
        2
    } else {
        3
    }
}

fn dragon_frame(frame: usize) -> (r: u16)
    requires
        frame < ANIMATION_FRAMES,
    ensures
        r == dragon_glyph(frame as int),
{
    if frame == 0 {
        64
    } else if frame == 1 || frame == 5 {
        1
    } else if frame == 2 || frame == 4 {
        2
    } else {
        3
    }
}

/// The wall cell at screen column `screen_x` and row `row`.
pub open spec fn wall_cell(screen_x: int, row: int) -> Sprite {
    Sprite { x: screen_x as i32, y: (row * 10) as i32, scale: WALL_SCALE, glyph: WALL_GLYPH }
}

/// The cells of a wall at screen column `screen_x` whose gap spans rows
/// `top ..= bottom`: rows `0 .. top`, then rows `bottom .. SCREEN_HEIGHT`.
pub open spec fn wall_cells(screen_x: int, top: int, bottom: int) -> Seq<Sprite> {
    let upper = if top > 0 { top } else { 0 };
    let lower = if bottom < SCREEN_HEIGHT { SCREEN_HEIGHT - bottom } else { 0 };
    Seq::new(upper as nat, |i: int| wall_cell(screen_x, i)) + Seq::new(
        lower as nat,
        |i: int| wall_cell(screen_x, bottom + i),
    )
}

/// What a playing frame draws of `s`: the avatar at the left edge, then the
/// obstacle's wall relative to the scroll position.
pub open spec fn play_sprites(s: State) -> Seq<Sprite> {
    seq![
        Sprite {
            x: 0,
            y: s.player.y,
            scale: PLAYER_SCALE,
            glyph: dragon_glyph(s.player.frame as int),
        },
    ] + wall_cells(
        s.obstacle.x - s.player.x,
        s.obstacle.spec_gap_top(),
        s.obstacle.spec_gap_bottom(),
    )
}

/// The text lines of a frame in the given mode.
pub open spec fn texts_for(mode: GameMode, score: i32) -> Seq<TextLine> {
    match mode {
        GameMode::Menu => seq![TextLine::Title, TextLine::PlayOption, TextLine::QuitOption],
        GameMode::Playing => seq![TextLine::FlapPrompt, TextLine::Score(score)],
        GameMode::GameOver => seq![
            TextLine::YouAreDead,
            TextLine::Earned(score),
            TextLine::PlayOption,
            TextLine::QuitOption,
        ],
    }
}

/// A brand-new session in `mode`, its first obstacle centered on `draw`.
pub open spec fn fresh(mode: GameMode, draw: int) -> State {
    State {
        player: Player::spawn(),
        obstacle: Obstacle {
            x: SCREEN_WIDTH,
            gap_y: clamp_center(draw) as i32,
            size: BASE_GAP_SIZE,
        },
        frame_time: 0,
        mode,
        score: 0,
        quitting: false,
    }
}

/// Menu and game-over screens: play starts a fresh session, quit raises the
/// flag, anything else leaves the state as it is.
pub open spec fn choose_play_or_quit(s: State, input: Input, draw: int) -> State {
    match input {
        Input::SelectPlay => fresh(GameMode::Playing, draw),
        Input::SelectQuit => State { quitting: true, ..s },
        _ => s,
    }
}

/// Frame time accumulates; past the threshold it resets and the body takes
/// one step. A flap then sets the velocity, whether or not a step fired.
pub open spec fn physics_phase(s: State, input: Input, delta: int) -> State {
    let acc = s.frame_time + delta;
    let moved = if acc > FRAME_DURATION_US {
        State { player: s.player.stepped(), frame_time: 0, ..s }
    } else {
        State { frame_time: acc as u64, ..s }
    };
    if input == Input::Flap {
        State { player: Player { velocity: FLAP_VELOCITY, ..moved.player }, ..moved }
    } else {
        moved
    }
}

/// Once the body has scrolled past the obstacle, the score goes up by one
/// and a new obstacle, sized for the new score, spawns a screen ahead.
pub open spec fn pass_phase(s: State, draw: int) -> State {
    if s.player.x > s.obstacle.x {
        State {
            score: (s.score + 1) as i32,
            obstacle: Obstacle {
                x: (s.player.x + SCREEN_WIDTH) as i32,
                gap_y: clamp_center(draw) as i32,
                size: gap_size_for(s.score + 1) as i64,
            },
            ..s
        }
    } else {
        s
    }
}

/// The session ends when the body has fallen below the screen or hits the
/// obstacle.
pub open spec fn collide_phase(s: State) -> State {
    if s.player.row() > SCREEN_HEIGHT || hits(
        s.player.x as int,
        s.player.y as int,
        s.obstacle.x as int,
        s.obstacle.spec_gap_top(),
        s.obstacle.spec_gap_bottom(),
    ) {
        State { mode: GameMode::GameOver, ..s }
    } else {
        s
    }
}

/// The state after one frame with the given input, elapsed time and random
/// draw.
pub open spec fn next_state(s: State, input: Input, delta: int, draw: int) -> State {
    match s.mode {
        GameMode::Playing => collide_phase(pass_phase(physics_phase(s, input, delta), draw)),
        _ => choose_play_or_quit(s, input, draw),
    }
}

/// Whether the frame consumes a random draw: a new session starts, or the
/// body passes the obstacle.
pub open spec fn draws(s: State, input: Input, delta: int) -> bool {
    match s.mode {
        GameMode::Playing => {
            let p = physics_phase(s, input, delta);
            p.player.x > p.obstacle.x
        },
        _ => input == Input::SelectPlay,
    }
}

/// The state a frame draws: a playing frame shows the body after its step.
pub open spec fn shown(s: State, input: Input, delta: int) -> State {
    match s.mode {
        GameMode::Playing => physics_phase(s, input, delta),
        _ => s,
    }
}

/// Appends the cells of a wall at screen column `screen_x` whose gap spans
/// rows `top ..= bottom`.
fn push_wall(out: &mut Vec<Sprite>, screen_x: i32, top: i64, bottom: i64)
    requires
        top <= SCREEN_HEIGHT,
        bottom >= 0,
    ensures
        final(out)@ == old(out)@ + wall_cells(screen_x as int, top as int, bottom as int),
{
    let ghost start = out@;
    let mut row: i64 = 0;
    while row < top
        invariant
            0 <= row,
            top <= SCREEN_HEIGHT,
            row <= top || row == 0,
            out@ == start + Seq::new(row as nat, |i: int| wall_cell(screen_x as int, i)),
        decreases top - row,
    {
        out.push(Sprite { x: screen_x, y: (row * 10) as i32, scale: WALL_SCALE, glyph: WALL_GLYPH });
        row = row + 1;
        assert(out@ =~= start + Seq::new(row as nat, |i: int| wall_cell(screen_x as int, i)));
    }
    assert(row as int == (if top > 0 { top as int } else { 0 }));
    let ghost upper = out@;
    let mut row: i64 = bottom;
    while row < SCREEN_HEIGHT as i64
        invariant
            0 <= bottom <= row,
            bottom < SCREEN_HEIGHT ==> row <= SCREEN_HEIGHT,
            bottom >= SCREEN_HEIGHT ==> row == bottom,
            out@ == upper + Seq::new(
                (row - bottom) as nat,
                |i: int| wall_cell(screen_x as int, bottom + i),
            ),
        decreases SCREEN_HEIGHT - row,
    {
        out.push(Sprite { x: screen_x, y: (row * 10) as i32, scale: WALL_SCALE, glyph: WALL_GLYPH });
        row = row + 1;
        assert(out@ =~= upper + Seq::new(
            (row - bottom) as nat,
            |i: int| wall_cell(screen_x as int, bottom + i),
        ));
    }
    assert(out@ =~= start + wall_cells(screen_x as int, top as int, bottom as int));
}

impl RenderCommands {
    /// The frame drawn for `s` with the given input and elapsed time.
    pub open spec fn describes(&self, s: State, input: Input, delta: int) -> bool {
        let v = shown(s, input, delta);
        &&& self.kind == s.mode
        &&& self.score == s.score
        &&& self.texts@ == texts_for(s.mode, s.score)
        &&& self.sprites@ == (if s.mode == GameMode::Playing {
            play_sprites(v)
        } else {
            Seq::empty()
        })
    }
}

impl State {
    pub open spec fn wf(&self) -> bool {
        &&& self.player.wf()
        &&& self.obstacle.wf()
        &&& self.obstacle.size <= BASE_GAP_SIZE
        &&& 0 <= self.score <= self.player.x
        &&& self.player.x <= self.obstacle.x <= self.player.x + SCREEN_WIDTH
        &&& self.frame_time <= FRAME_DURATION_US
        &&& self.mode == GameMode::Playing ==> self.player.row() <= SCREEN_HEIGHT
    }

    /// Whether the scroll position leaves room for one more frame.
    pub open spec fn can_advance(&self) -> bool {
        self.player.x < i32::MAX - SCREEN_WIDTH
    }

    /// A fresh session in `mode`, its first obstacle one screen ahead with its
    /// gap centered on `draw` (clamped into range).
    pub fn init(mode: GameMode, draw: i32) -> (r: State)
        ensures
            r == fresh(mode, draw as int),
            r.wf(),
    {
        State {
            player: Player::new(SPAWN_X, SPAWN_Y),
            obstacle: Obstacle::new(SCREEN_WIDTH, 0, draw),
            frame_time: 0,
            mode,
            score: 0,
            quitting: false,
        }
    }

    /// The game at start-up: on the menu, with a fresh session.
    pub fn new<R: RandomSource>(rng: &mut R) -> (r: State)
        ensures
            exists|draw: i32| r == fresh(GameMode::Menu, draw as int),
            r.wf(),
    {
        let draw = rng.range(GAP_CENTER_LOW, GAP_CENTER_HIGH);
        State::init(GameMode::Menu, draw)
    }

    /// Replaces the whole state with a fresh playing session.
    pub fn restart(&mut self, draw: i32)
        ensures
            *final(self) == fresh(GameMode::Playing, draw as int),
            final(self).wf(),
    {
        *self = State::init(GameMode::Playing, draw);
    }

    fn play_or_quit(&mut self, input: Input, draw: i32)
        requires
            old(self).wf(),
        ensures
            *final(self) == choose_play_or_quit(*old(self), input, draw as int),
            final(self).wf(),
    {
        match input {
            Input::SelectPlay => self.restart(draw),
            Input::SelectQuit => self.quitting = true,
            _ => {},
        }
    }

    fn main_menu(&mut self, input: Input, draw: i32) -> (r: RenderCommands)
        requires
            old(self).wf(),
            old(self).mode == GameMode::Menu,
        ensures
            *final(self) == next_state(*old(self), input, 0, draw as int),
            r.describes(*old(self), input, 0),
            final(self).wf(),
    {
        let r = RenderCommands {
            kind: GameMode::Menu,
            texts: vec![TextLine::Title, TextLine::PlayOption, TextLine::QuitOption],
            sprites: Vec::new(),
            score: self.score,
        };
        self.play_or_quit(input, draw);
        r
    }

    fn game_over(&mut self, input: Input, draw: i32) -> (r: RenderCommands)
        requires
            old(self).wf(),
            old(self).mode == GameMode::GameOver,
        ensures
            *final(self) == next_state(*old(self), input, 0, draw as int),
            r.describes(*old(self), input, 0),
            final(self).wf(),
    {
        let r = RenderCommands {
            kind: GameMode::GameOver,
            texts: vec![
                TextLine::YouAreDead,
                TextLine::Earned(self.score),
                TextLine::PlayOption,
                TextLine::QuitOption,
            ],
            sprites: Vec::new(),
            score: self.score,
        };
        self.play_or_quit(input, draw);
        r
    }

    /// One playing frame: accumulate time, step the body once the threshold is
    /// crossed, apply a flap, draw, then score a pass and check for the end.
    fn play(&mut self, input: Input, delta: u32, draw: i32) -> (r: RenderCommands)
        requires
            old(self).wf(),
            old(self).mode == GameMode::Playing,
            old(self).can_advance(),
        ensures
            *final(self) == next_state(*old(self), input, delta as int, draw as int),
            r.describes(*old(self), input, delta as int),
            final(self).wf(),
    {
        self.frame_time = self.frame_time + delta as u64;
        if self.frame_time > FRAME_DURATION_US {
            self.frame_time = 0;
            self.player.gravity_and_move();
        }
        if input == Input::Flap {
            self.player.flap();
        }
        let mut sprites: Vec<Sprite> = Vec::new();
        sprites.push(
            Sprite {
                x: 0,
                y: self.player.y,
                scale: PLAYER_SCALE,
                glyph: dragon_frame(self.player.frame),
            },
        );
        push_wall(
            &mut sprites,
            self.obstacle.x - self.player.x,
            self.obstacle.gap_top(),
            self.obstacle.gap_bottom(),
        );
        let r = RenderCommands {
            kind: GameMode::Playing,
            texts: vec![TextLine::FlapPrompt, TextLine::Score(self.score)],
            sprites,
            score: self.score,
        };
        if self.player.x > self.obstacle.x {
            self.score = self.score + 1;
            self.obstacle = Obstacle::new(self.player.x + SCREEN_WIDTH, self.score, draw);
        }
        if self.player.y / 10 > SCREEN_HEIGHT || self.obstacle.is_hit(&self.player) {
            self.mode = GameMode::GameOver;
        }
        r
    }

    /// Whether a frame with this input and elapsed time consumes a random
    /// draw.
    pub fn needs_draw(&self, input: Input, delta: u32) -> (r: bool)
        requires
            self.wf(),
            self.can_advance(),
        ensures
            r == draws(*self, input, delta as int),
    {
        match self.mode {
            GameMode::Playing => {
                let x = if self.frame_time + delta as u64 > FRAME_DURATION_US {
                    self.player.x as i64 + 1
                } else {
                    self.player.x as i64
                };
                x > self.obstacle.x as i64
            },
            _ => input == Input::SelectPlay,
        }
    }

    /// One frame, given the random draw it may consume (clamped into the gap
    /// center range when used): the state moves to `next_state` and the
    /// returned commands draw the frame.
    pub fn advance(&mut self, input: Input, delta: u32, draw: i32) -> (r: RenderCommands)
        requires
            old(self).wf(),
            old(self).can_advance(),
        ensures
            *final(self) == next_state(*old(self), input, delta as int, draw as int),
            r.describes(*old(self), input, delta as int),
            final(self).wf(),
    {
        match self.mode {
            GameMode::Menu => self.main_menu(input, draw),
            GameMode::Playing => self.play(input, delta, draw),
            GameMode::GameOver => self.game_over(input, draw),
        }
    }

    /// One frame of the game: asks `rng` for a gap center only when the frame
    /// needs one, then advances. Whatever the source returns, the state moves
    /// to `next_state` for some draw, and to the one state that needs no draw
    /// when none is consumed.
    pub fn tick<R: RandomSource>(&mut self, rng: &mut R, input: Input, delta: u32) -> (r:
        RenderCommands)
        requires
            old(self).wf(),
            old(self).can_advance(),
        ensures
            exists|draw: i32| *final(self) == next_state(*old(self), input, delta as int, draw as int),
            !draws(*old(self), input, delta as int) ==> *final(self) == next_state(
                *old(self),
                input,
                delta as int,
                0,
            ),
            r.describes(*old(self), input, delta as int),
            final(self).wf(),
    {
        let draw: i32 = if self.needs_draw(input, delta) {
            rng.range(GAP_CENTER_LOW, GAP_CENTER_HIGH)
        } else {
            0
        };
        let r = self.advance(input, delta, draw);
        r
    }
}

/// The state after replaying a sequence of frames, each an input, an elapsed
/// time and a random draw.
pub open spec fn replay(s: State, frames: Seq<(Input, u32, i32)>) -> State
    decreases frames.len(),
{
    if frames.len() == 0 {
        s
    } else {
        let f = frames[0];
        replay(next_state(s, f.0, f.1 as int, f.2 as int), frames.drop_first())
    }
}

/// While playing, a frame raises the score by exactly one when the body
/// passes the obstacle, and leaves score and obstacle unchanged otherwise.
/// After a pass the new obstacle lies a screen ahead, so each obstacle is
/// counted at most once.
pub proof fn lemma_score_counts_passes(s: State, input: Input, delta: u32, draw: i32)
    requires
        s.wf(),
        s.can_advance(),
        s.mode == GameMode::Playing,
    ensures
        draws(s, input, delta as int) <==> physics_phase(s, input, delta as int).player.x
            > s.obstacle.x,
        draws(s, input, delta as int) ==> {
            let n = next_state(s, input, delta as int, draw as int);
            &&& n.score == s.score + 1
            &&& n.obstacle.x == n.player.x + SCREEN_WIDTH
            &&& n.obstacle.size == gap_size_for(n.score as int)
        },
        !draws(s, input, delta as int) ==> {
            let n = next_state(s, input, delta as int, draw as int);
            &&& n.score == s.score
            &&& n.obstacle == s.obstacle
        },
        next_state(s, input, delta as int, draw as int).player.x <= next_state(
            s,
            input,
            delta as int,
            draw as int,
        ).obstacle.x,
        next_state(s, input, delta as int, draw as int).wf(),
{
}

/// Choosing play on the menu or the game-over screen starts the same brand-new
/// session, whatever the old state and the elapsed time: score and frame time
/// zero, the body at its spawn point at rest, and a newly drawn first obstacle
/// one screen ahead with its gap center in range.
pub proof fn lemma_restart_resets(s: State, delta: u32, draw: i32)
    requires
        s.mode != GameMode::Playing,
    ensures
        next_state(s, Input::SelectPlay, delta as int, draw as int) == fresh(
            GameMode::Playing,
            draw as int,
        ),
        next_state(s, Input::SelectPlay, delta as int, draw as int).mode == GameMode::Playing,
        next_state(s, Input::SelectPlay, delta as int, draw as int).score == 0,
        next_state(s, Input::SelectPlay, delta as int, draw as int).frame_time == 0,
        next_state(s, Input::SelectPlay, delta as int, draw as int).player == Player::spawn(),
        next_state(s, Input::SelectPlay, delta as int, draw as int).obstacle == (Obstacle {
            x: SCREEN_WIDTH,
            gap_y: clamp_center(draw as int) as i32,
            size: BASE_GAP_SIZE,
        }),
        GAP_CENTER_LOW <= next_state(s, Input::SelectPlay, delta as int, draw as int).obstacle.gap_y
            < GAP_CENTER_HIGH,
        next_state(s, Input::SelectPlay, delta as int, draw as int).wf(),
        draws(s, Input::SelectPlay, delta as int),
{
}

/// A game is determined by its frames: replaying two batches of frames one
/// after the other ends where replaying them as one sequence does.
pub proof fn lemma_replay_composes(s: State, a: Seq<(Input, u32, i32)>, b: Seq<(Input, u32, i32)>)
    ensures
        replay(s, a + b) == replay(replay(s, a), b),
    decreases a.len(),
{
    if a.len() > 0 {
        let f = a[0];
        assert((a + b).drop_first() =~= a.drop_first() + b);
        lemma_replay_composes(next_state(s, f.0, f.1 as int, f.2 as int), a.drop_first(), b);
    } else {
        assert(a + b =~= b);
    }
}

/// What a frame draws is fixed by the state, the input and the elapsed time.
pub proof fn lemma_frame_deterministic(
    s: State,
    input: Input,
    delta: u32,
    r1: RenderCommands,
    r2: RenderCommands,
)
    requires
        r1.describes(s, input, delta as int),
        r2.describes(s, input, delta as int),
    ensures
        r1.kind == r2.kind,
        r1.score == r2.score,
        r1.texts@ == r2.texts@,
        r1.sprites@ == r2.sprites@,
{
}

} // verus!
