//! The game state machine: score, level, pause and game-over state, the
//! falling and upcoming pieces, and the fixed-cadence tick that applies
//! gravity, triggers line clears and spawns the next piece.
//!
//! The game performs no output itself: every operation reports the
//! presentation cues (redraws and sound effects) its host should perform.

use vstd::prelude::*;
use crate::clock::now_millis;
use crate::field::{
    cleared_count, run_start, spec_can_hold, Field, EMPTY_ROW, FIELD_HEIGHT, FIELD_WIDTH,
};
use crate::geometry::{clamped_coord, Direction, Pos};
use crate::object::Object;
use crate::tetromino::{Tetromino, TetrominoBag};

verus! {

/// Points per level: the level rises when the score reaches
/// `level * LEVEL_THRESHOLD`.
pub const LEVEL_THRESHOLD: u64 = 150;

/// Latest timestamp in milliseconds the tick accepts; far beyond any real
/// clock, it keeps the timer arithmetic within `i64`.
pub const MAX_TICK_MS: i64 = 0x4000_0000_0000_0000;

/// Upper bound on the timer baseline: at most one and a half times
/// `MAX_TICK_MS`.
pub const MAX_BASELINE_MS: i64 = 0x6000_0000_0000_0000;

/// A presentation cue the game asks its host to perform after an operation:
/// a redraw or a fire-and-forget sound. The game itself does no output.
#[derive(Clone, Copy, Debug, PartialEq, Eq, Structural)]
pub enum Cue {
    Prerender,
    Render,
    PlayBackgroundMusic,
    MuteBackgroundMusic,
    PlayPauseSound,
    PlayMoveSound,
    PlayNoMoveSound,
    PlayRotateSound,
    PlayNoRotateSound,
    PlayDropSound,
    PlayLevelUpSound,
    PlayLineClearSound,
    PlayTetrisLineClearSound,
    PlayGameOverSound,
}

/// The drop interval in milliseconds for a level: an exponential curve from
/// 1000 ms at level 1 down to 250 ms at level 50, clamped there for every
/// later level. Each value is `1000 * r^(level - 1)` rounded to the nearest
/// millisecond, with `r` the 49th root of one quarter.
pub open spec fn spec_level_speed(level: u8) -> i64 {
    if level <= 1 {
        1000
    } else if level == 2 {
        972
    } else if level == 3 {
        945
    } else if level == 4 {
        919
    } else if level == 5 {
        893
    } else if level == 6 {
        868
    } else if level == 7 {
        844
    } else if level == 8 {
        820
    } else if level == 9 {
        797
    } else if level == 10 {
        775
    } else if level == 11 {
        754
    } else if level == 12 {
        733
    } else if level == 13 {
        712
    } else if level == 14 {
        692
    } else if level == 15 {
        673
    } else if level == 16 {
        654
    } else if level == 17 {
        636
    } else if level == 18 {
        618
    } else if level == 19 {
        601
    } else if level == 20 {
        584
    } else if level == 21 {
        568
    } else if level == 22 {
        552
    } else if level == 23 {
        537
    } else if level == 24 {
        522
    } else if level == 25 {
        507
    } else if level == 26 {
        493
    } else if level == 27 {
        479
    } else if level == 28 {
        466
    } else if level == 29 {
        453
    } else if level == 30 {
        440
    } else if level == 31 {
        428
    } else if level == 32 {
        416
    } else if level == 33 {
        404
    } else if level == 34 {
        393
    } else if level == 35 {
        382
    } else if level == 36 {
        371
    } else if level == 37 {
        361
    } else if level == 38 {
        351
    } else if level == 39 {
        341
    } else if level == 40 {
        332
    } else if level == 41 {
        322
    } else if level == 42 {
        313
    } else if level == 43 {
        305
    } else if level == 44 {
        296
    } else if level == 45 {
        288
    } else if level == 46 {
        280
    } else if level == 47 {
        272
    } else if level == 48 {
        265
    } else if level == 49 {
        257
    } else {
        250
    }
}

/// The drop interval in milliseconds for a level. A level of zero breaks
/// the function's contract: levels start at 1.
pub fn calc_level_speed(level: u8) -> (ms: i64)
    requires
        level >= 1,
    ensures
        ms == spec_level_speed(level),
{
    if level <= 1 {
        1000
    } else if level == 2 {
        972
    } else if level == 3 {
        945
    } else if level == 4 {
        919
    } else if level == 5 {
        893
    } else if level == 6 {
        868
    } else if level == 7 {
        844
    } else if level == 8 {
        820
    } else if level == 9 {
        797
    } else if level == 10 {
        775
    } else if level == 11 {
        754
    } else if level == 12 {
        733
    } else if level == 13 {
        712
    } else if level == 14 {
        692
    } else if level == 15 {
        673
    } else if level == 16 {
        654
    } else if level == 17 {
        636
    } else if level == 18 {
        618
    } else if level == 19 {
        601
    } else if level == 20 {
        584
    } else if level == 21 {
        568
    } else if level == 22 {
        552
    } else if level == 23 {
        537
    } else if level == 24 {
        522
    } else if level == 25 {
        507
    } else if level == 26 {
        493
    } else if level == 27 {
        479
    } else if level == 28 {
        466
    } else if level == 29 {
        453
    } else if level == 30 {
        440
    } else if level == 31 {
        428
    } else if level == 32 {
        416
    } else if level == 33 {
        404
    } else if level == 34 {
        393
    } else if level == 35 {
        382
    } else if level == 36 {
        371
    } else if level == 37 {
        361
    } else if level == 38 {
        351
    } else if level == 39 {
        341
    } else if level == 40 {
        332
    } else if level == 41 {
        322
    } else if level == 42 {
        313
    } else if level == 43 {
        305
    } else if level == 44 {
        296
    } else if level == 45 {
        288
    } else if level == 46 {
        280
    } else if level == 47 {
        272
    } else if level == 48 {
        265
    } else if level == 49 {
        257
    } else {
        250
    }
}

/// The drop interval never grows with the level.
pub proof fn lemma_level_speed_monotone(a: u8, b: u8)
    requires
        1 <= a <= b,
    ensures
        spec_level_speed(b) <= spec_level_speed(a),
    decreases b - a,
{
    if a < b {
        lemma_level_speed_monotone(a, (b - 1) as u8);
        assert(spec_level_speed(b) <= spec_level_speed((b - 1) as u8));
    }
}

/// The drop interval starts at 1000 ms, never leaves the 250 to 1000 ms
/// band, and sits at the 250 ms floor from level 50 on.
pub proof fn lemma_level_speed_bounds(level: u8)
    requires
        1 <= level,
    ensures
        spec_level_speed(1) == 1000,
        250 <= spec_level_speed(level) <= 1000,
        level >= 50 ==> spec_level_speed(level) == 250,
{
}


/// Some column across the field width can hold the piece's mask at the top
/// row: the piece has a legal spawn position.
pub open spec fn spec_spawnable(area: Seq<u16>, t: Tetromino, d: Direction) -> bool {
    exists|x: u16|
        x + t.spec_dimensions(d).0 <= FIELD_WIDTH && spec_can_hold(
            area,
            t.spec_qube(d),
            t.spec_dimensions(d).0,
            (Pos { x, y: 0u16 }),
        )
}


/// How many rows the falling piece can advance down from `pos`: the count
/// of consecutive one-row steps whose target the field can hold.
pub open spec fn spec_drop_dist(area: Seq<u16>, q: Seq<u8>, w: u16, pos: Pos) -> int
    decreases FIELD_HEIGHT + 1 - pos.y,
{
    if pos.y >= FIELD_HEIGHT {
        0
    } else if spec_can_hold(area, q, w, (Pos { x: pos.x, y: (pos.y + 1) as u16 })) {
        1 + spec_drop_dist(area, q, w, (Pos { x: pos.x, y: (pos.y + 1) as u16 }))
    } else {
        0
    }
}

/// The game: playfield, piece bag, falling and upcoming pieces, score,
/// level, pause and game-over state, and the tick timer baseline.
pub struct Game {
    pub field: Field,
    pub tetromino_bag: TetrominoBag,
    pub current_object: Object,
    pub next_object: (Tetromino, Direction),
    pub level: u8,
    pub score: u64,
    pub paused: bool,
    pub game_over: bool,
    pub last_tick: i64,
    pub should_exit: bool,
}

impl Game {
    /// The game's representation invariant: a well-formed field, a falling
    /// piece whose cached mask matches its shape and facing, a bag that can
    /// never run empty, a level of at least 1, and a timer baseline within
    /// its working range.
    pub open spec fn wf(&self) -> bool {
        &&& self.field.wf()
        &&& self.current_object.wf()
        &&& self.tetromino_bag.wf()
        &&& 1 <= self.level
        &&& 0 <= self.last_tick <= MAX_BASELINE_MS
    }

    /// Draws a shape and facing from the bag and finds its spawn position on
    /// an empty field, which always exists there.
    fn spawn_on_empty(field: &Field, bag: &mut TetrominoBag) -> (o: Object)
        requires
            field.wf(),
            field.is_empty(),
            forall|k: int| 0 <= k < 7 ==> #[trigger] old(bag).weights@[k] == 1,
        ensures
            final(bag).wf(),
            final(bag).headroom(),
            forall|k: int| 0 <= k < 7 ==> #[trigger] final(bag).weights@[k] <= 2,
            o.wf(),
            o.pos.y == 0,
            o.pos.x == (FIELD_WIDTH - o.tetromino.spec_dimensions(o.direction).0) / 2,
            spec_can_hold(
                field.area@,
                o.tetromino.spec_qube(o.direction),
                o.tetromino.spec_dimensions(o.direction).0,
                o.pos,
            ),
    {
        let tetromino = bag.get_next_tetromino_and_update_weights();
        let direction = Direction::random();
        let pos = match field.get_start_pos(&tetromino, &direction) {
            Some(p) => p,
            None => {
                proof {
                    crate::tetromino::lemma_qube_wf(tetromino, direction);
                    let w = tetromino.spec_dimensions(direction).0;
                    let x = ((FIELD_WIDTH - w) / 2) as u16;
                    crate::field::lemma_empty_field_can_hold(
                        field.area@,
                        tetromino.spec_qube(direction),
                        w,
                        (Pos { x, y: 0u16 }),
                    );
                    assert(false);
                }
                Pos { x: 0, y: 0 }
            },
        };
        proof {
            crate::tetromino::lemma_qube_wf(tetromino, direction);
            let w = tetromino.spec_dimensions(direction).0;
            let c = (FIELD_WIDTH - w) / 2;
            crate::field::lemma_empty_field_can_hold(
                field.area@,
                tetromino.spec_qube(direction),
                w,
                (Pos { x: c as u16, y: 0u16 }),
            );
            assert(crate::field::col_dist(pos.x, c) == 0);
        }
        Object::new(tetromino, direction, pos)
    }

    /// A fresh game: empty field, fresh bag, a spawned falling piece and a
    /// drawn upcoming piece, score 0, level 1, paused, not over. The host
    /// draws the static chrome and renders once after construction.
    pub fn new() -> (g: Game)
        ensures
            g.wf(),
            g.score == 0,
            g.level == 1,
            g.paused,
            !g.game_over,
            !g.should_exit,
            g.last_tick == 0,
            g.field.is_empty(),
            g.tetromino_bag.headroom(),
            g.current_object.pos.y == 0,
            g.current_object.pos.x == (FIELD_WIDTH - g.cur_width()) / 2,
            spec_can_hold(g.field.area@, g.cur_qube(), g.cur_width(), g.current_object.pos),
    {
        let field = Field::new();
        let mut tetromino_bag = TetrominoBag::new();
        let current_object = Self::spawn_on_empty(&field, &mut tetromino_bag);
        let next_t = tetromino_bag.get_next_tetromino_and_update_weights();
        let next_d = Direction::random();
        Game {
            field,
            tetromino_bag,
            current_object,
            next_object: (next_t, next_d),
            level: 1,
            score: 0,
            paused: true,
            game_over: false,
            last_tick: 0,
            should_exit: false,
        }
    }

    /// Reinitializes everything: field cleared, bag weights reset, score 0,
    /// level 1, paused, a new falling piece and upcoming piece. Only the
    /// host's exit flag survives. The host redraws afterwards, as the cues
    /// say.
    pub fn reset(&mut self) -> (cues: Vec<Cue>)
        ensures
            final(self).wf(),
            final(self).score == 0,
            final(self).level == 1,
            final(self).paused,
            !final(self).game_over,
            final(self).last_tick == 0,
            final(self).field.is_empty(),
            final(self).tetromino_bag.headroom(),
            final(self).should_exit == old(self).should_exit,
            final(self).current_object.pos.y == 0,
            final(self).current_object.pos.x == (FIELD_WIDTH - final(self).cur_width()) / 2,
            spec_can_hold(
                final(self).field.area@,
                final(self).cur_qube(),
                final(self).cur_width(),
                final(self).current_object.pos,
            ),
            cues@ == seq![Cue::Prerender, Cue::Render],
    {
        self.field.reset();
        self.tetromino_bag.reset_weights();
        let current_object = Self::spawn_on_empty(&self.field, &mut self.tetromino_bag);
        self.current_object = current_object;
        let next_t = self.tetromino_bag.get_next_tetromino_and_update_weights();
        let next_d = Direction::random();
        self.next_object = (next_t, next_d);
        self.level = 1;
        self.score = 0;
        self.paused = true;
        self.game_over = false;
        self.last_tick = 0;
        let mut cues: Vec<Cue> = Vec::new();
        cues.push(Cue::Prerender);
        cues.push(Cue::Render);
        proof {
            assert(cues@ =~= seq![Cue::Prerender, Cue::Render]);
        }
        cues
    }

    /// Adds points to the score and raises the level once when the new score
    /// reaches the current level's threshold. At most one level is gained
    /// per addition, however far the score overshoots.
    fn add_score(&mut self, points: u64) -> (leveled: bool)
        requires
            old(self).score + points <= u64::MAX,
            old(self).level < 255,
        ensures
            final(self).score == old(self).score + points,
            leveled == (old(self).score + points >= old(self).level * LEVEL_THRESHOLD),
            final(self).level == if leveled {
                (old(self).level + 1) as u8
            } else {
                old(self).level
            },
            final(self).field == old(self).field,
            final(self).tetromino_bag == old(self).tetromino_bag,
            final(self).current_object == old(self).current_object,
            final(self).next_object == old(self).next_object,
            final(self).paused == old(self).paused,
            final(self).game_over == old(self).game_over,
            final(self).last_tick == old(self).last_tick,
            final(self).should_exit == old(self).should_exit,
    {
        self.score = self.score + points;
        if self.score >= (self.level as u64) * LEVEL_THRESHOLD {
            self.level = self.level + 1;
            true
        } else {
            false
        }
    }

    /// Raises the host's stop signal; the ticking loop observes it and
    /// terminates.
    pub fn exit(&mut self)
        ensures
            final(self).should_exit,
            final(self).field == old(self).field,
            final(self).tetromino_bag == old(self).tetromino_bag,
            final(self).current_object == old(self).current_object,
            final(self).next_object == old(self).next_object,
            final(self).level == old(self).level,
            final(self).score == old(self).score,
            final(self).paused == old(self).paused,
            final(self).game_over == old(self).game_over,
            final(self).last_tick == old(self).last_tick,
    {
        self.should_exit = true;
    }

    /// Whether the host's stop signal is raised.
    pub fn should_exit(&self) -> (b: bool)
        ensures
            b == self.should_exit,
    {
        self.should_exit
    }

    /// Whether the game is paused.
    pub fn is_paused(&self) -> (b: bool)
        ensures
            b == self.paused,
    {
        self.paused
    }

    /// Whether the game is over.
    pub fn is_game_over(&self) -> (b: bool)
        ensures
            b == self.game_over,
    {
        self.game_over
    }

    /// Pauses or resumes the game. A change redraws everything, plays the
    /// pause chime, and stops or restarts the background music; setting the
    /// current state again does nothing.
    pub fn set_paused(&mut self, paused: bool) -> (cues: Vec<Cue>)
        ensures
            final(self).paused == paused,
            final(self).field == old(self).field,
            final(self).tetromino_bag == old(self).tetromino_bag,
            final(self).current_object == old(self).current_object,
            final(self).next_object == old(self).next_object,
            final(self).level == old(self).level,
            final(self).score == old(self).score,
            final(self).game_over == old(self).game_over,
            final(self).last_tick == old(self).last_tick,
            final(self).should_exit == old(self).should_exit,
            paused == old(self).paused ==> cues@ == Seq::<Cue>::empty(),
            paused != old(self).paused ==> cues@ == seq![
                Cue::Prerender,
                Cue::Render,
                Cue::PlayPauseSound,
                if paused {
                    Cue::MuteBackgroundMusic
                } else {
                    Cue::PlayBackgroundMusic
                },
            ],
    {
        let mut cues: Vec<Cue> = Vec::new();
        if paused != self.paused {
            self.paused = paused;
            cues.push(Cue::Prerender);
            cues.push(Cue::Render);
            cues.push(Cue::PlayPauseSound);
            if !self.paused {
                cues.push(Cue::PlayBackgroundMusic);
            } else {
                cues.push(Cue::MuteBackgroundMusic);
            }
            proof {
                assert(cues@ =~= seq![
                    Cue::Prerender,
                    Cue::Render,
                    Cue::PlayPauseSound,
                    if paused {
                        Cue::MuteBackgroundMusic
                    } else {
                        Cue::PlayBackgroundMusic
                    },
                ]);
            }
        }
        proof {
            if paused == old(self).paused {
                assert(cues@ =~= Seq::<Cue>::empty());
            }
        }
        cues
    }

    /// The falling piece's mask rows.
    pub open spec fn cur_qube(&self) -> Seq<u8> {
        self.current_object.tetromino.spec_qube(self.current_object.direction)
    }

    /// The falling piece's bounding-box width.
    pub open spec fn cur_width(&self) -> u16 {
        self.current_object.tetromino.spec_dimensions(self.current_object.direction).0
    }

    /// Moves the upcoming piece into play at its spawn position and draws a
    /// fresh upcoming piece. When no column across the field width can hold
    /// the piece at the top, the game ends instead: the music stops and the
    /// game-over sound plays.
    pub fn next(&mut self) -> (cues: Vec<Cue>)
        requires
            old(self).wf(),
            old(self).tetromino_bag.headroom(),
        ensures
            final(self).wf(),
            final(self).field == old(self).field,
            final(self).level == old(self).level,
            final(self).score == old(self).score,
            final(self).paused == old(self).paused,
            final(self).last_tick == old(self).last_tick,
            final(self).should_exit == old(self).should_exit,
            spec_spawnable(old(self).field.area@, old(self).next_object.0, old(self).next_object.1)
                ==> ({
                &&& final(self).game_over == old(self).game_over
                &&& final(self).current_object.tetromino == old(self).next_object.0
                &&& final(self).current_object.direction == old(self).next_object.1
                &&& final(self).current_object.pos.y == 0
                &&& spec_can_hold(
                    old(self).field.area@,
                    final(self).cur_qube(),
                    final(self).cur_width(),
                    final(self).current_object.pos,
                )
                &&& cues@ == seq![Cue::Render]
            }),
            !spec_spawnable(
                old(self).field.area@,
                old(self).next_object.0,
                old(self).next_object.1,
            ) ==> ({
                &&& final(self).game_over
                &&& final(self).current_object == old(self).current_object
                &&& final(self).next_object == old(self).next_object
                &&& cues@ == seq![Cue::MuteBackgroundMusic, Cue::PlayGameOverSound, Cue::Render]
            }),
    {
        let (tetromino, direction) = self.next_object;
        let mut cues: Vec<Cue> = Vec::new();
        match self.field.get_start_pos(&tetromino, &direction) {
            Some(pos) => {
                self.current_object = Object::new(tetromino, direction, pos);
                let next_t = self.tetromino_bag.get_next_tetromino_and_update_weights();
                let next_d = Direction::random();
                self.next_object = (next_t, next_d);
                proof {
                    assert(spec_can_hold(
                        self.field.area@,
                        tetromino.spec_qube(direction),
                        tetromino.spec_dimensions(direction).0,
                        pos,
                    ));
                    assert(spec_spawnable(self.field.area@, tetromino, direction)) by {
                        assert(pos.x + tetromino.spec_dimensions(direction).0 <= FIELD_WIDTH
                            && spec_can_hold(
                            self.field.area@,
                            tetromino.spec_qube(direction),
                            tetromino.spec_dimensions(direction).0,
                            (Pos { x: pos.x, y: 0u16 }),
                        ));
                    }
                }
            },
            None => {
                self.game_over = true;
                cues.push(Cue::MuteBackgroundMusic);
                cues.push(Cue::PlayGameOverSound);
            },
        }
        cues.push(Cue::Render);
        proof {
            if cues@.len() == 1 {
                assert(cues@ =~= seq![Cue::Render]);
            } else {
                assert(cues@ =~= seq![
                    Cue::MuteBackgroundMusic,
                    Cue::PlayGameOverSound,
                    Cue::Render,
                ]);
            }
        }
        cues
    }

    /// Rotates the falling piece one step in the facing cycle when the
    /// rotated mask fits at the piece's current position (no wall-kick
    /// search); an illegal rotation changes nothing and plays the failure
    /// cue.
    pub fn rotate_current_object(&mut self) -> (cues: Vec<Cue>)
        requires
            old(self).wf(),
        ensures
            final(self).wf(),
            final(self).field == old(self).field,
            final(self).tetromino_bag == old(self).tetromino_bag,
            final(self).next_object == old(self).next_object,
            final(self).level == old(self).level,
            final(self).score == old(self).score,
            final(self).paused == old(self).paused,
            final(self).game_over == old(self).game_over,
            final(self).last_tick == old(self).last_tick,
            final(self).should_exit == old(self).should_exit,
            final(self).current_object.tetromino == old(self).current_object.tetromino,
            final(self).current_object.pos == old(self).current_object.pos,
            ({
                let t = old(self).current_object.tetromino;
                let nd = old(self).current_object.direction.spec_rotate();
                if spec_can_hold(
                    old(self).field.area@,
                    t.spec_qube(nd),
                    t.spec_dimensions(nd).0,
                    old(self).current_object.pos,
                ) {
                    final(self).current_object.direction == nd && cues@ == seq![
                        Cue::PlayRotateSound,
                        Cue::Render,
                    ]
                } else {
                    final(self).current_object.direction == old(self).current_object.direction
                        && cues@ == seq![Cue::PlayNoRotateSound]
                }
            }),
    {
        let new_direction = self.current_object.get_direction().copy_rotate();
        let new_qube = self.current_object.get_type().get_cube_by_direction(&new_direction);
        let new_qube_width = self.current_object.tetromino.dimensions(&new_direction).0;
        let pos = self.current_object.get_position();
        let mut cues: Vec<Cue> = Vec::new();
        if self.field.can_hold((new_qube, new_qube_width), &pos) {
            self.current_object.rotate();
            cues.push(Cue::PlayRotateSound);
            cues.push(Cue::Render);
            proof {
                assert(cues@ =~= seq![Cue::PlayRotateSound, Cue::Render]);
            }
        } else {
            cues.push(Cue::PlayNoRotateSound);
            proof {
                assert(cues@ =~= seq![Cue::PlayNoRotateSound]);
            }
        }
        cues
    }

    /// Moves the falling piece one column left when the field allows it; a
    /// blocked move changes nothing and plays the failure cue.
    pub fn move_current_object_left(&mut self) -> (cues: Vec<Cue>)
        requires
            old(self).wf(),
        ensures
            final(self).wf(),
            final(self).field == old(self).field,
            final(self).tetromino_bag == old(self).tetromino_bag,
            final(self).next_object == old(self).next_object,
            final(self).level == old(self).level,
            final(self).score == old(self).score,
            final(self).paused == old(self).paused,
            final(self).game_over == old(self).game_over,
            final(self).last_tick == old(self).last_tick,
            final(self).should_exit == old(self).should_exit,
            final(self).current_object.tetromino == old(self).current_object.tetromino,
            final(self).current_object.direction == old(self).current_object.direction,
            final(self).current_object.qube == old(self).current_object.qube,
            ({
                let np = Pos {
                    x: clamped_coord(old(self).current_object.pos.x - 1),
                    y: old(self).current_object.pos.y,
                };
                if spec_can_hold(old(self).field.area@, old(self).cur_qube(), old(self).cur_width(), np) {
                    final(self).current_object.pos == np && cues@ == seq![
                        Cue::PlayMoveSound,
                        Cue::Render,
                    ]
                } else {
                    final(self).current_object.pos == old(self).current_object.pos && cues@
                        == seq![Cue::PlayNoMoveSound]
                }
            }),
    {
        let new_pos = self.current_object.get_position().copy_mod_x(-1);
        let qw = self.current_object.get_qube_with_width();
        let mut cues: Vec<Cue> = Vec::new();
        if self.field.can_hold(qw, &new_pos) {
            self.current_object.pos.mod_x(-1);
            cues.push(Cue::PlayMoveSound);
            cues.push(Cue::Render);
            proof {
                assert(cues@ =~= seq![Cue::PlayMoveSound, Cue::Render]);
            }
        } else {
            cues.push(Cue::PlayNoMoveSound);
            proof {
                assert(cues@ =~= seq![Cue::PlayNoMoveSound]);
            }
        }
        cues
    }

    /// Moves the falling piece one column right when the field allows it; a
    /// blocked move changes nothing and plays the failure cue.
    pub fn move_current_object_right(&mut self) -> (cues: Vec<Cue>)
        requires
            old(self).wf(),
        ensures
            final(self).wf(),
            final(self).field == old(self).field,
            final(self).tetromino_bag == old(self).tetromino_bag,
            final(self).next_object == old(self).next_object,
            final(self).level == old(self).level,
            final(self).score == old(self).score,
            final(self).paused == old(self).paused,
            final(self).game_over == old(self).game_over,
            final(self).last_tick == old(self).last_tick,
            final(self).should_exit == old(self).should_exit,
            final(self).current_object.tetromino == old(self).current_object.tetromino,
            final(self).current_object.direction == old(self).current_object.direction,
            final(self).current_object.qube == old(self).current_object.qube,
            ({
                let np = Pos {
                    x: clamped_coord(old(self).current_object.pos.x + 1),
                    y: old(self).current_object.pos.y,
                };
                if spec_can_hold(old(self).field.area@, old(self).cur_qube(), old(self).cur_width(), np) {
                    final(self).current_object.pos == np && cues@ == seq![
                        Cue::PlayMoveSound,
                        Cue::Render,
                    ]
                } else {
                    final(self).current_object.pos == old(self).current_object.pos && cues@
                        == seq![Cue::PlayNoMoveSound]
                }
            }),
    {
        let new_pos = self.current_object.get_position().copy_mod_x(1);
        let qw = self.current_object.get_qube_with_width();
        let mut cues: Vec<Cue> = Vec::new();
        if self.field.can_hold(qw, &new_pos) {
            self.current_object.pos.mod_x(1);
            cues.push(Cue::PlayMoveSound);
            cues.push(Cue::Render);
            proof {
                assert(cues@ =~= seq![Cue::PlayMoveSound, Cue::Render]);
            }
        } else {
            cues.push(Cue::PlayNoMoveSound);
            proof {
                assert(cues@ =~= seq![Cue::PlayNoMoveSound]);
            }
        }
        cues
    }

    /// Moves the falling piece one row down when the field allows it,
    /// awarding one point (which can raise the level); a blocked soft drop
    /// changes nothing and plays the blocked-move cue.
    pub fn move_current_object_down(&mut self) -> (cues: Vec<Cue>)
        requires
            old(self).wf(),
            old(self).score < u64::MAX,
            old(self).level < 255,
        ensures
            final(self).wf(),
            final(self).field == old(self).field,
            final(self).tetromino_bag == old(self).tetromino_bag,
            final(self).next_object == old(self).next_object,
            final(self).paused == old(self).paused,
            final(self).game_over == old(self).game_over,
            final(self).last_tick == old(self).last_tick,
            final(self).should_exit == old(self).should_exit,
            final(self).score >= old(self).score,
            final(self).level >= old(self).level,
            final(self).current_object.tetromino == old(self).current_object.tetromino,
            final(self).current_object.direction == old(self).current_object.direction,
            ({
                let np = Pos {
                    x: old(self).current_object.pos.x,
                    y: clamped_coord(old(self).current_object.pos.y + 1),
                };
                let leveled = old(self).score + 1 >= old(self).level * LEVEL_THRESHOLD;
                if spec_can_hold(old(self).field.area@, old(self).cur_qube(), old(self).cur_width(), np) {
                    &&& final(self).current_object.pos == np
                    &&& final(self).score == old(self).score + 1
                    &&& final(self).level == if leveled {
                        (old(self).level + 1) as u8
                    } else {
                        old(self).level
                    }
                    &&& cues@ == seq![Cue::PlayMoveSound] + (if leveled {
                        seq![Cue::PlayLevelUpSound]
                    } else {
                        Seq::<Cue>::empty()
                    }) + seq![Cue::Render]
                } else {
                    &&& final(self).current_object.pos == old(self).current_object.pos
                    &&& final(self).score == old(self).score
                    &&& final(self).level == old(self).level
                    &&& cues@ == seq![Cue::PlayNoMoveSound]
                }
            }),
    {
        let new_pos = self.current_object.get_position().copy_mod_y(1);
        let qw = self.current_object.get_qube_with_width();
        let mut cues: Vec<Cue> = Vec::new();
        if self.field.can_hold(qw, &new_pos) {
            self.current_object.pos.mod_y(1);
            cues.push(Cue::PlayMoveSound);
            let leveled = self.add_score(1);
            if leveled {
                cues.push(Cue::PlayLevelUpSound);
            }
            cues.push(Cue::Render);
            proof {
                if leveled {
                    assert(cues@ =~= seq![Cue::PlayMoveSound] + seq![Cue::PlayLevelUpSound]
                        + seq![Cue::Render]);
                } else {
                    assert(cues@ =~= seq![Cue::PlayMoveSound] + Seq::<Cue>::empty()
                        + seq![Cue::Render]);
                }
            }
        } else {
            cues.push(Cue::PlayNoMoveSound);
            proof {
                assert(cues@ =~= seq![Cue::PlayNoMoveSound]);
            }
        }
        cues
    }

    /// Hard drop: advances the falling piece down as far as the field
    /// allows. A drop of zero rows does nothing at all; otherwise the piece
    /// is committed where it lands, the drop awards five quarters of a
    /// point per skipped row (rounded down), and the next piece enters play
    /// or the game ends when it cannot.
    pub fn drop_current_object_down(&mut self) -> (cues: Vec<Cue>)
        requires
            old(self).wf(),
            old(self).tetromino_bag.headroom(),
            old(self).score <= u64::MAX - 30,
            old(self).level < 255,
        ensures
            final(self).wf(),
            final(self).paused == old(self).paused,
            final(self).should_exit == old(self).should_exit,
            final(self).last_tick == old(self).last_tick,
            final(self).score >= old(self).score,
            final(self).level >= old(self).level,
            ({
                let q = old(self).cur_qube();
                let w = old(self).cur_width();
                let opos = old(self).current_object.pos;
                let d = spec_drop_dist(old(self).field.area@, q, w, opos);
                let landing = Pos { x: opos.x, y: (opos.y + d) as u16 };
                let leveled = old(self).score + d * 5 / 4 >= old(self).level * LEVEL_THRESHOLD;
                if d == 0 {
                    *final(self) == *old(self) && cues@ == Seq::<Cue>::empty()
                } else {
                    &&& spec_can_hold(old(self).field.area@, q, w, landing)
                    &&& final(self).score == old(self).score + d * 5 / 4
                    &&& final(self).level == if leveled {
                        (old(self).level + 1) as u8
                    } else {
                        old(self).level
                    }
                    &&& final(self).field.area@.len() == FIELD_HEIGHT
                    &&& (forall|k: int|
                        0 <= k < 4 && #[trigger] q[k] != 0 ==> final(self).field.area@[landing.y
                            + crate::tetromino::nz_before(q, k)] == (old(self).field.area@[
                        landing.y + crate::tetromino::nz_before(q, k)] | crate::field::row_mask(
                            q[k],
                            landing.x,
                        )))
                    &&& (forall|i: int|
                        0 <= i < FIELD_HEIGHT && !(landing.y <= i < landing.y
                            + crate::tetromino::nz_before(q, 4)) ==> final(self).field.area@[i]
                            == old(self).field.area@[i])
                    &&& (spec_spawnable(
                        final(self).field.area@,
                        old(self).next_object.0,
                        old(self).next_object.1,
                    ) ==> final(self).game_over == old(self).game_over && cues@ == seq![
                        Cue::PlayDropSound,
                    ] + (if leveled {
                        seq![Cue::PlayLevelUpSound]
                    } else {
                        Seq::<Cue>::empty()
                    }) + seq![Cue::Render])
                    &&& (!spec_spawnable(
                        final(self).field.area@,
                        old(self).next_object.0,
                        old(self).next_object.1,
                    ) ==> final(self).game_over && cues@ == seq![Cue::PlayDropSound] + (if leveled {
                        seq![Cue::PlayLevelUpSound]
                    } else {
                        Seq::<Cue>::empty()
                    }) + seq![Cue::MuteBackgroundMusic, Cue::PlayGameOverSound, Cue::Render])
                }
            }),
    {
        proof {
            crate::tetromino::lemma_qube_wf(
                old(self).current_object.tetromino,
                old(self).current_object.direction,
            );
        }
        let qw = self.current_object.get_qube_with_width();
        let mut skipped_lines: u16 = 0;
        loop
            invariant
                old(self).wf(),
                crate::tetromino::qube_wf(old(self).cur_qube(), old(self).cur_width()),
                self.field == old(self).field,
                self.tetromino_bag == old(self).tetromino_bag,
                self.next_object == old(self).next_object,
                self.level == old(self).level,
                self.score == old(self).score,
                self.paused == old(self).paused,
                self.game_over == old(self).game_over,
                self.last_tick == old(self).last_tick,
                self.should_exit == old(self).should_exit,
                self.current_object.tetromino == old(self).current_object.tetromino,
                self.current_object.direction == old(self).current_object.direction,
                self.current_object.qube == old(self).current_object.qube,
                self.current_object.pos.x == old(self).current_object.pos.x,
                qw.0 == old(self).current_object.qube,
                qw.0@ == old(self).cur_qube(),
                qw.1 == old(self).cur_width(),
                self.current_object.pos.y == old(self).current_object.pos.y + skipped_lines,
                skipped_lines >= 1 ==> spec_can_hold(
                    old(self).field.area@,
                    old(self).cur_qube(),
                    old(self).cur_width(),
                    self.current_object.pos,
                ),
                spec_drop_dist(
                    old(self).field.area@,
                    old(self).cur_qube(),
                    old(self).cur_width(),
                    old(self).current_object.pos,
                ) == skipped_lines + spec_drop_dist(
                    old(self).field.area@,
                    old(self).cur_qube(),
                    old(self).cur_width(),
                    self.current_object.pos,
                ),
            ensures
                old(self).wf(),
                crate::tetromino::qube_wf(old(self).cur_qube(), old(self).cur_width()),
                self.field == old(self).field,
                self.tetromino_bag == old(self).tetromino_bag,
                self.next_object == old(self).next_object,
                self.level == old(self).level,
                self.score == old(self).score,
                self.paused == old(self).paused,
                self.game_over == old(self).game_over,
                self.last_tick == old(self).last_tick,
                self.should_exit == old(self).should_exit,
                self.current_object.tetromino == old(self).current_object.tetromino,
                self.current_object.direction == old(self).current_object.direction,
                self.current_object.qube == old(self).current_object.qube,
                self.current_object.pos.x == old(self).current_object.pos.x,
                qw.0 == old(self).current_object.qube,
                qw.0@ == old(self).cur_qube(),
                qw.1 == old(self).cur_width(),
                self.current_object.pos.y == old(self).current_object.pos.y + skipped_lines,
                skipped_lines >= 1 ==> spec_can_hold(
                    old(self).field.area@,
                    old(self).cur_qube(),
                    old(self).cur_width(),
                    self.current_object.pos,
                ),
                spec_drop_dist(
                    old(self).field.area@,
                    old(self).cur_qube(),
                    old(self).cur_width(),
                    old(self).current_object.pos,
                ) == skipped_lines + spec_drop_dist(
                    old(self).field.area@,
                    old(self).cur_qube(),
                    old(self).cur_width(),
                    self.current_object.pos,
                ),
                !spec_can_hold(
                    old(self).field.area@,
                    old(self).cur_qube(),
                    old(self).cur_width(),
                    (Pos {
                        x: self.current_object.pos.x,
                        y: clamped_coord(self.current_object.pos.y + 1),
                    }),
                ),
            decreases 0x1_0000 - self.current_object.pos.y,
        {
            let next_pos = self.current_object.get_position().copy_mod_y(1);
            if !self.field.can_hold(qw, &next_pos) {
                break;
            }
            proof {
                assert(old(self).cur_qube()[0] != 0);
                assert(next_pos.y + crate::tetromino::nz_before(old(self).cur_qube(), 0)
                    < old(self).field.area@.len());
                assert(self.current_object.pos.y < 19);
            }
            self.current_object.pos.mod_y(1);
            skipped_lines = skipped_lines + 1;
        }
        proof {
            assert(spec_drop_dist(
                old(self).field.area@,
                old(self).cur_qube(),
                old(self).cur_width(),
                self.current_object.pos,
            ) == 0);
        }
        if skipped_lines == 0 {
            let cues: Vec<Cue> = Vec::new();
            return cues;
        }
        let mut cues: Vec<Cue> = Vec::new();
        cues.push(Cue::PlayDropSound);
        let cur_pos = self.current_object.get_position();
        let placed = self.field.place(qw, &cur_pos);
        match placed {
            Ok(_) => {},
            Err(_) => {
                proof {
                    assert(false);
                }
            },
        }
        let points = (skipped_lines as u64 * 5) / 4;
        let leveled = self.add_score(points);
        if leveled {
            cues.push(Cue::PlayLevelUpSound);
        }
        let ghost pre_cues = cues@;
        let mut next_cues = self.next();
        let ghost nc = next_cues@;
        cues.append(&mut next_cues);
        proof {
            let lvl_seq: Seq<Cue> = if leveled {
                seq![Cue::PlayLevelUpSound]
            } else {
                Seq::<Cue>::empty()
            };
            assert(pre_cues =~= seq![Cue::PlayDropSound] + lvl_seq);
            assert(cues@ == pre_cues + nc);
        }
        cues
    }

    /// One step of the fixed-cadence simulation, at time `now` in
    /// milliseconds.
    ///
    /// Paused or finished games ignore ticks. The first tick only records
    /// the timer baseline. A tick before the level's drop interval has
    /// elapsed does nothing: ticks poll real time. An elapsed tick first
    /// clears pending complete rows, scoring them and advancing the timer
    /// by half the elapsed time (clearing and gravity never share a tick);
    /// otherwise the falling piece drops one row, or lands and the next
    /// piece enters play. The error reports a falling piece that no longer
    /// fits its own position, an invariant breach the host treats as
    /// fatal; nothing has changed when it is returned.
    pub fn tick_at(&mut self, now: i64) -> (r: Result<Vec<Cue>, &'static str>)
        requires
            old(self).wf(),
            old(self).tetromino_bag.headroom(),
            old(self).score <= u64::MAX - 300,
            old(self).level < 255,
            0 <= now < MAX_TICK_MS,
        ensures
            final(self).wf(),
            final(self).paused == old(self).paused,
            final(self).should_exit == old(self).should_exit,
            final(self).score >= old(self).score,
            final(self).level >= old(self).level,
            r is Err ==> *final(self) == *old(self),
            (old(self).paused || old(self).game_over) ==> (r matches Ok(c) && c@
                == Seq::<Cue>::empty()) && *final(self) == *old(self),
            (!old(self).paused && !old(self).game_over && old(self).last_tick == 0) ==> (r
                matches Ok(c) && c@ == seq![Cue::Render]) && *final(self) == (Game {
                last_tick: now,
                ..*old(self)
            }),
            (!old(self).paused && !old(self).game_over && old(self).last_tick != 0 && now - old(
                self,
            ).last_tick < spec_level_speed(old(self).level)) ==> (r matches Ok(c) && c@
                == Seq::<Cue>::empty()) && *final(self) == *old(self),
            ({
                let n = cleared_count(old(self).field.area@);
                let s0 = run_start(old(self).field.area@, 0);
                let diff = now - old(self).last_tick;
                let leveled = old(self).score + (10 + (n - 1) * 15) >= old(self).level
                    * LEVEL_THRESHOLD;
                (!old(self).paused && !old(self).game_over && old(self).last_tick != 0 && diff
                    >= spec_level_speed(old(self).level) && n > 0) ==> ({
                    &&& (r matches Ok(c) && c@ == seq![
                        if n == 4 {
                            Cue::PlayTetrisLineClearSound
                        } else {
                            Cue::PlayLineClearSound
                        },
                    ] + (if leveled {
                        seq![Cue::PlayLevelUpSound]
                    } else {
                        Seq::<Cue>::empty()
                    }) + seq![Cue::Render])
                    &&& final(self).score == old(self).score + 10 + (n - 1) * 15
                    &&& final(self).level == if leveled {
                        (old(self).level + 1) as u8
                    } else {
                        old(self).level
                    }
                    &&& final(self).last_tick == now + diff / 2
                    &&& final(self).field.area@.len() == FIELD_HEIGHT
                    &&& (forall|i: int| 0 <= i < n ==> final(self).field.area@[i] == EMPTY_ROW)
                    &&& (forall|i: int|
                        n <= i <= s0 + n - 1 ==> final(self).field.area@[i] == old(
                            self,
                        ).field.area@[i - n])
                    &&& (forall|i: int|
                        s0 + n - 1 < i < FIELD_HEIGHT ==> final(self).field.area@[i] == old(
                            self,
                        ).field.area@[i])
                    &&& final(self).current_object == old(self).current_object
                    &&& final(self).next_object == old(self).next_object
                    &&& final(self).tetromino_bag == old(self).tetromino_bag
                    &&& final(self).game_over == old(self).game_over
                })
            }),
            ({
                let q = old(self).cur_qube();
                let w = old(self).cur_width();
                let cpos = old(self).current_object.pos;
                let np = Pos { x: cpos.x, y: clamped_coord(cpos.y + 1) };
                (!old(self).paused && !old(self).game_over && old(self).last_tick != 0 && now
                    - old(self).last_tick >= spec_level_speed(old(self).level) && cleared_count(
                    old(self).field.area@,
                ) == 0) ==> ({
                    if spec_can_hold(old(self).field.area@, q, w, np) {
                        (r matches Ok(c) && c@ == seq![Cue::Render]) && *final(self) == (Game {
                            current_object: Object { pos: np, ..old(self).current_object },
                            last_tick: now,
                            ..*old(self)
                        })
                    } else if !spec_can_hold(old(self).field.area@, q, w, cpos) {
                        r is Err
                    } else {
                        &&& final(self).last_tick == now
                        &&& final(self).score == old(self).score
                        &&& final(self).level == old(self).level
                        &&& final(self).field.area@.len() == FIELD_HEIGHT
                        &&& (forall|k: int|
                            0 <= k < 4 && #[trigger] q[k] != 0 ==> final(self).field.area@[cpos.y
                                + crate::tetromino::nz_before(q, k)] == (old(self).field.area@[
                            cpos.y + crate::tetromino::nz_before(q, k)]
                                | crate::field::row_mask(q[k], cpos.x)))
                        &&& (forall|i: int|
                            0 <= i < FIELD_HEIGHT && !(cpos.y <= i < cpos.y
                                + crate::tetromino::nz_before(q, 4))
                                ==> final(self).field.area@[i] == old(self).field.area@[i])
                        &&& (spec_spawnable(
                            final(self).field.area@,
                            old(self).next_object.0,
                            old(self).next_object.1,
                        ) ==> final(self).game_over == old(self).game_over && (r matches Ok(c)
                            && c@ == seq![Cue::Render, Cue::Render]))
                        &&& (!spec_spawnable(
                            final(self).field.area@,
                            old(self).next_object.0,
                            old(self).next_object.1,
                        ) ==> final(self).game_over && (r matches Ok(c) && c@ == seq![
                            Cue::MuteBackgroundMusic,
                            Cue::PlayGameOverSound,
                            Cue::Render,
                            Cue::Render,
                        ]))
                    }
                })
            }),
    {
        if self.paused || self.game_over {
            return Ok(Vec::new());
        }
        let time = now;
        if self.last_tick == 0 {
            self.last_tick = time;
            let mut cues: Vec<Cue> = Vec::new();
            cues.push(Cue::Render);
            proof {
                assert(cues@ =~= seq![Cue::Render]);
            }
            return Ok(cues);
        }
        let time_diff = time - self.last_tick;
        let speed = calc_level_speed(self.level);
        proof {
            lemma_level_speed_bounds(self.level);
        }
        if time_diff < speed {
            return Ok(Vec::new());
        }
        let completed_lines = self.field.get_completed_rows().1;
        if completed_lines > 0 {
            let cleared = self.field.clear_completed_lines();
            proof {
                assert(cleared == completed_lines);
            }
            let mut cues: Vec<Cue> = Vec::new();
            if completed_lines == 4 {
                cues.push(Cue::PlayTetrisLineClearSound);
            } else {
                cues.push(Cue::PlayLineClearSound);
            }
            let leveled = self.add_score(10 + ((completed_lines as u64) - 1) * 15);
            if leveled {
                cues.push(Cue::PlayLevelUpSound);
            }
            self.last_tick = time + time_diff / 2;
            cues.push(Cue::Render);
            proof {
                let head = seq![
                    if cleared_count(old(self).field.area@) == 4 {
                        Cue::PlayTetrisLineClearSound
                    } else {
                        Cue::PlayLineClearSound
                    },
                ];
                if leveled {
                    assert(cues@ =~= head + seq![Cue::PlayLevelUpSound] + seq![Cue::Render]);
                } else {
                    assert(cues@ =~= head + Seq::<Cue>::empty() + seq![Cue::Render]);
                }
            }
            return Ok(cues);
        }
        proof {
            crate::tetromino::lemma_qube_wf(
                old(self).current_object.tetromino,
                old(self).current_object.direction,
            );
        }
        let qw = self.current_object.get_qube_with_width();
        let next_pos = self.current_object.get_position().copy_mod_y(1);
        if self.field.can_hold(qw, &next_pos) {
            self.current_object.pos.mod_y(1);
            self.last_tick = time;
            let mut cues: Vec<Cue> = Vec::new();
            cues.push(Cue::Render);
            proof {
                assert(cues@ =~= seq![Cue::Render]);
            }
            return Ok(cues);
        }
        let cur_pos = self.current_object.get_position();
        if !self.field.can_hold(qw, &cur_pos) {
            return Err("Failed to place the current object in the field");
        }
        let placed = self.field.place(qw, &cur_pos);
        match placed {
            Ok(_) => {},
            Err(_) => {
                proof {
                    assert(false);
                }
            },
        }
        let mut cues = self.next();
        self.last_tick = time;
        cues.push(Cue::Render);
        proof {
            if spec_spawnable(
                self.field.area@,
                old(self).next_object.0,
                old(self).next_object.1,
            ) {
                assert(cues@ =~= seq![Cue::Render, Cue::Render]);
            } else {
                assert(cues@ =~= seq![
                    Cue::MuteBackgroundMusic,
                    Cue::PlayGameOverSound,
                    Cue::Render,
                    Cue::Render,
                ]);
            }
        }
        Ok(cues)
    }

    /// One step of the simulation clocked from the wall clock: reads the
    /// time and hands it to `tick_at`. A clock reading outside the tick's
    /// working range is ignored.
    pub fn tick(&mut self) -> (r: Result<Vec<Cue>, &'static str>)
        requires
            old(self).wf(),
            old(self).tetromino_bag.headroom(),
            old(self).score <= u64::MAX - 300,
            old(self).level < 255,
        ensures
            final(self).wf(),
            final(self).paused == old(self).paused,
            final(self).should_exit == old(self).should_exit,
            final(self).score >= old(self).score,
            final(self).level >= old(self).level,
            r is Err ==> *final(self) == *old(self),
            (old(self).paused || old(self).game_over) ==> *final(self) == *old(self) && (r
                matches Ok(c) && c@ == Seq::<Cue>::empty()),
            (!old(self).paused && !old(self).game_over && old(self).last_tick == 0) ==> ({
                &&& r is Ok
                &&& final(self).field == old(self).field
                &&& final(self).score == old(self).score
                &&& final(self).level == old(self).level
                &&& final(self).current_object == old(self).current_object
                &&& final(self).next_object == old(self).next_object
                &&& final(self).tetromino_bag == old(self).tetromino_bag
                &&& final(self).game_over == old(self).game_over
            }),
    {
        let now = now_millis();
        if now < 0 || now >= MAX_TICK_MS {
            return Ok(Vec::new());
        }
        self.tick_at(now)
    }
}

} // verus!


