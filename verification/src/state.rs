//! The game state machine: five modes, per-tick input routing, the
//! fixed-timestep accumulator, and the play-mode simulation step.

use crate::obstacle::{recycle_size, spawn_size, spec_hits, Obstacle};
use crate::player::{player_step, Player};
use crate::rng::rng_seeded;
use crate::scores::{
    insert_highscore, parse_highscore_line, parsed_entry, saved_table, sorted_desc, table_view,
    valid_line, Highscore, HighscoreV,
};
use crate::{MIN_OBSTACLE_OFFSET, PLAYER_INIT_Y, PLAYER_X_OFFSET, SCREEN_HEIGHT, SCREEN_WIDTH,
    TICK_MS};
use vstd::prelude::*;

verus! {

/// The five modes of the game. Exactly one is active at a time, and each
/// tick runs the handler of the active one.
#[derive(Clone, Copy, Debug, PartialEq, Eq, Structural)]
pub enum GameMode {
    Menu,
    HighScore,
    Playing,
    Edit,
    End,
}

/// A key press, as the host decodes it for the library.
#[derive(Clone, Copy, Debug, PartialEq, Eq, Structural)]
pub enum GameKey {
    /// A letter key, `'A'` through `'Z'`.
    Letter(char),
    /// A digit key, `'0'` through `'9'`.
    Digit(char),
    Return,
    Back,
    Space,
    /// Any key the game never binds.
    Other,
}

/// What the host must do after a tick.
#[derive(Clone, Copy, Debug, PartialEq, Eq, Structural)]
pub enum TickEffect {
    /// Keep running.
    Proceed,
    /// Write the (already updated) high-score table out.
    Persist,
    /// End the process.
    Quit,
}

/// The whole game: the active mode, the running score and its ledger, the
/// actor, the pool of three recycled obstacles, the tick accumulator, and
/// the seeded generator the obstacles draw from.
pub struct State {
    pub mode: GameMode,
    pub player_name: String,
    pub frame_time: u64,
    pub player: Player,
    pub obstacles: Vec<Obstacle>,
    pub last_obstacle_x: i32,
    pub score: i32,
    pub hscores: Vec<Highscore>,
    pub rng: bracket_lib::random::RandomNumberGenerator,
}

/// Every field but the mode and the generator is unchanged.
pub open spec fn same_but_mode(pre: State, post: State) -> bool {
    &&& post.player_name@ == pre.player_name@
    &&& post.frame_time == pre.frame_time
    &&& post.player == pre.player
    &&& post.obstacles@ == pre.obstacles@
    &&& post.last_obstacle_x == pre.last_obstacle_x
    &&& post.score == pre.score
    &&& post.hscores@ == pre.hscores@
}

/// Every field but the generator is unchanged.
pub open spec fn unchanged_state(pre: State, post: State) -> bool {
    &&& same_but_mode(pre, post)
    &&& post.mode == pre.mode
}

/// The state after a full reset: the actor back at its spawn cell at rest,
/// the three obstacles respawned one screen apart at score 0, the chain
/// anchor back at the third obstacle, the score zeroed, and play resumed.
pub open spec fn reset_run(pre: State, post: State) -> bool {
    &&& post.mode == GameMode::Playing
    &&& post.player_name@ == pre.player_name@
    &&& post.frame_time == pre.frame_time
    &&& post.player == (Player { x: PLAYER_X_OFFSET, y: PLAYER_INIT_Y, velocity: 0 })
    &&& post.obstacles@.len() == 3
    &&& (forall|i: int|
        0 <= i < 3 ==> {
            &&& (#[trigger] post.obstacles@[i]).x == SCREEN_WIDTH * (i + 1)
            &&& post.obstacles@[i].size == spawn_size(0)
            &&& post.obstacles@[i].wf()
        })
    &&& post.last_obstacle_x == SCREEN_WIDTH * 3
    &&& post.score == 0
    &&& post.hscores@ == pre.hscores@
}

/// What the main menu does with a key: start play, show the score table,
/// signal quit, or nothing.
pub open spec fn menu_rel(pre: State, post: State, key: Option<GameKey>, eff: TickEffect) -> bool {
    &&& same_but_mode(pre, post)
    &&& post.mode == (match key {
        Some(GameKey::Letter(c)) => if c == 'S' {
            GameMode::Playing
        } else if c == 'H' {
            GameMode::HighScore
        } else {
            pre.mode
        },
        _ => pre.mode,
    })
    &&& eff == (if key == Some(GameKey::Letter('Q')) {
        TickEffect::Quit
    } else {
        TickEffect::Proceed
    })
}

/// What the game-over screen does with a key: save the run into the table
/// (and have the host persist it), go to the menu, edit the name, restart
/// with a full reset, signal quit, or nothing.
pub open spec fn dead_rel(pre: State, post: State, key: Option<GameKey>, eff: TickEffect) -> bool {
    match key {
        Some(GameKey::Return) => {
            &&& post.mode == pre.mode
            &&& post.player_name@ == pre.player_name@
            &&& post.frame_time == pre.frame_time
            &&& post.player == pre.player
            &&& post.obstacles@ == pre.obstacles@
            &&& post.last_obstacle_x == pre.last_obstacle_x
            &&& post.score == pre.score
            &&& (if pre.score > 0 {
                table_view(post.hscores@) == saved_table(
                    table_view(pre.hscores@),
                    HighscoreV { name: pre.player_name@, score: pre.score as int },
                )
            } else {
                post.hscores@ == pre.hscores@
            })
            &&& eff == (if pre.score > 0 {
                TickEffect::Persist
            } else {
                TickEffect::Proceed
            })
        },
        Some(GameKey::Letter(c)) => {
            &&& (if c == 'M' {
                same_but_mode(pre, post) && post.mode == GameMode::Menu
            } else if c == 'E' {
                same_but_mode(pre, post) && post.mode == GameMode::Edit
            } else if c == 'R' {
                reset_run(pre, post)
            } else {
                unchanged_state(pre, post)
            })
            &&& eff == (if c == 'Q' {
                TickEffect::Quit
            } else {
                TickEffect::Proceed
            })
        },
        _ => unchanged_state(pre, post) && eff == TickEffect::Proceed,
    }
}

/// What name editing does with a key: confirm back to the game-over
/// screen, erase the last character, or append the pressed letter or
/// digit.
pub open spec fn edit_rel(pre: State, post: State, key: Option<GameKey>) -> bool {
    &&& post.frame_time == pre.frame_time
    &&& post.player == pre.player
    &&& post.obstacles@ == pre.obstacles@
    &&& post.last_obstacle_x == pre.last_obstacle_x
    &&& post.score == pre.score
    &&& post.hscores@ == pre.hscores@
    &&& (match key {
        Some(GameKey::Return) => {
            &&& post.mode == GameMode::End
            &&& post.player_name@ == pre.player_name@
        },
        Some(GameKey::Back) => {
            &&& post.mode == pre.mode
            &&& post.player_name@ == (if pre.player_name@.len() > 0 {
                pre.player_name@.drop_last()
            } else {
                pre.player_name@
            })
        },
        Some(GameKey::Letter(c)) => {
            &&& post.mode == pre.mode
            &&& post.player_name@ == pre.player_name@.push(c)
        },
        Some(GameKey::Digit(c)) => {
            &&& post.mode == pre.mode
            &&& post.player_name@ == pre.player_name@.push(c)
        },
        _ => {
            &&& post.mode == pre.mode
            &&& post.player_name@ == pre.player_name@
        },
    })
}

/// What the score screen does with a key: back to the menu, or straight
/// into a fresh run.
pub open spec fn score_rel(pre: State, post: State, key: Option<GameKey>) -> bool {
    match key {
        Some(GameKey::Letter(c)) => if c == 'S' {
            reset_run(pre, post)
        } else if c == 'M' {
            same_but_mode(pre, post) && post.mode == GameMode::Menu
        } else {
            unchanged_state(pre, post)
        },
        _ => unchanged_state(pre, post),
    }
}

/// Relies on `String::push`: appends the character to the end.
#[verifier::external_body]
fn push_char(s: &mut String, c: char)
    ensures
        final(s)@ == old(s)@.push(c),
{
    s.push(c);
}

/// Relies on `String::pop`: removes and returns the last character, and
/// leaves an empty string alone.
#[verifier::external_body]
fn pop_char(s: &mut String) -> (r: Option<char>)
    ensures
        old(s)@.len() == 0 ==> final(s)@ == old(s)@ && r is None,
        old(s)@.len() > 0 ==> final(s)@ == old(s)@.drop_last() && r == Some(old(s)@.last()),
{
    s.pop()
}

impl State {
    /// The standing invariant: the actor and every obstacle well formed,
    /// exactly three obstacles in the pool, track positions on the track,
    /// the score never negative, the ledger sorted within its cap, and
    /// less than one tick accumulated.
    pub open spec fn wf(self) -> bool {
        &&& self.player.wf()
        &&& 0 <= self.player.x
        &&& self.obstacles@.len() == 3
        &&& (forall|i: int| 0 <= i < 3 ==> (#[trigger] self.obstacles@[i]).wf())
        &&& 0 <= self.last_obstacle_x
        &&& 0 <= self.score
        &&& sorted_desc(table_view(self.hscores@))
        &&& self.hscores@.len() <= 5
        &&& self.frame_time < TICK_MS
    }

    /// A fresh game: menu mode, the default name, a table loaded from the
    /// persisted lines — skipping malformed ones — and a run set up as a
    /// full reset leaves it, with the generator seeded as given.
    pub fn new(seed: u64, lines: &Vec<String>) -> (s: State)
        ensures
            s.wf(),
            s.mode == GameMode::Menu,
            s.player_name@ == "PLAYER1"@,
            s.frame_time == 0,
            s.score == 0,
            s.player == (Player { x: PLAYER_X_OFFSET, y: PLAYER_INIT_Y, velocity: 0 }),
            s.obstacles@.len() == 3,
            (forall|i: int|
                0 <= i < 3 ==> {
                    &&& (#[trigger] s.obstacles@[i]).x == SCREEN_WIDTH * (i + 1)
                    &&& s.obstacles@[i].size == spawn_size(0)
                    &&& s.obstacles@[i].wf()
                }),
            s.last_obstacle_x == SCREEN_WIDTH * 3,
            table_view(s.hscores@) == loaded_table(lines_views(lines@)),
    {
        let mut rng = rng_seeded(seed);
        let mut hscores: Vec<Highscore> = Vec::new();
        let n = lines.len();
        let mut i: usize = 0;
        proof {
            assert(lines_views(lines@).take(0) =~= Seq::<Seq<char>>::empty());
        }
        while i < n
            invariant
                i <= n,
                n == lines@.len(),
                sorted_desc(table_view(hscores@)),
                hscores@.len() <= 5,
                table_view(hscores@) == loaded_table(lines_views(lines@).take(i as int)),
            decreases n - i,
        {
            proof {
                let lv = lines_views(lines@);
                assert(lv.take(i + 1).drop_last() =~= lv.take(i as int));
                assert(lv.take(i + 1).last() == lines@[i as int]@);
            }
            match parse_highscore_line(lines[i].as_str()) {
                Some(entry) => {
                    insert_highscore(&mut hscores, entry);
                },
                None => {},
            }
            i = i + 1;
        }
        proof {
            assert(lines_views(lines@).take(n as int) =~= lines_views(lines@));
        }
        let player = Player::new(PLAYER_X_OFFSET, PLAYER_INIT_Y);
        let mut obstacles: Vec<Obstacle> = Vec::new();
        let ob = Obstacle::new(SCREEN_WIDTH, 0, &mut rng);
        obstacles.push(ob);
        let ob = Obstacle::new(2 * SCREEN_WIDTH, 0, &mut rng);
        obstacles.push(ob);
        let ob = Obstacle::new(3 * SCREEN_WIDTH, 0, &mut rng);
        obstacles.push(ob);
        State {
            mode: GameMode::Menu,
            player_name: "PLAYER1".to_owned(),
            frame_time: 0,
            player,
            obstacles,
            last_obstacle_x: 3 * SCREEN_WIDTH,
            score: 0,
            hscores,
            rng,
        }
    }

    /// A full reset, as a new run needs it: the actor back at its spawn
    /// cell at rest, all three obstacles respawned at score 0 one screen
    /// apart, the chain anchor and score cleared, and play begun.
    pub fn start(&mut self)
        requires
            old(self).wf(),
        ensures
            final(self).wf(),
            reset_run(*old(self), *final(self)),
    {
        self.player.reset(PLAYER_X_OFFSET, PLAYER_INIT_Y);
        self.score = 0;
        let ob = Obstacle::new(SCREEN_WIDTH, 0, &mut self.rng);
        self.obstacles[0] = ob;
        let ob = Obstacle::new(2 * SCREEN_WIDTH, 0, &mut self.rng);
        self.obstacles[1] = ob;
        let ob = Obstacle::new(3 * SCREEN_WIDTH, 0, &mut self.rng);
        self.obstacles[2] = ob;
        self.mode = GameMode::Playing;
        self.last_obstacle_x = 3 * SCREEN_WIDTH;
    }

    /// Save the finished run into the table when its score is positive:
    /// the record goes in at its rank and the table keeps at most five
    /// entries. Returns whether the table must be persisted.
    pub fn save(&mut self) -> (saved: bool)
        requires
            sorted_desc(table_view(old(self).hscores@)),
            old(self).hscores@.len() <= 5,
        ensures
            saved == (old(self).score > 0),
            final(self).mode == old(self).mode,
            final(self).player_name@ == old(self).player_name@,
            final(self).frame_time == old(self).frame_time,
            final(self).player == old(self).player,
            final(self).obstacles@ == old(self).obstacles@,
            final(self).last_obstacle_x == old(self).last_obstacle_x,
            final(self).score == old(self).score,
            saved ==> table_view(final(self).hscores@) == saved_table(
                table_view(old(self).hscores@),
                HighscoreV { name: old(self).player_name@, score: old(self).score as int },
            ),
            !saved ==> final(self).hscores@ == old(self).hscores@,
            sorted_desc(table_view(final(self).hscores@)),
            final(self).hscores@.len() <= 5,
    {
        if self.score > 0 {
            let name = self.player_name.clone();
            let entry = Highscore::new(name, self.score);
            insert_highscore(&mut self.hscores, entry);
            true
        } else {
            false
        }
    }

    /// The main menu's key handling.
    pub fn menu_step(&mut self, key: Option<GameKey>) -> (eff: TickEffect)
        ensures
            menu_rel(*old(self), *final(self), key, eff),
    {
        match key {
            Some(GameKey::Letter(c)) => {
                if c == 'S' {
                    self.mode = GameMode::Playing;
                    TickEffect::Proceed
                } else if c == 'H' {
                    self.mode = GameMode::HighScore;
                    TickEffect::Proceed
                } else if c == 'Q' {
                    TickEffect::Quit
                } else {
                    TickEffect::Proceed
                }
            },
            _ => TickEffect::Proceed,
        }
    }

    /// The game-over screen's key handling.
    pub fn dead_step(&mut self, key: Option<GameKey>) -> (eff: TickEffect)
        requires
            old(self).wf(),
        ensures
            final(self).wf(),
            dead_rel(*old(self), *final(self), key, eff),
    {
        match key {
            Some(GameKey::Return) => {
                if self.save() {
                    TickEffect::Persist
                } else {
                    TickEffect::Proceed
                }
            },
            Some(GameKey::Letter(c)) => {
                if c == 'M' {
                    self.mode = GameMode::Menu;
                } else if c == 'E' {
                    self.mode = GameMode::Edit;
                } else if c == 'R' {
                    self.start();
                }
                if c == 'Q' {
                    TickEffect::Quit
                } else {
                    TickEffect::Proceed
                }
            },
            _ => TickEffect::Proceed,
        }
    }

    /// Name editing's key handling.
    pub fn edit_step(&mut self, key: Option<GameKey>)
        ensures
            edit_rel(*old(self), *final(self), key),
    {
        match key {
            Some(GameKey::Return) => {
                self.mode = GameMode::End;
            },
            Some(GameKey::Back) => {
                let _ = pop_char(&mut self.player_name);
            },
            Some(GameKey::Letter(c)) => {
                push_char(&mut self.player_name, c);
            },
            Some(GameKey::Digit(c)) => {
                push_char(&mut self.player_name, c);
            },
            _ => {},
        }
    }

    /// One frame in play mode: accumulate the elapsed time and, when a
    /// full tick has built up, advance the simulation one step — gravity,
    /// the collision scan, recycles and scoring — then apply a flap and
    /// the bottom-of-field check. See [`play_rel`] for the exact account.
    #[verifier::loop_isolation(false)]
    pub fn play_step(&mut self, key: Option<GameKey>, delta_ms: u32)
        requires
            old(self).wf(),
            old(self).mode == GameMode::Playing,
            old(self).player.x < i32::MAX,
            old(self).player.y + 5 <= i32::MAX,
            old(self).last_obstacle_x + 6 * MIN_OBSTACLE_OFFSET <= i32::MAX,
            old(self).score + 3 <= i32::MAX,
        ensures
            final(self).wf(),
            play_rel(*old(self), *final(self), key, delta_ms),
    {
        self.frame_time = self.frame_time + delta_ms as u64;
        if self.frame_time >= TICK_MS {
            self.frame_time = 0;
            self.player.gravity_and_move();
            let ghost pre_obs = self.obstacles@;
            let ghost px1 = self.player.x as int;
            let ghost py1 = self.player.y as int;
            let ghost score0 = self.score as int;
            let ghost last0 = self.last_obstacle_x as int;
            let ghost p1 = self.player;
            proof {
                lemma_first_hit_props(pre_obs, px1, py1, 3);
            }
            let mut i: usize = 0;
            while i < 3
                invariant
                    i <= 3,
                    self.obstacles@.len() == 3,
                    self.player == p1,
                    self.mode == GameMode::Playing,
                    self.frame_time == 0,
                    self.player_name@ == old(self).player_name@,
                    self.hscores@ == old(self).hscores@,
                    first_hit_upto(pre_obs, px1, py1, i as int) == i as int,
                    self.score as int == score0 + n_recycles(pre_obs, px1, i as int),
                    self.last_obstacle_x as int == last0 + 2 * MIN_OBSTACLE_OFFSET * n_recycles(
                        pre_obs,
                        px1,
                        i as int,
                    ),
                    forall|j: int|
                        0 <= j < i && spec_triggers(#[trigger] pre_obs[j], px1) ==> {
                            &&& self.obstacles@[j].x == last0 + 2 * MIN_OBSTACLE_OFFSET * (
                            n_recycles(pre_obs, px1, j) + 1)
                            &&& self.obstacles@[j].size == recycle_size(
                                score0 + n_recycles(pre_obs, px1, j),
                            )
                            &&& 10 <= self.obstacles@[j].gap_y < 40
                        },
                    forall|j: int|
                        0 <= j < i && !spec_triggers(#[trigger] pre_obs[j], px1)
                            ==> self.obstacles@[j] == pre_obs[j],
                    forall|j: int| i <= j < 3 ==> #[trigger] self.obstacles@[j] == pre_obs[j],
                    forall|j: int| 0 <= j < 3 ==> (#[trigger] self.obstacles@[j]).wf(),
                decreases 3 - i,
            {
                proof {
                    lemma_n_recycles_bounds(pre_obs, px1, i as int);
                }
                let ob = self.obstacles[i];
                if ob.hit_player(&self.player) {
                    self.mode = GameMode::End;
                    proof {
                        lemma_first_hit_props(pre_obs, px1, py1, i as int);
                    }
                    return ;
                }
                let mut ob = ob;
                let reset = ob.check_and_reset(
                    self.player.x,
                    self.score,
                    self.last_obstacle_x,
                    &mut self.rng,
                );
                self.obstacles[i] = ob;
                if reset {
                    self.score = self.score + 1;
                    self.last_obstacle_x = ob.x;
                }
                i = i + 1;
            }
            proof {
                lemma_n_recycles_bounds(pre_obs, px1, 3);
            }
        }
        if key == Some(GameKey::Space) {
            self.player.flap();
        }
        if self.player.y > SCREEN_HEIGHT {
            self.mode = GameMode::End;
        }
    }

    /// One external tick: route the optional key press and the elapsed
    /// milliseconds to the active mode's handler, and tell the host what
    /// to do next. This is the only entry the host loop needs.
    pub fn tick(&mut self, key: Option<GameKey>, delta_ms: u32) -> (eff: TickEffect)
        requires
            old(self).wf(),
            old(self).mode == GameMode::Playing ==> {
                &&& old(self).player.x < i32::MAX
                &&& old(self).player.y + 5 <= i32::MAX
                &&& old(self).last_obstacle_x + 6 * MIN_OBSTACLE_OFFSET <= i32::MAX
                &&& old(self).score + 3 <= i32::MAX
            },
        ensures
            final(self).wf(),
            match old(self).mode {
                GameMode::Menu => menu_rel(*old(self), *final(self), key, eff),
                GameMode::End => dead_rel(*old(self), *final(self), key, eff),
                GameMode::HighScore => score_rel(*old(self), *final(self), key) && eff
                    == TickEffect::Proceed,
                GameMode::Edit => edit_rel(*old(self), *final(self), key) && eff
                    == TickEffect::Proceed,
                GameMode::Playing => play_rel(*old(self), *final(self), key, delta_ms) && eff
                    == TickEffect::Proceed,
            },
    {
        match self.mode {
            GameMode::Menu => self.menu_step(key),
            GameMode::End => self.dead_step(key),
            GameMode::HighScore => {
                self.score_step(key);
                TickEffect::Proceed
            },
            GameMode::Edit => {
                self.edit_step(key);
                TickEffect::Proceed
            },
            GameMode::Playing => {
                self.play_step(key, delta_ms);
                TickEffect::Proceed
            },
        }
    }

    /// The score screen's key handling.
    pub fn score_step(&mut self, key: Option<GameKey>)
        requires
            old(self).wf(),
        ensures
            final(self).wf(),
            score_rel(*old(self), *final(self), key),
    {
        match key {
            Some(GameKey::Letter(c)) => {
                if c == 'S' {
                    self.start();
                } else if c == 'M' {
                    self.mode = GameMode::Menu;
                }
            },
            _ => {},
        }
    }
}

/// The actor at column `px` has passed the obstacle: its world column has
/// fallen behind the actor's by more than the actor's screen offset.
pub open spec fn spec_triggers(ob: Obstacle, px: int) -> bool {
    ob.x <= px - PLAYER_X_OFFSET
}

/// How many of the first `k` obstacles the actor at column `px` has passed.
pub open spec fn n_recycles(obs: Seq<Obstacle>, px: int, k: int) -> int
    decreases k,
{
    if k <= 0 {
        0
    } else {
        n_recycles(obs, px, k - 1) + (if spec_triggers(obs[k - 1], px) {
            1int
        } else {
            0int
        })
    }
}

/// A pass recycles no more obstacles than it walks.
pub proof fn lemma_n_recycles_bounds(obs: Seq<Obstacle>, px: int, k: int)
    requires
        0 <= k,
    ensures
        0 <= n_recycles(obs, px, k) <= k,
    decreases k,
{
    if k > 0 {
        lemma_n_recycles_bounds(obs, px, k - 1);
    }
}

/// The least index below `k` of an obstacle that hits the actor at column
/// `px`, row `py`; `k` itself if none does.
pub open spec fn first_hit_upto(obs: Seq<Obstacle>, px: int, py: int, k: int) -> int
    decreases k,
{
    if k <= 0 {
        0
    } else {
        let f = first_hit_upto(obs, px, py, k - 1);
        if f < k - 1 {
            f
        } else if spec_hits(obs[k - 1], px, py) {
            k - 1
        } else {
            k
        }
    }
}

/// `first_hit_upto` lands on a hit unless there is none below `k`, and
/// nothing before it hits.
pub proof fn lemma_first_hit_props(obs: Seq<Obstacle>, px: int, py: int, k: int)
    requires
        0 <= k,
    ensures
        0 <= first_hit_upto(obs, px, py, k) <= k,
        forall|j: int| 0 <= j < first_hit_upto(obs, px, py, k) ==> !spec_hits(#[trigger] obs[j], px, py),
        first_hit_upto(obs, px, py, k) < k ==> spec_hits(obs[first_hit_upto(obs, px, py, k)], px, py),
    decreases k,
{
    if k > 0 {
        lemma_first_hit_props(obs, px, py, k - 1);
    }
}

/// One pass of the simulation over the obstacle pool after the actor moved
/// to column `px`, row `py`. The pass walks the pool in order and the first
/// hit ends it early, leaving the rest untouched. Every obstacle before the
/// first hit that the actor has passed recycles: it chains off the running
/// anchor — `last0`, moved along by every recycle before it, never off its
/// own old column — redraws its gap center from `[10, 40)`, narrows by the
/// running score, and scores one point.
pub open spec fn pass_rel(
    pre: Seq<Obstacle>,
    post: Seq<Obstacle>,
    px: int,
    py: int,
    score0: int,
    last0: int,
    score1: int,
    last1: int,
) -> bool {
    let k = first_hit_upto(pre, px, py, pre.len() as int);
    &&& post.len() == pre.len()
    &&& score1 == score0 + n_recycles(pre, px, k)
    &&& last1 == last0 + 2 * MIN_OBSTACLE_OFFSET * n_recycles(pre, px, k)
    &&& (forall|i: int|
        0 <= i < k && spec_triggers(#[trigger] pre[i], px) ==> {
            &&& post[i].x == last0 + 2 * MIN_OBSTACLE_OFFSET * (n_recycles(pre, px, i) + 1)
            &&& post[i].size == recycle_size(score0 + n_recycles(pre, px, i))
            &&& 10 <= post[i].gap_y < 40
        })
    &&& (forall|i: int|
        0 <= i < k && !spec_triggers(#[trigger] pre[i], px) ==> post[i] == pre[i])
    &&& (forall|i: int| k <= i < pre.len() ==> #[trigger] post[i] == pre[i])
}

/// One frame in play mode. The elapsed milliseconds accumulate; only when
/// they reach one tick does the simulation advance, by exactly one step —
/// the remainder is discarded, and at most one step runs per frame however
/// late it is. A step moves the actor under gravity and walks the pool; a
/// hit ends the run at once, skipping the rest of the frame. Otherwise a
/// flap (space) lands after the step, and falling past the bottom of the
/// field ends the run.
pub open spec fn play_rel(pre: State, post: State, key: Option<GameKey>, delta: u32) -> bool {
    &&& post.player_name@ == pre.player_name@
    &&& post.hscores@ == pre.hscores@
    &&& (if pre.frame_time + delta < TICK_MS {
        &&& post.frame_time == pre.frame_time + delta
        &&& post.obstacles@ == pre.obstacles@
        &&& post.score == pre.score
        &&& post.last_obstacle_x == pre.last_obstacle_x
        &&& post.player.x == pre.player.x
        &&& post.player.y == pre.player.y
        &&& post.player.velocity as int == (if key == Some(GameKey::Space) {
            -5int
        } else {
            pre.player.velocity as int
        })
        &&& post.mode == (if pre.player.y > SCREEN_HEIGHT {
            GameMode::End
        } else {
            pre.mode
        })
    } else {
        let stepped = player_step(
            pre.player.x as int,
            pre.player.y as int,
            pre.player.velocity as int,
        );
        let k = first_hit_upto(pre.obstacles@, stepped.0, stepped.1, 3);
        &&& post.frame_time == 0
        &&& pass_rel(
            pre.obstacles@,
            post.obstacles@,
            stepped.0,
            stepped.1,
            pre.score as int,
            pre.last_obstacle_x as int,
            post.score as int,
            post.last_obstacle_x as int,
        )
        &&& post.player.x == stepped.0
        &&& post.player.y == stepped.1
        &&& (if k < 3 {
            &&& post.mode == GameMode::End
            &&& post.player.velocity as int == stepped.2
        } else {
            &&& post.player.velocity as int == (if key == Some(GameKey::Space) {
                -5int
            } else {
                stepped.2
            })
            &&& post.mode == (if stepped.1 > SCREEN_HEIGHT {
                GameMode::End
            } else {
                pre.mode
            })
        })
    })
}

/// The images of the persisted lines.
pub open spec fn lines_views(ls: Seq<String>) -> Seq<Seq<char>> {
    ls.map(|i: int, l: String| l@)
}

/// The table a sequence of persisted lines loads into: each valid line is
/// inserted in order as a save would insert it, and malformed lines are
/// skipped.
pub open spec fn loaded_table(ls: Seq<Seq<char>>) -> Seq<HighscoreV>
    decreases ls.len(),
{
    if ls.len() == 0 {
        Seq::empty()
    } else {
        let t = loaded_table(ls.drop_last());
        if valid_line(ls.last()) {
            saved_table(t, parsed_entry(ls.last()))
        } else {
            t
        }
    }
}

/// Whatever the persisted lines hold, loading them yields a table that is
/// sorted descending and holds at most five entries.
pub proof fn lemma_loaded_table_invariant(ls: Seq<Seq<char>>)
    ensures
        sorted_desc(loaded_table(ls)),
        loaded_table(ls).len() <= 5,
    decreases ls.len(),
{
    if ls.len() > 0 {
        lemma_loaded_table_invariant(ls.drop_last());
        if valid_line(ls.last()) {
            crate::scores::lemma_saved_table_sorted(
                loaded_table(ls.drop_last()),
                parsed_entry(ls.last()),
            );
        }
    }
}

} // verus!
