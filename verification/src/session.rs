//! One session of the game: the menu, the play, the end of a game and what
//! each input and each tick of the clock does to them.

use vstd::prelude::*;
use crate::camera::{block_size, camera_offset, camera_offset_for, row_height};
use crate::config::{CAMERA_MIN_LEVEL, GAME_OVER_DELAY, GAME_WIDTH, MOVE_INTERVAL};
use crate::oscillation::{
    has_room, interval_at, is_step_due, lemma_interval_decreases, next_dir, next_pos,
    room_for_step, sped_up, speed_up, step_due,
};
use crate::row::overlap;
use crate::stats::GameStats;
use crate::tower::{
    lemma_base_row_is_laid, lemma_landing, lemma_landing_count_is_overlap, lemma_new_row_is_live,
    lemma_nothing_falls_while_sliding, lemma_shift_keeps_sliding, TowerGrid, TowerModel,
};

verus! {

/// What the session is showing.
#[derive(Clone, Copy, PartialEq, Eq, Structural, Debug)]
pub enum GameState {
    /// The menu, with the statistics.
    Menu,
    /// A game is on.
    Playing,
    /// A game has ended, at the given time, and its tower is still shown.
    GameOver(u64),
    /// The settings page.
    Settings,
}

/// What the player can ask for.
#[derive(Clone, Copy, PartialEq, Eq, Structural, Debug)]
pub enum InputEvent {
    /// Start a game.
    Confirm,
    /// Go to the settings page.
    OpenSettings,
    /// Leave the program.
    Quit,
    /// Stop the sliding platform where it is.
    Freeze,
    /// Go back to the menu.
    Cancel,
}

/// What the caller has to do after an input.
#[derive(Clone, Copy, PartialEq, Eq, Structural, Debug)]
pub enum Action {
    /// Nothing.
    Nothing,
    /// The statistics have changed: store them.
    SaveStats,
    /// End the program.
    Exit,
}

/// What a session is, as plain mathematics. Times are in nanoseconds, the
/// scroll in thirtieths of a pixel, the viewport in pixels.
pub struct GameModel {
    /// What the session is showing.
    pub state: GameState,
    /// The tower of the current game, or of the last one.
    pub tower: TowerModel,
    /// The sliding platform is heading right.
    pub move_right: bool,
    /// Time gone since the platform's last step.
    pub move_timer: nat,
    /// Time from one step of the platform to the next.
    pub move_interval: nat,
    /// Landings in the current game, or in the last one.
    pub level: int,
    /// How far the view has been scrolled up.
    pub camera_offset_y: nat,
    /// Width of the viewport.
    pub window_width: nat,
    /// Height of the viewport.
    pub window_height: nat,
    /// The statistics.
    pub stats: GameStats,
}

impl GameModel {
    /// A session that has just been opened, in a viewport of `window_width`
    /// by `window_height` pixels and with the statistics `stats`.
    pub open spec fn initial(window_width: nat, window_height: nat, stats: GameStats) -> GameModel {
        GameModel {
            state: GameState::Menu,
            tower: TowerModel::fresh(),
            move_right: true,
            move_timer: 0,
            move_interval: MOVE_INTERVAL as nat,
            level: 0,
            camera_offset_y: 0,
            window_width,
            window_height,
            stats,
        }
    }

    /// What holds of every session: the tower is well formed and has one
    /// landed platform for each level, the step interval is that of the
    /// level, while a game is on the platform slides on top of the tower, and
    /// when a game is over the tower stands as the last freeze left it. Only
    /// before the first game is there no tower.
    pub open spec fn inv(self) -> bool {
        &&& self.tower.wf()
        &&& 0 <= self.level <= i32::MAX
        &&& self.tower.current_row == self.level
        &&& (self.tower.rows.len() == 0 || self.tower.rows.len() == self.level + 2)
        &&& self.move_interval == interval_at(self.level as nat)
        &&& (self.state == GameState::Playing ==> self.tower.is_live())
        &&& (self.state is GameOver ==> self.tower.rows.len() == self.level + 2)
    }

    /// The tower of a game that has just begun: the base and, on it, the
    /// first platform, tagged with `level`.
    pub open spec fn first_tower(level: i32) -> TowerModel {
        TowerModel::fresh().with_base_row().with_new_row(level)
    }

    /// The session with a new tower and the step interval of level 0.
    pub open spec fn reset(self) -> GameModel {
        GameModel {
            tower: Self::first_tower(self.level as i32),
            move_interval: MOVE_INTERVAL as nat,
            ..self
        }
    }

    /// The session after a game was started: one more game is counted, and
    /// the play begins at level 0 with a new tower and no scroll.
    pub open spec fn started(self) -> GameModel {
        let begun = GameModel {
            state: GameState::Playing,
            level: 0,
            camera_offset_y: 0,
            stats: self.stats.started(),
            ..self
        };
        begun.reset()
    }

    /// A step of the platform is due when `dt` more nanoseconds have passed.
    pub open spec fn is_step_due(self, dt: u64) -> bool {
        step_due(self.move_timer as int, dt as int, self.move_interval as int)
    }

    /// The sliding platform has room to go on in its direction.
    pub open spec fn platform_has_room(self) -> bool {
        has_room(self.tower.moving_platform_pos, self.tower.platform_width, self.move_right)
    }

    /// The session after `dt` nanoseconds of play. What falls in the topmost
    /// row falls on. If the step interval is not reached, the time is added
    /// to the timer. If it is, the timer starts again from zero and the
    /// platform takes its step: one column on where it has room, a turn where
    /// it has none.
    pub open spec fn moved(self, dt: u64) -> GameModel {
        let tower = self.tower.fallen(dt);
        if !self.is_step_due(dt) {
            GameModel { move_timer: self.move_timer + dt as nat, tower, ..self }
        } else if self.platform_has_room() {
            GameModel { move_timer: 0, tower: tower.shifted(self.move_right), ..self }
        } else {
            GameModel { move_timer: 0, move_right: !self.move_right, tower, ..self }
        }
    }

    /// The session after the platform was frozen at time `now`. If any of it
    /// landed, a new platform is spawned, tagged with the level that ends,
    /// the level goes up by one and the step interval is shortened. If none
    /// did, the game is over: the high score takes the level if the level is
    /// above it, and the final tower is shown from `now` on.
    pub open spec fn frozen(self, now: u64) -> GameModel {
        if self.tower.landing_count() > 0 {
            GameModel {
                tower: self.tower.landed().with_new_row(self.level as i32),
                level: self.level + 1,
                move_interval: sped_up(self.move_interval),
                ..self
            }
        } else {
            GameModel {
                tower: self.tower.landed(),
                stats: self.stats.finished(self.level as i32),
                state: GameState::GameOver(now),
                ..self
            }
        }
    }

    /// The session after a tick of the clock at time `now`, `dt` nanoseconds
    /// after the tick before. During play the platform and the falling
    /// segments move. A game that ended at least `GAME_OVER_DELAY` ago gives
    /// way to the menu. Nothing else changes with time.
    pub open spec fn ticked(self, dt: u64, now: u64) -> GameModel {
        match self.state {
            GameState::Playing => self.moved(dt),
            GameState::GameOver(since) => if now - since >= GAME_OVER_DELAY {
                GameModel { state: GameState::Menu, ..self }
            } else {
                self
            },
            _ => self,
        }
    }

    /// The session after the input `event` at time `now`. In the menu,
    /// `Confirm` starts a game and `OpenSettings` opens the settings; during
    /// play, `Freeze` freezes the platform; on the settings page, `Cancel`
    /// leads back to the menu. Every other input leaves the session as it is.
    pub open spec fn after_event(self, event: InputEvent, now: u64) -> GameModel {
        match (self.state, event) {
            (GameState::Menu, InputEvent::Confirm) => self.started(),
            (GameState::Menu, InputEvent::OpenSettings) => GameModel {
                state: GameState::Settings,
                ..self
            },
            (GameState::Playing, InputEvent::Freeze) => self.frozen(now),
            (GameState::Settings, InputEvent::Cancel) => GameModel {
                state: GameState::Menu,
                ..self
            },
            _ => self,
        }
    }

    /// What is left for the caller to do after the input `event`: to store
    /// the statistics when a game was started or has ended with a new high
    /// score, and to end the program on `Quit` in the menu.
    pub open spec fn action_for(self, event: InputEvent) -> Action {
        match (self.state, event) {
            (GameState::Menu, InputEvent::Confirm) => Action::SaveStats,
            (GameState::Menu, InputEvent::Quit) => Action::Exit,
            (GameState::Playing, InputEvent::Freeze) => if self.tower.landing_count() == 0
                && self.level > self.stats.high_score {
                Action::SaveStats
            } else {
                Action::Nothing
            },
            _ => Action::Nothing,
        }
    }

    /// The view follows the tower: a game is on or has just ended, the tower
    /// has a row above its base, and the level is `CAMERA_MIN_LEVEL` or more.
    pub open spec fn camera_follows(self) -> bool {
        &&& self.state == GameState::Playing || self.state is GameOver
        &&& self.tower.rows.len() > 1
        &&& self.level >= CAMERA_MIN_LEVEL
    }

    /// The session with the scroll brought up to date.
    pub open spec fn with_camera(self) -> GameModel {
        if self.camera_follows() {
            GameModel {
                camera_offset_y: camera_offset_for(
                    self.camera_offset_y as int,
                    self.tower.rows.len() as int,
                    row_height(self.window_width as int),
                    self.window_height as int,
                ) as nat,
                ..self
            }
        } else {
            self
        }
    }

    /// The session after one spell of play for each of `ticks`, the lengths
    /// of the spells in nanoseconds.
    pub open spec fn played(self, ticks: Seq<u64>) -> GameModel
        decreases ticks.len(),
    {
        if ticks.len() == 0 {
            self
        } else {
            self.played(ticks.drop_last()).moved(ticks.last())
        }
    }
}

/// A session that has just been opened is as every session must be.
pub proof fn lemma_initial_session(window_width: nat, window_height: nat, stats: GameStats)
    ensures
        GameModel::initial(window_width, window_height, stats).inv(),
        GameModel::initial(window_width, window_height, stats).state == GameState::Menu,
{
}

/// Starting a game leads to a play at level 0, at the first step interval,
/// with the platform right above the base.
pub proof fn lemma_start_of_game(before: GameModel)
    requires
        before.stats.games_played < i32::MAX,
    ensures
        before.started().inv(),
        before.started().state == GameState::Playing,
        before.started().level == 0,
        before.started().move_interval == MOVE_INTERVAL,
        before.started().tower.rows.len() == 2,
        before.started().tower.moving_platform_pos == before.started().tower.platform_position,
        before.started().stats.games_played == before.stats.games_played + 1,
        before.started().stats.high_score == before.stats.high_score,
{
    lemma_base_row_is_laid();
    lemma_new_row_is_live(TowerModel::fresh().with_base_row(), 0);
}

/// Play keeps the platform on the field. After any spell of play the
/// platform lies within the columns of the field, as wide as before; if its
/// step was due it is where one step leads, heading where one step turns it,
/// and otherwise it has not moved. The tower keeps its rows.
pub proof fn lemma_play_stays_on_field(before: GameModel, dt: u64)
    requires
        before.inv(),
        before.state == GameState::Playing,
    ensures
        before.moved(dt).inv(),
        before.moved(dt).state == GameState::Playing,
        0 <= before.moved(dt).tower.moving_platform_pos,
        before.moved(dt).tower.moving_platform_pos + before.moved(dt).tower.platform_width
            <= GAME_WIDTH,
        before.moved(dt).tower.platform_width == before.tower.platform_width,
        before.moved(dt).tower.platform_position == before.tower.platform_position,
        before.moved(dt).tower.rows.len() == before.tower.rows.len(),
        before.moved(dt).tower.moving_platform_pos == (if before.is_step_due(dt) {
            next_pos(
                before.tower.moving_platform_pos,
                before.tower.platform_width,
                before.move_right,
            )
        } else {
            before.tower.moving_platform_pos
        }),
        before.moved(dt).move_right == (if before.is_step_due(dt) {
            next_dir(
                before.tower.moving_platform_pos,
                before.tower.platform_width,
                before.move_right,
            )
        } else {
            before.move_right
        }),
        before.moved(dt).level == before.level,
        before.moved(dt).stats == before.stats,
{
    lemma_nothing_falls_while_sliding(before.tower, dt);
    if before.is_step_due(dt) && before.platform_has_room() {
        lemma_shift_keeps_sliding(before.tower, before.move_right);
    }
}

/// However the clock ticks during play, the platform never leaves the field.
pub proof fn lemma_platform_never_leaves_field(before: GameModel, ticks: Seq<u64>)
    requires
        before.inv(),
        before.state == GameState::Playing,
    ensures
        before.played(ticks).inv(),
        before.played(ticks).state == GameState::Playing,
        0 <= before.played(ticks).tower.moving_platform_pos,
        before.played(ticks).tower.moving_platform_pos + before.played(
            ticks,
        ).tower.platform_width <= GAME_WIDTH,
        before.played(ticks).tower.platform_width == before.tower.platform_width,
    decreases ticks.len(),
{
    if ticks.len() > 0 {
        lemma_platform_never_leaves_field(before, ticks.drop_last());
        lemma_play_stays_on_field(before.played(ticks.drop_last()), ticks.last());
    }
}

/// A freeze either raises the level or ends the game. If the platform shares
/// a column with the target span, the play goes on: one row and one level
/// higher, with the step interval of that level and a platform as wide as
/// what was shared. If it shares none, the game is over: no row is added,
/// the level stays, and the high score is the larger of what it was and the
/// level.
pub proof fn lemma_freeze(before: GameModel, now: u64)
    requires
        before.inv(),
        before.state == GameState::Playing,
        before.level < i32::MAX,
    ensures
        before.frozen(now).inv(),
        before.tower.landing_count() == overlap(
            before.tower.moving_platform_pos,
            before.tower.platform_position,
            before.tower.platform_width,
        ),
        before.tower.landing_count() > 0 ==> {
            &&& before.frozen(now).state == GameState::Playing
            &&& before.frozen(now).level == before.level + 1
            &&& before.frozen(now).move_interval == interval_at((before.level + 1) as nat)
            &&& before.frozen(now).move_interval <= before.move_interval
            &&& before.frozen(now).tower.rows.len() == before.tower.rows.len() + 1
            &&& before.frozen(now).tower.platform_width == before.tower.landing_count()
            &&& before.frozen(now).stats == before.stats
        },
        before.tower.landing_count() == 0 ==> {
            &&& before.frozen(now).state == GameState::GameOver(now)
            &&& before.frozen(now).level == before.level
            &&& before.frozen(now).move_interval == before.move_interval
            &&& before.frozen(now).tower.rows.len() == before.tower.rows.len()
            &&& before.frozen(now).stats == before.stats.finished(before.level as i32)
        },
{
    lemma_landing_count_is_overlap(before.tower);
    lemma_landing(before.tower);
    if before.tower.landing_count() > 0 {
        lemma_new_row_is_live(before.tower.landed(), before.level as i32);
        lemma_interval_decreases(before.level as nat);
    }
}

/// No tick of the clock and no input leads out of the sessions that are as
/// every session must be.
pub proof fn lemma_session_stays_well_formed(
    before: GameModel,
    event: InputEvent,
    dt: u64,
    now: u64,
)
    requires
        before.inv(),
        before.level < i32::MAX,
        before.stats.games_played < i32::MAX,
    ensures
        before.ticked(dt, now).inv(),
        before.after_event(event, now).inv(),
        before.with_camera().inv(),
{
    if before.state == GameState::Playing {
        lemma_play_stays_on_field(before, dt);
        lemma_freeze(before, now);
    }
    lemma_start_of_game(before);
}

/// How the statistics change. An input changes the high score exactly when
/// it ends a game at a level above the high score, which then becomes that
/// level. An input raises the count of games, by one, exactly when it starts
/// a game, however that game will end. Time alone changes neither.
pub proof fn lemma_statistics_rule(before: GameModel, event: InputEvent, dt: u64, now: u64)
    requires
        before.inv(),
        before.stats.games_played < i32::MAX,
    ensures
        ({
            let after = before.after_event(event, now);
            let ends = before.state == GameState::Playing && event == InputEvent::Freeze
                && before.tower.landing_count() == 0;
            let starts = before.state == GameState::Menu && event == InputEvent::Confirm;
            &&& after.stats.high_score != before.stats.high_score <==> ends && before.level
                > before.stats.high_score
            &&& ends && before.level > before.stats.high_score ==> after.stats.high_score
                == before.level
            &&& after.stats.games_played == before.stats.games_played + (if starts {
                1int
            } else {
                0int
            })
        }),
        before.ticked(dt, now).stats == before.stats,
        before.with_camera().stats == before.stats,
{
}

/// One session of the game.
pub struct GameData {
    state: GameState,
    tower: TowerGrid,
    move_right: bool,
    move_timer: u64,
    move_interval: u64,
    level: i32,
    camera_offset_y: u128,
    window_width: u32,
    window_height: u32,
    stats: GameStats,
}

impl View for GameData {
    type V = GameModel;

    closed spec fn view(&self) -> GameModel {
        GameModel {
            state: self.state,
            tower: self.tower@,
            move_right: self.move_right,
            move_timer: self.move_timer as nat,
            move_interval: self.move_interval as nat,
            level: self.level as int,
            camera_offset_y: self.camera_offset_y as nat,
            window_width: self.window_width as nat,
            window_height: self.window_height as nat,
            stats: self.stats,
        }
    }
}

impl GameData {
    /// Opens a session in a viewport of `window_width` by `window_height`
    /// pixels, with the statistics `stats`. It shows the menu.
    pub fn new(window_width: u32, window_height: u32, stats: GameStats) -> (game: GameData)
        ensures
            game@ == GameModel::initial(window_width as nat, window_height as nat, stats),
            game@.inv(),
    {
        GameData {
            state: GameState::Menu,
            tower: TowerGrid::new(),
            move_right: true,
            move_timer: 0,
            move_interval: MOVE_INTERVAL,
            level: 0,
            camera_offset_y: 0,
            window_width,
            window_height,
            stats,
        }
    }

    /// Builds a new tower, the base and the first platform on it, and sets
    /// the step interval back.
    fn reset_game(&mut self)
        ensures
            final(self)@ == old(self)@.reset(),
            final(self)@.tower.wf(),
            final(self)@.tower.is_live(),
    {
        self.tower.reset();
        self.move_interval = MOVE_INTERVAL;
        self.tower.add_base_row();
        self.tower.add_new_row(self.level);
    }

    /// Starts a game: counts it, and begins the play at level 0 with a new
    /// tower. The caller has the statistics to store.
    pub fn start_game(&mut self)
        requires
            old(self)@.inv(),
            old(self)@.stats.games_played < i32::MAX,
        ensures
            final(self)@ == old(self)@.started(),
            final(self)@.state == GameState::Playing,
            final(self)@.level == 0,
            final(self)@.stats.games_played == old(self)@.stats.games_played + 1,
            final(self)@.stats.high_score == old(self)@.stats.high_score,
            final(self)@.inv(),
    {
        self.state = GameState::Playing;
        self.level = 0;
        self.camera_offset_y = 0;
        self.stats.record_game_started();
        self.reset_game();
    }

    /// Lets `dt` nanoseconds of play pass. Returns whether the step interval
    /// was reached, that is, whether the platform has moved one column or
    /// turned round.
    pub fn update_movement(&mut self, dt: u64) -> (stepped: bool)
        requires
            old(self)@.inv(),
            old(self)@.state == GameState::Playing,
        ensures
            final(self)@ == old(self)@.moved(dt),
            stepped == old(self)@.is_step_due(dt),
            final(self)@.tower.moving_platform_pos == (if stepped {
                next_pos(
                    old(self)@.tower.moving_platform_pos,
                    old(self)@.tower.platform_width,
                    old(self)@.move_right,
                )
            } else {
                old(self)@.tower.moving_platform_pos
            }),
            final(self)@.move_right == (if stepped {
                next_dir(
                    old(self)@.tower.moving_platform_pos,
                    old(self)@.tower.platform_width,
                    old(self)@.move_right,
                )
            } else {
                old(self)@.move_right
            }),
            0 <= final(self)@.tower.moving_platform_pos,
            final(self)@.tower.moving_platform_pos + final(self)@.tower.platform_width
                <= GAME_WIDTH,
            final(self)@.tower.platform_width == old(self)@.tower.platform_width,
            final(self)@.tower.rows.len() == old(self)@.tower.rows.len(),
            final(self)@.inv(),
    {
        self.tower.advance_falling(dt);
        if is_step_due(self.move_timer, dt, self.move_interval) {
            self.move_timer = 0;
            let pos = self.tower.moving_platform_pos();
            let width = self.tower.platform_width();
            if room_for_step(pos, width, self.move_right) {
                self.tower.shift_platform(self.move_right);
            } else {
                self.move_right = !self.move_right;
            }
            true
        } else {
            self.move_timer = self.move_timer + dt;
            false
        }
    }

    /// Freezes the sliding platform, at time `now`, and judges the landing.
    ///
    /// If any of the platform landed, the game goes on one level higher and
    /// faster, with a platform as wide as what landed. If none did, the game
    /// is over. Returns what is left for the caller to do: to store the
    /// statistics, if the game has ended with a new high score.
    pub fn freeze(&mut self, now: u64) -> (action: Action)
        requires
            old(self)@.inv(),
            old(self)@.state == GameState::Playing,
            old(self)@.level < i32::MAX,
        ensures
            final(self)@ == old(self)@.frozen(now),
            action == old(self)@.action_for(InputEvent::Freeze),
            old(self)@.tower.landing_count() == overlap(
                old(self)@.tower.moving_platform_pos,
                old(self)@.tower.platform_position,
                old(self)@.tower.platform_width,
            ),
            old(self)@.tower.landing_count() > 0 ==> {
                &&& final(self)@.state == GameState::Playing
                &&& final(self)@.level == old(self)@.level + 1
                &&& final(self)@.tower.rows.len() == old(self)@.tower.rows.len() + 1
                &&& final(self)@.tower.platform_width == old(self)@.tower.landing_count()
                &&& final(self)@.move_interval == interval_at(final(self)@.level as nat)
                &&& final(self)@.stats == old(self)@.stats
            },
            old(self)@.tower.landing_count() == 0 ==> {
                &&& final(self)@.state == GameState::GameOver(now)
                &&& final(self)@.level == old(self)@.level
                &&& final(self)@.tower.rows.len() == old(self)@.tower.rows.len()
                &&& final(self)@.stats.games_played == old(self)@.stats.games_played
                &&& final(self)@.stats.high_score == (if old(self)@.level > old(
                    self,
                )@.stats.high_score {
                    old(self)@.level
                } else {
                    old(self)@.stats.high_score as int
                })
            },
            final(self)@.inv(),
    {
        if self.tower.check_landing() {
            self.tower.add_new_row(self.level);
            self.level = self.level + 1;
            self.move_interval = speed_up(self.move_interval);
            Action::Nothing
        } else {
            let improved = self.stats.record_game_over(self.level);
            self.state = GameState::GameOver(now);
            if improved {
                Action::SaveStats
            } else {
                Action::Nothing
            }
        }
    }

    /// A tick of the clock at time `now`, `dt` nanoseconds after the tick
    /// before.
    pub fn update(&mut self, dt: u64, now: u64)
        requires
            old(self)@.inv(),
        ensures
            final(self)@ == old(self)@.ticked(dt, now),
            final(self)@.stats == old(self)@.stats,
            final(self)@.level == old(self)@.level,
            final(self)@.inv(),
    {
        match self.state {
            GameState::Playing => {
                self.update_movement(dt);
            },
            GameState::GameOver(since) => {
                if now >= since && now - since >= GAME_OVER_DELAY {
                    self.state = GameState::Menu;
                }
            },
            _ => {},
        }
    }

    /// The input `event`, at time `now`. Returns what is left for the caller
    /// to do.
    pub fn key_down_event(&mut self, event: InputEvent, now: u64) -> (action: Action)
        requires
            old(self)@.inv(),
            old(self)@.state == GameState::Menu && event == InputEvent::Confirm ==> old(
                self,
            )@.stats.games_played < i32::MAX,
            old(self)@.state == GameState::Playing && event == InputEvent::Freeze ==> old(
                self,
            )@.level < i32::MAX,
        ensures
            final(self)@ == old(self)@.after_event(event, now),
            action == old(self)@.action_for(event),
            old(self)@.state == GameState::Playing ==> old(self)@.tower.landing_count() == overlap(
                old(self)@.tower.moving_platform_pos,
                old(self)@.tower.platform_position,
                old(self)@.tower.platform_width,
            ),
            final(self)@.inv(),
    {
        proof {
            if self@.state == GameState::Playing {
                lemma_landing_count_is_overlap(self@.tower);
            }
        }
        match self.state {
            GameState::Menu => match event {
                InputEvent::Confirm => {
                    self.start_game();
                    Action::SaveStats
                },
                InputEvent::OpenSettings => {
                    self.state = GameState::Settings;
                    Action::Nothing
                },
                InputEvent::Quit => Action::Exit,
                _ => Action::Nothing,
            },
            GameState::Playing => match event {
                InputEvent::Freeze => self.freeze(now),
                _ => Action::Nothing,
            },
            GameState::Settings => match event {
                InputEvent::Cancel => {
                    self.state = GameState::Menu;
                    Action::Nothing
                },
                _ => Action::Nothing,
            },
            GameState::GameOver(_) => Action::Nothing,
        }
    }

    /// Takes note of a new size of the viewport, in pixels.
    pub fn handle_window_resize(&mut self, window_width: u32, window_height: u32)
        ensures
            final(self)@ == (GameModel {
                window_width: window_width as nat,
                window_height: window_height as nat,
                ..old(self)@
            }),
    {
        self.window_width = window_width;
        self.window_height = window_height;
    }

    /// Brings the scroll up to date with the tower and the viewport.
    pub fn update_camera(&mut self)
        ensures
            final(self)@ == old(self)@.with_camera(),
            old(self)@.inv() ==> final(self)@.inv(),
    {
        let rows = self.tower.row_count();
        let shown = match self.state {
            GameState::Playing => true,
            GameState::GameOver(_) => true,
            _ => false,
        };
        if shown && rows > 1 && self.level >= CAMERA_MIN_LEVEL {
            self.camera_offset_y = camera_offset(
                self.camera_offset_y,
                rows,
                block_size(self.window_width),
                self.window_height,
            );
        }
    }

    /// What the session is showing.
    pub fn state(&self) -> (state: GameState)
        ensures
            state == self@.state,
    {
        self.state
    }

    /// The tower of the current game, or of the last one.
    pub fn tower(&self) -> (tower: &TowerGrid)
        ensures
            tower@ == self@.tower,
    {
        &self.tower
    }

    /// Whether the sliding platform is heading right.
    pub fn move_right(&self) -> (right: bool)
        ensures
            right == self@.move_right,
    {
        self.move_right
    }

    /// Nanoseconds gone since the platform's last step.
    pub fn move_timer(&self) -> (timer: u64)
        ensures
            timer == self@.move_timer,
    {
        self.move_timer
    }

    /// Nanoseconds from one step of the platform to the next.
    pub fn move_interval(&self) -> (interval: u64)
        ensures
            interval == self@.move_interval,
    {
        self.move_interval
    }

    /// Landings in the current game, or in the last one.
    pub fn level(&self) -> (level: i32)
        ensures
            level == self@.level,
    {
        self.level
    }

    /// How far the view has been scrolled up, in thirtieths of a pixel.
    pub fn camera_offset_y(&self) -> (offset: u128)
        ensures
            offset == self@.camera_offset_y,
    {
        self.camera_offset_y
    }

    /// Width of the viewport, in pixels.
    pub fn window_width(&self) -> (width: u32)
        ensures
            width == self@.window_width,
    {
        self.window_width
    }

    /// Height of the viewport, in pixels.
    pub fn window_height(&self) -> (height: u32)
        ensures
            height == self@.window_height,
    {
        self.window_height
    }

    /// The edge of one cell as it is drawn, in thirtieths of a pixel. It
    /// follows the width of the viewport.
    pub fn block_draw_size(&self) -> (size: u64)
        ensures
            size == row_height(self@.window_width as int),
    {
        block_size(self.window_width)
    }

    /// The statistics.
    pub fn stats(&self) -> (stats: GameStats)
        ensures
            stats == self@.stats,
    {
        self.stats
    }
}

} // verus!
