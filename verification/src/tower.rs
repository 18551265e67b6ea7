//! The tower: the rows from the base up, the span of the platform that was
//! landed last, and the platform that slides on top.

use vstd::prelude::*;
use crate::block::GridBlock;
use crate::config::{GAME_WIDTH, PLATFORM_BLOCKS};
use crate::fall::{advance_fall, fallen_row, lemma_nothing_falls};
use crate::row::{
    count_in_span, freeze_row, frozen_row, in_span, is_sliding_row, lemma_common_is_overlap,
    lemma_count_of_sliding_row, lemma_count_within_width, new_platform_row, overlap,
    platform_row,
};

verus! {

/// The left edge of a platform of `width` columns that sits in the middle of
/// the field, half a column to the left where it cannot sit exactly there.
pub open spec fn centered(width: int) -> int {
    (GAME_WIDTH - width) / 2
}

/// What a tower is, as plain mathematics.
pub struct TowerModel {
    /// The rows, the base first. Each row has `GAME_WIDTH` cells.
    pub rows: Seq<Seq<GridBlock>>,
    /// Left edge of the target span: the platform that landed last.
    pub platform_position: int,
    /// Width of the target span and of the sliding platform.
    pub platform_width: int,
    /// Left edge of the sliding platform.
    pub moving_platform_pos: int,
    /// How many platforms have landed on the base.
    pub current_row: int,
}

impl TowerModel {
    /// The tower before its base is laid.
    pub open spec fn fresh() -> TowerModel {
        TowerModel {
            rows: Seq::empty(),
            platform_position: centered(PLATFORM_BLOCKS as int),
            platform_width: PLATFORM_BLOCKS as int,
            moving_platform_pos: centered(PLATFORM_BLOCKS as int),
            current_row: 0,
        }
    }

    /// The base of every tower: a landed platform of `PLATFORM_BLOCKS`
    /// columns in the middle of the field.
    pub open spec fn base_row() -> Seq<GridBlock> {
        platform_row(centered(PLATFORM_BLOCKS as int), PLATFORM_BLOCKS as int, true, 0)
    }

    /// What holds of every tower: the platform is between one column and
    /// `PLATFORM_BLOCKS` columns wide, the target span sits in the middle of
    /// the field, the sliding platform lies on the field, every row has
    /// `GAME_WIDTH` cells in one of their four states, the first row is the
    /// base, there is one row for the base, one for each landed platform and
    /// at most one more, nothing slides in the base nor in the rows of the
    /// landed platforms, and a tower without rows is the fresh one.
    pub open spec fn wf(self) -> bool {
        &&& 1 <= self.platform_width <= PLATFORM_BLOCKS
        &&& self.platform_position == centered(self.platform_width)
        &&& 0 <= self.moving_platform_pos
        &&& self.moving_platform_pos + self.platform_width <= GAME_WIDTH
        &&& forall|r: int|
            0 <= r < self.rows.len() ==> (#[trigger] self.rows[r]).len() == GAME_WIDTH
        &&& forall|r: int, c: int|
            0 <= r < self.rows.len() && 0 <= c < GAME_WIDTH ==> (#[trigger] self.rows[r][c]).wf()
        &&& 0 <= self.current_row
        &&& if self.rows.len() == 0 {
            &&& self.current_row == 0
            &&& self.platform_width == PLATFORM_BLOCKS
            &&& self.moving_platform_pos == self.platform_position
        } else {
            &&& self.current_row + 1 <= self.rows.len() <= self.current_row + 2
            &&& self.rows[0] == Self::base_row()
        }
        &&& forall|r: int, c: int|
            0 <= r <= self.current_row && r < self.rows.len() && 0 <= c < GAME_WIDTH ==> !(
            #[trigger] self.rows[r][c]).is_sliding()
    }

    /// The topmost row.
    pub open spec fn top(self) -> Seq<GridBlock> {
        self.rows.last()
    }

    /// The tower ends in a row for the next platform to slide in.
    pub open spec fn awaits_row(self) -> bool {
        self.rows.len() == self.current_row + 1
    }

    /// The topmost row holds the sliding platform and nothing else.
    pub open spec fn is_live(self) -> bool {
        &&& self.rows.len() == self.current_row + 2
        &&& is_sliding_row(self.top(), self.moving_platform_pos, self.platform_width)
    }

    /// The tower with the topmost row replaced.
    pub open spec fn with_top(self, row: Seq<GridBlock>) -> TowerModel {
        TowerModel { rows: self.rows.update(self.rows.len() - 1, row), ..self }
    }

    /// The tower with its base laid: a landed platform over the target span,
    /// spawned at level 0.
    pub open spec fn with_base_row(self) -> TowerModel {
        TowerModel {
            rows: self.rows.push(
                platform_row(self.platform_position, self.platform_width, true, 0),
            ),
            ..self
        }
    }

    /// The tower with a new topmost row, spawned at `level`, that holds the
    /// sliding platform.
    pub open spec fn with_new_row(self, level: i32) -> TowerModel {
        TowerModel {
            rows: self.rows.push(
                platform_row(self.moving_platform_pos, self.platform_width, false, level),
            ),
            ..self
        }
    }

    /// The number of occupied cells of the topmost row whose column lies in
    /// the target span.
    pub open spec fn landing_count(self) -> nat {
        count_in_span(
            self.top(),
            self.platform_position,
            self.platform_width,
            GAME_WIDTH as int,
        )
    }

    /// The tower after its topmost row was frozen against the target span.
    /// With at least one cell landed, the landed cells are the new platform:
    /// its width is their number, the target span is put in the middle of the
    /// field, and the next platform starts from there. With none landed,
    /// nothing but the topmost row changes.
    pub open spec fn landed(self) -> TowerModel {
        let frozen = self.with_top(
            frozen_row(self.top(), self.platform_position, self.platform_width),
        );
        let count = self.landing_count() as int;
        if count > 0 {
            TowerModel {
                platform_width: count,
                platform_position: centered(count),
                moving_platform_pos: centered(count),
                current_row: self.current_row + 1,
                ..frozen
            }
        } else {
            frozen
        }
    }

    /// The sliding platform can move one column to the right, or to the left,
    /// without leaving the field.
    pub open spec fn can_shift(self, right: bool) -> bool {
        if right {
            self.moving_platform_pos + self.platform_width < GAME_WIDTH
        } else {
            self.moving_platform_pos > 0
        }
    }

    /// The tower after the sliding platform has moved one column: the cell at
    /// its trailing edge is given up and the cell next to its leading edge is
    /// taken.
    pub open spec fn shifted(self, right: bool) -> TowerModel {
        let pos = self.moving_platform_pos;
        let width = self.platform_width;
        let given_up = if right { pos } else { pos + width - 1 };
        let taken = if right { pos + width } else { pos - 1 };
        let top = self.top();
        let moved = top.update(given_up, top[given_up].with_active(false));
        TowerModel {
            moving_platform_pos: if right { pos + 1 } else { pos - 1 },
            ..self.with_top(moved.update(taken, moved[taken].with_active(true)))
        }
    }

    /// The tower after `dt` nanoseconds of falling in its topmost row.
    pub open spec fn fallen(self, dt: u64) -> TowerModel {
        if self.rows.len() == 0 {
            self
        } else {
            self.with_top(fallen_row(self.top(), dt))
        }
    }
}

/// While the platform slides on top of the tower, the cells that a freeze
/// would land are the columns that the platform shares with the target span:
/// as many as the platform is wide, less its distance from the span, and none
/// if the distance is the width or more.
pub proof fn lemma_landing_count_is_overlap(tower: TowerModel)
    requires
        tower.wf(),
        tower.is_live(),
    ensures
        tower.landing_count() == overlap(
            tower.moving_platform_pos,
            tower.platform_position,
            tower.platform_width,
        ),
        tower.landing_count() <= tower.platform_width,
{
    lemma_count_within_width(
        tower.top(),
        tower.platform_position,
        tower.platform_width,
        GAME_WIDTH as int,
    );
    lemma_count_of_sliding_row(
        tower.top(),
        tower.moving_platform_pos,
        tower.platform_position,
        tower.platform_width,
        GAME_WIDTH as int,
    );
    lemma_common_is_overlap(
        tower.moving_platform_pos,
        tower.platform_position,
        tower.platform_width,
    );
}

/// A new tower with its base laid is well formed and waits for its first
/// platform.
pub proof fn lemma_base_row_is_laid()
    ensures
        TowerModel::fresh().wf(),
        TowerModel::fresh().with_base_row().wf(),
        TowerModel::fresh().with_base_row().awaits_row(),
{
}

/// On a tower that waits for it, a new row makes the platform slide on top.
pub proof fn lemma_new_row_is_live(tower: TowerModel, level: i32)
    requires
        tower.wf(),
        tower.awaits_row(),
    ensures
        tower.with_new_row(level).wf(),
        tower.with_new_row(level).is_live(),
{
}

/// A platform that has room can take its step: it slides on, one column
/// further, over as many columns as before, and no other row is touched.
pub proof fn lemma_shift_keeps_sliding(tower: TowerModel, right: bool)
    requires
        tower.wf(),
        tower.is_live(),
        tower.can_shift(right),
    ensures
        tower.shifted(right).wf(),
        tower.shifted(right).is_live(),
        tower.shifted(right).rows.len() == tower.rows.len(),
        forall|r: int|
            0 <= r < tower.rows.len() - 1 ==> #[trigger] tower.shifted(right).rows[r]
                == tower.rows[r],
{
}

/// Time does nothing to a tower on which the platform still slides, since
/// nothing falls in its topmost row.
pub proof fn lemma_nothing_falls_while_sliding(tower: TowerModel, dt: u64)
    requires
        tower.wf(),
        tower.is_live(),
    ensures
        tower.fallen(dt) == tower,
{
    lemma_nothing_falls(tower.top(), dt);
    assert(tower.fallen(dt).rows =~= tower.rows);
}

/// What a freeze leaves behind. The landed width is the number of cells
/// that the platform had over the target span, never more than the platform
/// was wide, and the new target span sits in the middle of the field. If
/// anything landed, the tower waits for its next row. If nothing did, only
/// the topmost row has changed, and in it every cell of the platform falls.
/// No row is added or taken away either way.
pub proof fn lemma_landing(tower: TowerModel)
    requires
        tower.wf(),
        tower.is_live(),
    ensures
        tower.landed().wf(),
        tower.landed().rows.len() == tower.rows.len(),
        tower.landing_count() > 0 ==> {
            &&& tower.landed().awaits_row()
            &&& tower.landed().platform_width == tower.landing_count()
            &&& tower.landed().platform_width <= tower.platform_width
            &&& tower.landed().platform_position == centered(tower.landed().platform_width)
            &&& tower.landed().moving_platform_pos == tower.landed().platform_position
            &&& tower.landed().current_row == tower.current_row + 1
        },
        tower.landing_count() == 0 ==> {
            &&& tower.landed().platform_width == tower.platform_width
            &&& tower.landed().platform_position == tower.platform_position
            &&& tower.landed().moving_platform_pos == tower.moving_platform_pos
            &&& tower.landed().current_row == tower.current_row
            &&& forall|col: int|
                0 <= col < GAME_WIDTH ==> (#[trigger] tower.landed().top()[col]).falling
                    == tower.top()[col].active
        },
        forall|col: int|
            0 <= col < GAME_WIDTH ==> {
                &&& (#[trigger] tower.landed().top()[col]).landed == (in_span(
                    col,
                    tower.moving_platform_pos,
                    tower.platform_width,
                ) && in_span(col, tower.platform_position, tower.platform_width))
                &&& tower.landed().top()[col].falling == (in_span(
                    col,
                    tower.moving_platform_pos,
                    tower.platform_width,
                ) && !in_span(col, tower.platform_position, tower.platform_width))
            },
{
    lemma_landing_count_is_overlap(tower);
}

/// A platform that is frozen right above the target span lands whole: the
/// width and the place of the target span stay as they are.
pub proof fn lemma_perfect_landing(tower: TowerModel)
    requires
        tower.wf(),
        tower.is_live(),
        tower.moving_platform_pos == tower.platform_position,
    ensures
        tower.landing_count() == tower.platform_width,
        tower.landed().platform_width == tower.platform_width,
        tower.landed().platform_position == tower.platform_position,
{
    lemma_landing_count_is_overlap(tower);
}

/// A platform that is frozen clear of the target span misses the tower:
/// nothing lands, and the tower keeps its rows, its width and its target
/// span.
pub proof fn lemma_total_miss(tower: TowerModel)
    requires
        tower.wf(),
        tower.is_live(),
        overlap(tower.moving_platform_pos, tower.platform_position, tower.platform_width) == 0,
    ensures
        tower.landing_count() == 0,
        tower.landed().rows.len() == tower.rows.len(),
        tower.landed().platform_width == tower.platform_width,
        tower.landed().platform_position == tower.platform_position,
        tower.landed().current_row == tower.current_row,
{
    lemma_landing_count_is_overlap(tower);
}

/// The rows of the tower with what goes with them.
pub struct TowerGrid {
    rows: Vec<Vec<GridBlock>>,
    platform_position: usize,
    platform_width: usize,
    moving_platform_pos: usize,
    current_row: usize,
}

impl View for TowerGrid {
    type V = TowerModel;

    closed spec fn view(&self) -> TowerModel {
        TowerModel {
            rows: Seq::new(self.rows@.len(), |r: int| self.rows@[r]@),
            platform_position: self.platform_position as int,
            platform_width: self.platform_width as int,
            moving_platform_pos: self.moving_platform_pos as int,
            current_row: self.current_row as int,
        }
    }
}

impl TowerGrid {
    /// A tower without rows, for a platform of `PLATFORM_BLOCKS` columns in
    /// the middle of the field.
    pub fn new() -> (tower: TowerGrid)
        ensures
            tower@ == TowerModel::fresh(),
            tower@.wf(),
    {
        let tower = TowerGrid {
            rows: Vec::new(),
            platform_position: (GAME_WIDTH - PLATFORM_BLOCKS) / 2,
            platform_width: PLATFORM_BLOCKS,
            moving_platform_pos: (GAME_WIDTH - PLATFORM_BLOCKS) / 2,
            current_row: 0,
        };
        assert(tower@.rows =~= Seq::empty());
        tower
    }

    /// Takes all rows away and puts the platform back to its first width and
    /// place.
    pub fn reset(&mut self)
        ensures
            final(self)@ == TowerModel::fresh(),
            final(self)@.wf(),
    {
        self.rows.clear();
        self.platform_width = PLATFORM_BLOCKS;
        self.platform_position = (GAME_WIDTH - self.platform_width) / 2;
        self.moving_platform_pos = self.platform_position;
        self.current_row = 0;
        assert(self@.rows =~= Seq::empty());
    }

    /// Lays the base of the tower.
    pub fn add_base_row(&mut self)
        requires
            old(self)@.wf(),
            old(self)@.rows.len() == 0,
        ensures
            final(self)@ == old(self)@.with_base_row(),
            final(self)@.wf(),
            final(self)@.awaits_row(),
    {
        let row = new_platform_row(self.platform_position, self.platform_width, true, 0);
        self.rows.push(row);
        assert(self@.rows =~= old(self)@.with_base_row().rows);
    }

    /// Spawns the next platform, at `level`, on top of the tower.
    pub fn add_new_row(&mut self, level: i32)
        requires
            old(self)@.wf(),
            old(self)@.awaits_row(),
        ensures
            final(self)@ == old(self)@.with_new_row(level),
            final(self)@.wf(),
            final(self)@.is_live(),
    {
        let row = new_platform_row(self.moving_platform_pos, self.platform_width, false, level);
        self.rows.push(row);
        assert(self@.rows =~= old(self)@.with_new_row(level).rows);
    }

    /// Freezes the sliding platform where it is and judges the landing.
    ///
    /// Every cell of the platform inside the target span lands, every other
    /// cell of it starts to fall. Returns whether any cell landed. If so, the
    /// landed cells are the new platform (see [`TowerModel::landed`]) and the
    /// tower waits for its next row. If not, the platform has missed the
    /// tower: nothing but the topmost row changes.
    pub fn check_landing(&mut self) -> (landed: bool)
        requires
            old(self)@.wf(),
            old(self)@.is_live(),
        ensures
            final(self)@ == old(self)@.landed(),
            landed == (old(self)@.landing_count() > 0),
            old(self)@.landing_count() == overlap(
                old(self)@.moving_platform_pos,
                old(self)@.platform_position,
                old(self)@.platform_width,
            ),
            final(self)@.rows.len() == old(self)@.rows.len(),
            old(self)@.moving_platform_pos == old(self)@.platform_position ==> landed
                && final(self)@.platform_width == old(self)@.platform_width
                && final(self)@.platform_position == old(self)@.platform_position,
            landed ==> final(self)@.platform_width == old(self)@.landing_count(),
            landed ==> final(self)@.platform_position == centered(final(self)@.platform_width),
            landed ==> final(self)@.awaits_row(),
            !landed ==> final(self)@.platform_width == old(self)@.platform_width,
            !landed ==> final(self)@.platform_position == old(self)@.platform_position,
            final(self)@.wf(),
    {
        proof {
            lemma_landing_count_is_overlap(self@);
        }
        let last = self.rows.len() - 1;
        let count = freeze_row(&mut self.rows[last], self.platform_position, self.platform_width);
        let landed = count > 0;
        if landed {
            self.platform_width = count;
            self.platform_position = (GAME_WIDTH - self.platform_width) / 2;
            self.moving_platform_pos = self.platform_position;
            self.current_row = self.current_row + 1;
        }
        assert(self@.rows =~= old(self)@.landed().rows);
        landed
    }

    /// Moves the sliding platform one column to the right, or to the left.
    /// Only the topmost row changes.
    pub fn shift_platform(&mut self, right: bool)
        requires
            old(self)@.wf(),
            old(self)@.is_live(),
            old(self)@.can_shift(right),
        ensures
            final(self)@ == old(self)@.shifted(right),
            final(self)@.wf(),
            final(self)@.is_live(),
    {
        let last = self.rows.len() - 1;
        let pos = self.moving_platform_pos;
        let width = self.platform_width;
        if right {
            self.rows[last][pos].active = false;
            self.moving_platform_pos = pos + 1;
            self.rows[last][pos + width].active = true;
        } else {
            self.rows[last][pos + width - 1].active = false;
            self.moving_platform_pos = pos - 1;
            self.rows[last][pos - 1].active = true;
        }
        assert(self@.rows =~= old(self)@.shifted(right).rows);
    }

    /// Lets `dt` nanoseconds pass for the falling segments of the topmost
    /// row.
    pub fn advance_falling(&mut self, dt: u64)
        ensures
            final(self)@ == old(self)@.fallen(dt),
            old(self)@.wf() ==> final(self)@.wf(),
            old(self)@.wf() && old(self)@.is_live() ==> final(self)@ == old(self)@,
    {
        let count = self.rows.len();
        if count > 0 {
            proof {
                if self@.wf() && self@.is_live() {
                    lemma_nothing_falls(self@.top(), dt);
                }
            }
            advance_fall(&mut self.rows[count - 1], dt);
            assert(self@.rows =~= old(self)@.fallen(dt).rows);
            assert(fallen_row(TowerModel::base_row(), dt) =~= TowerModel::base_row());
            assert(old(self)@.wf() && old(self)@.is_live() ==> self@.rows =~= old(self)@.rows);
        }
    }

    /// Left edge of the target span.
    pub fn platform_position(&self) -> (column: usize)
        ensures
            column == self@.platform_position,
    {
        self.platform_position
    }

    /// Width of the target span and of the sliding platform.
    pub fn platform_width(&self) -> (width: usize)
        ensures
            width == self@.platform_width,
    {
        self.platform_width
    }

    /// Left edge of the sliding platform.
    pub fn moving_platform_pos(&self) -> (column: usize)
        ensures
            column == self@.moving_platform_pos,
    {
        self.moving_platform_pos
    }

    /// How many platforms have landed on the base.
    pub fn current_row(&self) -> (landed: usize)
        ensures
            landed == self@.current_row,
    {
        self.current_row
    }

    /// The number of rows, the base included.
    pub fn row_count(&self) -> (count: usize)
        ensures
            count == self@.rows.len(),
    {
        self.rows.len()
    }

    /// The cell at column `col` of row `row`, the base being row 0.
    pub fn block(&self, row: usize, col: usize) -> (block: GridBlock)
        requires
            row < self@.rows.len(),
            col < self@.rows[row as int].len(),
        ensures
            block == self@.rows[row as int][col as int],
    {
        self.rows[row][col]
    }

    /// All rows, the base first.
    pub fn rows(&self) -> (rows: &Vec<Vec<GridBlock>>)
        ensures
            rows@.len() == self@.rows.len(),
            forall|r: int| 0 <= r < rows@.len() ==> (#[trigger] rows@[r])@ == self@.rows[r],
    {
        &self.rows
    }
}

} // verus!
