//! Walking frames of the characters, cut from their spritesheets, and the
//! components a new player or enemy starts with.

use vstd::prelude::*;

use crate::components::{Direction, Health, MovementAnimation, Position, Sprite, Velocity};
use crate::geometry::{point_wf, rect_new, rect_wf, Point, Rect, POS_MAX};
use crate::random::{gen_range_i32, thread_rng};

verus! {

/// The spritesheet row that holds the frames facing `d`.
pub open spec fn spritesheet_row(d: Direction) -> int {
    match d {
        Direction::Up => 3,
        Direction::Down => 0,
        Direction::Left => 1,
        Direction::Right => 2,
    }
}

/// How many walking frames a character has per direction.
pub const FRAMES_PER_DIRECTION: i32 = 3i32;

/// The region of frame `i` facing `d`, for a spritesheet whose first frame
/// is `top`: frames lie side by side, rows one below the other.
pub open spec fn frame_region(top: Rect, d: Direction, i: int) -> Rect {
    rect_new(
        top.x + (top.w as i32) * i,
        top.y + (top.h as i32) * spritesheet_row(d),
        top.w as int,
        top.h as int,
    )
}

/// The frames facing `d` fit in `i32` arithmetic.
pub open spec fn frames_fit(top: Rect, d: Direction) -> bool {
    &&& i32::MIN <= (top.h as i32) * spritesheet_row(d) <= i32::MAX
    &&& i32::MIN <= top.y + (top.h as i32) * spritesheet_row(d) <= i32::MAX
    &&& i32::MIN <= 2 * (top.w as i32) <= i32::MAX
    &&& i32::MIN <= top.x + 2 * (top.w as i32) <= i32::MAX
}

/// Each direction has its own row of the spritesheet, one of rows 0 to 3.
pub proof fn lemma_rows_distinct(d1: Direction, d2: Direction)
    ensures
        0 <= spritesheet_row(d1) < 4,
        d1 != d2 ==> spritesheet_row(d1) != spritesheet_row(d2),
{
}

/// Walking frames lie side by side: each starts one frame width right of
/// the one before, on the same row and with the size of the first frame,
/// as long as no coordinate reaches the clamping bounds.
pub proof fn lemma_frames_side_by_side(top: Rect, d: Direction, i: int)
    requires
        rect_wf(top),
        0 <= i < 2,
        top.x + 2 * top.w <= POS_MAX,
        top.y + 3 * top.h <= POS_MAX,
    ensures
        frame_region(top, d, i + 1).x == frame_region(top, d, i).x + top.w,
        frame_region(top, d, i + 1).y == frame_region(top, d, i).y,
        frame_region(top, d, i).w == top.w,
        frame_region(top, d, i).h == top.h,
        frame_region(top, d, 0).x == top.x,
        frame_region(top, d, i).y == top.y + top.h * spritesheet_row(d),
{
    assert((top.w as i32) == top.w);
    assert((top.h as i32) == top.h);
    assert(0 <= top.h * spritesheet_row(d) <= 3 * top.h) by (nonlinear_arith)
        requires
            0 <= spritesheet_row(d) <= 3,
            top.h >= 0,
    ;
    assert(0 <= top.w * i && top.w * (i + 1) == top.w * i + top.w && top.w * (i + 1) <= 2 * top.w)
        by (nonlinear_arith)
        requires
            0 <= i < 2,
            top.w >= 0,
    ;
}

/// The walking frames facing `d`.
pub open spec fn animation_frames(spritesheet: usize, top: Rect, d: Direction) -> Seq<Sprite> {
    Seq::new(
        FRAMES_PER_DIRECTION as nat,
        |i: int| Sprite { spritesheet, region: frame_region(top, d, i) },
    )
}

/// The spritesheet row of the frames facing `direction`.
pub fn direction_spritesheet_row(direction: Direction) -> (row: i32)
    ensures
        row == spritesheet_row(direction),
{
    match direction {
        Direction::Up => 3,
        Direction::Down => 0,
        Direction::Left => 1,
        Direction::Right => 2,
    }
}

/// The three walking frames facing `direction`, cut from `spritesheet`
/// whose first frame is `top_left_frame`.
pub fn character_animation_frames(
    spritesheet: usize,
    top_left_frame: Rect,
    direction: Direction,
) -> (frames: Vec<Sprite>)
    requires
        frames_fit(top_left_frame, direction),
    ensures
        frames@ == animation_frames(spritesheet, top_left_frame, direction),
{
    let (frame_width, frame_height) = top_left_frame.size();
    let row = direction_spritesheet_row(direction);
    let fh = frame_height as i32;
    let fw = frame_width as i32;
    assert(0 <= row <= 3);
    assert(i32::MIN <= fh * row <= i32::MAX);
    let y_offset = top_left_frame.y() + fh * row;
    let mut frames: Vec<Sprite> = Vec::new();
    let mut i: i32 = 0;
    while i < FRAMES_PER_DIRECTION
        invariant
            0 <= i <= FRAMES_PER_DIRECTION,
            frames_fit(top_left_frame, direction),
            fw == top_left_frame.w as i32,
            fh == top_left_frame.h as i32,
            frame_width == top_left_frame.w,
            frame_height == top_left_frame.h,
            y_offset == top_left_frame.y + (top_left_frame.h as i32) * spritesheet_row(direction),
            frames@ == animation_frames(spritesheet, top_left_frame, direction).take(i as int),
        decreases FRAMES_PER_DIRECTION - i,
    {
        assert(i32::MIN <= fw * i <= i32::MAX && i32::MIN <= top_left_frame.x + fw * i
            <= i32::MAX) by (nonlinear_arith)
            requires
                0 <= i < 3,
                i32::MIN <= 2 * fw <= i32::MAX,
                i32::MIN <= top_left_frame.x + 2 * fw <= i32::MAX,
                i32::MIN <= top_left_frame.x <= i32::MAX,
        ;
        let sprite = Sprite {
            spritesheet,
            region: Rect::new(top_left_frame.x() + fw * i, y_offset, frame_width, frame_height),
        };
        frames.push(sprite);
        assert(frames@ =~= animation_frames(spritesheet, top_left_frame, direction).take(
            i + 1,
        ));
        i = i + 1;
    }
    assert(animation_frames(spritesheet, top_left_frame, direction).take(3) =~= animation_frames(
        spritesheet,
        top_left_frame,
        direction,
    ));
    frames
}

/// Fields of `anim` are the walking frames of a character whose first
/// frame is `top` on `spritesheet`, starting at frame 0.
pub open spec fn is_character_animation(anim: MovementAnimation, spritesheet: usize, top: Rect) -> bool {
    &&& anim.current_frame == 0
    &&& anim.up_frames@ == animation_frames(spritesheet, top, Direction::Up)
    &&& anim.down_frames@ == animation_frames(spritesheet, top, Direction::Down)
    &&& anim.left_frames@ == animation_frames(spritesheet, top, Direction::Left)
    &&& anim.right_frames@ == animation_frames(spritesheet, top, Direction::Right)
}

/// The frame of column `i` on row `row`, counting from `top`, on `spritesheet`.
pub open spec fn sheet_cell(spritesheet: usize, top: Rect, row: int, i: int) -> Sprite {
    Sprite {
        spritesheet,
        region: Rect {
            x: (top.x + top.w * i) as i32,
            y: (top.y + top.h * row) as i32,
            w: top.w,
            h: top.h,
        },
    }
}

/// Each direction's walking frames are the three cells, left to right, of
/// that direction's own spritesheet row: row 3 for Up, 0 for Down, 1 for
/// Left and 2 for Right, each cell the size of the first frame. So no two
/// directions share frames. This holds whenever the cells lie within the
/// clamping bounds.
pub proof fn lemma_animation_rows(anim: MovementAnimation, spritesheet: usize, top: Rect)
    requires
        is_character_animation(anim, spritesheet, top),
        rect_wf(top),
        top.x + 2 * top.w <= POS_MAX,
        top.y + 3 * top.h <= POS_MAX,
    ensures
        anim.current_frame == 0,
        anim.up_frames@.len() == 3,
        anim.down_frames@.len() == 3,
        anim.left_frames@.len() == 3,
        anim.right_frames@.len() == 3,
        forall|i: int| 0 <= i < 3 ==> #[trigger] anim.up_frames@[i] == sheet_cell(spritesheet, top, 3, i),
        forall|i: int| 0 <= i < 3 ==> #[trigger] anim.down_frames@[i] == sheet_cell(spritesheet, top, 0, i),
        forall|i: int| 0 <= i < 3 ==> #[trigger] anim.left_frames@[i] == sheet_cell(spritesheet, top, 1, i),
        forall|i: int| 0 <= i < 3 ==> #[trigger] anim.right_frames@[i] == sheet_cell(spritesheet, top, 2, i),
        forall|i: int, j: int|
            0 <= i < 3 && 0 <= j < 3 ==> #[trigger] anim.left_frames@[i].region.y
                != #[trigger] anim.right_frames@[j].region.y,
{
    assert((top.w as i32) == top.w);
    assert((top.h as i32) == top.h);
    assert forall|i: int| 0 <= i < 3 implies 0 <= #[trigger] (top.w * i) <= 2 * top.w by {
        assert(0 <= top.w * i <= 2 * top.w) by (nonlinear_arith)
            requires
                0 <= i < 3,
                top.w >= 0,
        ;
    }
    assert(top.h * 3 == 3 * top.h && top.h * 2 == 2 * top.h && top.h * 1 == top.h && top.h * 0
        == 0);
    assert forall|i: int| 0 <= i < 3 implies #[trigger] anim.up_frames@[i] == sheet_cell(
        spritesheet,
        top,
        3,
        i,
    ) by {
        assert(0 <= top.w * i <= 2 * top.w);
    }
    assert forall|i: int| 0 <= i < 3 implies #[trigger] anim.down_frames@[i] == sheet_cell(
        spritesheet,
        top,
        0,
        i,
    ) by {
        assert(0 <= top.w * i <= 2 * top.w);
    }
    assert forall|i: int| 0 <= i < 3 implies #[trigger] anim.left_frames@[i] == sheet_cell(
        spritesheet,
        top,
        1,
        i,
    ) by {
        assert(0 <= top.w * i <= 2 * top.w);
    }
    assert forall|i: int| 0 <= i < 3 implies #[trigger] anim.right_frames@[i] == sheet_cell(
        spritesheet,
        top,
        2,
        i,
    ) by {
        assert(0 <= top.w * i <= 2 * top.w);
    }
}

/// The walking frames of a character whose first frame is `top` on
/// `spritesheet`, for all four directions.
fn character_animation(spritesheet: usize, top: Rect) -> (anim: MovementAnimation)
    requires
        frames_fit(top, Direction::Up),
        frames_fit(top, Direction::Down),
        frames_fit(top, Direction::Left),
        frames_fit(top, Direction::Right),
    ensures
        is_character_animation(anim, spritesheet, top),
{
    MovementAnimation {
        current_frame: 0,
        up_frames: character_animation_frames(spritesheet, top, Direction::Up),
        down_frames: character_animation_frames(spritesheet, top, Direction::Down),
        left_frames: character_animation_frames(spritesheet, top, Direction::Left),
        right_frames: character_animation_frames(spritesheet, top, Direction::Right),
    }
}

/// Every frame of a rectangle within the clamped ranges fits in `i32`,
/// whatever the direction, when its size is below 2^28.
proof fn lemma_small_frames_fit(top: Rect, d: Direction)
    requires
        rect_wf(top),
        top.w < 0x1000_0000,
        top.h < 0x1000_0000,
    ensures
        frames_fit(top, d),
{
    assert((top.h as i32) == top.h);
    assert((top.w as i32) == top.w);
}

/// The first frame of the player on its spritesheet.
pub open spec fn player_top_frame() -> Rect {
    rect_new(0, 0, 26, 36)
}

/// The components a new player entity starts with.
#[derive(Debug)]
pub struct PlayerSpawn {
    pub position: Position,
    pub health: Health,
    pub velocity: Velocity,
    pub sprite: Sprite,
    pub animation: MovementAnimation,
}

/// The player starts at the origin with 100 hit points, at rest facing
/// right with a movement speed of 6, showing its first frame facing right.
pub fn initialize_player(player_spritesheet: usize) -> (p: PlayerSpawn)
    ensures
        p.position == Position(Point { x: 0, y: 0 }),
        p.health == (Health { health: 100 }),
        p.velocity == (Velocity { speed: 0, direction: Direction::Right, mo_speed: 6 }),
        is_character_animation(p.animation, player_spritesheet, player_top_frame()),
        p.sprite == animation_frames(player_spritesheet, player_top_frame(), Direction::Right)[0],
        p.sprite == (Sprite {
            spritesheet: player_spritesheet,
            region: Rect { x: 0, y: 72, w: 26, h: 36 },
        }),
        p.animation.up_frames@.len() == 3,
        p.animation.down_frames@.len() == 3,
        p.animation.left_frames@.len() == 3,
        p.animation.right_frames@.len() == 3,
        forall|i: int|
            0 <= i < 3 ==> #[trigger] p.animation.up_frames@[i] == (Sprite {
                spritesheet: player_spritesheet,
                region: Rect { x: (26 * i) as i32, y: 108, w: 26, h: 36 },
            }),
        forall|i: int|
            0 <= i < 3 ==> #[trigger] p.animation.down_frames@[i] == (Sprite {
                spritesheet: player_spritesheet,
                region: Rect { x: (26 * i) as i32, y: 0, w: 26, h: 36 },
            }),
        forall|i: int|
            0 <= i < 3 ==> #[trigger] p.animation.left_frames@[i] == (Sprite {
                spritesheet: player_spritesheet,
                region: Rect { x: (26 * i) as i32, y: 36, w: 26, h: 36 },
            }),
        forall|i: int|
            0 <= i < 3 ==> #[trigger] p.animation.right_frames@[i] == (Sprite {
                spritesheet: player_spritesheet,
                region: Rect { x: (26 * i) as i32, y: 72, w: 26, h: 36 },
            }),
{
    let top = Rect::new(0, 0, 26, 36);
    proof {
        lemma_small_frames_fit(top, Direction::Up);
        lemma_small_frames_fit(top, Direction::Down);
        lemma_small_frames_fit(top, Direction::Left);
        lemma_small_frames_fit(top, Direction::Right);
    }
    let animation = character_animation(player_spritesheet, top);
    proof {
        lemma_animation_rows(animation, player_spritesheet, top);
        assert forall|i: int| 0 <= i < 3 implies 26 * i == #[trigger] (top.w * i) by {}
    }
    let sprite = animation.right_frames[0];
    PlayerSpawn {
        position: Position(Point::new(0, 0)),
        health: Health { health: 100 },
        velocity: Velocity { speed: 0, direction: Direction::Right, mo_speed: 6 },
        sprite,
        animation,
    }
}

/// Width of an enemy frame; the frames of enemy `n` start at column `3n`.
pub const ENEMY_FRAME_WIDTH: i32 = 52i32;

/// The first frame of enemy kind `enemy_no` on the enemy spritesheet.
pub open spec fn enemy_top_frame(enemy_no: usize) -> Rect {
    rect_new((enemy_no as i32) * 3 * ENEMY_FRAME_WIDTH, 0, 52, 72)
}

/// The components a new enemy entity starts with.
#[derive(Debug)]
pub struct EnemySpawn {
    pub position: Position,
    pub velocity: Velocity,
    pub sprite: Sprite,
    pub animation: MovementAnimation,
}

/// `e` is the enemy of kind `enemy_no` at `position` with movement speed
/// `speed`: at rest facing right, showing its first frame facing right.
pub open spec fn is_enemy_spawn(
    e: EnemySpawn,
    spritesheet: usize,
    position: Point,
    enemy_no: usize,
    speed: int,
) -> bool {
    &&& e.position == Position(position)
    &&& e.velocity == (Velocity { speed: 0, direction: Direction::Right, mo_speed: speed as i32 })
    &&& is_character_animation(e.animation, spritesheet, enemy_top_frame(enemy_no))
    &&& e.sprite == animation_frames(spritesheet, enemy_top_frame(enemy_no), Direction::Right)[0]
}

/// The enemy of kind `enemy_no` at `position` with movement speed `speed`.
pub fn enemy_spawn(enemy_spritesheet: usize, position: Point, enemy_no: usize, speed: i32) -> (e:
    EnemySpawn)
    requires
        i32::MIN <= (enemy_no as i32) * 3 * ENEMY_FRAME_WIDTH <= i32::MAX,
    ensures
        is_enemy_spawn(e, enemy_spritesheet, position, enemy_no, speed as int),
        e.animation.up_frames@.len() == 3,
        e.animation.down_frames@.len() == 3,
        e.animation.left_frames@.len() == 3,
        e.animation.right_frames@.len() == 3,
        forall|i: int|
            0 <= i < 3 ==> (#[trigger] e.animation.up_frames@[i]).region.y == 216
                && e.animation.up_frames@[i].region.w == 52 && e.animation.up_frames@[i].region.h
                == 72,
        forall|i: int|
            0 <= i < 3 ==> (#[trigger] e.animation.down_frames@[i]).region.y == 0
                && e.animation.down_frames@[i].region.w == 52
                && e.animation.down_frames@[i].region.h == 72,
        forall|i: int|
            0 <= i < 3 ==> (#[trigger] e.animation.left_frames@[i]).region.y == 72
                && e.animation.left_frames@[i].region.w == 52
                && e.animation.left_frames@[i].region.h == 72,
        forall|i: int|
            0 <= i < 3 ==> (#[trigger] e.animation.right_frames@[i]).region.y == 144
                && e.animation.right_frames@[i].region.w == 52
                && e.animation.right_frames@[i].region.h == 72,
{
    let kind = enemy_no as i32;
    assert(i32::MIN <= kind * 3 <= i32::MAX) by (nonlinear_arith)
        requires
            i32::MIN <= kind * 3 * 52 <= i32::MAX,
    ;
    let top = Rect::new(0 + kind * 3 * ENEMY_FRAME_WIDTH, 0, 52, 72);
    proof {
        lemma_small_frames_fit(top, Direction::Up);
        lemma_small_frames_fit(top, Direction::Down);
        lemma_small_frames_fit(top, Direction::Left);
        lemma_small_frames_fit(top, Direction::Right);
    }
    let animation = character_animation(enemy_spritesheet, top);
    let sprite = animation.right_frames[0];
    EnemySpawn {
        position: Position(position),
        velocity: Velocity { speed: 0, direction: Direction::Right, mo_speed: speed },
        sprite,
        animation,
    }
}

/// Enemies draw their movement speed from `1..5`.
pub const ENEMY_SPEED_LOW: i32 = 1i32;

/// One above the fastest enemy movement speed.
pub const ENEMY_SPEED_HIGH: i32 = 5i32;

/// A new enemy of kind `enemy_no` at `position`, with a movement speed
/// drawn at random from `1..5`.
pub fn initialize_enemy(enemy_spritesheet: usize, position: Point, enemy_no: usize) -> (e:
    EnemySpawn)
    requires
        i32::MIN <= (enemy_no as i32) * 3 * ENEMY_FRAME_WIDTH <= i32::MAX,
    ensures
        ENEMY_SPEED_LOW <= e.velocity.mo_speed < ENEMY_SPEED_HIGH,
        is_enemy_spawn(e, enemy_spritesheet, position, enemy_no, e.velocity.mo_speed as int),
{
    let mut rng = thread_rng();
    let speed = gen_range_i32(&mut rng, ENEMY_SPEED_LOW, ENEMY_SPEED_HIGH);
    enemy_spawn(enemy_spritesheet, position, enemy_no, speed)
}

/// The enemy kinds on the enemy spritesheet.
pub const ENEMY_KINDS: i32 = 4i32;

/// `e` is an enemy that the periodic spawn can produce: of a kind in
/// `0..4`, at a point with `x` in `-400..400` and `y` in `-300..300`, with a
/// movement speed in `1..5`.
pub open spec fn is_random_enemy_spawn(e: EnemySpawn, spritesheet: usize) -> bool {
    exists|x: int, y: int, kind: int|
        -400 <= x < 400 && -300 <= y < 300 && 0 <= kind < ENEMY_KINDS && ENEMY_SPEED_LOW
            <= e.velocity.mo_speed < ENEMY_SPEED_HIGH && #[trigger] is_enemy_spawn(
            e,
            spritesheet,
            Point { x: x as i32, y: y as i32 },
            kind as usize,
            e.velocity.mo_speed as int,
        )
}

/// A new enemy of a random kind at a random point of the arena, as the game
/// spawns one every so often.
pub fn random_enemy_spawn(enemy_spritesheet: usize) -> (e: EnemySpawn)
    ensures
        is_random_enemy_spawn(e, enemy_spritesheet),
        point_wf(e.position.0),
{
    let mut rng = thread_rng();
    let x = gen_range_i32(&mut rng, -400, 400);
    let y = gen_range_i32(&mut rng, -300, 300);
    let kind = gen_range_i32(&mut rng, 0, ENEMY_KINDS);
    let enemy_no = kind as usize;
    assert((enemy_no as i32) == kind);
    let e = initialize_enemy(enemy_spritesheet, Point::new(x, y), enemy_no);
    assert(is_enemy_spawn(
        e,
        enemy_spritesheet,
        Point { x: x as i32, y: y as i32 },
        (kind as int) as usize,
        e.velocity.mo_speed as int,
    ));
    e
}

} // verus!
