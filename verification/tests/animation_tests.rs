use sprite_walker::animation::{
    advance_frame, next_frame, AnimIndices, AnimationInd, GRID_CELLS, IDLE_CYCLE, WALK_CYCLE,
};
use sprite_walker::facing::FacingDirection;

const ALL: [FacingDirection; 4] =
    [FacingDirection::LEFT, FacingDirection::RIGHT, FacingDirection::UP, FacingDirection::DOWN];

#[test]
fn sprite_sheet_table() {
    let table = AnimationInd::sprite_sheet();
    assert_eq!(table.walk, AnimIndices { left: 8, right: 0, up: 24, down: 16 });
    assert_eq!(table.idle, AnimIndices { left: 40, right: 32, up: 56, down: 48 });
    assert!(table.is_within_grid());
    assert_eq!(table.base(FacingDirection::RIGHT, true), 0);
    assert_eq!(table.base(FacingDirection::LEFT, true), 8);
    assert_eq!(table.base(FacingDirection::UP, true), 24);
    assert_eq!(table.base(FacingDirection::DOWN, true), 16);
    assert_eq!(table.base(FacingDirection::RIGHT, false), 32);
    assert_eq!(table.base(FacingDirection::LEFT, false), 40);
    assert_eq!(table.base(FacingDirection::UP, false), 56);
    assert_eq!(table.base(FacingDirection::DOWN, false), 48);
    assert_eq!(table.walk.offset(FacingDirection::UP), 24);
}

#[test]
fn cycle_lengths() {
    assert_eq!(WALK_CYCLE, 8);
    assert_eq!(IDLE_CYCLE, 4);
    assert_eq!(GRID_CELLS, 64);
}

#[test]
fn table_outside_grid_is_told() {
    let mut table = AnimationInd::sprite_sheet();
    table.idle.up = 61;
    assert!(!table.is_within_grid());
    table.idle.up = 60;
    assert!(table.is_within_grid());
    table.walk.left = 57;
    assert!(!table.is_within_grid());
}

#[test]
fn walking_cycle_wraps_at_eight() {
    let table = AnimationInd::sprite_sheet();
    let mut frame = 8;
    let mut seen = Vec::new();
    for _ in 0..9 {
        frame = next_frame(frame, &table, FacingDirection::LEFT, true);
        seen.push(frame);
    }
    assert_eq!(seen, vec![9, 10, 11, 12, 13, 14, 15, 8, 9]);
}

#[test]
fn idle_cycle_wraps_at_four() {
    let table = AnimationInd::sprite_sheet();
    let mut frame = 56;
    let mut seen = Vec::new();
    for _ in 0..5 {
        frame = next_frame(frame, &table, FacingDirection::UP, false);
        seen.push(frame);
    }
    assert_eq!(seen, vec![57, 58, 59, 56, 57]);
}

#[test]
fn frame_stays_in_cycle_for_every_index() {
    let table = AnimationInd::sprite_sheet();
    for index in 0..200usize {
        for facing in ALL {
            for walking in [true, false] {
                let base = table.base(facing, walking);
                let length = if walking { 8 } else { 4 };
                let frame = next_frame(index, &table, facing, walking);
                assert!(base <= frame && frame < base + length);
                assert!(frame < 64);
                assert_eq!(frame, (index + 1) % length + base);
            }
        }
    }
}

#[test]
fn switching_gait_keeps_the_position_reached() {
    let table = AnimationInd::sprite_sheet();
    // Frame 13 of walking left; the player stops and faces left: (13 + 1) % 4 + 40.
    assert_eq!(next_frame(13, &table, FacingDirection::LEFT, false), 42);
    // Frame 59 of idle up; the player walks right: (59 + 1) % 8 + 0.
    assert_eq!(next_frame(59, &table, FacingDirection::RIGHT, true), 4);
}

#[test]
fn largest_index_wraps_without_overflow() {
    let table = AnimationInd::sprite_sheet();
    assert_eq!(next_frame(usize::MAX, &table, FacingDirection::DOWN, true), 16);
    assert_eq!(next_frame(usize::MAX, &table, FacingDirection::DOWN, false), 48);
}

#[test]
fn frame_moves_only_when_timer_finished() {
    let table = AnimationInd::sprite_sheet();
    assert_eq!(advance_frame(49, false, &table, FacingDirection::DOWN, false), 49);
    assert_eq!(advance_frame(49, true, &table, FacingDirection::DOWN, false), 50);
    assert_eq!(advance_frame(3, false, &table, FacingDirection::UP, true), 3);
    assert_eq!(advance_frame(3, true, &table, FacingDirection::UP, true), 28);
}
