use aave_v3_liquidator::sync::{block_windows, BlockWindow, LOG_BLOCK_RANGE};

fn window(from_block: u64, to_block: u64) -> BlockWindow {
    BlockWindow { from_block, to_block }
}

#[test]
fn no_window_when_the_head_is_not_ahead() {
    assert_eq!(block_windows(100, 100), vec![]);
    assert_eq!(block_windows(100, 99), vec![]);
    assert_eq!(block_windows(0, 0), vec![]);
}

#[test]
fn a_short_range_is_one_window() {
    assert_eq!(block_windows(100, 101), vec![window(100, 101)]);
    assert_eq!(block_windows(0, 1023), vec![window(0, 1023)]);
}

#[test]
fn a_range_of_a_full_window_and_one_block() {
    assert_eq!(block_windows(0, 1024), vec![window(0, 1023), window(1024, 1024)]);
    assert_eq!(block_windows(0, 1025), vec![window(0, 1023), window(1024, 1025)]);
}

#[test]
fn windows_cover_every_block_once() {
    let from = 2_963_358u64;
    let to = from + 10 * LOG_BLOCK_RANGE + 17;
    let windows = block_windows(from, to);
    assert_eq!(windows.len(), 11);
    assert_eq!(windows[0].from_block, from);
    assert_eq!(windows[10].to_block, to);
    for i in 0..windows.len() {
        assert!(windows[i].from_block <= windows[i].to_block);
        assert!(windows[i].to_block - windows[i].from_block < LOG_BLOCK_RANGE);
        if i + 1 < windows.len() {
            assert_eq!(windows[i + 1].from_block, windows[i].to_block + 1);
            assert_eq!(windows[i].to_block - windows[i].from_block, LOG_BLOCK_RANGE - 1);
        }
    }
}

#[test]
fn windows_at_the_end_of_the_block_range() {
    assert_eq!(
        block_windows(u64::MAX - 1500, u64::MAX),
        vec![
            window(u64::MAX - 1500, u64::MAX - 1500 + 1023),
            window(u64::MAX - 1500 + 1024, u64::MAX)
        ]
    );
    assert_eq!(block_windows(u64::MAX - 1, u64::MAX), vec![window(u64::MAX - 1, u64::MAX)]);
}
