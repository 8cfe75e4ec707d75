use prism_firmware::config::default_config;
use prism_firmware::engine::reader::{Config, Reader};
use prism_firmware::error::InitError;
use prism_firmware::memory::Arena;

fn config(block: usize, window: usize, hop: usize, history: usize) -> Config {
    Config { block_length: block, window_length: window, hop_length: hop, history_length: history }
}

#[test]
fn valid_configuration_passes() {
    assert_eq!(config(2, 4, 4, 8).check(), Ok(()));
    assert_eq!(config(1, 1, 1, 1).check(), Ok(()));
    assert_eq!(config(32, 1024, 256, 4096).check(), Ok(()));
    assert_eq!(config(2, 4, 8, 8).check(), Ok(()));
}

#[test]
fn empty_block_is_refused() {
    assert_eq!(config(0, 4, 4, 8).check(), Err(InitError::EmptyBlock));
    assert_eq!(config(0, 0, 0, 0).check(), Err(InitError::EmptyBlock));
}

#[test]
fn window_must_be_whole_blocks() {
    assert_eq!(config(2, 5, 4, 8).check(), Err(InitError::WindowNotWholeBlocks));
    assert_eq!(config(2, 0, 4, 8).check(), Err(InitError::WindowNotWholeBlocks));
    assert_eq!(config(4, 2, 4, 8).check(), Err(InitError::WindowNotWholeBlocks));
}

#[test]
fn hop_must_be_whole_blocks() {
    assert_eq!(config(2, 4, 3, 8).check(), Err(InitError::HopNotWholeBlocks));
    assert_eq!(config(2, 4, 0, 8).check(), Err(InitError::HopNotWholeBlocks));
}

#[test]
fn history_must_be_whole_blocks() {
    assert_eq!(config(2, 4, 4, 9).check(), Err(InitError::HistoryNotWholeBlocks));
}

#[test]
fn window_must_fit_the_history() {
    assert_eq!(config(2, 4, 2, 2).check(), Err(InitError::WindowExceedsHistory));
    assert_eq!(config(2, 4, 2, 0).check(), Err(InitError::WindowExceedsHistory));
}

#[test]
fn window_and_hop_must_fit_the_buffer() {
    assert_eq!(config(2, 4, 10, 8).check(), Err(InitError::HopExceedsHistory));
}

#[test]
fn first_broken_rule_is_named() {
    assert_eq!(config(2, 5, 3, 9).check(), Err(InitError::WindowNotWholeBlocks));
    assert_eq!(config(2, 4, 3, 9).check(), Err(InitError::HopNotWholeBlocks));
}

#[test]
fn reader_takes_history_and_window_from_the_arena() {
    let mut region = vec![0.0f32; 20];
    let mut arena = Arena::new(&mut region, 0.0f32);
    let reader = Reader::init(config(2, 4, 4, 8), &mut arena).ok().unwrap();
    assert_eq!(arena.used(), 12);
    assert_eq!(reader.config(), config(2, 4, 4, 8));
    assert!(!reader.warmed_up());
    assert!(reader.window().is_none());
}

#[test]
fn reader_with_a_broken_configuration_is_refused() {
    let mut region = vec![0.0f32; 20];
    let mut arena = Arena::new(&mut region, 0.0f32);
    let r = Reader::init(config(2, 4, 3, 8), &mut arena);
    assert_eq!(r.err(), Some(InitError::HopNotWholeBlocks));
    assert_eq!(arena.used(), 0);
}

#[test]
fn reader_larger_than_the_arena_is_refused() {
    let mut region = vec![0.0f32; 11];
    let mut arena = Arena::new(&mut region, 0.0f32);
    let r = Reader::init(config(2, 4, 4, 8), &mut arena);
    assert_eq!(r.err(), Some(InitError::ArenaExhausted));
    assert_eq!(arena.used(), 0);
    let r = Reader::init(config(1, 1, 1, usize::MAX), &mut arena);
    assert_eq!(r.err(), Some(InitError::ArenaExhausted));
    assert_eq!(arena.used(), 0);
}

fn run(c: Config, blocks: usize) {
    let mut region = vec![0.0f32; c.history_length + c.window_length];
    let mut arena = Arena::new(&mut region, 0.0f32);
    let mut reader = Reader::init(c, &mut arena).ok().unwrap();
    let mut seen: Vec<f32> = Vec::new();
    for k in 0..blocks {
        let block: Vec<f32> = (0..c.block_length).map(|i| (k * c.block_length + i) as f32).collect();
        let warmed_before = seen.len() >= c.history_length;
        let due = reader.push_block(&block);
        seen.extend_from_slice(&block);
        assert_eq!(due, warmed_before && seen.len() % c.hop_length == 0);
        assert_eq!(reader.warmed_up(), seen.len() >= c.history_length);
        match reader.window() {
            Some(window) => {
                assert!(seen.len() >= c.history_length);
                assert_eq!(window.to_vec(), seen[seen.len() - c.window_length..].to_vec());
            }
            None => assert!(seen.len() < c.history_length),
        }
    }
}

#[test]
fn window_is_the_latest_samples_across_the_wraparound() {
    run(config(2, 4, 4, 8), 40);
    run(config(2, 4, 2, 8), 40);
    run(config(1, 1, 1, 1), 10);
    run(config(3, 6, 3, 6), 25);
    run(config(4, 4, 8, 12), 30);
    run(config(2, 8, 4, 8), 30);
}

#[test]
fn windows_come_once_per_hop_after_the_warm_up() {
    let c = config(2, 4, 4, 8);
    let mut region = vec![0.0f32; 12];
    let mut arena = Arena::new(&mut region, 0.0f32);
    let mut reader = Reader::init(c, &mut arena).ok().unwrap();
    let mut due_at = Vec::new();
    for k in 1..=12usize {
        if reader.push_block(&[k as f32, -(k as f32)]) {
            due_at.push(k);
        }
    }
    assert_eq!(due_at, vec![6, 8, 10, 12]);
    assert_eq!(reader.window().map(|w| w.to_vec()), Some(vec![11.0, -11.0, 12.0, -12.0]));
}

#[test]
fn default_sizes_give_the_first_window_after_136_blocks() {
    let c = default_config().reader;
    let mut region = vec![0.0f32; 5120];
    let mut arena = Arena::new(&mut region, 0.0f32);
    let mut reader = Reader::init(c, &mut arena).ok().unwrap();
    let mut due_at = Vec::new();
    let mut n = 0u32;
    for k in 1..=400usize {
        let block: Vec<f32> = (0..32).map(|_| {
            n += 1;
            n as f32
        }).collect();
        if reader.push_block(&block) {
            due_at.push(k);
            let window = reader.window().unwrap();
            assert_eq!(window.len(), 1024);
            assert_eq!(window[0], (n - 1023) as f32);
            assert_eq!(window[1023], n as f32);
        }
        assert_eq!(reader.warmed_up(), k >= 128);
    }
    let expected: Vec<usize> = (17..=50).map(|j| 8 * j).collect();
    assert_eq!(due_at, expected);
}
