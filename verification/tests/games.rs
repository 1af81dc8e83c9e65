use gb_core::entropy::{EntropyPool, MemoryEntropy, NetworkEntropy, PooledEntropy, ProcessEntropy,
    SystemTimeEntropy};
use gb_core::gba::{ARM7TDMI, CPSRFlag, GBAMemory};
use gb_core::gba_gpu::{BackgroundType, DisplayMode, GBAGPU};
use gb_core::tetris::{Color, GameBoard, GameState, TetrisGame, Tetromino, TetrominoType};

#[test]
fn tetromino_rotation_cycles() {
    let mut piece = Tetromino::new(TetrominoType::T);
    assert_eq!(piece.rotation, 0);
    let original: Vec<Vec<bool>> = piece.shape.clone();
    piece.rotate();
    assert_eq!(piece.rotation, 1);
    piece.rotate();
    piece.rotate();
    piece.rotate();
    assert_eq!(piece.rotation, 0);
    assert_eq!(piece.shape, original);
    // The T piece in spawn orientation spans columns 0..2 and rows 0..1.
    assert_eq!(piece.get_bounds(), (0, 0, 2, 1));
}

#[test]
fn board_accepts_and_rejects_positions() {
    let board = GameBoard::new(10, 20);
    let mut piece = Tetromino::new(TetrominoType::O);
    assert!(board.is_valid_position(&piece, 0, 0));
    // Push the piece past the left wall.
    assert!(!board.is_valid_position(&piece, -4, 0));
    // And past the floor.
    assert!(!board.is_valid_position(&piece, 0, 19));
    piece.x = 8;
    assert!(board.is_valid_position(&piece, 0, 0));
    assert!(!board.is_valid_position(&piece, 1, 0));
}

#[test]
fn placing_and_clearing_lines() {
    let mut board = GameBoard::new(4, 4);
    // Fill the bottom row by hand.
    for x in 0..4u16 {
        let mut piece = Tetromino::new(TetrominoType::O);
        piece.x = x as i32;
        piece.y = 2;
        // Only the piece cells inside the board land; the O piece covers
        // a 2x2 block.
        board.place_piece(&piece);
    }
    // Rows 2 and 3 are now full.
    let cleared = board.clear_lines();
    assert_eq!(cleared, 2);
    assert_eq!(board.grid.len(), 4);
    for row in &board.grid {
        for cell in row {
            assert_eq!(*cell, Color::Black);
        }
    }
}

#[test]
fn game_over_when_the_top_row_is_occupied() {
    let mut board = GameBoard::new(4, 4);
    assert!(!board.is_game_over());
    let mut piece = Tetromino::new(TetrominoType::O);
    piece.x = 0;
    piece.y = 0;
    board.place_piece(&piece);
    assert!(board.is_game_over());
}

#[test]
fn tetris_game_plays_a_piece() {
    let mut game = TetrisGame::new();
    assert_eq!(*game.get_state(), GameState::Playing);
    assert!(game.get_current_piece().is_some());
    assert!(game.move_piece(1, 0));
    assert!(game.move_piece(0, 1));
    game.hard_drop();
    // The settled piece books one placed piece and a fresh one spawns.
    assert_eq!(game.get_stats().total_pieces, 1);
    assert!(game.get_current_piece().is_some());
    game.toggle_pause();
    assert_eq!(*game.get_state(), GameState::Paused);
    game.toggle_pause();
    assert_eq!(*game.get_state(), GameState::Playing);
    game.reset();
    assert_eq!(game.get_stats().total_pieces, 0);
}

#[test]
fn arm_core_decodes_and_executes() {
    let mut cpu = ARM7TDMI::new();
    let mut memory = GBAMemory::new();
    assert_eq!(cpu.get_pc(), 0x08000000);
    assert!(!cpu.is_thumb_mode());

    cpu.set_register(3, 41);
    assert_eq!(cpu.get_register(3), 41);
    assert_eq!(cpu.get_register(99), 0);

    cpu.set_flag(CPSRFlag::Carry, true);
    assert!(cpu.get_flag(CPSRFlag::Carry));
    cpu.set_flag(CPSRFlag::Carry, false);
    assert!(!cpu.get_flag(CPSRFlag::Carry));

    // MOV r0, #7: condition always, opcode 0xD, rd 0, immediate 7.
    // Encoded as 0xE3A00007.
    memory.load_rom(vec![0x07, 0x00, 0xA0, 0xE3]);
    assert!(cpu.execute_instruction(&mut memory).is_ok());
    assert_eq!(cpu.get_register(0), 7);
    assert_eq!(cpu.get_pc(), 0x08000004);
    assert_eq!(cpu.get_stats().instructions, 1);
    assert_eq!(cpu.get_stats().arm_instructions, 1);

    cpu.enter_thumb_mode();
    assert!(cpu.is_thumb_mode());
    cpu.reset();
    assert_eq!(cpu.get_stats().instructions, 0);
}

#[test]
fn gba_memory_maps_its_regions() {
    let mut memory = GBAMemory::new();
    assert!(memory.write_8(0x02000010, 0xAB).is_ok());
    assert_eq!(memory.read_8(0x02000010), Ok(0xAB));
    // The cartridge window is read-only.
    assert!(memory.write_8(0x08000000, 0xCD).is_ok());
    assert_eq!(memory.read_8(0x08000000), Ok(0x00));
    memory.load_rom(vec![0x11, 0x22]);
    assert_eq!(memory.read_8(0x08000001), Ok(0x22));
    assert_eq!(memory.read_8(0x01000000), Ok(0x00));
    assert!(memory.write_16(0x03000000, 0xBEEF).is_ok());
    assert_eq!(memory.read_16(0x03000000), Ok(0xBEEF));
    assert_eq!(memory.get_stats().writes, 4);
}

#[test]
fn gpu_modes_and_scanlines() {
    let mut gpu = GBAGPU::new();
    assert_eq!(gpu.get_display_mode(), DisplayMode::Mode0);
    assert!(gpu.is_background_enabled(3));
    gpu.set_dispcnt(3);
    assert_eq!(gpu.get_display_mode(), DisplayMode::Mode3);
    assert!(!gpu.is_background_enabled(0));
    assert_eq!(gpu.get_background_type(1), BackgroundType::Bitmap);
    assert_eq!(gpu.get_background_type(7), BackgroundType::Disabled);

    let mut memory = GBAMemory::new();
    assert!(gpu.render_scanline(&mut memory).is_ok());
    assert_eq!(gpu.get_stats().pixels_drawn, 240);

    for _ in 0..160 {
        gpu.update();
    }
    assert_eq!(gpu.get_stats().frames_rendered, 1);
    gpu.reset();
    assert_eq!(gpu.get_stats().frames_rendered, 0);
}

#[test]
fn entropy_pool_sizes_and_extraction() {
    let mut pool = EntropyPool::new();
    assert_eq!(pool.size(), 0);
    assert!(pool.needs_refill());
    pool.add_entropy(&[1, 2, 3, 4, 5, 6, 7, 8]);
    assert_eq!(pool.size(), 8);
    let stats = pool.get_stats();
    assert_eq!(stats.refill_count, 1);
    assert_eq!(stats.max_size, 1024 * 1024);

    let bytes = pool.extract_entropy(16);
    assert_eq!(bytes.len(), 16);

    let mut pooled = PooledEntropy::new(32);
    pooled.add_entropy_source(&[9; 64]);
    assert_eq!(pooled.get_random_bytes(10).len(), 10);
    let bounded = pooled.get_random_range(5, 9);
    assert!((5..9).contains(&bounded));
    assert_eq!(pooled.get_random_range(9, 5), 9);
}

#[test]
fn entropy_sources_emit_their_documented_lengths() {
    let mut time_source = SystemTimeEntropy::new();
    assert_eq!(time_source.collect_entropy().unwrap().len(), 28);
    assert_eq!(time_source.counter, 1);

    let mut network = NetworkEntropy::new();
    assert_eq!(network.collect_entropy().unwrap().len(), 30);

    let mut process = ProcessEntropy::new(4242);
    let bytes = process.collect_entropy().unwrap();
    assert_eq!(bytes.len(), 34);
    assert_eq!(&bytes[0..4], &[0x92, 0x10, 0, 0]);

    let mut memory_source = MemoryEntropy::new();
    assert_eq!(memory_source.collect_entropy().unwrap().len(), 49);
    assert_eq!(memory_source.collect_entropy().unwrap().len(), 50);
}
