//! Mutation-operator tests: bounds safety, exact effects, the fixed
//! interesting-value tables, and the out-of-bounds heatmap scenario.

use nn_fuzz::mutators::{AssignByteMutator, ByteAddMutator, ByteInterestingMutator,
    BytesDeleteMutator, BytesInsertMutator, DwordAddMutator, DwordInterestingMutator,
    MutationResult, NnMutator, QwordAddMutator, WordAddMutator, WordInterestingMutator};

#[test]
fn out_of_bounds_heatmap() {
    // input of length 3, heatmap [0, 1, 2, 99, 100]: five iterations with
    // a deterministic offset draw hit each entry once, so exactly two
    // are skipped and three mutate
    let mut mutator = NnMutator::new();
    mutator.set_hotbytes(vec![0, 1, 2, 99, 100]);
    let mut skipped = 0;
    let mut mutated = 0;
    for i in 0..5u64 {
        let mut input = b"abc".to_vec();
        match mutator.mutate(&mut input, 4096, i, 0, 1, 0) {
            MutationResult::Skipped => {
                skipped += 1;
                assert_eq!(input, b"abc".to_vec());
            }
            MutationResult::Mutated => mutated += 1,
        }
    }
    assert_eq!(skipped, 2);
    assert_eq!(mutated, 3);
}

#[test]
fn empty_heatmap_skips() {
    let mutator = NnMutator::new();
    let mut input = b"abc".to_vec();
    assert_eq!(mutator.mutate(&mut input, 4096, 0, 0, 0, 0), MutationResult::Skipped);
    assert_eq!(input, b"abc".to_vec());
}

#[test]
fn every_operator_skips_past_the_end() {
    // bounds safety: at an offset at or past the input, every operator
    // skips and leaves the input unchanged
    let orig = b"ab".to_vec();
    let off = 5usize;

    let mut x = orig.clone();
    assert_eq!(AssignByteMutator::new().mutate(&mut x, off, 7), MutationResult::Skipped);
    assert_eq!(x, orig);

    let mut x = orig.clone();
    assert_eq!(BytesDeleteMutator::new().mutate(&mut x, off, 7), MutationResult::Skipped);
    assert_eq!(x, orig);

    let mut x = orig.clone();
    assert_eq!(
        BytesInsertMutator::new().mutate(&mut x, off, 4096, 7, 0),
        MutationResult::Skipped
    );
    assert_eq!(x, orig);

    let mut x = orig.clone();
    assert_eq!(ByteAddMutator::new().mutate(&mut x, off, 7, 0), MutationResult::Skipped);
    assert_eq!(x, orig);

    let mut x = orig.clone();
    assert_eq!(WordAddMutator::new().mutate(&mut x, off, 7, 0), MutationResult::Skipped);
    assert_eq!(x, orig);

    let mut x = orig.clone();
    assert_eq!(DwordAddMutator::new().mutate(&mut x, off, 7, 0), MutationResult::Skipped);
    assert_eq!(x, orig);

    let mut x = orig.clone();
    assert_eq!(QwordAddMutator::new().mutate(&mut x, off, 7, 0), MutationResult::Skipped);
    assert_eq!(x, orig);

    let mut x = orig.clone();
    assert_eq!(
        ByteInterestingMutator::new().mutate(&mut x, off, 7, 0),
        MutationResult::Skipped
    );
    assert_eq!(x, orig);

    let mut x = orig.clone();
    assert_eq!(
        WordInterestingMutator::new().mutate(&mut x, off, 7, 0),
        MutationResult::Skipped
    );
    assert_eq!(x, orig);

    let mut x = orig.clone();
    assert_eq!(
        DwordInterestingMutator::new().mutate(&mut x, off, 7, 0),
        MutationResult::Skipped
    );
    assert_eq!(x, orig);
}

#[test]
fn assign_byte_xors_nonzero() {
    let mut input = vec![0x10u8, 0x20];
    // draw 4 means xor with 1 + 4 % 254 == 5
    assert_eq!(AssignByteMutator::new().mutate(&mut input, 0, 4), MutationResult::Mutated);
    assert_eq!(input, vec![0x15, 0x20]);
    // xor is never with zero, so the byte always changes
    let mut input = vec![0xFFu8];
    for d in 0..300u64 {
        let before = input[0];
        AssignByteMutator::new().mutate(&mut input, 0, d);
        assert_ne!(input[0], before);
    }
}

#[test]
fn bytes_delete_drains_a_drawn_span() {
    // length 5, offset 1, draw 6: deletes 6 % (5 - 1) == 2 bytes
    let mut input = vec![1u8, 2, 3, 4, 5];
    assert_eq!(BytesDeleteMutator::new().mutate(&mut input, 1, 6), MutationResult::Mutated);
    assert_eq!(input, vec![1, 4, 5]);
    // inputs of two bytes or fewer are never shrunk
    let mut short = vec![1u8, 2];
    assert_eq!(BytesDeleteMutator::new().mutate(&mut short, 0, 3), MutationResult::Skipped);
    assert_eq!(short, vec![1, 2]);
}

#[test]
fn bytes_insert_skips_at_the_boundary() {
    // bounds safety holds at the boundary too: an offset equal to the
    // input length mutates nothing
    let mut input = vec![10u8, 20, 30];
    assert_eq!(
        BytesInsertMutator::new().mutate(&mut input, 3, 4096, 1, 2),
        MutationResult::Skipped
    );
    assert_eq!(input, vec![10, 20, 30]);
    let mut empty: Vec<u8> = Vec::new();
    assert_eq!(
        BytesInsertMutator::new().mutate(&mut empty, 0, 4096, 1, 2),
        MutationResult::Skipped
    );
    assert!(empty.is_empty());
}

#[test]
fn bytes_insert_copies_an_existing_byte() {
    // draw_len 1 inserts 1 + 1 % 16 == 2 copies; draw_src 2 picks
    // input[2 % 3] == 30
    let mut input = vec![10u8, 20, 30];
    assert_eq!(
        BytesInsertMutator::new().mutate(&mut input, 1, 4096, 1, 2),
        MutationResult::Mutated
    );
    assert_eq!(input, vec![10, 30, 30, 20, 30]);
    // the size cap limits how much is inserted
    let mut input = vec![10u8, 20, 30];
    assert_eq!(
        BytesInsertMutator::new().mutate(&mut input, 0, 4, 15, 0),
        MutationResult::Mutated
    );
    assert_eq!(input, vec![10, 10, 20, 30]);
    // at the cap nothing fits
    let mut input = vec![10u8, 20, 30];
    assert_eq!(
        BytesInsertMutator::new().mutate(&mut input, 0, 3, 0, 0),
        MutationResult::Skipped
    );
    assert_eq!(input, vec![10, 20, 30]);
}

#[test]
fn byte_add_wraps_little_endian() {
    // draw 0 adds 1 + 0 % 35 == 1; variant 0 is a plain little-endian add
    let mut input = vec![0xFFu8, 9];
    assert_eq!(ByteAddMutator::new().mutate(&mut input, 0, 0, 0), MutationResult::Mutated);
    assert_eq!(input, vec![0x00, 9]);
    // variant 1 subtracts
    let mut input = vec![0x00u8];
    assert_eq!(ByteAddMutator::new().mutate(&mut input, 0, 0, 1), MutationResult::Mutated);
    assert_eq!(input, vec![0xFF]);
}

#[test]
fn word_add_variants_cover_both_endiannesses() {
    // 0x01 0x02 read little-endian is 0x0201; adding 1 gives 0x0202
    let mut input = vec![0x01u8, 0x02];
    WordAddMutator::new().mutate(&mut input, 0, 0, 0);
    assert_eq!(input, vec![0x02, 0x02]);
    // variant 2 works on the byte-swapped value: big-endian 0x0102 + 1
    let mut input = vec![0x01u8, 0x02];
    WordAddMutator::new().mutate(&mut input, 0, 0, 2);
    assert_eq!(input, vec![0x01, 0x03]);
    // a word needs two bytes: offset 1 of a 2-byte input is skipped
    let mut input = vec![0x01u8, 0x02];
    assert_eq!(WordAddMutator::new().mutate(&mut input, 1, 0, 0), MutationResult::Skipped);
}

#[test]
fn qword_add_wraps_at_the_top() {
    let mut input = vec![0xFFu8; 8];
    QwordAddMutator::new().mutate(&mut input, 0, 0, 0);
    assert_eq!(input, vec![0, 0, 0, 0, 0, 0, 0, 0]);
}

#[test]
fn interesting_tables_match_the_signed_values() {
    // the tables carry the AFL constants as two's-complement patterns
    let i8_table: [i8; 9] = [-128, -1, 0, 1, 16, 32, 64, 100, 127];
    for (i, v) in i8_table.iter().enumerate() {
        let mut input = vec![0u8];
        ByteInterestingMutator::new().mutate(&mut input, 0, i as u64, 1);
        assert_eq!(input[0], *v as u8, "8-bit entry {i}");
    }
    let i16_table: [i16; 19] = [
        -128, -1, 0, 1, 16, 32, 64, 100, 127, -32768, -129, 128, 255, 256, 512, 1000, 1024,
        4096, 32767,
    ];
    for (i, v) in i16_table.iter().enumerate() {
        let mut input = vec![0u8, 0];
        WordInterestingMutator::new().mutate(&mut input, 0, i as u64, 1);
        assert_eq!(
            u16::from_le_bytes([input[0], input[1]]),
            *v as u16,
            "16-bit entry {i}"
        );
    }
    let i32_table: [i32; 27] = [
        -128, -1, 0, 1, 16, 32, 64, 100, 127, -32768, -129, 128, 255, 256, 512, 1000, 1024,
        4096, 32767, -2_147_483_648, -100_663_046, -32769, 32768, 65535, 65536, 100_663_045,
        2_147_483_647,
    ];
    for (i, v) in i32_table.iter().enumerate() {
        let mut input = vec![0u8; 4];
        DwordInterestingMutator::new().mutate(&mut input, 0, i as u64, 1);
        assert_eq!(
            u32::from_le_bytes([input[0], input[1], input[2], input[3]]),
            *v as u32,
            "32-bit entry {i}"
        );
    }
}

#[test]
fn interesting_endianness_draw() {
    // an even second draw writes big-endian, an odd one little-endian
    let mut be = vec![0u8, 0];
    WordInterestingMutator::new().mutate(&mut be, 0, 13, 0);
    assert_eq!(u16::from_be_bytes([be[0], be[1]]), 256);
    let mut le = vec![0u8, 0];
    WordInterestingMutator::new().mutate(&mut le, 0, 13, 1);
    assert_eq!(u16::from_le_bytes([le[0], le[1]]), 256);
}

#[test]
fn dispatcher_picks_by_draw() {
    // selector 0 is the xor operator
    let mut mutator = NnMutator::new();
    mutator.set_hotbytes(vec![1]);
    let mut input = vec![7u8, 0x10, 9];
    assert_eq!(
        mutator.mutate(&mut input, 4096, 0, 0, 4, 0),
        MutationResult::Mutated
    );
    assert_eq!(input, vec![7, 0x15, 9]);
    // selector 1 deletes
    let mut input = vec![7u8, 1, 2, 3, 4];
    assert_eq!(
        mutator.mutate(&mut input, 4096, 0, 1, 6, 0),
        MutationResult::Mutated
    );
    assert_eq!(input, vec![7, 3, 4]);
}
