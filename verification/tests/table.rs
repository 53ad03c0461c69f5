use icicle_cpu::Block;
use icicle_cpu::BlockGroup;
use icicle_cpu::BlockKey;
use icicle_cpu::BlockTable;
use icicle_cpu::Instruction;
use icicle_cpu::Op;
use icicle_cpu::PcodeBlock;

fn marker(addr: u64, len: u64) -> Instruction {
    Instruction { op: Op::InstructionMarker, inputs: (addr, len) }
}

fn plain(opcode: u64) -> Instruction {
    Instruction { op: Op::Other(opcode), inputs: (0, 0) }
}

fn block_from(instructions: Vec<Instruction>) -> Block {
    Block { pcode: PcodeBlock { instructions } }
}

#[test]
fn lookup_after_insert_finds_the_group_under_an_equal_key() {
    let mut table = BlockTable::new();
    let idx = table.append_block(block_from(vec![marker(0x1000, 4)]));
    assert_eq!(idx, 0);
    let k1 = BlockKey { vaddr: 0x1000, isa_mode: 1 };
    table.insert(k1, BlockGroup { blocks: (0, 1) });

    let k2 = BlockKey { vaddr: 0x1000, isa_mode: 1 };
    assert_eq!(k1, k2);
    let found = table.lookup(k2).expect("group inserted under an equal key");
    assert_eq!(found.blocks, (0, 1));

    assert!(table.lookup(BlockKey { vaddr: 0x1000, isa_mode: 0 }).is_none());
    assert!(table.lookup(BlockKey { vaddr: 0x1004, isa_mode: 1 }).is_none());
}

#[test]
fn insert_overwrites_the_mapping_for_an_existing_key() {
    let mut table = BlockTable::new();
    table.append_block(block_from(vec![marker(0x1000, 4)]));
    table.append_block(block_from(vec![marker(0x2000, 4)]));
    let key = BlockKey { vaddr: 0x1000, isa_mode: 0 };
    table.insert(key, BlockGroup { blocks: (0, 1) });
    table.insert(key, BlockGroup { blocks: (1, 2) });
    assert_eq!(table.lookup(key).unwrap().blocks, (1, 2));
}

#[test]
fn flush_misses_every_key_but_keeps_breakpoints() {
    let mut table = BlockTable::new();
    table.append_block(block_from(vec![marker(0x1000, 4)]));
    table.append_block(block_from(vec![marker(0x2000, 4)]));
    let k1 = BlockKey { vaddr: 0x1000, isa_mode: 0 };
    let k2 = BlockKey { vaddr: 0x2000, isa_mode: 0 };
    table.insert(k1, BlockGroup { blocks: (0, 1) });
    table.insert(k2, BlockGroup { blocks: (1, 2) });
    table.add_breakpoint(0x1000);
    table.add_breakpoint(0x2004);
    table.cache_disasm(0x1000, "nop".to_string());
    table.mark_modified(0);

    table.flush_code();

    assert!(table.lookup(k1).is_none());
    assert!(table.lookup(k2).is_none());
    assert!(table.blocks.is_empty());
    assert!(table.cached_disasm(0x1000).is_none());
    assert!(!table.has_modified());
    assert!(table.has_breakpoint(0x1000));
    assert!(table.has_breakpoint(0x2004));
    assert!(!table.has_breakpoint(0x3000));
}

#[test]
fn address_of_returns_the_marker_at_or_before_the_offset() {
    let mut table = BlockTable::new();
    // Markers at stream offsets 0, 5 and 9, ordinary operations between.
    let instructions = vec![
        marker(0x1000, 2),
        plain(10),
        plain(11),
        plain(12),
        plain(13),
        marker(0x1002, 3),
        plain(14),
        plain(15),
        plain(16),
        marker(0x1005, 1),
    ];
    let id = table.append_block(block_from(instructions)) as u64;

    for offset in 0..=4 {
        assert_eq!(table.address_of(id, offset), 0x1000);
    }
    for offset in 5..=8 {
        assert_eq!(table.address_of(id, offset), 0x1002);
    }
    assert_eq!(table.address_of(id, 9), 0x1005);
    // Past the end of the stream the last marker still answers.
    assert_eq!(table.address_of(id, 100), 0x1005);
}

#[test]
fn address_of_an_empty_block_is_zero() {
    let mut table = BlockTable::new();
    let id = table.append_block(block_from(Vec::new())) as u64;
    assert_eq!(table.address_of(id, 0), 0);
    assert_eq!(table.address_of(id, 17), 0);
}

#[test]
fn address_of_without_a_leading_marker_is_zero_before_the_first() {
    let mut table = BlockTable::new();
    let id = table.append_block(block_from(vec![plain(1), plain(2), marker(0x9000, 4)])) as u64;
    assert_eq!(table.address_of(id, 0), 0);
    assert_eq!(table.address_of(id, 1), 0);
    assert_eq!(table.address_of(id, 2), 0x9000);
}

#[test]
fn modified_then_flush_then_fresh_translation_wins() {
    let mut table = BlockTable::new();
    let key = BlockKey { vaddr: 0x400000, isa_mode: 0 };

    // Lift and insert a block at the entry point.
    let idx = table.append_block(block_from(vec![marker(0x400000, 4), plain(1)]));
    table.insert(key, BlockGroup { blocks: (idx, idx + 1) });
    assert!(table.lookup(key).is_some());

    // A guest write overlapped its code range.
    table.mark_modified(idx);
    assert!(table.has_modified());

    // The driver decides to flush: the stale mapping is gone.
    table.flush_code();
    assert!(table.lookup(key).is_none());
    assert!(!table.has_modified());

    // A fresh translation replaces it; the lookup returns the new group.
    table.append_block(block_from(vec![marker(0x400000, 4), plain(2), plain(3)]));
    table.append_block(block_from(vec![marker(0x400004, 4)]));
    table.insert(key, BlockGroup { blocks: (0, 2) });
    assert_eq!(table.lookup(key).unwrap().blocks, (0, 2));
}

#[test]
fn block_instructions_lists_marker_pairs_in_order() {
    let block = block_from(vec![
        marker(0x1000, 2),
        plain(1),
        marker(0x1002, 3),
        plain(2),
        plain(3),
        marker(0x1005, 1),
    ]);
    assert_eq!(block.instructions(), vec![(0x1000, 2), (0x1002, 3), (0x1005, 1)]);
    assert_eq!(block_from(vec![plain(1), plain(2)]).instructions(), Vec::<(u64, u64)>::new());
}

#[test]
fn get_info_exposes_the_whole_translation_unit() {
    let mut table = BlockTable::new();
    table.append_block(block_from(vec![marker(0x1000, 2), plain(1), marker(0x1002, 3)]));
    table.append_block(block_from(vec![marker(0x1005, 1)]));
    let key = BlockKey { vaddr: 0x1000, isa_mode: 0 };
    table.insert(key, BlockGroup { blocks: (0, 2) });

    assert!(table.get_info(BlockKey { vaddr: 0x2000, isa_mode: 0 }).is_none());

    let info = table.get_info(key).expect("inserted key");
    assert_eq!(info.instructions(), vec![(0x1000, 2), (0x1002, 3), (0x1005, 1)]);
    assert_eq!(info.entry_block().pcode.instructions.len(), 3);
    let blocks = info.blocks();
    assert_eq!(blocks.len(), 2);
    assert_eq!(blocks[0].0, 0);
    assert_eq!(blocks[0].1.pcode.instructions.len(), 3);
    assert_eq!(blocks[1].0, 1);
    assert_eq!(blocks[1].1.pcode.instructions.len(), 1);
}

#[test]
fn disasm_cache_stores_text_until_the_next_flush() {
    let mut table = BlockTable::new();
    table.cache_disasm(0x1000, "mov r0, r1".to_string());
    table.cache_disasm(0x1004, "ret".to_string());
    assert_eq!(table.cached_disasm(0x1000).as_deref(), Some("mov r0, r1"));
    assert_eq!(table.cached_disasm(0x1004).as_deref(), Some("ret"));
    assert!(table.cached_disasm(0x1008).is_none());
    table.cache_disasm(0x1000, "mov r0, r2".to_string());
    assert_eq!(table.cached_disasm(0x1000).as_deref(), Some("mov r0, r2"));
    table.flush_code();
    assert!(table.cached_disasm(0x1000).is_none());
}

#[test]
fn breakpoints_insert_and_remove() {
    let mut table = BlockTable::new();
    assert!(!table.has_breakpoint(0x1000));
    table.add_breakpoint(0x1000);
    assert!(table.has_breakpoint(0x1000));
    table.remove_breakpoint(0x1000);
    assert!(!table.has_breakpoint(0x1000));
}

#[test]
fn marking_one_block_modified_marks_only_that_block() {
    let mut table = BlockTable::new();
    table.append_block(block_from(vec![marker(0x1000, 4)]));
    table.append_block(block_from(vec![marker(0x2000, 4)]));
    assert!(!table.is_modified(0));
    table.mark_modified(0);
    assert!(table.is_modified(0));
    assert!(!table.is_modified(1));
    assert!(table.has_modified());
}

#[test]
fn a_default_table_is_empty() {
    let table = BlockTable::default();
    assert!(table.blocks.is_empty());
    assert!(!table.has_modified());
    assert!(table.lookup(BlockKey { vaddr: 0, isa_mode: 0 }).is_none());
}
