//! The translation cache: lifted blocks, their grouping into translation
//! units, and the address-keyed table that maps `(virtual address, ISA mode)`
//! to the unit rooted there. The table also owns the disassembly-text cache,
//! the breakpoint set, and the modified-index set used for self-modifying
//! code tracking.

use vstd::prelude::*;

use crate::storage::AddrSet;
use crate::storage::DisasmMap;
use crate::storage::GroupMap;
use crate::storage::IndexSet;
use crate::storage::addr_set_contents;
use crate::storage::disasm_map_contents;
use crate::storage::group_map_contents;
use crate::storage::index_set_contents;

verus! {

/// Identifies a translation entry point: a virtual address together with the
/// instruction-set mode active at that address. Two keys are equal exactly
/// when both fields are equal.
#[derive(Copy, Clone, Debug, Default, Hash, PartialEq, Eq, Structural)]
pub struct BlockKey {
    pub vaddr: u64,
    pub isa_mode: u64,
}

impl BlockKey {
    /// The key as a plain pair, the form the lookup map is specified over.
    pub open spec fn view(self) -> (u64, u64) {
        (self.vaddr, self.isa_mode)
    }
}

/// One operation of the lifted, architecture-neutral instruction stream. The
/// vocabulary of ordinary operations is outside this core's scope; the one
/// operation the cache itself interprets is the marker that denotes a native
/// instruction boundary.
#[derive(Copy, Clone, Debug, PartialEq, Eq, Structural)]
pub enum Op {
    /// Denotes a native instruction boundary; its inputs carry the native
    /// start address and the native instruction length.
    InstructionMarker,
    /// Any ordinary lifted operation, identified by an opaque opcode.
    Other(u64),
}

/// One lifted instruction: an operation with its two input values. For an
/// [`Op::InstructionMarker`] the inputs are the native start address and the
/// native instruction length.
#[derive(Copy, Clone, Debug, PartialEq, Eq)]
pub struct Instruction {
    pub op: Op,
    pub inputs: (u64, u64),
}

/// The lifted instruction stream of one block.
#[derive(Debug)]
pub struct PcodeBlock {
    pub instructions: Vec<Instruction>,
}

/// One lifted native basic block: its instruction stream, whose markers let
/// the caller recover which native instruction produced any stream offset.
#[derive(Debug)]
pub struct Block {
    pub pcode: PcodeBlock,
}

/// A contiguous index range `[blocks.0, blocks.1)` over the block store,
/// identifying all blocks of one translation unit; the first index is the
/// entry block. Groups are small value types: a lookup hands out a copy, so
/// no aliasing with the store is possible.
#[derive(Copy, Clone, Debug, PartialEq, Eq)]
pub struct BlockGroup {
    pub blocks: (usize, usize),
}

/// The `(address, length)` pairs carried by the marker instructions of a
/// stream, in stream order: the native instructions the stream was lifted
/// from.
pub open spec fn marker_pairs(s: Seq<Instruction>) -> Seq<(u64, u64)>
    decreases s.len(),
{
    if s.len() == 0 {
        Seq::empty()
    } else {
        let rest = marker_pairs(s.drop_last());
        if s.last().op is InstructionMarker {
            rest.push(s.last().inputs)
        } else {
            rest
        }
    }
}

/// The native address carried by the last marker among the first `n`
/// instructions of `s`, or `0` when no marker is among them.
pub open spec fn last_marker_addr(s: Seq<Instruction>, n: int) -> u64
    decreases n,
{
    if n <= 0 {
        0
    } else if s[n - 1].op is InstructionMarker {
        s[n - 1].inputs.0
    } else {
        last_marker_addr(s, n - 1)
    }
}

/// What `address_of` reconstructs for a block and a stream offset: the
/// address of the marker most recently seen at or before `offset`, and `0`
/// when no marker precedes it (well-formed translation output starts with a
/// marker, so `0` signals a malformed or empty block, not a valid address).
pub open spec fn address_of_spec(b: Block, offset: u64) -> u64 {
    let s = b.pcode.instructions@;
    let n = if offset as int + 1 <= s.len() {
        offset as int + 1
    } else {
        s.len() as int
    };
    last_marker_addr(s, n)
}

/// The native `(address, length)` pairs of every block with index in
/// `[lo, i)` of the store, concatenated in index order.
pub open spec fn instructions_upto(blocks: Seq<Block>, lo: int, i: int) -> Seq<(u64, u64)>
    decreases i - lo,
{
    if i <= lo {
        Seq::empty()
    } else {
        instructions_upto(blocks, lo, i - 1) + marker_pairs(blocks[i - 1].pcode.instructions@)
    }
}

impl Block {
    /// The `(native start, native length)` pairs of the instructions this
    /// block was lifted from, recovered from its boundary markers.
    pub fn instructions(&self) -> (r: Vec<(u64, u64)>)
        ensures
            r@ == marker_pairs(self.pcode.instructions@),
    {
        let mut r: Vec<(u64, u64)> = Vec::new();
        let n = self.pcode.instructions.len();
        let mut i: usize = 0;
        while i < n
            invariant
                i <= n,
                n == self.pcode.instructions@.len(),
                r@ == marker_pairs(self.pcode.instructions@.take(i as int)),
            decreases n - i,
        {
            let inst = self.pcode.instructions[i];
            proof {
                assert(self.pcode.instructions@.take(i as int + 1).drop_last()
                    =~= self.pcode.instructions@.take(i as int));
                assert(self.pcode.instructions@.take(i as int + 1).last() == inst);
            }
            if matches!(inst.op, Op::InstructionMarker) {
                r.push(inst.inputs);
            }
            i += 1;
        }
        proof {
            assert(self.pcode.instructions@.take(n as int) =~= self.pcode.instructions@);
        }
        r
    }
}

/// The translation cache: keeps track of all the code the engine has
/// discovered, keyed by translation entry point.
pub struct BlockTable {
    /// The lookup map: entry point to block group.
    pub map: GroupMap,
    /// The block store: append-only between flushes, an index is a block's
    /// stable identity until the next flush.
    pub blocks: Vec<Block>,
    /// Cached disassembly text, keyed by address.
    pub disasm: DisasmMap,
    /// Breakpoint addresses; user intent, independent of translation state.
    pub breakpoints: AddrSet,
    /// Block-store indices overlapped by a guest write since the last flush.
    pub modified: IndexSet,
}

/// The flush relation: what one atomic `flush_code` step does. The lookup
/// map, the block store, the disassembly cache and the modified set are
/// cleared; the breakpoints survive untouched.
pub open spec fn flushed(pre: BlockTable, post: BlockTable) -> bool {
    &&& (post.map_view() == Map::<(u64, u64), (usize, usize)>::empty())
    &&& post.blocks@ == Seq::<Block>::empty()
    &&& (post.disasm_view() == Map::<u64, Seq<char>>::empty())
    &&& post.modified_view() == Set::<usize>::empty()
    &&& post.breakpoints_view() == pre.breakpoints_view()
}

impl BlockTable {
    /// The lookup map's contents: entry-point pairs to index ranges.
    pub open spec fn map_view(self) -> Map<(u64, u64), (usize, usize)> {
        group_map_contents(self.map)
    }

    /// The breakpoint addresses.
    pub open spec fn breakpoints_view(self) -> Set<u64> {
        addr_set_contents(self.breakpoints)
    }

    /// The indices marked as overlapped by a guest write.
    pub open spec fn modified_view(self) -> Set<usize> {
        index_set_contents(self.modified)
    }

    /// The cached disassembly text.
    pub open spec fn disasm_view(self) -> Map<u64, Seq<char>> {
        disasm_map_contents(self.disasm)
    }

    /// Whether `g` is a well-formed, non-empty index range inside the block
    /// store's current bounds.
    pub open spec fn group_in_store(self, g: (usize, usize)) -> bool {
        g.0 < g.1 && g.1 <= self.blocks@.len()
    }

    /// The table's invariant: every group reachable from the lookup map lies
    /// fully inside the block store, and only valid store indices are marked
    /// modified.
    pub open spec fn wf(self) -> bool {
        &&& forall|k: (u64, u64)|
            #[trigger] self.map_view().contains_key(k) ==> self.group_in_store(self.map_view()[k])
        &&& forall|i: usize| #[trigger] self.modified_view().contains(i) ==> i < self.blocks@.len()
    }

    /// An empty table: no translations, no breakpoints, nothing modified.
    pub fn new() -> (r: BlockTable)
        ensures
            r.wf(),
            (r.map_view() == Map::<(u64, u64), (usize, usize)>::empty()),
            r.blocks@ == Seq::<Block>::empty(),
            (r.disasm_view() == Map::<u64, Seq<char>>::empty()),
            r.breakpoints_view() == Set::<u64>::empty(),
            r.modified_view() == Set::<usize>::empty(),
    {
        BlockTable {
            map: GroupMap::new(),
            blocks: Vec::new(),
            disasm: DisasmMap::new(),
            breakpoints: AddrSet::new(),
            modified: IndexSet::new(),
        }
    }

    /// Look up the block group translated for `key`, if any. The group comes
    /// back by value, so the store itself is never aliased.
    pub fn lookup(&self, key: BlockKey) -> (r: Option<BlockGroup>)
        ensures
            r matches Some(g) ==> self.map_view().contains_key(key@) && g.blocks == self.map_view()[key@],
            r is None ==> !self.map_view().contains_key(key@),
    {
        match self.map.get((key.vaddr, key.isa_mode)) {
            Some(range) => Some(BlockGroup { blocks: range }),
            None => None,
        }
    }

    /// Insert (or overwrite) the mapping for `key`. Keeping the group inside
    /// the store's bounds is the caller's obligation: only the lifter
    /// allocates block-store entries, so only it can discharge it.
    pub fn insert(&mut self, key: BlockKey, group: BlockGroup)
        requires
            old(self).wf(),
            old(self).group_in_store(group.blocks),
        ensures
            final(self).wf(),
            final(self).map_view() == old(self).map_view().insert(key@, group.blocks),
            final(self).blocks@ == old(self).blocks@,
            final(self).breakpoints_view() == old(self).breakpoints_view(),
            final(self).modified_view() == old(self).modified_view(),
            final(self).disasm_view() == old(self).disasm_view(),
    {
        self.map.insert((key.vaddr, key.isa_mode), group.blocks);
        proof {
            assert(self.blocks == old(self).blocks);
            assert(self.modified == old(self).modified);
            assert forall|k2: (u64, u64)| #[trigger] self.map_view().contains_key(k2)
                implies self.group_in_store(self.map_view()[k2]) by {
                assert(old(self).map_view().insert(key@, group.blocks).contains_key(k2));
                if k2 == key@ {
                    assert(self.map_view()[k2] == group.blocks);
                } else {
                    assert(old(self).map_view().contains_key(k2));
                    assert(self.map_view()[k2] == old(self).map_view()[k2]);
                }
            }
            assert forall|i: usize| #[trigger] self.modified_view().contains(i)
                implies i < self.blocks@.len() by {
                assert(old(self).modified_view().contains(i));
            }
        }
    }

    /// Append a lifted block to the store and return its index, the block's
    /// stable identity until the next flush. This is the only way block-store
    /// indices are created.
    pub fn append_block(&mut self, block: Block) -> (idx: usize)
        requires
            old(self).wf(),
        ensures
            final(self).wf(),
            idx == old(self).blocks@.len(),
            final(self).blocks@ == old(self).blocks@.push(block),
            final(self).map_view() == old(self).map_view(),
            final(self).breakpoints_view() == old(self).breakpoints_view(),
            final(self).modified_view() == old(self).modified_view(),
            final(self).disasm_view() == old(self).disasm_view(),
    {
        let idx = self.blocks.len();
        self.blocks.push(block);
        proof {
            assert(self.map == old(self).map);
            assert(self.modified == old(self).modified);
            assert(self.blocks@.len() == old(self).blocks@.len() + 1);
            assert forall|k2: (u64, u64)| #[trigger] self.map_view().contains_key(k2)
                implies self.group_in_store(self.map_view()[k2]) by {
                assert(old(self).map_view().contains_key(k2));
                assert(old(self).group_in_store(old(self).map_view()[k2]));
            }
            assert forall|i: usize| #[trigger] self.modified_view().contains(i)
                implies i < self.blocks@.len() by {
                assert(old(self).modified_view().contains(i));
            }
        }
        idx
    }

    /// Record that a guest write overlapped the block at `idx`. The table
    /// does not flush by itself: whether the modified set forces a flush is
    /// the driver's scheduling decision, not a cache-correctness one.
    pub fn mark_modified(&mut self, idx: usize)
        requires
            old(self).wf(),
            idx < old(self).blocks@.len(),
        ensures
            final(self).wf(),
            final(self).modified_view() == old(self).modified_view().insert(idx),
            final(self).map_view() == old(self).map_view(),
            final(self).blocks@ == old(self).blocks@,
            final(self).breakpoints_view() == old(self).breakpoints_view(),
            final(self).disasm_view() == old(self).disasm_view(),
    {
        self.modified.insert(idx);
        proof {
            assert(self.blocks == old(self).blocks);
            assert(self.map == old(self).map);
            assert forall|k2: (u64, u64)| #[trigger] self.map_view().contains_key(k2)
                implies self.group_in_store(self.map_view()[k2]) by {
                assert(old(self).map_view().contains_key(k2));
                assert(old(self).group_in_store(old(self).map_view()[k2]));
            }
            assert forall|i: usize| #[trigger] self.modified_view().contains(i)
                implies i < self.blocks@.len() by {
                assert(old(self).modified_view().insert(idx).contains(i));
                if i != idx {
                    assert(old(self).modified_view().contains(i));
                }
            }
        }
    }

    /// Whether any block has been overlapped by a guest write since the last
    /// flush; the driver consults this to decide when a flush is due.
    pub fn has_modified(&self) -> (r: bool)
        ensures
            r == (self.modified_view() != Set::<usize>::empty()),
    {
        !self.modified.is_empty()
    }

    /// Whether the block at `idx` has been marked as overlapped by a guest
    /// write since the last flush.
    pub fn is_modified(&self, idx: usize) -> (r: bool)
        ensures
            r == self.modified_view().contains(idx),
    {
        self.modified.contains(idx)
    }

    /// Set a breakpoint at `addr`. Breakpoints are user intent, independent
    /// of translation state: they survive every flush.
    pub fn add_breakpoint(&mut self, addr: u64)
        requires
            old(self).wf(),
        ensures
            final(self).wf(),
            final(self).breakpoints_view() == old(self).breakpoints_view().insert(addr),
            final(self).map_view() == old(self).map_view(),
            final(self).blocks@ == old(self).blocks@,
            final(self).modified_view() == old(self).modified_view(),
            final(self).disasm_view() == old(self).disasm_view(),
    {
        self.breakpoints.insert(addr);
        proof {
            lemma_wf_frame(*old(self), *self);
        }
    }

    /// Clear the breakpoint at `addr`.
    pub fn remove_breakpoint(&mut self, addr: u64)
        requires
            old(self).wf(),
        ensures
            final(self).wf(),
            final(self).breakpoints_view() == old(self).breakpoints_view().remove(addr),
            final(self).map_view() == old(self).map_view(),
            final(self).blocks@ == old(self).blocks@,
            final(self).modified_view() == old(self).modified_view(),
            final(self).disasm_view() == old(self).disasm_view(),
    {
        self.breakpoints.remove(addr);
        proof {
            lemma_wf_frame(*old(self), *self);
        }
    }

    /// Whether a breakpoint is set at `addr`.
    pub fn has_breakpoint(&self, addr: u64) -> (r: bool)
        ensures
            r == self.breakpoints_view().contains(addr),
    {
        self.breakpoints.contains(addr)
    }

    /// Cache the disassembly text rendered for `addr`.
    pub fn cache_disasm(&mut self, addr: u64, text: String)
        requires
            old(self).wf(),
        ensures
            final(self).wf(),
            final(self).disasm_view() == old(self).disasm_view().insert(addr, text@),
            final(self).map_view() == old(self).map_view(),
            final(self).blocks@ == old(self).blocks@,
            final(self).breakpoints_view() == old(self).breakpoints_view(),
            final(self).modified_view() == old(self).modified_view(),
    {
        self.disasm.insert(addr, text);
        proof {
            lemma_wf_frame(*old(self), *self);
        }
    }

    /// The cached disassembly text for `addr`, if any.
    pub fn cached_disasm(&self, addr: u64) -> (r: Option<String>)
        ensures
            r matches Some(text) ==> self.disasm_view().contains_key(addr)
                && self.disasm_view()[addr] == text@,
            r is None ==> !self.disasm_view().contains_key(addr),
    {
        self.disasm.get(addr)
    }

    /// Drop every translation as one atomic step: lookup map, block store,
    /// disassembly cache and modified set are cleared together. Breakpoints
    /// are user intent, independent of translation state, and survive.
    pub fn flush_code(&mut self)
        ensures
            flushed(*old(self), *final(self)),
            final(self).wf(),
    {
        self.map.clear();
        self.blocks.clear();
        self.disasm.clear();
        self.modified.clear();
    }

    /// Reconstruct the native address for position `offset` of the lifted
    /// instruction stream of block `id`: the address carried by the marker
    /// most recently seen at or before `offset`, or `0` when no marker
    /// precedes it.
    pub fn address_of(&self, id: u64, offset: u64) -> (r: u64)
        requires
            id < self.blocks@.len(),
        ensures
            r == address_of_spec(self.blocks@[id as int], offset),
    {
        let nblocks = self.blocks.len();
        let idx = id as usize;
        proof {
            assert((id as int) < (nblocks as int));
            assert(idx as int == id as int);
        }
        let block = &self.blocks[idx];
        let n = block.pcode.instructions.len();
        let mut r: u64 = 0;
        let mut i: usize = 0;
        while i < n && i as u64 <= offset
            invariant
                i <= n,
                i as int <= offset as int + 1,
                n == block.pcode.instructions@.len(),
                block == self.blocks@[id as int],
                r == last_marker_addr(block.pcode.instructions@, i as int),
            decreases n - i,
        {
            if matches!(block.pcode.instructions[i].op, Op::InstructionMarker) {
                r = block.pcode.instructions[i].inputs.0;
            }
            i += 1;
        }
        r
    }

    /// Look up `key` and hand back a read-only view of its translation unit.
    pub fn get_info(&self, key: BlockKey) -> (r: Option<BlockInfoRef<'_>>)
        requires
            self.wf(),
        ensures
            r matches Some(info) ==> {
                &&& self.map_view().contains_key(key@)
                &&& info.group_spec().blocks == self.map_view()[key@]
                &&& info.table_spec() == *self
                &&& info.wf()
            },
            r is None ==> !self.map_view().contains_key(key@),
    {
        match self.lookup(key) {
            Some(group) => Some(BlockInfoRef { group, code: self }),
            None => None,
        }
    }
}

/// A step that touches neither the lookup map, the modified set, nor
/// shrinks the block store keeps the table's invariant.
proof fn lemma_wf_frame(pre: BlockTable, post: BlockTable)
    requires
        pre.wf(),
        post.map_view() == pre.map_view(),
        post.modified_view() == pre.modified_view(),
        pre.blocks@.len() <= post.blocks@.len(),
    ensures
        post.wf(),
{
    assert forall|k: (u64, u64)| #[trigger] post.map_view().contains_key(k)
        implies post.group_in_store(post.map_view()[k]) by {
        assert(pre.map_view().contains_key(k));
        assert(pre.group_in_store(pre.map_view()[k]));
    }
    assert forall|i: usize| #[trigger] post.modified_view().contains(i)
        implies i < post.blocks@.len() by {
        assert(pre.modified_view().contains(i));
    }
}

impl Default for BlockTable {
    /// An empty table, as at engine start.
    fn default() -> (r: BlockTable)
        ensures
            r.wf(),
            (r.map_view() == Map::<(u64, u64), (usize, usize)>::empty()),
            r.blocks@ == Seq::<Block>::empty(),
            (r.disasm_view() == Map::<u64, Seq<char>>::empty()),
            r.breakpoints_view() == Set::<u64>::empty(),
            r.modified_view() == Set::<usize>::empty(),
    {
        BlockTable::new()
    }
}

/// A read-only view of one translation unit inside a block table.
pub struct BlockInfoRef<'a> {
    group: BlockGroup,
    code: &'a BlockTable,
}

impl<'a> BlockInfoRef<'a> {
    /// The group this view covers.
    pub closed spec fn group_spec(self) -> BlockGroup {
        self.group
    }

    /// The table this view reads.
    pub closed spec fn table_spec(self) -> BlockTable {
        *self.code
    }

    /// The view is well formed when its group lies inside the table's store.
    pub open spec fn wf(self) -> bool {
        self.table_spec().group_in_store(self.group_spec().blocks)
    }

    /// Every `(native start, native length)` pair in the group, in block
    /// order: the native instructions the whole unit was lifted from. A
    /// finite, restartable, read-only listing for disassembly and breakpoint
    /// resolution.
    pub fn instructions(&self) -> (r: Vec<(u64, u64)>)
        requires
            self.wf(),
        ensures
            r@ == instructions_upto(
                self.table_spec().blocks@,
                self.group_spec().blocks.0 as int,
                self.group_spec().blocks.1 as int,
            ),
    {
        let mut r: Vec<(u64, u64)> = Vec::new();
        let mut i: usize = self.group.blocks.0;
        while i < self.group.blocks.1
            invariant
                self.wf(),
                self.group.blocks.0 <= i <= self.group.blocks.1,
                self.group == self.group_spec(),
                r@ == instructions_upto(
                    self.table_spec().blocks@,
                    self.group.blocks.0 as int,
                    i as int,
                ),
            decreases self.group.blocks.1 - i,
        {
            let mut pairs = self.code.blocks[i].instructions();
            r.append(&mut pairs);
            i += 1;
        }
        r
    }

    /// The entry block: the first block of the group.
    pub fn entry_block(&self) -> (r: &'a Block)
        requires
            self.wf(),
        ensures
            *r == self.table_spec().blocks@[self.group_spec().blocks.0 as int],
    {
        &self.code.blocks[self.group.blocks.0]
    }

    /// Every `(index, block)` pair of the group, in index order.
    pub fn blocks(&self) -> (r: Vec<(usize, &'a Block)>)
        requires
            self.wf(),
        ensures
            r@.len() == self.group_spec().blocks.1 - self.group_spec().blocks.0,
            forall|j: int| 0 <= j < r@.len() ==> {
                &&& (#[trigger] r@[j]).0 == self.group_spec().blocks.0 + j
                &&& *r@[j].1 == self.table_spec().blocks@[self.group_spec().blocks.0 + j]
            },
    {
        let mut r: Vec<(usize, &'a Block)> = Vec::new();
        let mut i: usize = self.group.blocks.0;
        while i < self.group.blocks.1
            invariant
                self.wf(),
                self.group.blocks.0 <= i <= self.group.blocks.1,
                self.group == self.group_spec(),
                r@.len() == i - self.group.blocks.0,
                forall|j: int| 0 <= j < r@.len() ==> {
                    &&& (#[trigger] r@[j]).0 == self.group_spec().blocks.0 + j
                    &&& *r@[j].1 == self.table_spec().blocks@[self.group_spec().blocks.0 + j]
                },
            decreases self.group.blocks.1 - i,
        {
            r.push((i, &self.code.blocks[i]));
            i += 1;
        }
        r
    }
}

/// Law of the lookup key: two keys are interchangeable for the lookup map
/// exactly when both fields agree, and a lookup right after an insert under
/// an equal key finds the inserted group.
pub proof fn lemma_lookup_after_insert(
    m: Map<(u64, u64), (usize, usize)>,
    k1: BlockKey,
    k2: BlockKey,
    g: (usize, usize),
)
    ensures
        (k1@ == k2@) <==> (k1.vaddr == k2.vaddr && k1.isa_mode == k2.isa_mode),
        k1@ == k2@ ==> m.insert(k1@, g).contains_key(k2@) && m.insert(k1@, g)[k2@] == g,
{
}

/// Law of the flush: after one flush step, a lookup misses for every key
/// whatsoever, while every breakpoint present before is still present.
pub proof fn lemma_flush_then_lookup_misses(pre: BlockTable, post: BlockTable, k: BlockKey, a: u64)
    requires
        flushed(pre, post),
    ensures
        !post.map_view().contains_key(k@),
        pre.breakpoints_view().contains(a) <==> post.breakpoints_view().contains(a),
{
}

} // verus!
