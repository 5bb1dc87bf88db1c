use vstd::prelude::*;

verus! {

/// The width of the pointers stored in the game's memory.
#[derive(Clone, Copy, Debug, PartialEq, Eq, Structural)]
pub enum PointerSize {
    Bit32,
    Bit64,
}

impl PointerSize {
    /// The number of bytes that one pointer takes.
    pub fn bytes(&self) -> (r: usize)
        ensures
            r == (match self {
                PointerSize::Bit32 => 4usize,
                PointerSize::Bit64 => 8usize,
            }),
    {
        match self {
            PointerSize::Bit32 => 4,
            PointerSize::Bit64 => 8,
        }
    }
}

/// `a + b` modulo 2^64.
pub open spec fn wrapping_sum(a: u64, b: u64) -> u64 {
    ((a as int + b as int) % 0x1_0000_0000_0000_0000) as u64
}

/// A value reached from `base` by following pointers: every offset but the last
/// is added to the current address to read the next pointer; the last is added
/// to the final pointer to give the address of the value itself.
#[derive(Clone, Debug)]
pub struct PointerChain {
    pub base: u64,
    pub size: PointerSize,
    pub offsets: Vec<u64>,
}

/// The address read at `level` of a chain, where `pointers` are the pointer
/// values read at the levels before it.
pub open spec fn chain_address(base: u64, offsets: Seq<u64>, pointers: Seq<u64>, level: int) -> u64 {
    if level == 0 {
        wrapping_sum(base, offsets[0])
    } else {
        wrapping_sum(pointers[level - 1], offsets[level])
    }
}

impl PointerChain {
    pub open spec fn wf(&self) -> bool {
        self.offsets@.len() > 0
    }

    /// A chain from `base` through `offsets`; `None` when there is no offset.
    pub fn new(base: u64, size: PointerSize, offsets: Vec<u64>) -> (r: Option<PointerChain>)
        ensures
            offsets@.len() == 0 <==> r.is_none(),
            r matches Some(c) ==> c.wf() && c.base == base && c.size == size && c.offsets@
                == offsets@,
    {
        if offsets.len() == 0 {
            None
        } else {
            Some(PointerChain { base, size, offsets })
        }
    }

    /// How many pointers are read before the value itself.
    pub fn depth(&self) -> (r: usize)
        requires
            self.wf(),
        ensures
            r == self.offsets@.len() - 1,
    {
        self.offsets.len() - 1
    }

    /// The address to read at `level`: `current` is the base for the first
    /// level and the pointer read at the level before for the others.
    pub fn address_at(&self, level: usize, current: u64) -> (r: u64)
        requires
            level < self.offsets@.len(),
        ensures
            r == wrapping_sum(current, self.offsets@[level as int]),
    {
        current.wrapping_add(self.offsets[level])
    }

    /// The address of the value, given the pointers read along the chain.
    pub fn value_address(&self, pointers: &Vec<u64>) -> (r: u64)
        requires
            self.wf(),
            pointers@.len() + 1 == self.offsets@.len(),
        ensures
            r == chain_address(self.base, self.offsets@, pointers@, pointers@.len() as int),
    {
        let n = pointers.len();
        let current = if n == 0 {
            self.base
        } else {
            pointers[n - 1]
        };
        self.address_at(n, current)
    }
}

/// What a walk along a chain reads next.
#[derive(Clone, Copy, Debug, PartialEq, Eq, Structural)]
pub enum ChainStep {
    /// A pointer, at this address, that leads to the next level.
    Pointer(u64),
    /// The value itself, at this address.
    Value(u64),
}

/// A walk along a chain, one read at a time: the reader asks `next` what to
/// read, and hands each pointer it read to `advance`. A failed read ends the
/// walk with no value.
pub struct ChainWalk {
    pub level: usize,
    pub current: u64,
    /// The pointers read so far.
    pub pointers: Ghost<Seq<u64>>,
}

impl ChainWalk {
    pub open spec fn wf(&self, chain: &PointerChain) -> bool {
        &&& chain.wf()
        &&& self.level < chain.offsets@.len()
        &&& self.pointers@.len() == self.level
        &&& self.current == (if self.level == 0 {
            chain.base
        } else {
            self.pointers@[self.level - 1]
        })
    }

    /// A walk at the first level of `chain`.
    pub fn start(chain: &PointerChain) -> (r: ChainWalk)
        requires
            chain.wf(),
        ensures
            r.wf(chain),
            r.level == 0,
    {
        ChainWalk { level: 0, current: chain.base, pointers: Ghost(Seq::empty()) }
    }

    /// What to read next: a pointer before the last level, the value at it.
    pub fn next(&self, chain: &PointerChain) -> (r: ChainStep)
        requires
            self.wf(chain),
        ensures
            ({
                let a = chain_address(chain.base, chain.offsets@, self.pointers@, self.level as int);
                if self.level + 1 < chain.offsets@.len() {
                    r == ChainStep::Pointer(a)
                } else {
                    r == ChainStep::Value(a)
                }
            }),
    {
        let a = chain.address_at(self.level, self.current);
        if self.level < chain.offsets.len() - 1 {
            ChainStep::Pointer(a)
        } else {
            ChainStep::Value(a)
        }
    }

    /// Goes one level down, following the pointer that was read.
    pub fn advance(&mut self, chain: &PointerChain, pointer: u64)
        requires
            old(self).wf(chain),
            old(self).level + 1 < chain.offsets@.len(),
        ensures
            final(self).wf(chain),
            final(self).level == old(self).level + 1,
            final(self).pointers@ == old(self).pointers@.push(pointer),
    {
        let n = chain.offsets.len();
        assert(self.level + 1 < n);
        self.level = self.level + 1;
        self.current = pointer;
        self.pointers = Ghost(self.pointers@.push(pointer));
    }
}

/// Where the game keeps the module of its executable: its layout is not
/// relocated, so every address below is fixed relative to it.
pub const MAIN_MODULE_BASE: u64 = 0x400000;

/// The chains that lead to the values the engine watches.
#[derive(Clone, Debug)]
pub struct Memory {
    pub is_loading: PointerChain,
    pub story_mode_flag: PointerChain,
    pub stage_id: PointerChain,
    pub race_won: PointerChain,
}

impl Memory {
    pub open spec fn wf(&self) -> bool {
        &&& self.is_loading.wf()
        &&& self.story_mode_flag.wf()
        &&& self.stage_id.wf()
        &&& self.race_won.wf()
    }

    /// The chains of the game's known layout: 32-bit pointers, all from the
    /// module base.
    pub fn init() -> (r: Memory)
        ensures
            r.wf(),
            r.is_loading.base == MAIN_MODULE_BASE && r.is_loading.size == PointerSize::Bit32
                && r.is_loading.offsets@ == seq![0x267FBB8u64, 0x44, 0x8C],
            r.story_mode_flag.base == MAIN_MODULE_BASE && r.story_mode_flag.size
                == PointerSize::Bit32 && r.story_mode_flag.offsets@ == seq![0x24824E8u64, 0x14],
            r.stage_id.base == MAIN_MODULE_BASE && r.stage_id.size == PointerSize::Bit32
                && r.stage_id.offsets@ == seq![0x24824E8u64, 0xC, 0xC, 0x0],
            r.race_won.base == MAIN_MODULE_BASE && r.race_won.size == PointerSize::Bit32
                && r.race_won.offsets@ == seq![
                0x2353F18u64,
                0x10C,
                0x4,
                0x14,
                0x128,
                0x28,
                0xA8,
                0x0,
                0x60,
            ],
    {
        let is_loading = PointerChain {
            base: MAIN_MODULE_BASE,
            size: PointerSize::Bit32,
            offsets: vec![0x267FBB8, 0x44, 0x8C],
        };
        let story_mode_flag = PointerChain {
            base: MAIN_MODULE_BASE,
            size: PointerSize::Bit32,
            offsets: vec![0x24824E8, 0x14],
        };
        let stage_id = PointerChain {
            base: MAIN_MODULE_BASE,
            size: PointerSize::Bit32,
            offsets: vec![0x24824E8, 0xC, 0xC, 0x0],
        };
        let race_won = PointerChain {
            base: MAIN_MODULE_BASE,
            size: PointerSize::Bit32,
            offsets: vec![0x2353F18, 0x10C, 0x4, 0x14, 0x128, 0x28, 0xA8, 0x0, 0x60],
        };
        Memory { is_loading, story_mode_flag, stage_id, race_won }
    }
}

} // verus!
