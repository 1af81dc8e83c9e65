//! The entropy subsystem: a bounded mixing pool, a buffered extractor over
//! it, and the simulated sources that feed it. What the mixing produces is
//! deliberately unspecified beyond its length and bookkeeping; quality is a
//! statistical property no contract can pin down.

use vstd::prelude::*;

use crate::optimizer::sat_add64;

verus! {

/// An entropy-system fault.
#[derive(Debug, Clone)]
pub enum EntropyError {
    SourceUnavailable(String),
    InsufficientEntropy,
    DistributionError(String),
    QuantumProcessingError(String),
}

/// A summary of the subsystem.
#[derive(Debug, Clone, Copy, PartialEq, Eq, Structural)]
pub struct EntropyStats {
    pub source_count: usize,
    pub pool_size: usize,
}

/// The kinds of entropy source.
#[derive(Debug, Clone, PartialEq)]
pub enum EntropySourceType {
    SystemTime,
    Hardware,
    Network,
    Process,
    Memory,
    Quantum,
    Custom(String),
}

/// Relies on `std::time::SystemTime::now`, read as nanoseconds since the
/// Unix epoch; nothing relates one reading to another, so no ensures is
/// stated.
#[verifier::external_body]
fn clock_nanos() -> u64 {
    std::time::SystemTime::now().duration_since(std::time::UNIX_EPOCH).unwrap_or_default()
        .as_nanos() as u64
}

/// The little-endian bytes of a 64-bit value.
pub open spec fn spec_le64(v: u64) -> Seq<u8> {
    seq![
        (v & 0xFF) as u8,
        ((v >> 8) & 0xFF) as u8,
        ((v >> 16) & 0xFF) as u8,
        ((v >> 24) & 0xFF) as u8,
        ((v >> 32) & 0xFF) as u8,
        ((v >> 40) & 0xFF) as u8,
        ((v >> 48) & 0xFF) as u8,
        ((v >> 56) & 0xFF) as u8,
    ]
}

/// The little-endian bytes of a 32-bit value.
pub open spec fn spec_le32(v: u32) -> Seq<u8> {
    seq![(v & 0xFF) as u8, ((v >> 8) & 0xFF) as u8, ((v >> 16) & 0xFF) as u8, ((v >> 24)
        & 0xFF) as u8]
}

/// The little-endian bytes of a 16-bit value.
pub open spec fn spec_le16(v: u16) -> Seq<u8> {
    seq![(v & 0xFF) as u8, ((v >> 8) & 0xFF) as u8]
}

/// Appends a 64-bit value in little-endian order.
fn push_le64(out: &mut Vec<u8>, v: u64)
    ensures
        final(out)@ == old(out)@ + spec_le64(v),
{
    out.push((v & 0xFF) as u8);
    out.push(((v >> 8) & 0xFF) as u8);
    out.push(((v >> 16) & 0xFF) as u8);
    out.push(((v >> 24) & 0xFF) as u8);
    out.push(((v >> 32) & 0xFF) as u8);
    out.push(((v >> 40) & 0xFF) as u8);
    out.push(((v >> 48) & 0xFF) as u8);
    out.push(((v >> 56) & 0xFF) as u8);
    proof {
        assert(out@ =~= old(out)@ + spec_le64(v));
    }
}

/// Appends a 32-bit value in little-endian order.
fn push_le32(out: &mut Vec<u8>, v: u32)
    ensures
        final(out)@ == old(out)@ + spec_le32(v),
{
    out.push((v & 0xFF) as u8);
    out.push(((v >> 8) & 0xFF) as u8);
    out.push(((v >> 16) & 0xFF) as u8);
    out.push(((v >> 24) & 0xFF) as u8);
    proof {
        assert(out@ =~= old(out)@ + spec_le32(v));
    }
}

/// Appends a 16-bit value in little-endian order.
fn push_le16(out: &mut Vec<u8>, v: u16)
    ensures
        final(out)@ == old(out)@ + spec_le16(v),
{
    out.push((v & 0xFF) as u8);
    out.push(((v >> 8) & 0xFF) as u8);
    proof {
        assert(out@ =~= old(out)@ + spec_le16(v));
    }
}

/// One round of the mixing function: add the round index, triple, rotate
/// two bits left, flip alternating bits — all wrapping.
pub open spec fn spec_feistel(input: u8, round: u8) -> u8 {
    let added = if input + round > 255 {
        (input + round - 256) as u8
    } else {
        (input + round) as u8
    };
    let tripled = ((added as int * 3) % 256) as u8;
    let rotated = ((tripled << 2) | (tripled >> 6)) as u8;
    rotated ^ 0x55
}

/// A snapshot of the pool.
#[derive(Debug, Clone, Copy, PartialEq, Eq, Structural)]
pub struct PoolStats {
    pub current_size: usize,
    pub max_size: usize,
    pub min_size: usize,
    pub refill_count: u32,
    pub last_refill: u64,
}

/// The bounded mixing pool: bytes enter at the back, leave at the front,
/// and are stirred on every refill and extraction.
#[derive(Debug)]
pub struct EntropyPool {
    pool: Vec<u8>,
    max_size: usize,
    min_size: usize,
    last_refill: u64,
    refill_count: u32,
}

impl EntropyPool {
    /// The bytes held.
    pub closed spec fn spec_len(&self) -> nat {
        self.pool@.len()
    }

    /// The pool's capacity.
    pub closed spec fn spec_max(&self) -> usize {
        self.max_size
    }

    /// The level below which a refill is wanted.
    pub closed spec fn spec_min(&self) -> usize {
        self.min_size
    }

    /// How many refills have happened.
    pub closed spec fn spec_refills(&self) -> u32 {
        self.refill_count
    }

    /// An empty pool holding up to a mebibyte, asking for a refill below
    /// one kibibyte.
    pub fn new() -> (r: EntropyPool)
        ensures
            r.spec_len() == 0,
            r.spec_max() == 1024 * 1024,
            r.spec_min() == 1024,
            r.spec_refills() == 0,
    {
        EntropyPool {
            pool: Vec::new(),
            max_size: 1024 * 1024,
            min_size: 1024,
            last_refill: 0,
            refill_count: 0,
        }
    }

    /// Adds bytes at the back, evicts the oldest past the capacity, stirs
    /// the pool, and books the refill against the clock.
    pub fn add_entropy(&mut self, entropy: &[u8])
        ensures
            final(self).spec_len() == if old(self).spec_len() + entropy@.len() > old(self).spec_max() {
                old(self).spec_max() as nat
            } else {
                old(self).spec_len() + entropy@.len()
            },
            final(self).spec_refills() == (if old(self).spec_refills() == u32::MAX {
                u32::MAX as int
            } else {
                old(self).spec_refills() + 1
            }),
            final(self).spec_max() == old(self).spec_max(),
            final(self).spec_min() == old(self).spec_min(),
    {
        let mut i: usize = 0;
        while i < entropy.len()
            invariant
                i <= entropy@.len(),
                self.pool@.len() == old(self).pool@.len() + i,
                self.max_size == old(self).max_size,
                self.min_size == old(self).min_size,
                self.refill_count == old(self).refill_count,
            decreases entropy@.len() - i,
        {
            self.pool.push(entropy[i]);
            i = i + 1;
        }
        while self.pool.len() > self.max_size
            invariant
                self.max_size == old(self).max_size,
                self.min_size == old(self).min_size,
                self.refill_count == old(self).refill_count,
                self.pool@.len() >= self.max_size || self.pool@.len() == old(self).pool@.len()
                    + entropy@.len(),
                self.pool@.len() <= old(self).pool@.len() + entropy@.len(),
            decreases self.pool@.len(),
        {
            self.pool.remove(0);
        }
        self.mix_pool();
        self.refill_count = if self.refill_count == u32::MAX {
            u32::MAX
        } else {
            self.refill_count + 1
        };
        self.last_refill = clock_nanos();
    }

    /// Takes exactly `size` bytes from the front, topping the pool up with
    /// clock-derived filler first when it runs short, and stirs what is
    /// left.
    pub fn extract_entropy(&mut self, size: usize) -> (r: Vec<u8>)
        ensures
            r@.len() == size,
            final(self).spec_max() == old(self).spec_max(),
            final(self).spec_min() == old(self).spec_min(),
    {
        if self.pool.len() < size {
            let missing = size - self.pool.len();
            self.generate_temporary_entropy(missing);
        }
        let mut extracted: Vec<u8> = Vec::new();
        let mut i: usize = 0;
        while i < size
            invariant
                i <= size,
                extracted@.len() == i,
                self.pool@.len() >= size - i,
                self.max_size == old(self).max_size,
                self.min_size == old(self).min_size,
            decreases size - i,
        {
            let byte = self.pool.remove(0);
            extracted.push(byte);
            i = i + 1;
        }
        self.mix_pool();
        extracted
    }

    /// Stirs the pool: a fixed swap pass, then the round mixing. The
    /// length never changes.
    fn mix_pool(&mut self)
        ensures
            final(self).pool@.len() == old(self).pool@.len(),
            final(self).max_size == old(self).max_size,
            final(self).min_size == old(self).min_size,
            final(self).refill_count == old(self).refill_count,
            final(self).last_refill == old(self).last_refill,
    {
        let len = self.pool.len();
        if len < 2 {
            return ;
        }
        let mut i: usize = len - 1;
        while i >= 1
            invariant
                i <= len - 1,
                len >= 2,
                self.pool@.len() == len,
                self.max_size == old(self).max_size,
                self.min_size == old(self).min_size,
                self.refill_count == old(self).refill_count,
                self.last_refill == old(self).last_refill,
            decreases i,
        {
            let j = (((i as u128) * 7 + 13) % (len as u128)) as usize;
            let a = self.pool[i];
            let b = self.pool[j];
            self.pool[i] = b;
            self.pool[j] = a;
            i = i - 1;
        }
        self.apply_round_mixing();
    }

    /// Eight rounds of pairwise mixing over the pool.
    fn apply_round_mixing(&mut self)
        ensures
            final(self).pool@.len() == old(self).pool@.len(),
            final(self).max_size == old(self).max_size,
            final(self).min_size == old(self).min_size,
            final(self).refill_count == old(self).refill_count,
            final(self).last_refill == old(self).last_refill,
    {
        let len = self.pool.len();
        if len < 4 {
            return ;
        }
        let mut round: u8 = 0;
        while round < 8
            invariant
                round <= 8,
                self.pool@.len() == len,
                len >= 4,
                self.max_size == old(self).max_size,
                self.min_size == old(self).min_size,
                self.refill_count == old(self).refill_count,
                self.last_refill == old(self).last_refill,
            decreases 8 - round,
        {
            let mut i: usize = 0;
            while i < len - 1
                invariant
                    self.pool@.len() == len,
                    len >= 4,
                    self.max_size == old(self).max_size,
                    self.min_size == old(self).min_size,
                    self.refill_count == old(self).refill_count,
                    self.last_refill == old(self).last_refill,
                decreases len - i,
            {
                let left = self.pool[i];
                let right = self.pool[i + 1];
                self.pool[i] = right;
                self.pool[i + 1] = left ^ feistel_function(right, round);
                i = i + 2;
            }
            round = round + 1;
        }
    }

    /// Appends `count` clock-derived filler bytes.
    fn generate_temporary_entropy(&mut self, count: usize)
        ensures
            final(self).pool@.len() == old(self).pool@.len() + count,
            final(self).max_size == old(self).max_size,
            final(self).min_size == old(self).min_size,
            final(self).refill_count == old(self).refill_count,
            final(self).last_refill == old(self).last_refill,
    {
        let now = clock_nanos();
        let mut i: usize = 0;
        while i < count
            invariant
                i <= count,
                self.pool@.len() == old(self).pool@.len() + i,
                self.max_size == old(self).max_size,
                self.min_size == old(self).min_size,
                self.refill_count == old(self).refill_count,
                self.last_refill == old(self).last_refill,
            decreases count - i,
        {
            let mixed = now.wrapping_add(i as u64) ^ self.refill_count as u64;
            self.pool.push((mixed & 0xFF) as u8);
            i = i + 1;
        }
    }

    /// How many bytes the pool holds.
    pub fn size(&self) -> (r: usize)
        ensures
            r == self.spec_len(),
    {
        self.pool.len()
    }

    /// Whether the pool has drained below its refill level.
    pub fn needs_refill(&self) -> (r: bool)
        ensures
            r == (self.spec_len() < self.spec_min()),
    {
        self.size() < self.min_size
    }

    /// A snapshot of the pool's bookkeeping.
    pub fn get_stats(&self) -> (r: PoolStats)
        ensures
            r.current_size == self.spec_len(),
            r.max_size == self.spec_max(),
            r.min_size == self.spec_min(),
            r.refill_count == self.spec_refills(),
    {
        PoolStats {
            current_size: self.size(),
            max_size: self.max_size,
            min_size: self.min_size,
            refill_count: self.refill_count,
            last_refill: self.last_refill,
        }
    }
}

/// One round of the mixing function.
fn feistel_function(input: u8, round: u8) -> (r: u8)
    ensures
        r == spec_feistel(input, round),
{
    let added = input.wrapping_add(round);
    let tripled = added.wrapping_mul(3);
    let rotated = (tripled << 2) | (tripled >> 6);
    proof {
        let a = added;
        let t = tripled;
        assert(t == ((a as int * 3) % 256) as u8 ==> ((t << 2) | (t >> 6)) == (((((a as int * 3)
            % 256) as u8) << 2) | ((((a as int * 3) % 256) as u8) >> 6))) by (bit_vector);
        assert(added.wrapping_mul(3) == ((added as int * 3) % 256) as u8) by {
            assert(vstd::wrapping::u8_specs::wrapping_mul(a, 3) == ((a as int * 3) % 256) as u8)
                by (bit_vector);
        };
    }
    rotated ^ 0x55
}

/// A buffered reader over the pool: bytes are pulled in block-sized
/// refills and handed out on demand.
#[derive(Debug)]
pub struct PooledEntropy {
    pool: EntropyPool,
    extraction_buffer: Vec<u8>,
    buffer_size: usize,
}

impl PooledEntropy {
    /// How many buffered bytes stand ready.
    pub closed spec fn spec_buffered(&self) -> nat {
        self.extraction_buffer@.len()
    }

    /// The underlying pool's capacity.
    pub closed spec fn spec_pool_capacity(&self) -> usize {
        self.pool.spec_max()
    }

    /// A reader with the given refill block size over a fresh pool.
    pub fn new(buffer_size: usize) -> (r: PooledEntropy)
        ensures
            r.spec_buffered() == 0,
    {
        PooledEntropy { pool: EntropyPool::new(), extraction_buffer: Vec::new(), buffer_size }
    }

    /// Feeds source bytes into the pool.
    pub fn add_entropy_source(&mut self, entropy: &[u8])
        ensures
            final(self).spec_buffered() == old(self).spec_buffered(),
    {
        self.pool.add_entropy(entropy);
    }

    /// Hands out exactly `count` bytes, refilling the buffer from the pool
    /// as needed.
    pub fn get_random_bytes(&mut self, count: usize) -> (r: Vec<u8>)
        requires
            count + old(self).spec_buffered() <= usize::MAX,
        ensures
            r@.len() == count,
    {
        if self.extraction_buffer.len() < count {
            let needed = count - self.extraction_buffer.len();
            let block = if needed > self.buffer_size {
                needed
            } else {
                self.buffer_size
            };
            let extracted = self.pool.extract_entropy(block);
            let mut i: usize = 0;
            while i < extracted.len()
                invariant
                    i <= extracted@.len(),
                    self.extraction_buffer@.len() == old(self).extraction_buffer@.len() + i,
                decreases extracted@.len() - i,
            {
                self.extraction_buffer.push(extracted[i]);
                i = i + 1;
            }
        }
        let mut out: Vec<u8> = Vec::new();
        let mut i: usize = 0;
        while i < count
            invariant
                i <= count,
                out@.len() == i,
                self.extraction_buffer@.len() >= count - i,
            decreases count - i,
        {
            let byte = self.extraction_buffer.remove(0);
            out.push(byte);
            i = i + 1;
        }
        out
    }

    /// One byte.
    pub fn get_random_byte(&mut self) -> u8
        requires
            old(self).spec_buffered() < usize::MAX,
    {
        let bytes = self.get_random_bytes(1);
        bytes[0]
    }

    /// One 32-bit value.
    pub fn get_random_u32(&mut self) -> u32
        requires
            old(self).spec_buffered() + 4 <= usize::MAX,
    {
        let bytes = self.get_random_bytes(4);
        (bytes[0] as u32) | ((bytes[1] as u32) << 8) | ((bytes[2] as u32) << 16) | ((
        bytes[3] as u32) << 24)
    }

    /// A value in `[min, max)`; a hollow range yields its lower bound.
    pub fn get_random_range(&mut self, min: u32, max: u32) -> (r: u32)
        requires
            old(self).spec_buffered() + 4 <= usize::MAX,
        ensures
            min >= max ==> r == min,
            min < max ==> min <= r < max,
    {
        if min >= max {
            return min;
        }
        let range = max - min;
        let random_value = self.get_random_u32();
        let offset = random_value % range;
        min + offset
    }

    /// A snapshot of the pool's bookkeeping.
    pub fn get_pool_stats(&self) -> (r: PoolStats)
        ensures
            r.max_size == self.spec_pool_capacity(),
    {
        self.pool.get_stats()
    }
}

/// A clock-driven source: consecutive readings, their difference, and a
/// call counter.
#[derive(Debug)]
pub struct SystemTimeEntropy {
    pub last_collection: u64,
    pub counter: u64,
}

impl SystemTimeEntropy {
    /// A source that has not collected yet.
    pub fn new() -> (r: SystemTimeEntropy)
        ensures
            r.counter == 0,
            r.last_collection == 0,
    {
        SystemTimeEntropy { last_collection: 0, counter: 0 }
    }

    /// The clock reading, its distance from the previous one, the call
    /// counter and the sub-second residue: 28 bytes.
    pub fn collect_entropy(&mut self) -> (r: Result<Vec<u8>, EntropyError>)
        ensures
            r is Ok,
            r->Ok_0@.len() == 28,
            final(self).counter == sat_add64(old(self).counter, 1),
    {
        let now = clock_nanos();
        self.counter = if self.counter == u64::MAX {
            u64::MAX
        } else {
            self.counter + 1
        };
        let time_diff = now.wrapping_sub(self.last_collection);
        self.last_collection = now;
        let mut entropy: Vec<u8> = Vec::new();
        push_le64(&mut entropy, time_diff);
        push_le64(&mut entropy, self.counter);
        push_le64(&mut entropy, now);
        push_le32(&mut entropy, (now % 1000000) as u32);
        proof {
            assert(entropy@.len() == 28);
        }
        Ok(entropy)
    }

}

/// A shift-register source seeded from the clock.
#[derive(Debug)]
pub struct HardwareEntropy {
    pub seed: u64,
    pub lfsr_state: u32,
}

/// One shift of the feedback register.
pub open spec fn spec_lfsr_next(state: u32) -> (u32, u8) {
    let bit = ((state >> 0) ^ (state >> 2) ^ (state >> 3) ^ (state >> 5)) & 1;
    ((state >> 1) | (bit << 31), bit as u8)
}

impl HardwareEntropy {
    /// A register seeded from the clock.
    pub fn new() -> (r: HardwareEntropy)
    {
        let seed = clock_nanos();
        HardwareEntropy { seed, lfsr_state: (seed & 0xFFFFFFFF) as u32 }
    }

    /// One feedback shift; the produced bit is 0 or 1.
    fn lfsr_next(&mut self) -> (r: u8)
        ensures
            final(self).lfsr_state == spec_lfsr_next(old(self).lfsr_state).0,
            r == spec_lfsr_next(old(self).lfsr_state).1,
            r <= 1,
            final(self).seed == old(self).seed,
    {
        let state = self.lfsr_state;
        let bit = ((state >> 0) ^ (state >> 2) ^ (state >> 3) ^ (state >> 5)) & 1;
        proof {
            assert((((state >> 0) ^ (state >> 2) ^ (state >> 3) ^ (state >> 5)) & 1) <= 1)
                by (bit_vector);
        }
        self.lfsr_state = (state >> 1) | (bit << 31);
        bit as u8
    }

    /// Thirty-two register-generated bytes followed by the seed: 40 bytes.
    pub fn collect_entropy(&mut self) -> (r: Result<Vec<u8>, EntropyError>)
        ensures
            r is Ok,
            r->Ok_0@.len() == 40,
    {
        let mut entropy: Vec<u8> = Vec::new();
        let mut n: usize = 0;
        while n < 32
            invariant
                n <= 32,
                entropy@.len() == n,
                self.seed == old(self).seed,
            decreases 32 - n,
        {
            let mut byte: u8 = 0;
            let mut bit_pos: u8 = 0;
            while bit_pos < 8
                invariant
                    bit_pos <= 8,
                    self.seed == old(self).seed,
                decreases 8 - bit_pos,
            {
                let bit = self.lfsr_next();
                proof {
                    assert(bit <= 1 && bit_pos < 8 ==> (bit << bit_pos) <= 255) by (bit_vector);
                }
                byte = byte | (bit << bit_pos);
                bit_pos = bit_pos + 1;
            }
            entropy.push(byte);
            n = n + 1;
        }
        push_le64(&mut entropy, self.seed);
        proof {
            assert(entropy@.len() == 40);
        }
        Ok(entropy)
    }
}

/// A source fed by simulated packet arrival times.
#[derive(Debug)]
pub struct NetworkEntropy {
    pub packet_counter: u64,
    pub last_packet_time: u64,
}

impl NetworkEntropy {
    /// A source that has seen no packets.
    pub fn new() -> (r: NetworkEntropy)
        ensures
            r.packet_counter == 0,
            r.last_packet_time == 0,
    {
        NetworkEntropy { packet_counter: 0, last_packet_time: 0 }
    }

    /// The packet counter, the inter-arrival gap, the reading, and three
    /// derived interface words: 30 bytes.
    pub fn collect_entropy(&mut self) -> (r: Result<Vec<u8>, EntropyError>)
        ensures
            r is Ok,
            r->Ok_0@.len() == 30,
            final(self).packet_counter == sat_add64(old(self).packet_counter, 1),
    {
        let now = clock_nanos();
        self.packet_counter = if self.packet_counter == u64::MAX {
            u64::MAX
        } else {
            self.packet_counter + 1
        };
        let delay = if self.last_packet_time > 0 && now >= self.last_packet_time {
            now - self.last_packet_time
        } else {
            0
        };
        self.last_packet_time = now;
        let mut entropy: Vec<u8> = Vec::new();
        push_le64(&mut entropy, self.packet_counter);
        push_le64(&mut entropy, delay);
        push_le64(&mut entropy, now);
        push_le16(&mut entropy, (self.packet_counter % 1000) as u16);
        push_le16(&mut entropy, (delay % 10000) as u16);
        push_le16(&mut entropy, (now % 65536) as u16);
        proof {
            assert(entropy@.len() == 30);
        }
        Ok(entropy)
    }
}

/// A source fed by the owning process's identity; the host hands the
/// process id in, since reading it is its business.
#[derive(Debug)]
pub struct ProcessEntropy {
    pub pid: u32,
    pub thread_id: u64,
    pub memory_usage: u64,
}

impl ProcessEntropy {
    /// A source for the given process id.
    pub fn new(pid: u32) -> (r: ProcessEntropy)
        ensures
            r.pid == pid,
            r.thread_id == 0,
            r.memory_usage == 0,
    {
        ProcessEntropy { pid, thread_id: 0, memory_usage: 0 }
    }

    /// The process identity, a strictly advancing usage counter, the clock
    /// reading and three derived words: 34 bytes.
    pub fn collect_entropy(&mut self) -> (r: Result<Vec<u8>, EntropyError>)
        ensures
            r is Ok,
            r->Ok_0@.len() == 34,
    {
        self.memory_usage = self.memory_usage.wrapping_add(1);
        let now = clock_nanos();
        let mut entropy: Vec<u8> = Vec::new();
        push_le32(&mut entropy, self.pid);
        push_le64(&mut entropy, self.thread_id);
        push_le64(&mut entropy, self.memory_usage);
        push_le64(&mut entropy, now);
        push_le16(&mut entropy, (self.pid % 65536) as u16);
        push_le16(&mut entropy, (self.thread_id % 65536) as u16);
        push_le16(&mut entropy, (self.memory_usage % 65536) as u16);
        proof {
            assert(entropy@.len() == 34);
        }
        Ok(entropy)
    }
}

/// A source fed by a fixed probe-address pattern and its access history.
#[derive(Debug)]
pub struct MemoryEntropy {
    pub memory_addresses: Vec<u64>,
    pub access_pattern: Vec<u8>,
}

impl MemoryEntropy {
    /// A source probing four fixed addresses.
    pub fn new() -> (r: MemoryEntropy)
        ensures
            r.memory_addresses@ == seq![0x1000u64, 0x2000u64, 0x3000u64, 0x4000u64],
            r.access_pattern@.len() == 0,
    {
        let memory_addresses: Vec<u64> = vec![0x1000, 0x2000, 0x3000, 0x4000];
        proof {
            assert(memory_addresses@ =~= seq![0x1000u64, 0x2000u64, 0x3000u64, 0x4000u64]);
        }
        MemoryEntropy { memory_addresses, access_pattern: Vec::new() }
    }

    /// Twelve bytes per probe address plus the bounded access history.
    pub fn collect_entropy(&mut self) -> (r: Result<Vec<u8>, EntropyError>)
        ensures
            r is Ok,
            r->Ok_0@.len() == 12 * old(self).memory_addresses@.len() + final(self).access_pattern@.len(),
            final(self).access_pattern@.len() >= 1,
            final(self).access_pattern@.len() == (if old(self).access_pattern@.len() + 1 > 16 {
                old(self).access_pattern@.len() as int
            } else {
                old(self).access_pattern@.len() + 1int
            }),
            final(self).memory_addresses@ == old(self).memory_addresses@,
    {
        let mut entropy: Vec<u8> = Vec::new();
        let mut i: usize = 0;
        while i < self.memory_addresses.len()
            invariant
                i <= self.memory_addresses@.len(),
                entropy@.len() == 12 * i,
                self.memory_addresses@ == old(self).memory_addresses@,
                self.access_pattern@ == old(self).access_pattern@,
            decreases self.memory_addresses@.len() - i,
        {
            let value = self.memory_addresses[i];
            push_le64(&mut entropy, value);
            let content = ((value ^ 0xDEADBEEF) & 0xFFFFFFFF) as u32;
            push_le32(&mut entropy, content);
            i = i + 1;
        }
        self.access_pattern.push((entropy.len() % 256) as u8);
        if self.access_pattern.len() > 16 {
            self.access_pattern.remove(0);
        }
        let plen = self.access_pattern.len();
        let mut j: usize = 0;
        let base = entropy.len();
        while j < plen
            invariant
                j <= plen,
                plen == self.access_pattern@.len(),
                entropy@.len() == base + j,
                self.memory_addresses@ == old(self).memory_addresses@,
            decreases plen - j,
        {
            entropy.push(self.access_pattern[j]);
            j = j + 1;
        }
        Ok(entropy)
    }
}

} // verus!
