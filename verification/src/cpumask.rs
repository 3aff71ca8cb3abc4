//! Sets of CPUs.
use vstd::prelude::*;

verus! {

/// A set of CPUs, one bit per CPU. It grows with the numbers that are added, so
/// it holds any CPU of the kernel, also one that the per-CPU tables have no room
/// for.
#[derive(Clone)]
pub struct CpuMask {
    words: Vec<u64>,
}

spec fn word_has(word: u64, bit: u64) -> bool {
    (word >> bit) & 1 == 1
}

impl View for CpuMask {
    type V = Set<int>;

    closed spec fn view(&self) -> Set<int> {
        Set::new(
            |cpu: int|
                0 <= cpu < 64 * self.words@.len() && word_has(
                    self.words@[cpu / 64],
                    (cpu % 64) as u64,
                ),
        )
    }
}

proof fn lemma_nonzero_has_bit(word: u64) -> (bit: u64)
    requires
        word != 0,
    ensures
        bit < 64,
        word_has(word, bit),
    decreases word,
{
    if word & 1 == 1 {
        assert((word >> 0) & 1 == 1) by (bit_vector)
            requires
                word & 1 == 1,
        ;
        0
    } else {
        assert(word >> 1 != 0 && word >> 1 < word) by (bit_vector)
            requires
                word != 0,
                word & 1 != 1,
        ;
        let below = lemma_nonzero_has_bit(word >> 1);
        let bit = (below + 1) as u64;
        assert(below < 63) by (bit_vector)
            requires
                below < 64,
                ((word >> 1) >> below) & 1 == 1,
        ;
        assert((word >> bit) & 1 == 1) by (bit_vector)
            requires
                below < 63,
                bit == below + 1,
                ((word >> 1) >> below) & 1 == 1,
        ;
        bit
    }
}

impl CpuMask {
    pub fn empty() -> (mask: CpuMask)
        ensures
            mask@ == Set::<int>::empty(),
    {
        let mask = CpuMask { words: Vec::new() };
        assert(mask@ =~= Set::<int>::empty());
        mask
    }

    /// Makes room for the bit of a CPU.
    fn grow(&mut self, word: usize)
        ensures
            final(self)@ == old(self)@,
            word < final(self).words@.len(),
    {
        while self.words.len() <= word
            invariant
                self@ == old(self)@,
            decreases word + 1 - self.words@.len(),
        {
            let ghost before = *self;
            self.words.push(0);
            proof {
                assert forall|bit: u64| !#[trigger] word_has(0, bit) by {
                    assert((0u64 >> bit) & 1 == 0) by (bit_vector);
                }
                assert forall|c: int| #[trigger] self@.contains(c) == before@.contains(c) by {
                    if 0 <= c < 64 * before.words@.len() {
                        assert(c / 64 < before.words@.len());
                    } else if 0 <= c < 64 * self.words@.len() {
                        assert(c / 64 == before.words@.len());
                    }
                }
                assert(self@ =~= before@);
            }
        }
    }

    /// Adds a CPU. A negative number is no CPU and is left out.
    pub fn set_cpu(&mut self, cpu: i32)
        ensures
            final(self)@ == (if cpu >= 0 {
                old(self)@.insert(cpu as int)
            } else {
                old(self)@
            }),
    {
        if cpu < 0 {
            return;
        }
        let word: usize = cpu as usize / 64;
        let bit: u64 = cpu as u64 % 64;
        self.grow(word);
        let before: u64 = self.words[word];
        let after: u64 = before | (1u64 << bit);
        let ghost grown = *self;
        self.words.set(word, after);
        proof {
            assert forall|other: u64| other < 64 implies #[trigger] word_has(after, other) == (
            word_has(before, other) || other == bit) by {
                assert((after >> other) & 1 == 1 <==> ((before >> other) & 1 == 1 || other == bit))
                    by (bit_vector)
                    requires
                        after == before | (1u64 << bit),
                        other < 64,
                        bit < 64,
                ;
            }
            assert forall|c: int| #[trigger] self@.contains(c) == grown@.insert(
                cpu as int,
            ).contains(c) by {
                if 0 <= c < 64 * self.words@.len() && c / 64 == word {
                    assert(word_has(after, (c % 64) as u64) == (word_has(before, (c % 64) as u64)
                        || (c % 64) as u64 == bit));
                }
            }
            assert(self@ =~= grown@.insert(cpu as int));
        }
    }

    pub fn test_cpu(&self, cpu: i32) -> (r: bool)
        ensures
            r == self@.contains(cpu as int),
    {
        if cpu < 0 || cpu as usize / 64 >= self.words.len() {
            return false;
        }
        (self.words[cpu as usize / 64] >> (cpu as u64 % 64)) & 1 == 1
    }

    pub fn intersects(&self, other: &CpuMask) -> (r: bool)
        ensures
            r == exists|cpu: int| self@.contains(cpu) && other@.contains(cpu),
    {
        let mut i: usize = 0;
        while i < self.words.len() && i < other.words.len()
            invariant
                i <= self.words@.len(),
                i <= other.words@.len(),
                forall|cpu: int|
                    0 <= cpu < 64 * i ==> !(#[trigger] self@.contains(cpu) && other@.contains(cpu)),
            decreases self.words@.len() - i,
        {
            let a: u64 = self.words[i];
            let b: u64 = other.words[i];
            if a & b != 0 {
                proof {
                    let bit = lemma_nonzero_has_bit(a & b);
                    assert((a >> bit) & 1 == 1 && (b >> bit) & 1 == 1) by (bit_vector)
                        requires
                            ((a & b) >> bit) & 1 == 1,
                    ;
                    let cpu = 64 * i + bit;
                    assert(cpu / 64 == i && cpu % 64 == bit);
                    assert(self@.contains(cpu) && other@.contains(cpu));
                }
                return true;
            }
            proof {
                assert forall|cpu: int| 0 <= cpu < 64 * (i + 1) implies !(
                #[trigger] self@.contains(cpu) && other@.contains(cpu)) by {
                    if cpu >= 64 * i {
                        let bit = (cpu % 64) as u64;
                        assert(!((a >> bit) & 1 == 1 && (b >> bit) & 1 == 1)) by (bit_vector)
                            requires
                                a & b == 0,
                        ;
                        assert(cpu / 64 == i);
                    }
                }
            }
            i = i + 1;
        }
        false
    }

    /// Whether the mask holds any CPU besides `cpu`.
    pub fn holds_other_than(&self, cpu: i32) -> (r: bool)
        ensures
            r == exists|other: int| self@.contains(other) && other != cpu,
    {
        let bit: u64 = if cpu < 0 {
            0
        } else {
            cpu as u64 % 64
        };
        let mut i: usize = 0;
        while i < self.words.len()
            invariant
                i <= self.words@.len(),
                bit < 64,
                cpu >= 0 ==> bit == cpu % 64,
                forall|other: int| 0 <= other < 64 * i && other != cpu ==> !self@.contains(other),
            decreases self.words@.len() - i,
        {
            let word: u64 = self.words[i];
            let here: bool = cpu >= 0 && cpu as usize / 64 == i;
            let rest: u64 = if here {
                word & !(1u64 << bit)
            } else {
                word
            };
            proof {
                assert forall|b: u64| b < 64 implies #[trigger] word_has(rest, b) == (word_has(
                    word,
                    b,
                ) && !(here && b == bit)) by {
                    assert(((word & !(1u64 << bit)) >> b) & 1 == 1 <==> ((word >> b) & 1 == 1 && b
                        != bit)) by (bit_vector)
                        requires
                            b < 64,
                            bit < 64,
                    ;
                }
            }
            if rest != 0 {
                proof {
                    let b = lemma_nonzero_has_bit(rest);
                    let other = 64 * i + b;
                    assert(other / 64 == i && other % 64 == b);
                    assert(self@.contains(other) && other != cpu);
                }
                return true;
            }
            proof {
                assert forall|other: int| 0 <= other < 64 * (i + 1) && other
                    != cpu implies !self@.contains(other) by {
                    if other >= 64 * i {
                        let b = (other % 64) as u64;
                        assert(other / 64 == i);
                        assert(!word_has(rest, b)) by {
                            assert((0u64 >> b) & 1 == 0) by (bit_vector);
                        }
                    }
                }
            }
            i = i + 1;
        }
        assert forall|other: int| self@.contains(other) implies other == cpu by {
            assert(0 <= other < 64 * self.words@.len());
        }
        false
    }
}

/// A mask holds no negative number.
pub proof fn law_mask_holds_no_negative(mask: CpuMask, cpu: int)
    requires
        mask@.contains(cpu),
    ensures
        0 <= cpu,
{
}

} // verus!
