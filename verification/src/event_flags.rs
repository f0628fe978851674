//! The set of event kinds that a registration is interested in, packed into
//! one machine word.
use vstd::prelude::*;

verus! {

/// Bit of [`Flag::Timeout`].
pub const FLAG_TIMEOUT: u64 = 0b0_0000_0001;

/// Bit of [`Flag::Read`].
pub const FLAG_READ: u64 = 0b0_0000_0010;

/// Bit of [`Flag::Write`].
pub const FLAG_WRITE: u64 = 0b0_0000_0100;

/// Bit of [`Flag::Persist`].
pub const FLAG_PERSIST: u64 = 0b0_0000_1000;

/// Bit of [`Flag::Error`].
pub const FLAG_ERROR: u64 = 0b0_0001_0000;

/// Bit of [`Flag::Accept`].
pub const FLAG_ACCEPT: u64 = 0b0_0010_0000;

/// Bit of [`Flag::Ended`].
pub const FLAG_ENDED: u64 = 0b0_0100_0000;

/// Bit of [`Flag::ReadPersist`].
pub const FLAG_READ_PERSIST: u64 = 0b0_1000_0000;

/// Bit of [`Flag::WritePersist`].
pub const FLAG_WRITE_PERSIST: u64 = 0b1_0000_0000;

/// Every defined bit.
pub const FLAG_ALL: u64 = 0b1_1111_1111;

/// One kind of event.
#[derive(Clone, Copy, Debug, PartialEq, Eq, Hash, Structural)]
pub enum Flag {
    /// The entry is a timer.
    Timeout,
    /// Interest in input.
    Read,
    /// Interest in output.
    Write,
    /// The interest is armed again after each delivery.
    Persist,
    /// An error was seen.
    Error,
    /// The entry is a listener.
    Accept,
    /// Sentinel of the completion backend: the registration is over.
    Ended,
    /// Read interest alone is armed again after each delivery.
    ReadPersist,
    /// Write interest alone is armed again after each delivery.
    WritePersist,
}

/// The bit that stands for a flag.
pub open spec fn mask_of(flag: Flag) -> u64 {
    match flag {
        Flag::Timeout => FLAG_TIMEOUT,
        Flag::Read => FLAG_READ,
        Flag::Write => FLAG_WRITE,
        Flag::Persist => FLAG_PERSIST,
        Flag::Error => FLAG_ERROR,
        Flag::Accept => FLAG_ACCEPT,
        Flag::Ended => FLAG_ENDED,
        Flag::ReadPersist => FLAG_READ_PERSIST,
        Flag::WritePersist => FLAG_WRITE_PERSIST,
    }
}

/// Whether the bit of `flag` is set in `bits`.
pub open spec fn bit_set(bits: u64, flag: Flag) -> bool {
    bits & mask_of(flag) == mask_of(flag)
}

/// The flags whose bits are set in `bits`.
pub open spec fn flags_of(bits: u64) -> Set<Flag> {
    Set::new(|flag: Flag| bit_set(bits, flag))
}

/// A set of [`Flag`]s. Its view is that set; only defined bits are ever set.
#[derive(Clone, Copy, Debug, PartialEq, Eq, Hash, Structural)]
pub struct EventFlags {
    bits: u64,
}

impl View for EventFlags {
    type V = Set<Flag>;

    closed spec fn view(&self) -> Set<Flag> {
        flags_of(self.bits)
    }
}

proof fn lemma_or(a: u64, b: u64)
    by (bit_vector)
    ensures
        ((a | b) & 0x001 == 0x001) == ((a & 0x001 == 0x001) || (b & 0x001 == 0x001)),
        ((a | b) & 0x002 == 0x002) == ((a & 0x002 == 0x002) || (b & 0x002 == 0x002)),
        ((a | b) & 0x004 == 0x004) == ((a & 0x004 == 0x004) || (b & 0x004 == 0x004)),
        ((a | b) & 0x008 == 0x008) == ((a & 0x008 == 0x008) || (b & 0x008 == 0x008)),
        ((a | b) & 0x010 == 0x010) == ((a & 0x010 == 0x010) || (b & 0x010 == 0x010)),
        ((a | b) & 0x020 == 0x020) == ((a & 0x020 == 0x020) || (b & 0x020 == 0x020)),
        ((a | b) & 0x040 == 0x040) == ((a & 0x040 == 0x040) || (b & 0x040 == 0x040)),
        ((a | b) & 0x080 == 0x080) == ((a & 0x080 == 0x080) || (b & 0x080 == 0x080)),
        ((a | b) & 0x100 == 0x100) == ((a & 0x100 == 0x100) || (b & 0x100 == 0x100)),
        (a & !0x1ffu64 == 0 && b & !0x1ffu64 == 0) ==> (a | b) & !0x1ffu64 == 0,
{
}

proof fn lemma_and(a: u64, b: u64)
    by (bit_vector)
    ensures
        ((a & b) & 0x001 == 0x001) == ((a & 0x001 == 0x001) && (b & 0x001 == 0x001)),
        ((a & b) & 0x002 == 0x002) == ((a & 0x002 == 0x002) && (b & 0x002 == 0x002)),
        ((a & b) & 0x004 == 0x004) == ((a & 0x004 == 0x004) && (b & 0x004 == 0x004)),
        ((a & b) & 0x008 == 0x008) == ((a & 0x008 == 0x008) && (b & 0x008 == 0x008)),
        ((a & b) & 0x010 == 0x010) == ((a & 0x010 == 0x010) && (b & 0x010 == 0x010)),
        ((a & b) & 0x020 == 0x020) == ((a & 0x020 == 0x020) && (b & 0x020 == 0x020)),
        ((a & b) & 0x040 == 0x040) == ((a & 0x040 == 0x040) && (b & 0x040 == 0x040)),
        ((a & b) & 0x080 == 0x080) == ((a & 0x080 == 0x080) && (b & 0x080 == 0x080)),
        ((a & b) & 0x100 == 0x100) == ((a & 0x100 == 0x100) && (b & 0x100 == 0x100)),
        a & !0x1ffu64 == 0 ==> (a & b) & !0x1ffu64 == 0,
{
}

proof fn lemma_and_not(a: u64, b: u64)
    by (bit_vector)
    ensures
        ((a & !b) & 0x001 == 0x001) == ((a & 0x001 == 0x001) && !(b & 0x001 == 0x001)),
        ((a & !b) & 0x002 == 0x002) == ((a & 0x002 == 0x002) && !(b & 0x002 == 0x002)),
        ((a & !b) & 0x004 == 0x004) == ((a & 0x004 == 0x004) && !(b & 0x004 == 0x004)),
        ((a & !b) & 0x008 == 0x008) == ((a & 0x008 == 0x008) && !(b & 0x008 == 0x008)),
        ((a & !b) & 0x010 == 0x010) == ((a & 0x010 == 0x010) && !(b & 0x010 == 0x010)),
        ((a & !b) & 0x020 == 0x020) == ((a & 0x020 == 0x020) && !(b & 0x020 == 0x020)),
        ((a & !b) & 0x040 == 0x040) == ((a & 0x040 == 0x040) && !(b & 0x040 == 0x040)),
        ((a & !b) & 0x080 == 0x080) == ((a & 0x080 == 0x080) && !(b & 0x080 == 0x080)),
        ((a & !b) & 0x100 == 0x100) == ((a & 0x100 == 0x100) && !(b & 0x100 == 0x100)),
        a & !0x1ffu64 == 0 ==> (a & !b) & !0x1ffu64 == 0,
{
}

/// A word without undefined bits is determined by its nine defined bits.
proof fn lemma_bits_determined(a: u64, b: u64)
    by (bit_vector)
    requires
        a & !0x1ffu64 == 0,
        b & !0x1ffu64 == 0,
        (a & 0x001 == 0x001) == (b & 0x001 == 0x001),
        (a & 0x002 == 0x002) == (b & 0x002 == 0x002),
        (a & 0x004 == 0x004) == (b & 0x004 == 0x004),
        (a & 0x008 == 0x008) == (b & 0x008 == 0x008),
        (a & 0x010 == 0x010) == (b & 0x010 == 0x010),
        (a & 0x020 == 0x020) == (b & 0x020 == 0x020),
        (a & 0x040 == 0x040) == (b & 0x040 == 0x040),
        (a & 0x080 == 0x080) == (b & 0x080 == 0x080),
        (a & 0x100 == 0x100) == (b & 0x100 == 0x100),
    ensures
        a == b,
{
}

/// `a & b == b` says that every defined bit of `b` is set in `a`.
proof fn lemma_covers(a: u64, b: u64)
    by (bit_vector)
    requires
        b & !0x1ffu64 == 0,
    ensures
        (a & b == b) == ({
            &&& ((b & 0x001 == 0x001) ==> (a & 0x001 == 0x001))
            &&& ((b & 0x002 == 0x002) ==> (a & 0x002 == 0x002))
            &&& ((b & 0x004 == 0x004) ==> (a & 0x004 == 0x004))
            &&& ((b & 0x008 == 0x008) ==> (a & 0x008 == 0x008))
            &&& ((b & 0x010 == 0x010) ==> (a & 0x010 == 0x010))
            &&& ((b & 0x020 == 0x020) ==> (a & 0x020 == 0x020))
            &&& ((b & 0x040 == 0x040) ==> (a & 0x040 == 0x040))
            &&& ((b & 0x080 == 0x080) ==> (a & 0x080 == 0x080))
            &&& ((b & 0x100 == 0x100) ==> (a & 0x100 == 0x100))
        }),
{
}

/// A word without undefined bits is zero exactly when none of its defined
/// bits is set.
proof fn lemma_zero(a: u64)
    by (bit_vector)
    requires
        a & !0x1ffu64 == 0,
    ensures
        (a == 0) == ({
            &&& !(a & 0x001 == 0x001)
            &&& !(a & 0x002 == 0x002)
            &&& !(a & 0x004 == 0x004)
            &&& !(a & 0x008 == 0x008)
            &&& !(a & 0x010 == 0x010)
            &&& !(a & 0x020 == 0x020)
            &&& !(a & 0x040 == 0x040)
            &&& !(a & 0x080 == 0x080)
            &&& !(a & 0x100 == 0x100)
        }),
{
}

proof fn lemma_constants()
    by (bit_vector)
    ensures
        0u64 & !0x1ffu64 == 0,
        0x1ffu64 & !0x1ffu64 == 0,
        0x001u64 & !0x1ffu64 == 0,
        0x002u64 & !0x1ffu64 == 0,
        0x004u64 & !0x1ffu64 == 0,
        0x008u64 & !0x1ffu64 == 0,
        0x010u64 & !0x1ffu64 == 0,
        0x020u64 & !0x1ffu64 == 0,
        0x040u64 & !0x1ffu64 == 0,
        0x080u64 & !0x1ffu64 == 0,
        0x100u64 & !0x1ffu64 == 0,
        0x1ffu64 & 0x001 == 0x001,
        0x1ffu64 & 0x002 == 0x002,
        0x1ffu64 & 0x004 == 0x004,
        0x1ffu64 & 0x008 == 0x008,
        0x1ffu64 & 0x010 == 0x010,
        0x1ffu64 & 0x020 == 0x020,
        0x1ffu64 & 0x040 == 0x040,
        0x1ffu64 & 0x080 == 0x080,
        0x1ffu64 & 0x100 == 0x100,
        forall|a: u64| a & 0x1ff == a <==> a & !0x1ffu64 == 0,
        forall|a: u64| #![auto] (a & 0x1ff) & !0x1ffu64 == 0,
{
}

/// Which defined bits a one-bit word has.
proof fn lemma_single(m: u64)
    by (bit_vector)
    requires
        m == 0x001 || m == 0x002 || m == 0x004 || m == 0x008 || m == 0x010 || m == 0x020 || m
            == 0x040 || m == 0x080 || m == 0x100,
    ensures
        (m & 0x001 == 0x001) == (m == 0x001),
        (m & 0x002 == 0x002) == (m == 0x002),
        (m & 0x004 == 0x004) == (m == 0x004),
        (m & 0x008 == 0x008) == (m == 0x008),
        (m & 0x010 == 0x010) == (m == 0x010),
        (m & 0x020 == 0x020) == (m == 0x020),
        (m & 0x040 == 0x040) == (m == 0x040),
        (m & 0x080 == 0x080) == (m == 0x080),
        (m & 0x100 == 0x100) == (m == 0x100),
        m & !0x1ffu64 == 0,
{
}

/// A property holds of every flag exactly when it holds of each of the nine.
proof fn lemma_each_flag(p: spec_fn(Flag) -> bool)
    ensures
        (forall|flag: Flag| #[trigger] p(flag)) == ({
            &&& p(Flag::Timeout)
            &&& p(Flag::Read)
            &&& p(Flag::Write)
            &&& p(Flag::Persist)
            &&& p(Flag::Error)
            &&& p(Flag::Accept)
            &&& p(Flag::Ended)
            &&& p(Flag::ReadPersist)
            &&& p(Flag::WritePersist)
        }),
{
    if p(Flag::Timeout) && p(Flag::Read) && p(Flag::Write) && p(Flag::Persist) && p(Flag::Error)
        && p(Flag::Accept) && p(Flag::Ended) && p(Flag::ReadPersist) && p(Flag::WritePersist) {
        assert forall|flag: Flag| #[trigger] p(flag) by {
            match flag {
                Flag::Timeout => {},
                Flag::Read => {},
                Flag::Write => {},
                Flag::Persist => {},
                Flag::Error => {},
                Flag::Accept => {},
                Flag::Ended => {},
                Flag::ReadPersist => {},
                Flag::WritePersist => {},
            }
        }
    }
}

impl EventFlags {
    /// No undefined bit is set. This holds of every value that the library
    /// hands out.
    #[verifier::type_invariant]
    pub closed spec fn wf(self) -> bool {
        self.bits & !FLAG_ALL == 0
    }

    /// The word that holds the flags.
    pub closed spec fn spec_bits(self) -> u64 {
        self.bits
    }

    /// Whether `flag` is in the set.
    pub open spec fn has(self, flag: Flag) -> bool {
        self@.contains(flag)
    }

    /// Two sets with the same flags are the same value.
    pub proof fn lemma_view_injective(self, other: EventFlags)
        requires
            self.wf(),
            other.wf(),
            self@ == other@,
        ensures
            self == other,
    {
        assert(forall|flag: Flag| bit_set(self.bits, flag) == self@.contains(flag));
        assert(forall|flag: Flag| bit_set(other.bits, flag) == other@.contains(flag));
        assert(bit_set(self.bits, Flag::Timeout) == bit_set(other.bits, Flag::Timeout));
        assert(bit_set(self.bits, Flag::Read) == bit_set(other.bits, Flag::Read));
        assert(bit_set(self.bits, Flag::Write) == bit_set(other.bits, Flag::Write));
        assert(bit_set(self.bits, Flag::Persist) == bit_set(other.bits, Flag::Persist));
        assert(bit_set(self.bits, Flag::Error) == bit_set(other.bits, Flag::Error));
        assert(bit_set(self.bits, Flag::Accept) == bit_set(other.bits, Flag::Accept));
        assert(bit_set(self.bits, Flag::Ended) == bit_set(other.bits, Flag::Ended));
        assert(bit_set(self.bits, Flag::ReadPersist) == bit_set(other.bits, Flag::ReadPersist));
        assert(bit_set(self.bits, Flag::WritePersist) == bit_set(other.bits, Flag::WritePersist));
        lemma_bits_determined(self.bits, other.bits);
    }

    /// The empty set.
    pub fn empty() -> (r: EventFlags)
        ensures
            r.wf(),
            r@ == Set::<Flag>::empty(),
            r.spec_bits() == 0,
    {
        proof {
            lemma_constants();
            lemma_zero(0);
            assert(flags_of(0) =~= Set::<Flag>::empty());
        }
        EventFlags { bits: 0 }
    }

    /// Every flag.
    pub fn all() -> (r: EventFlags)
        ensures
            r.wf(),
            r@ == Set::<Flag>::full(),
            r.spec_bits() == FLAG_ALL,
    {
        proof {
            lemma_constants();
            assert(flags_of(FLAG_ALL) =~= Set::<Flag>::full());
        }
        EventFlags { bits: FLAG_ALL }
    }

    /// The set that holds `flag` alone.
    pub fn single(flag: Flag) -> (r: EventFlags)
        ensures
            r.wf(),
            r@ == set![flag],
            r.spec_bits() == mask_of(flag),
    {
        let bits: u64 = match flag {
            Flag::Timeout => FLAG_TIMEOUT,
            Flag::Read => FLAG_READ,
            Flag::Write => FLAG_WRITE,
            Flag::Persist => FLAG_PERSIST,
            Flag::Error => FLAG_ERROR,
            Flag::Accept => FLAG_ACCEPT,
            Flag::Ended => FLAG_ENDED,
            Flag::ReadPersist => FLAG_READ_PERSIST,
            Flag::WritePersist => FLAG_WRITE_PERSIST,
        };
        proof {
            lemma_single(bits);
            assert(flags_of(bits) =~= set![flag]);
        }
        EventFlags { bits }
    }

    /// The word that holds the flags.
    pub fn bits(&self) -> (r: u64)
        ensures
            r == self.spec_bits(),
    {
        self.bits
    }

    /// The set whose word is `bits`, if `bits` has no undefined bit.
    pub fn from_bits(bits: u64) -> (r: Option<EventFlags>)
        ensures
            r is Some <==> bits & FLAG_ALL == bits,
            r is Some ==> r.unwrap().wf() && r.unwrap().spec_bits() == bits && r.unwrap()@
                == flags_of(bits),
    {
        if bits & FLAG_ALL == bits {
            proof {
                lemma_constants();
            }
            Some(EventFlags { bits })
        } else {
            None
        }
    }

    /// The set of the defined bits of `bits`; the others are dropped.
    pub fn from_bits_truncate(bits: u64) -> (r: EventFlags)
        ensures
            r.wf(),
            r.spec_bits() == bits & FLAG_ALL,
            r@ == flags_of(bits),
    {
        proof {
            lemma_constants();
            lemma_and(bits, FLAG_ALL);
            assert(flags_of(bits & FLAG_ALL) =~= flags_of(bits));
        }
        EventFlags { bits: bits & FLAG_ALL }
    }

    /// Whether the set is empty.
    pub fn is_empty(&self) -> (r: bool)
        ensures
            r == (self@ == Set::<Flag>::empty()),
    {
        proof {
            use_type_invariant(self);
            lemma_zero(self.bits);
            if self.bits == 0 {
                assert(self@ =~= Set::<Flag>::empty());
            } else {
                assert(bit_set(self.bits, Flag::Timeout) == self@.contains(Flag::Timeout));
                assert(bit_set(self.bits, Flag::Read) == self@.contains(Flag::Read));
                assert(bit_set(self.bits, Flag::Write) == self@.contains(Flag::Write));
                assert(bit_set(self.bits, Flag::Persist) == self@.contains(Flag::Persist));
                assert(bit_set(self.bits, Flag::Error) == self@.contains(Flag::Error));
                assert(bit_set(self.bits, Flag::Accept) == self@.contains(Flag::Accept));
                assert(bit_set(self.bits, Flag::Ended) == self@.contains(Flag::Ended));
                assert(bit_set(self.bits, Flag::ReadPersist) == self@.contains(
                    Flag::ReadPersist,
                ));
                assert(bit_set(self.bits, Flag::WritePersist) == self@.contains(
                    Flag::WritePersist,
                ));
            }
        }
        self.bits == 0
    }

    /// Whether every flag of `other` is in the set.
    pub fn contains(&self, other: EventFlags) -> (r: bool)
        ensures
            r == other@.subset_of(self@),
    {
        proof {
            use_type_invariant(&other);
            lemma_covers(self.bits, other.bits);
            let covered = |flag: Flag| bit_set(other.bits, flag) ==> bit_set(self.bits, flag);
            lemma_each_flag(covered);
            if other@.subset_of(self@) {
                assert forall|flag: Flag| #[trigger] covered(flag) by {
                    assert(other@.contains(flag) ==> self@.contains(flag));
                }
            } else {
                let flag = choose|flag: Flag| other@.contains(flag) && !self@.contains(flag);
                assert(!covered(flag));
            }
        }
        self.bits & other.bits == other.bits
    }

    /// Whether `flag` is in the set.
    pub fn has_flag(&self, flag: Flag) -> (r: bool)
        ensures
            r == self@.contains(flag),
    {
        let one = EventFlags::single(flag);
        self.contains(one)
    }

    /// Whether the set and `other` share a flag.
    pub fn intersects(&self, other: EventFlags) -> (r: bool)
        ensures
            r == !self@.disjoint(other@),
    {
        proof {
            use_type_invariant(self);
            lemma_and(self.bits, other.bits);
            lemma_zero(self.bits & other.bits);
            let both = self.bits & other.bits;
            if both == 0 {
                assert forall|flag: Flag| !(self@.contains(flag) && other@.contains(flag)) by {
                    assert(bit_set(both, flag) == (bit_set(self.bits, flag) && bit_set(
                        other.bits,
                        flag,
                    )));
                }
            } else {
                let flag = choose|flag: Flag| bit_set(both, flag);
                assert(bit_set(both, Flag::Timeout) || bit_set(both, Flag::Read) || bit_set(
                    both,
                    Flag::Write,
                ) || bit_set(both, Flag::Persist) || bit_set(both, Flag::Error) || bit_set(
                    both,
                    Flag::Accept,
                ) || bit_set(both, Flag::Ended) || bit_set(both, Flag::ReadPersist) || bit_set(
                    both,
                    Flag::WritePersist,
                ));
                assert(bit_set(both, flag));
                assert(self@.contains(flag) && other@.contains(flag));
            }
        }
        self.bits & other.bits != 0
    }

    /// Adds the flags of `other`.
    pub fn insert(&mut self, other: EventFlags)
        ensures
            final(self).wf(),
            final(self)@ == old(self)@.union(other@),
    {
        proof {
            use_type_invariant(&*self);
            use_type_invariant(&other);
            lemma_or(self.bits, other.bits);
            assert(flags_of(self.bits | other.bits) =~= flags_of(self.bits).union(
                flags_of(other.bits),
            ));
        }
        self.bits = self.bits | other.bits;
    }

    /// Takes the flags of `other` out.
    pub fn remove(&mut self, other: EventFlags)
        ensures
            final(self).wf(),
            final(self)@ == old(self)@.difference(other@),
    {
        proof {
            use_type_invariant(&*self);
            lemma_and_not(self.bits, other.bits);
            assert(flags_of(self.bits & !other.bits) =~= flags_of(self.bits).difference(
                flags_of(other.bits),
            ));
        }
        self.bits = self.bits & !other.bits;
    }

    /// The flags of either set.
    pub fn union(self, other: EventFlags) -> (r: EventFlags)
        ensures
            r.wf(),
            r@ == self@.union(other@),
    {
        proof {
            use_type_invariant(&self);
            use_type_invariant(&other);
            lemma_or(self.bits, other.bits);
            assert(flags_of(self.bits | other.bits) =~= flags_of(self.bits).union(
                flags_of(other.bits),
            ));
        }
        EventFlags { bits: self.bits | other.bits }
    }
}

} // verus!
