use vstd::prelude::*;

verus! {

/// Whether bit `i` of `bits` is set; bit 0 is the least significant.
pub open spec fn bit(bits: u64, i: nat) -> bool {
    i < 64 && (bits >> (i as u64)) & 1 == 1
}

/// The positions of the bits that are set in `bits`.
pub open spec fn members(bits: u64) -> Set<nat> {
    Set::new(|i: nat| bit(bits, i))
}

/// The bits of `bits` below position `n`.
spec fn low(bits: u64, n: nat) -> u64
    recommends
        n <= 64,
{
    if n >= 64 {
        bits
    } else {
        bits & !(u64::MAX << (n as u64))
    }
}

proof fn lemma_low_step(a: u64, b: u64, n: u64)
    by (bit_vector)
    requires
        n < 64,
        a & !(u64::MAX << n) == b & !(u64::MAX << n),
        ((a >> n) & 1 == 1) == ((b >> n) & 1 == 1),
    ensures
        n < 63 ==> a & !(u64::MAX << ((n + 1) as u64)) == b & !(u64::MAX << ((n + 1) as u64)),
        n == 63 ==> a == b,
{
}

proof fn lemma_low_agree(a: u64, b: u64, n: nat)
    requires
        n <= 64,
        forall|i: nat| i < n ==> bit(a, i) == bit(b, i),
    ensures
        low(a, n) == low(b, n),
    decreases n,
{
    if n == 0 {
        assert(a & !(u64::MAX << 0u64) == b & !(u64::MAX << 0u64)) by (bit_vector);
    } else {
        let m = (n - 1) as nat;
        lemma_low_agree(a, b, m);
        assert(bit(a, m) == bit(b, m));
        lemma_low_step(a, b, m as u64);
    }
}

/// Two words with the same members are the same word.
pub proof fn lemma_members_injective(a: u64, b: u64)
    requires
        members(a) == members(b),
    ensures
        a == b,
{
    assert forall|i: nat| i < 64 implies bit(a, i) == bit(b, i) by {
        assert(members(a).contains(i) == bit(a, i));
        assert(members(b).contains(i) == bit(b, i));
    }
    lemma_low_agree(a, b, 64);
}

proof fn lemma_bit_ops(a: u64, b: u64, i: u64)
    by (bit_vector)
    requires
        i < 64,
    ensures
        ((a | b) >> i) & 1 == 1 <==> (a >> i) & 1 == 1 || (b >> i) & 1 == 1,
        ((a & b) >> i) & 1 == 1 <==> (a >> i) & 1 == 1 && (b >> i) & 1 == 1,
        ((a & !b) >> i) & 1 == 1 <==> (a >> i) & 1 == 1 && !((b >> i) & 1 == 1),
        ((a ^ b) >> i) & 1 == 1 <==> ((a >> i) & 1 == 1) != ((b >> i) & 1 == 1),
        (0u64 >> i) & 1 == 0,
{
}

proof fn lemma_bit_of_one(n: u64, i: u64)
    by (bit_vector)
    requires
        n < 64,
        i < 64,
    ensures
        ((1u64 << n) >> i) & 1 == 1 <==> i == n,
{
}

/// The members of `a | b` are those of `a` together with those of `b`.
pub proof fn lemma_members_or(a: u64, b: u64)
    ensures
        members(a | b) == members(a).union(members(b)),
{
    assert forall|i: nat| members(a | b).contains(i) == members(a).union(members(b)).contains(
        i,
    ) by {
        if i < 64 {
            lemma_bit_ops(a, b, i as u64);
        }
    }
    assert(members(a | b) =~= members(a).union(members(b)));
}

/// The members of `a & b` are those that `a` and `b` share.
pub proof fn lemma_members_and(a: u64, b: u64)
    ensures
        members(a & b) == members(a).intersect(members(b)),
{
    assert forall|i: nat| members(a & b).contains(i) == members(a).intersect(
        members(b),
    ).contains(i) by {
        if i < 64 {
            lemma_bit_ops(a, b, i as u64);
        }
    }
    assert(members(a & b) =~= members(a).intersect(members(b)));
}

/// The members of `a & !b` are those of `a` that `b` lacks.
pub proof fn lemma_members_and_not(a: u64, b: u64)
    ensures
        members(a & !b) == members(a).difference(members(b)),
{
    assert forall|i: nat| members(a & !b).contains(i) == members(a).difference(
        members(b),
    ).contains(i) by {
        if i < 64 {
            lemma_bit_ops(a, b, i as u64);
        }
    }
    assert(members(a & !b) =~= members(a).difference(members(b)));
}

/// The members of `a ^ b` are those that exactly one of `a` and `b` has.
pub proof fn lemma_members_xor(a: u64, b: u64)
    ensures
        members(a ^ b) == members(a).difference(members(b)).union(
            members(b).difference(members(a)),
        ),
{
    let rhs = members(a).difference(members(b)).union(members(b).difference(members(a)));
    assert forall|i: nat| members(a ^ b).contains(i) == rhs.contains(i) by {
        if i < 64 {
            lemma_bit_ops(a, b, i as u64);
        }
    }
    assert(members(a ^ b) =~= rhs);
}

/// No bit is a member of the zero word, and only the zero word has no member.
pub proof fn lemma_members_zero(a: u64)
    ensures
        members(0) == Set::<nat>::empty(),
        a == 0 <==> members(a) == Set::<nat>::empty(),
{
    assert forall|i: nat| !members(0).contains(i) by {
        if i < 64 {
            lemma_bit_ops(0, 0, i as u64);
        }
    }
    assert(members(0) =~= Set::<nat>::empty());
    if members(a) == Set::<nat>::empty() {
        lemma_members_injective(a, 0);
    }
}

/// The word `1 << n` has the one member `n`.
pub proof fn lemma_members_one_bit(n: u64)
    requires
        n < 64,
    ensures
        members(1u64 << n) == set![n as nat],
{
    assert forall|i: nat| members(1u64 << n).contains(i) == set![n as nat].contains(i) by {
        if i < 64 {
            lemma_bit_of_one(n, i as u64);
        }
    }
    assert(members(1u64 << n) =~= set![n as nat]);
}

/// `a` holds every bit of `b` exactly when the members of `b` are among those of `a`.
pub proof fn lemma_members_subset(a: u64, b: u64)
    ensures
        a & b == b <==> members(b).subset_of(members(a)),
{
    lemma_members_and(a, b);
    if a & b == b {
        assert(members(b) =~= members(a).intersect(members(b)));
    }
    if members(b).subset_of(members(a)) {
        assert(members(a).intersect(members(b)) =~= members(b));
        lemma_members_injective(a & b, b);
    }
}

/// `a` and `b` share a bit exactly when their members are not disjoint.
pub proof fn lemma_members_disjoint(a: u64, b: u64)
    ensures
        a & b == 0 <==> members(a).disjoint(members(b)),
{
    lemma_members_and(a, b);
    lemma_members_zero(a & b);
    if members(a).disjoint(members(b)) {
        assert(members(a).intersect(members(b)) =~= Set::<nat>::empty());
    }
    if a & b == 0 {
        assert forall|i: nat| !(members(a).contains(i) && members(b).contains(i)) by {
            assert(!members(a).intersect(members(b)).contains(i));
        }
    }
}

} // verus!
