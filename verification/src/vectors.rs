use vstd::prelude::*;

verus! {

/// The state in which every generator starts.
pub const SEED: u32 = 0x243f6a88;

/// How many numbers each sample vector holds.
pub const VECTOR_LENGTH: usize = 16384;

/// The longest slice that is summed in one piece: a longer one is halved.
pub const SPLIT_LIMIT: usize = 32;

/// One round of the generator: three shift-and-xor steps on 32 bits.
pub open spec fn scramble(x: u32) -> u32 {
    let a = x ^ (x << 13);
    let b = a ^ (a >> 17);
    b ^ (b << 5)
}

/// The state of a generator that started in `state` and ran `rounds` rounds,
/// which is also the number it gave last.
pub open spec fn state_after(state: u32, rounds: nat) -> u32
    decreases rounds,
{
    if rounds == 0 {
        state
    } else {
        scramble(state_after(state, (rounds - 1) as nat))
    }
}

/// A xorshift generator of 32-bit numbers.
#[derive(Debug)]
pub struct Xorshift {
    state: u32,
}

impl View for Xorshift {
    type V = u32;

    /// The current state.
    closed spec fn view(&self) -> u32 {
        self.state
    }
}

impl Xorshift {
    /// A generator in the fixed starting state.
    pub fn new() -> (generator: Xorshift)
        ensures
            generator@ == SEED,
    {
        Xorshift { state: SEED }
    }

    /// Runs one round and gives the new state as the next number.
    pub fn next(&mut self) -> (x: u32)
        ensures
            x == scramble(old(self)@),
            final(self)@ == x,
    {
        let mut x = self.state;
        x ^= x << 13;
        x ^= x >> 17;
        x ^= x << 5;
        self.state = x;
        x
    }
}

/// A generator that starts away from zero never reaches zero, so it never
/// gets stuck: zero is the one state that a round maps to itself.
pub proof fn law_generator_never_sticks(state: u32, rounds: nat)
    requires
        state != 0,
    ensures
        state_after(state, rounds) != 0,
    decreases rounds,
{
    if rounds > 0 {
        law_generator_never_sticks(state, (rounds - 1) as nat);
        let x = state_after(state, (rounds - 1) as nat);
        assert(x != 0 ==> scramble(x) != 0) by (bit_vector);
    }
}

/// The two sample vectors of `count` numbers each: a fresh generator deals
/// its numbers out in turn, the first to `a`, the second to `b`, and so on.
pub fn sample_vectors(count: usize) -> (vectors: (Vec<u32>, Vec<u32>))
    ensures
        vectors.0.len() == count,
        vectors.1.len() == count,
        forall|i: int| 0 <= i < count ==> vectors.0[i] == state_after(SEED, (2 * i + 1) as nat),
        forall|i: int| 0 <= i < count ==> vectors.1[i] == state_after(SEED, (2 * i + 2) as nat),
{
    let mut rand = Xorshift::new();
    let mut vector_a: Vec<u32> = Vec::new();
    let mut vector_b: Vec<u32> = Vec::new();
    let mut filled: usize = 0;
    while filled < count
        invariant
            filled <= count,
            vector_a.len() == filled,
            vector_b.len() == filled,
            rand@ == state_after(SEED, (2 * filled) as nat),
            forall|i: int| 0 <= i < filled ==> vector_a[i] == state_after(SEED, (2 * i + 1) as nat),
            forall|i: int| 0 <= i < filled ==> vector_b[i] == state_after(SEED, (2 * i + 2) as nat),
        decreases count - filled,
    {
        let first = rand.next();
        let second = rand.next();
        proof {
            assert(first == state_after(SEED, (2 * filled + 1) as nat));
            assert(second == state_after(SEED, (2 * filled + 2) as nat));
        }
        vector_a.push(first);
        vector_b.push(second);
        filled += 1;
    }
    (vector_a, vector_b)
}

/// Where a slice of `len` numbers is cut before it is summed: in the middle
/// if it is longer than `SPLIT_LIMIT`, nowhere otherwise.
pub fn split_point(len: usize) -> (cut: Option<usize>)
    ensures
        cut == (if len > SPLIT_LIMIT {
            Some((len / 2) as usize)
        } else {
            None
        }),
{
    if len > SPLIT_LIMIT {
        Some(len / 2)
    } else {
        None
    }
}

} // verus!
