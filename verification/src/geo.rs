//! The integer plan of a random point cloud: which bytes of the entropy pool
//! seed each point and each anomaly centre, how many anomaly centres there
//! are, and which point is pulled towards an attractor or pushed away from a
//! void. The spherical geometry that turns a 16-byte seed into a coordinate
//! works on floating point and stays with the caller.

use vstd::prelude::*;

verus! {

/// Which rules shaped a plan; they differ in how strongly points move.
#[derive(Clone, Copy, Debug, PartialEq, Eq, Structural)]
pub enum CloudStyle {
    /// Anomaly centres drawn from the entropy pool itself.
    Natural,
    /// Anomaly centres drawn from the hash of an intent.
    Intended,
}

/// What happens to one point after it is placed: the attractor it is pulled
/// towards and the void it is pushed away from, by index, if any.
#[derive(Clone, Copy, Debug)]
pub struct PointMove {
    pub pull: Option<usize>,
    pub push: Option<usize>,
}

/// The plan of a point cloud of `moves.len()` points. Point `i` is seeded by
/// bytes `16 * i .. 16 * i + 16` of `pool`.
pub struct CloudPlan {
    pub style: CloudStyle,
    pub pool: Vec<u8>,
    pub attractor_seeds: Vec<Vec<u8>>,
    pub void_seeds: Vec<Vec<u8>>,
    pub moves: Vec<PointMove>,
}

/// The views of a list of byte vectors.
pub open spec fn seeds_view(v: Seq<Vec<u8>>) -> Seq<Seq<u8>> {
    v.map_values(|x: Vec<u8>| x@)
}

/// The 16 bytes of `pool` that seed point (or chunk) `i`.
pub open spec fn chunk(pool: Seq<u8>, i: int) -> Seq<u8> {
    pool.subrange(16 * i, 16 * i + 16)
}

// ---------------------------------------------------------------- natural

/// How many attractors a natural cloud of `count` points has: none for 32
/// points or fewer; otherwise one, two or none as the first pool byte modulo
/// 100 is below 35, below 45, or not.
pub open spec fn natural_attractor_count(pool: Seq<u8>, count: nat) -> nat {
    if count > 32 {
        let roll = pool[0] % 100;
        if roll < 35 {
            1
        } else if roll < 45 {
            2
        } else {
            0
        }
    } else {
        0
    }
}

/// How many voids a natural cloud of `count` points has: one when it has more
/// than 32 points and the second pool byte modulo 100 is below 25.
pub open spec fn natural_void_count(pool: Seq<u8>, count: nat) -> nat {
    if count > 32 && pool[1] % 100 < 25 {
        1
    } else {
        0
    }
}

/// The move of point `i` of a natural cloud: pulled towards the first
/// attractor when its first seed byte modulo 100 is below 8, pushed from the
/// first void when its second seed byte modulo 100 is below 10.
pub open spec fn natural_move(pool: Seq<u8>, i: int, attractors: nat, voids: nat) -> PointMove {
    PointMove {
        pull: if pool[16 * i] % 100 < 8 && attractors > 0 { Some(0usize) } else { None },
        push: if pool[16 * i + 1] % 100 < 10 && voids > 0 { Some(0usize) } else { None },
    }
}

/// The plan of a natural cloud of `count` points over the entropy `pool`.
pub open spec fn natural_plan_matches(plan: CloudPlan, pool: Seq<u8>, count: nat) -> bool {
    let na = natural_attractor_count(pool, count);
    let nv = natural_void_count(pool, count);
    &&& plan.style == CloudStyle::Natural
    &&& plan.pool@ == pool
    &&& seeds_view(plan.attractor_seeds@) == Seq::new(na, |i: int| chunk(pool, i + 1))
    &&& seeds_view(plan.void_seeds@) == Seq::new(nv, |i: int| chunk(pool, i + 3))
    &&& plan.moves@ == Seq::new(count, |i: int| natural_move(pool, i, na, nv))
}

/// Copies bytes `start .. start + 16` of `src` into a new vector.
fn copy_chunk(src: &Vec<u8>, start: usize) -> (r: Vec<u8>)
    requires
        start + 16 <= src@.len(),
    ensures
        r@ == src@.subrange(start as int, start + 16),
{
    let mut r: Vec<u8> = Vec::with_capacity(16);
    let mut j: usize = 0;
    assert(src@.len() == src.len());
    while j < 16
        invariant
            j <= 16,
            start + 16 <= usize::MAX,
            start + 16 <= src@.len(),
            r@ == src@.subrange(start as int, start + j),
        decreases 16 - j,
    {
        r.push(src[start + j]);
        j = j + 1;
        assert(r@ =~= src@.subrange(start as int, start + j));
    }
    r
}

/// The plan of a point cloud of `count` points whose anomalies come from the
/// entropy pool: up to two attractors and one void, seeded by the pool's
/// second to fourth 16-byte chunks.
pub fn plan_point_cloud(pool: Vec<u8>, count: usize) -> (plan: CloudPlan)
    requires
        pool@.len() == 16 * count,
    ensures
        natural_plan_matches(plan, pool@, count as nat),
{
    let mut na: usize = 0;
    let mut nv: usize = 0;
    if count > 32 {
        let roll = pool[0] % 100;
        na = if roll < 35 { 1 } else if roll < 45 { 2 } else { 0 };
        if pool[1] % 100 < 25 {
            nv = 1;
        }
    }
    assert(na == natural_attractor_count(pool@, count as nat));
    assert(nv == natural_void_count(pool@, count as nat));
    let mut attractor_seeds: Vec<Vec<u8>> = Vec::new();
    for i in 0..na
        invariant
            na <= 2,
            na > 0 ==> count > 32,
            pool@.len() == 16 * count,
            seeds_view(attractor_seeds@) == Seq::new(i as nat, |k: int| chunk(pool@, k + 1)),
    {
        let c = copy_chunk(&pool, (i + 1) * 16);
        let ghost before = attractor_seeds@;
        attractor_seeds.push(c);
        assert(attractor_seeds@ == before.push(c));
        assert(seeds_view(attractor_seeds@) =~= seeds_view(before).push(c@));
        assert(seeds_view(attractor_seeds@) =~= Seq::new((i + 1) as nat, |k: int| chunk(pool@, k + 1)));
    }
    let mut void_seeds: Vec<Vec<u8>> = Vec::new();
    for i in 0..nv
        invariant
            nv <= 1,
            nv > 0 ==> count > 32,
            pool@.len() == 16 * count,
            seeds_view(void_seeds@) == Seq::new(i as nat, |k: int| chunk(pool@, k + 3)),
    {
        let c = copy_chunk(&pool, (i + 3) * 16);
        let ghost before = void_seeds@;
        void_seeds.push(c);
        assert(seeds_view(void_seeds@) =~= seeds_view(before).push(c@));
        assert(seeds_view(void_seeds@) =~= Seq::new((i + 1) as nat, |k: int| chunk(pool@, k + 3)));
    }
    let mut moves: Vec<PointMove> = Vec::with_capacity(count);
    assert(pool@.len() == pool.len());
    for i in 0..count
        invariant
            pool@.len() == 16 * count,
            16 * count <= usize::MAX,
            na == natural_attractor_count(pool@, count as nat),
            nv == natural_void_count(pool@, count as nat),
            moves@ == Seq::new(i as nat, |k: int| natural_move(pool@, k, na as nat, nv as nat)),
    {
        let offset = i * 16;
        let pull = if pool[offset] % 100 < 8 && na > 0 { Some(0usize) } else { None };
        let push = if pool[offset + 1] % 100 < 10 && nv > 0 { Some(0usize) } else { None };
        moves.push(PointMove { pull, push });
        assert(moves@ =~= Seq::new((i + 1) as nat, |k: int| natural_move(pool@, k, na as nat, nv as nat)));
    }
    CloudPlan { style: CloudStyle::Natural, pool, attractor_seeds, void_seeds, moves }
}

// ---------------------------------------------------------------- intended

/// The entropy pool mixed with an intent key: every byte is XORed with the
/// key byte at its position modulo 32.
pub open spec fn xor_with_key(pool: Seq<u8>, key: Seq<u8>) -> Seq<u8> {
    Seq::new(pool.len(), |i: int| pool[i] ^ key[i % 32])
}

/// Sixteen key bytes read cyclically from position `start`.
pub open spec fn key_seed(key: Seq<u8>, start: int) -> Seq<u8> {
    Seq::new(16, |j: int| key[(start + j) % 32])
}

/// How many attractors an intended cloud has: the first key byte modulo 4.
pub open spec fn intended_attractor_count(key: Seq<u8>) -> nat {
    (key[0] % 4) as nat
}

/// How many voids an intended cloud has: the second key byte modulo 3.
pub open spec fn intended_void_count(key: Seq<u8>) -> nat {
    (key[1] % 3) as nat
}

/// The move of point `i` of an intended cloud over the mixed pool: pulled
/// towards attractor `seed[1] % attractors` when `seed[0] % 100 < 15`, pushed
/// from void `seed[3] % voids` when `seed[2] % 100 < 15`.
pub open spec fn intended_move(mixed: Seq<u8>, i: int, attractors: nat, voids: nat) -> PointMove {
    PointMove {
        pull: if mixed[16 * i] % 100 < 15 && attractors > 0 {
            Some((mixed[16 * i + 1] as nat % attractors) as usize)
        } else {
            None
        },
        push: if mixed[16 * i + 2] % 100 < 15 && voids > 0 {
            Some((mixed[16 * i + 3] as nat % voids) as usize)
        } else {
            None
        },
    }
}

/// The plan of an intended cloud of `count` points over the entropy `pool`
/// and the intent key `key`.
pub open spec fn intended_plan_matches(plan: CloudPlan, pool: Seq<u8>, key: Seq<u8>, count: nat) -> bool {
    let mixed = xor_with_key(pool, key);
    let na = intended_attractor_count(key);
    let nv = intended_void_count(key);
    &&& plan.style == CloudStyle::Intended
    &&& plan.pool@ == mixed
    &&& seeds_view(plan.attractor_seeds@) == Seq::new(na, |i: int| key_seed(key, 4 * i))
    &&& seeds_view(plan.void_seeds@) == Seq::new(nv, |i: int| key_seed(key, 16 + 4 * i))
    &&& plan.moves@ == Seq::new(count, |i: int| intended_move(mixed, i, na, nv))
}

/// XORs every byte of `pool` with the key byte at its position modulo 32.
pub fn mix_intent(pool: &mut Vec<u8>, key: &[u8; 32])
    ensures
        final(pool)@ == xor_with_key(old(pool)@, key@),
{
    let n = pool.len();
    let mut i: usize = 0;
    while i < n
        invariant
            n == pool@.len(),
            old(pool)@.len() == n,
            forall|k: int| 0 <= k < i ==> pool@[k] == old(pool)@[k] ^ key@[k % 32],
            forall|k: int| i <= k < n ==> pool@[k] == old(pool)@[k],
        decreases n - i,
    {
        let b = pool[i] ^ key[i % 32];
        pool.set(i, b);
        i = i + 1;
    }
    assert(pool@ =~= xor_with_key(old(pool)@, key@));
}

/// Mixing a pool with the same intent key twice gives the pool back.
pub proof fn lemma_mix_intent_involution(pool: Seq<u8>, key: Seq<u8>)
    requires
        key.len() == 32,
    ensures
        xor_with_key(xor_with_key(pool, key), key) == pool,
{
    assert forall|i: int| 0 <= i < pool.len() implies #[trigger] xor_with_key(xor_with_key(pool, key), key)[i] == pool[i] by {
        let a = pool[i];
        let b = key[i % 32];
        assert((a ^ b) ^ b == a) by (bit_vector);
    }
    assert(xor_with_key(xor_with_key(pool, key), key) =~= pool);
}

/// Sixteen bytes of `key` read cyclically from position `start`.
fn copy_key_seed(key: &[u8; 32], start: usize) -> (r: Vec<u8>)
    requires
        start < 32,
    ensures
        r@ == key_seed(key@, start as int),
{
    let mut r: Vec<u8> = Vec::with_capacity(16);
    let mut j: usize = 0;
    while j < 16
        invariant
            j <= 16,
            start < 32,
            r@ == Seq::new(j as nat, |k: int| key@[(start + k) % 32]),
        decreases 16 - j,
    {
        r.push(key[(start + j) % 32]);
        j = j + 1;
        assert(r@ =~= Seq::new(j as nat, |k: int| key@[(start + k) % 32]));
    }
    r
}

/// The plan of a point cloud of `count` points shaped by an intent: the pool
/// is mixed with the intent key, and up to three attractors and two voids are
/// seeded by the key itself.
pub fn plan_point_cloud_with_intent(pool: Vec<u8>, count: usize, intent_hash: &[u8; 32]) -> (plan: CloudPlan)
    requires
        pool@.len() == 16 * count,
    ensures
        intended_plan_matches(plan, pool@, intent_hash@, count as nat),
{
    let mut pool = pool;
    mix_intent(&mut pool, intent_hash);
    let na: usize = (intent_hash[0] % 4) as usize;
    let nv: usize = (intent_hash[1] % 3) as usize;
    let mut attractor_seeds: Vec<Vec<u8>> = Vec::new();
    for i in 0..na
        invariant
            na < 4,
            seeds_view(attractor_seeds@) == Seq::new(i as nat, |k: int| key_seed(intent_hash@, 4 * k)),
    {
        let c = copy_key_seed(intent_hash, i * 4);
        let ghost before = attractor_seeds@;
        attractor_seeds.push(c);
        assert(seeds_view(attractor_seeds@) =~= seeds_view(before).push(c@));
        assert(seeds_view(attractor_seeds@) =~= Seq::new((i + 1) as nat, |k: int| key_seed(intent_hash@, 4 * k)));
    }
    let mut void_seeds: Vec<Vec<u8>> = Vec::new();
    for i in 0..nv
        invariant
            nv < 3,
            seeds_view(void_seeds@) == Seq::new(i as nat, |k: int| key_seed(intent_hash@, 16 + 4 * k)),
    {
        let c = copy_key_seed(intent_hash, 16 + i * 4);
        let ghost before = void_seeds@;
        void_seeds.push(c);
        assert(seeds_view(void_seeds@) =~= seeds_view(before).push(c@));
        assert(seeds_view(void_seeds@) =~= Seq::new((i + 1) as nat, |k: int| key_seed(intent_hash@, 16 + 4 * k)));
    }
    let mut moves: Vec<PointMove> = Vec::with_capacity(count);
    assert(pool@.len() == pool.len());
    for i in 0..count
        invariant
            pool@.len() == 16 * count,
            16 * count <= usize::MAX,
            na as nat == intended_attractor_count(intent_hash@),
            nv as nat == intended_void_count(intent_hash@),
            moves@ == Seq::new(i as nat, |k: int| intended_move(pool@, k, na as nat, nv as nat)),
    {
        let offset = i * 16;
        let pull = if pool[offset] % 100 < 15 && na > 0 {
            Some((pool[offset + 1] as usize) % na)
        } else {
            None
        };
        let push = if pool[offset + 2] % 100 < 15 && nv > 0 {
            Some((pool[offset + 3] as usize) % nv)
        } else {
            None
        };
        moves.push(PointMove { pull, push });
        assert(moves@ =~= Seq::new((i + 1) as nat, |k: int| intended_move(pool@, k, na as nat, nv as nat)));
    }
    CloudPlan { style: CloudStyle::Intended, pool, attractor_seeds, void_seeds, moves }
}

/// The sizes of a plan: a natural cloud has at most two attractors and one
/// void, and none when it has 32 points or fewer; an intended cloud has at
/// most three attractors and two voids. Every point's move names a centre
/// that exists.
pub proof fn lemma_plan_bounds(pool: Seq<u8>, key: Seq<u8>, count: nat, i: int)
    requires
        pool.len() == 16 * count,
        key.len() == 32,
        0 <= i < count,
    ensures
        natural_attractor_count(pool, count) <= 2,
        natural_void_count(pool, count) <= 1,
        count <= 32 ==> natural_attractor_count(pool, count) == 0 && natural_void_count(pool, count) == 0,
        intended_attractor_count(key) <= 3,
        intended_void_count(key) <= 2,
        natural_move(pool, i, natural_attractor_count(pool, count), natural_void_count(pool, count)).pull
            matches Some(a) ==> a < natural_attractor_count(pool, count),
        natural_move(pool, i, natural_attractor_count(pool, count), natural_void_count(pool, count)).push
            matches Some(v) ==> v < natural_void_count(pool, count),
        intended_move(xor_with_key(pool, key), i, intended_attractor_count(key), intended_void_count(key)).pull
            matches Some(a) ==> a < intended_attractor_count(key),
        intended_move(xor_with_key(pool, key), i, intended_attractor_count(key), intended_void_count(key)).push
            matches Some(v) ==> v < intended_void_count(key),
{
    let mixed = xor_with_key(pool, key);
    let na = intended_attractor_count(key);
    let nv = intended_void_count(key);
    if na > 0 {
        vstd::arithmetic::div_mod::lemma_mod_bound(mixed[16 * i + 1] as int, na as int);
    }
    if nv > 0 {
        vstd::arithmetic::div_mod::lemma_mod_bound(mixed[16 * i + 3] as int, nv as int);
    }
}

/// The rules of a natural plan in terms of the pool's bytes. A cloud of more
/// than 32 points has one attractor, seeded by pool bytes 16..32, when the
/// first pool byte modulo 100 is below 35; two, seeded by bytes 16..32 and
/// 32..48, when it is in 35..45; none otherwise, and none for 32 points or
/// fewer. It has one void, seeded by bytes 48..64, exactly when it has more
/// than 32 points and the second pool byte modulo 100 is below 25. Point `i`
/// is pulled to the first attractor exactly when there is one and its first
/// seed byte (pool byte `16 * i`) modulo 100 is below 8, and pushed from the
/// first void exactly when there is one and its second seed byte modulo 100
/// is below 10.
pub proof fn lemma_natural_plan_rules(plan: CloudPlan, pool: Seq<u8>, count: nat)
    requires
        natural_plan_matches(plan, pool, count),
        pool.len() == 16 * count,
    ensures
        plan.pool@ == pool,
        plan.moves@.len() == count,
        count > 32 && pool[0] % 100 < 35 ==> plan.attractor_seeds@.len() == 1
            && plan.attractor_seeds@[0]@ == pool.subrange(16, 32),
        count > 32 && 35 <= pool[0] % 100 < 45 ==> plan.attractor_seeds@.len() == 2
            && plan.attractor_seeds@[0]@ == pool.subrange(16, 32)
            && plan.attractor_seeds@[1]@ == pool.subrange(32, 48),
        count <= 32 || pool[0] % 100 >= 45 ==> plan.attractor_seeds@.len() == 0,
        count > 32 && pool[1] % 100 < 25 ==> plan.void_seeds@.len() == 1
            && plan.void_seeds@[0]@ == pool.subrange(48, 64),
        !(count > 32 && pool[1] % 100 < 25) ==> plan.void_seeds@.len() == 0,
        forall|i: int|
            0 <= i < count ==> (#[trigger] plan.moves@[i]).pull == (if pool[16 * i] % 100 < 8
                && plan.attractor_seeds@.len() > 0 {
                Some(0usize)
            } else {
                None
            }),
        forall|i: int|
            0 <= i < count ==> (#[trigger] plan.moves@[i]).push == (if pool[16 * i + 1] % 100 < 10
                && plan.void_seeds@.len() > 0 {
                Some(0usize)
            } else {
                None
            }),
{
    let na = natural_attractor_count(pool, count);
    let nv = natural_void_count(pool, count);
    assert(seeds_view(plan.attractor_seeds@).len() == plan.attractor_seeds@.len());
    assert(seeds_view(plan.void_seeds@).len() == plan.void_seeds@.len());
    if na > 0 {
        assert(seeds_view(plan.attractor_seeds@)[0] == plan.attractor_seeds@[0]@);
        assert(chunk(pool, 1int) == pool.subrange(16, 32));
    }
    if na > 1 {
        assert(seeds_view(plan.attractor_seeds@)[1] == plan.attractor_seeds@[1]@);
        assert(chunk(pool, 2int) == pool.subrange(32, 48));
    }
    if nv > 0 {
        assert(seeds_view(plan.void_seeds@)[0] == plan.void_seeds@[0]@);
        assert(chunk(pool, 3int) == pool.subrange(48, 64));
    }
    assert forall|i: int| 0 <= i < count implies (#[trigger] plan.moves@[i]).pull == (if pool[16 * i] % 100 < 8
        && plan.attractor_seeds@.len() > 0 {
        Some(0usize)
    } else {
        None
    }) && plan.moves@[i].push == (if pool[16 * i + 1] % 100 < 10 && plan.void_seeds@.len() > 0 {
        Some(0usize)
    } else {
        None
    }) by {
        assert(plan.moves@[i] == natural_move(pool, i, na, nv));
    }
}

/// The rules of an intended plan in terms of the pool's and the key's bytes:
/// the mixed pool is the pool XORed byte by byte with the key repeated every
/// 32 bytes; there are `key[0] % 4` attractors and `key[1] % 3` voids;
/// attractor `a` is seeded by the 16 key bytes from position `4 * a` and void
/// `v` by those from position `16 + 4 * v`, read cyclically. Writing `m` for
/// the mixed pool, point `i` is pulled exactly when there are attractors and
/// `m[16 i] % 100 < 15`, to attractor `m[16 i + 1]` modulo their number, and
/// pushed exactly when there are voids and `m[16 i + 2] % 100 < 15`, from void
/// `m[16 i + 3]` modulo their number.
pub proof fn lemma_intended_plan_rules(plan: CloudPlan, pool: Seq<u8>, key: Seq<u8>, count: nat)
    requires
        intended_plan_matches(plan, pool, key, count),
        pool.len() == 16 * count,
        key.len() == 32,
    ensures
        plan.pool@.len() == pool.len(),
        forall|k: int| 0 <= k < pool.len() ==> #[trigger] plan.pool@[k] == pool[k] ^ key[k % 32],
        plan.attractor_seeds@.len() == key[0] % 4,
        plan.void_seeds@.len() == key[1] % 3,
        forall|a: int| 0 <= a < plan.attractor_seeds@.len() ==> (#[trigger] plan.attractor_seeds@[a]@).len() == 16,
        forall|a: int, j: int|
            #![trigger plan.attractor_seeds@[a]@[j]]
            0 <= a < plan.attractor_seeds@.len() && 0 <= j < 16 ==> plan.attractor_seeds@[a]@[j] == key[(4 * a + j) % 32],
        forall|v: int| 0 <= v < plan.void_seeds@.len() ==> (#[trigger] plan.void_seeds@[v]@).len() == 16,
        forall|v: int, j: int|
            #![trigger plan.void_seeds@[v]@[j]]
            0 <= v < plan.void_seeds@.len() && 0 <= j < 16 ==> plan.void_seeds@[v]@[j] == key[(16 + 4 * v + j) % 32],
        plan.moves@.len() == count,
        forall|i: int|
            0 <= i < count ==> (#[trigger] plan.moves@[i]).pull == (if plan.pool@[16 * i] % 100 < 15
                && key[0] % 4 > 0 {
                Some((plan.pool@[16 * i + 1] as nat % (key[0] % 4) as nat) as usize)
            } else {
                None
            }),
        forall|i: int|
            0 <= i < count ==> (#[trigger] plan.moves@[i]).push == (if plan.pool@[16 * i + 2] % 100 < 15
                && key[1] % 3 > 0 {
                Some((plan.pool@[16 * i + 3] as nat % (key[1] % 3) as nat) as usize)
            } else {
                None
            }),
{
    let na = intended_attractor_count(key);
    let nv = intended_void_count(key);
    assert(seeds_view(plan.attractor_seeds@).len() == plan.attractor_seeds@.len());
    assert(seeds_view(plan.void_seeds@).len() == plan.void_seeds@.len());
    assert forall|a: int| 0 <= a < plan.attractor_seeds@.len() implies (#[trigger] plan.attractor_seeds@[a]@).len() == 16
        && (forall|j: int| 0 <= j < 16 ==> #[trigger] plan.attractor_seeds@[a]@[j] == key[(4 * a + j) % 32]) by {
        assert(seeds_view(plan.attractor_seeds@)[a] == plan.attractor_seeds@[a]@);
        assert(seeds_view(plan.attractor_seeds@)[a] == key_seed(key, 4 * a));
    }
    assert forall|v: int| 0 <= v < plan.void_seeds@.len() implies (#[trigger] plan.void_seeds@[v]@).len() == 16
        && (forall|j: int| 0 <= j < 16 ==> #[trigger] plan.void_seeds@[v]@[j] == key[(16 + 4 * v + j) % 32]) by {
        assert(seeds_view(plan.void_seeds@)[v] == plan.void_seeds@[v]@);
        assert(seeds_view(plan.void_seeds@)[v] == key_seed(key, 16 + 4 * v));
    }
    assert forall|i: int| 0 <= i < count implies (#[trigger] plan.moves@[i]).pull == (if plan.pool@[16 * i] % 100 < 15
        && key[0] % 4 > 0 {
        Some((plan.pool@[16 * i + 1] as nat % (key[0] % 4) as nat) as usize)
    } else {
        None
    }) && plan.moves@[i].push == (if plan.pool@[16 * i + 2] % 100 < 15 && key[1] % 3 > 0 {
        Some((plan.pool@[16 * i + 3] as nat % (key[1] % 3) as nat) as usize)
    } else {
        None
    }) by {
        assert(plan.moves@[i] == intended_move(xor_with_key(pool, key), i, na, nv));
    }
}

} // verus!
