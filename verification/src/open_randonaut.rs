//! The integer rules of a session: its point count, whether it carries an
//! intent, the entropy sources it reports, and the grid, kernel window and
//! duplicate suppression of the anomaly search. The density estimate and the
//! z-scores themselves work on floating point and stay with the caller.

use vstd::prelude::*;

verus! {

/// The kind of an anomaly found in a point cloud.
#[derive(Clone, Copy, Debug, PartialEq, Eq, Structural)]
pub enum AnomalyType {
    /// A cell where points are denser than average.
    Attractor,
    /// A cell where points are sparser than average.
    Void,
    /// The populated cell with the largest absolute z-score.
    Power,
}

/// The smallest number of grid cells along one side.
pub const MIN_GRID_SIZE: usize = 16;
/// The largest number of grid cells along one side.
pub const MAX_GRID_SIZE: usize = 80;

/// `size` is the grid size for `point_count` points: 1.2 times the square
/// root of the point count, rounded down (the largest `k` with
/// `25 k^2 <= 36 n`), clamped to `16 ..= 80`.
pub open spec fn is_grid_size(point_count: nat, size: nat) -> bool {
    &&& MIN_GRID_SIZE <= size <= MAX_GRID_SIZE
    &&& size > MIN_GRID_SIZE ==> 25 * size * size <= 36 * point_count
    &&& size < MAX_GRID_SIZE ==> 36 * point_count < 25 * (size + 1) * (size + 1)
}

/// The number of grid cells along each side of the density grid for
/// `point_count` points: 1.2 times the square root of the point count,
/// rounded down and clamped to `16 ..= 80`.
pub fn compute_grid_size(point_count: usize) -> (size: usize)
    ensures
        is_grid_size(point_count as nat, size as nat),
{
    if point_count >= 4445 {
        // 36 * 4445 >= 25 * 80 * 80
        return MAX_GRID_SIZE;
    }
    let n: u64 = point_count as u64;
    let mut k: u64 = 16;
    while k < 80 && next_size_fits(n, k)
        invariant
            16 <= k <= 80,
            n < 4445,
            k > 16 ==> 25 * k * k <= 36 * n,
        decreases 80 - k,
    {
        k = k + 1;
    }
    k as usize
}

/// Whether a grid of `k + 1` cells per side still fits `n` points.
fn next_size_fits(n: u64, k: u64) -> (r: bool)
    requires
        k < 80,
        n < 4445,
    ensures
        r == (25 * (k + 1) * (k + 1) <= 36 * n),
{
    let k1 = k + 1;
    assert(k1 * k1 <= 81 * 81) by (nonlinear_arith)
        requires
            k1 <= 81,
    ;
    assert(25 * k1 * k1 == 25 * (k1 * k1)) by (nonlinear_arith);
    25 * (k1 * k1) <= 36 * n
}

/// Any two sizes that fit a point count are equal: the grid size is a
/// function of the point count.
pub proof fn lemma_grid_size_unique(n: nat, a: nat, b: nat)
    requires
        is_grid_size(n, a),
        is_grid_size(n, b),
    ensures
        a == b,
{
    if a < b {
        lemma_grid_size_le(n, n, b, a);
    } else if b < a {
        lemma_grid_size_le(n, n, a, b);
    }
}

/// More points never give a smaller grid.
pub proof fn lemma_grid_size_monotonic(n1: nat, n2: nat, s1: nat, s2: nat)
    requires
        n1 <= n2,
        is_grid_size(n1, s1),
        is_grid_size(n2, s2),
    ensures
        s1 <= s2,
{
    if s1 > s2 {
        lemma_grid_size_le(n1, n2, s1, s2);
    }
}

/// No grid size for `n1` points lies above one for `n2 >= n1` points.
proof fn lemma_grid_size_le(n1: nat, n2: nat, s1: nat, s2: nat)
    requires
        n1 <= n2,
        is_grid_size(n1, s1),
        is_grid_size(n2, s2),
    ensures
        s1 <= s2,
{
    if s1 > s2 {
        assert(25 * (s2 + 1) * (s2 + 1) <= 25 * s1 * s1) by (nonlinear_arith)
            requires
                s2 + 1 <= s1,
        ;
    }
}

/// The default number of points in a session.
pub fn default_point_count() -> (n: usize)
    ensures
        n == 1024,
{
    1024
}

/// The number of points a session generates for a requested count: the
/// request clamped to `64 ..= 100_000`.
pub fn session_point_count(requested: usize) -> (n: usize)
    ensures
        64 <= n <= 100_000,
        64 <= requested <= 100_000 ==> n == requested,
        requested < 64 ==> n == 64,
        requested > 100_000 ==> n == 100_000,
{
    if requested < 64 {
        64
    } else if requested > 100_000 {
        100_000
    } else {
        requested
    }
}

/// Whether `c` has the Unicode `White_Space` property, the test that
/// `str::trim` strips by.
pub open spec fn is_white_space(c: char) -> bool {
    let u = c as u32;
    ||| 0x09 <= u <= 0x0D
    ||| u == 0x20
    ||| u == 0x85
    ||| u == 0xA0
    ||| u == 0x1680
    ||| 0x2000 <= u <= 0x200A
    ||| u == 0x2028
    ||| u == 0x2029
    ||| u == 0x202F
    ||| u == 0x205F
    ||| u == 0x3000
}

/// Whether `c` is a Unicode white-space character.
pub fn char_is_white_space(c: char) -> (r: bool)
    ensures
        r == is_white_space(c),
{
    let u = c as u32;
    (0x09 <= u && u <= 0x0D) || u == 0x20 || u == 0x85 || u == 0xA0 || u == 0x1680 || (0x2000 <= u
        && u <= 0x200A) || u == 0x2028 || u == 0x2029 || u == 0x202F || u == 0x205F || u == 0x3000
}

/// Whether the text has a character that is not white space, that is,
/// whether it is non-empty once trimmed.
pub open spec fn has_content(s: Seq<char>) -> bool {
    exists|i: int| 0 <= i < s.len() && !is_white_space(#[trigger] s[i])
}

/// Whether `s` is non-empty once white space is trimmed from both ends.
pub fn has_non_white_space(s: &str) -> (r: bool)
    ensures
        r == has_content(s@),
{
    broadcast use vstd::string::group_string_axioms;
    let mut found = false;
    for c in it: s.chars()
        invariant
            it.seq() == s@,
            found == (exists|i: int| 0 <= i < it.index() && !is_white_space(#[trigger] s@[i])),
    {
        if !char_is_white_space(c) {
            found = true;
        }
    }
    found
}

/// Whether a session request carries an intent: a text that is not empty
/// once trimmed.
pub fn intent_is_present(intent: &Option<String>) -> (r: bool)
    ensures
        r == (intent matches Some(s) && has_content(s@)),
{
    match intent {
        Some(s) => has_non_white_space(s.as_str()),
        None => false,
    }
}

/// The names of the entropy sources a session reports: the operating system
/// and SHAKE256 always, then RDRAND and RDSEED when they answered, then
/// Argon2id when the session carries an intent.
pub open spec fn source_labels(rdrand: bool, rdseed: bool, intent: bool) -> Seq<Seq<char>> {
    seq!["OS (getrandom)"@, "SHAKE256"@]
        + (if rdrand { seq!["RDRAND"@] } else { Seq::<Seq<char>>::empty() })
        + (if rdseed { seq!["RDSEED"@] } else { Seq::<Seq<char>>::empty() })
        + (if intent { seq!["Argon2id (intent)"@] } else { Seq::<Seq<char>>::empty() })
}

/// The views of a list of strings.
pub open spec fn strings_view(v: Seq<String>) -> Seq<Seq<char>> {
    v.map_values(|s: String| s@)
}

/// Appends a copy of `label` to `list`.
fn push_label(list: &mut Vec<String>, label: &str)
    ensures
        strings_view(final(list)@) == strings_view(old(list)@).push(label@),
{
    broadcast use vstd::string::group_string_axioms;
    let s = label.to_string();
    list.push(s);
    assert(strings_view(list@) =~= strings_view(old(list)@).push(label@));
}

/// The entropy-source names for the given answers of RDRAND and RDSEED and
/// the presence of an intent.
pub fn entropy_source_labels(rdrand: bool, rdseed: bool, has_intent: bool) -> (r: Vec<String>)
    ensures
        strings_view(r@) == source_labels(rdrand, rdseed, has_intent),
{
    let mut r: Vec<String> = Vec::new();
    push_label(&mut r, "OS (getrandom)");
    push_label(&mut r, "SHAKE256");
    if rdrand {
        push_label(&mut r, "RDRAND");
    }
    if rdseed {
        push_label(&mut r, "RDSEED");
    }
    if has_intent {
        push_label(&mut r, "Argon2id (intent)");
    }
    assert(strings_view(r@) =~= source_labels(rdrand, rdseed, has_intent));
    r
}

/// The entropy-source names for the answers that RDRAND and RDSEED gave: each
/// is listed exactly when it answered with a value.
pub fn entropy_sources_for_answers(rdrand: Option<u64>, rdseed: Option<u64>, has_intent: bool) -> (r: Vec<String>)
    ensures
        strings_view(r@) == source_labels(rdrand is Some, rdseed is Some, has_intent),
{
    entropy_source_labels(rdrand.is_some(), rdseed.is_some(), has_intent)
}

/// What the reported list holds, in words: the operating system and SHAKE256
/// first, then "RDRAND" exactly when RDRAND answered, "RDSEED" exactly when
/// RDSEED answered, and "Argon2id (intent)" exactly when there is an intent,
/// in that order and each at most once.
pub proof fn lemma_source_labels_contents(rdrand: bool, rdseed: bool, intent: bool)
    ensures
        source_labels(rdrand, rdseed, intent)[0] == "OS (getrandom)"@,
        source_labels(rdrand, rdseed, intent)[1] == "SHAKE256"@,
        source_labels(rdrand, rdseed, intent).len() == 2 + (if rdrand { 1int } else { 0 }) + (if rdseed {
            1int
        } else {
            0
        }) + (if intent { 1int } else { 0 }),
        source_labels(rdrand, rdseed, intent).contains("RDRAND"@) <==> rdrand,
        source_labels(rdrand, rdseed, intent).contains("RDSEED"@) <==> rdseed,
        source_labels(rdrand, rdseed, intent).contains("Argon2id (intent)"@) <==> intent,
{
    reveal_strlit("OS (getrandom)");
    reveal_strlit("SHAKE256");
    reveal_strlit("RDRAND");
    reveal_strlit("RDSEED");
    reveal_strlit("Argon2id (intent)");
    let l = source_labels(rdrand, rdseed, intent);
    assert(("OS (getrandom)"@)[0] != ("RDRAND"@)[0]);
    assert(("SHAKE256"@)[0] != ("RDRAND"@)[0]);
    assert(("Argon2id (intent)"@)[0] != ("RDRAND"@)[0]);
    assert(("RDSEED"@)[2] != ("RDRAND"@)[2]);
    assert(("OS (getrandom)"@)[0] != ("RDSEED"@)[0]);
    assert(("SHAKE256"@)[0] != ("RDSEED"@)[0]);
    assert(("Argon2id (intent)"@)[0] != ("RDSEED"@)[0]);
    assert(("OS (getrandom)"@)[0] != ("Argon2id (intent)"@)[0]);
    assert(("SHAKE256"@)[0] != ("Argon2id (intent)"@)[0]);
    assert(("RDRAND"@)[0] != ("Argon2id (intent)"@)[0]);
    assert(("RDSEED"@)[0] != ("Argon2id (intent)"@)[0]);
    if rdrand {
        assert(l[2] == "RDRAND"@);
    }
    if rdseed {
        assert(l[2 + (if rdrand { 1int } else { 0 })] == "RDSEED"@);
    }
    if intent {
        assert(l[l.len() - 1] == "Argon2id (intent)"@);
    }
}

/// The entropy sources of a session: RDRAND and RDSEED are asked once each,
/// and each is listed exactly when it answered with a value (see
/// `entropy_sources_for_answers`).
pub fn entropy_sources(has_intent: bool) -> (r: Vec<String>)
    ensures
        exists|rdrand: bool, rdseed: bool| strings_view(r@) == #[trigger] source_labels(rdrand, rdseed, has_intent),
{
    let r = entropy_sources_for_answers(
        crate::cpu_entropy::gen_rdrand(1),
        crate::cpu_entropy::gen_rdseed(1),
        has_intent,
    );
    r
}

/// `v` lies within three cells of `center` and inside a grid of `grid`
/// cells.
pub open spec fn in_window(center: int, v: int, grid: int) -> bool {
    center - 3 <= v <= center + 3 && 0 <= v < grid
}

/// `(r1, c1)` comes before `(r2, c2)` in row-major order.
pub open spec fn cell_before(a: (usize, usize), b: (usize, usize)) -> bool {
    a.0 < b.0 || (a.0 == b.0 && a.1 < b.1)
}

/// The cells, as `(row, column)`, of the 7 by 7 kernel window around
/// `(row_center, col_center)` that lie inside a `grid_size` by `grid_size`
/// grid, in row-major order.
pub fn kernel_window(row_center: isize, col_center: isize, grid_size: usize) -> (cells: Vec<(usize, usize)>)
    requires
        isize::MIN + 3 <= row_center <= isize::MAX - 3,
        isize::MIN + 3 <= col_center <= isize::MAX - 3,
        grid_size <= isize::MAX,
    ensures
        forall|k: int|
            0 <= k < cells@.len() ==> in_window(row_center as int, (#[trigger] cells@[k]).0 as int, grid_size as int)
                && in_window(col_center as int, cells@[k].1 as int, grid_size as int),
        forall|i: int, j: int| 0 <= i < j < cells@.len() ==> cell_before(#[trigger] cells@[i], #[trigger] cells@[j]),
        forall|r: int, c: int|
            in_window(row_center as int, r, grid_size as int) && in_window(col_center as int, c, grid_size as int)
                ==> #[trigger] cells@.contains((r as usize, c as usize)),
{
    let grid: isize = grid_size as isize;
    let mut cells: Vec<(usize, usize)> = Vec::new();
    let mut dr: isize = -3;
    while dr <= 3
        invariant
            -3 <= dr <= 4,
            isize::MIN + 3 <= row_center <= isize::MAX - 3,
            isize::MIN + 3 <= col_center <= isize::MAX - 3,
            grid == grid_size,
            forall|k: int|
                0 <= k < cells@.len() ==> in_window(row_center as int, (#[trigger] cells@[k]).0 as int, grid_size as int)
                    && in_window(col_center as int, cells@[k].1 as int, grid_size as int)
                    && cells@[k].0 < row_center + dr,
            forall|i: int, j: int| 0 <= i < j < cells@.len() ==> cell_before(#[trigger] cells@[i], #[trigger] cells@[j]),
            forall|r: int, c: int|
                in_window(row_center as int, r, grid_size as int) && in_window(col_center as int, c, grid_size as int)
                    && r < row_center + dr ==> #[trigger] cells@.contains((r as usize, c as usize)),
        decreases 4 - dr,
    {
        let r = row_center + dr;
        if 0 <= r && r < grid {
            assert forall|k: int| 0 <= k < cells@.len() implies (#[trigger] cells@[k]).0 < r by {
                assert(cells@[k].0 < row_center + dr);
            }
            let mut dc: isize = -3;
            while dc <= 3
                invariant
                    -3 <= dc <= 4,
                    -3 <= dr <= 3,
                    r == row_center + dr,
                    0 <= r < grid,
                    isize::MIN + 3 <= col_center <= isize::MAX - 3,
                    grid == grid_size,
                    forall|k: int|
                        0 <= k < cells@.len() ==> in_window(row_center as int, (#[trigger] cells@[k]).0 as int, grid_size as int)
                            && in_window(col_center as int, cells@[k].1 as int, grid_size as int)
                            && (cells@[k].0 < r || (cells@[k].0 == r && cells@[k].1 < col_center + dc)),
                    forall|i: int, j: int| 0 <= i < j < cells@.len() ==> cell_before(#[trigger] cells@[i], #[trigger] cells@[j]),
                    forall|rr: int, c: int|
                        in_window(row_center as int, rr, grid_size as int) && in_window(col_center as int, c, grid_size as int)
                            && (rr < r || (rr == r && c < col_center + dc)) ==> #[trigger] cells@.contains((rr as usize, c as usize)),
                decreases 4 - dc,
            {
                let c = col_center + dc;
                if 0 <= c && c < grid {
                    let ghost before = cells@;
                    cells.push((r as usize, c as usize));
                    assert forall|rr: int, cc: int|
                        in_window(row_center as int, rr, grid_size as int) && in_window(col_center as int, cc, grid_size as int)
                            && (rr < r || (rr == r && cc < col_center + dc + 1)) implies #[trigger] cells@.contains((rr as usize, cc as usize)) by {
                        if rr == r && cc == c {
                            assert(cells@[before.len() as int] == (rr as usize, cc as usize));
                        } else {
                            assert(before.contains((rr as usize, cc as usize)));
                            let k = choose|k: int| 0 <= k < before.len() && before[k] == (rr as usize, cc as usize);
                            assert(cells@[k] == (rr as usize, cc as usize));
                        }
                    }
                }
                dc = dc + 1;
            }
        }
        dr = dr + 1;
    }
    cells
}

/// `kept` lists indices below `n` in increasing order.
pub open spec fn increasing_below(kept: Seq<usize>, n: nat) -> bool {
    &&& forall|a: int| 0 <= a < kept.len() ==> #[trigger] kept[a] < n
    &&& forall|a: int, b: int| 0 <= a < b < kept.len() ==> #[trigger] kept[a] < #[trigger] kept[b]
}

/// Non-maximum suppression over anomalies listed from strongest to weakest:
/// anomaly `i` is kept unless an anomaly of the same kind kept before it is
/// close to it, where `close(i, j)` says whether anomaly `i` lies within the
/// merge radius of anomaly `j`. Returns the indices kept, in order. Kept
/// anomalies are compared in the order they were kept, and the comparison
/// stops at the first close one.
pub fn suppress_close_duplicates(kinds: &Vec<AnomalyType>, close: impl Fn(usize, usize) -> bool) -> (kept: Vec<usize>)
    requires
        forall|i: usize, j: usize| close.requires((i, j)),
    ensures
        increasing_below(kept@, kinds@.len()),
        forall|a: int, b: int|
            0 <= a < b < kept@.len() && kinds@[kept@[a] as int] == kinds@[kept@[b] as int]
                ==> close.ensures((#[trigger] kept@[b], #[trigger] kept@[a]), false),
        forall|i: int|
            0 <= i < kinds@.len() && !(#[trigger] kept@.contains(i as usize)) ==> exists|a: int|
                0 <= a < kept@.len() && kept@[a] < i && kinds@[kept@[a] as int] == kinds@[i]
                    && close.ensures((i as usize, #[trigger] kept@[a]), true),
{
    let n = kinds.len();
    let mut kept: Vec<usize> = Vec::new();
    for i in 0..n
        invariant
            n == kinds@.len(),
            forall|x: usize, y: usize| close.requires((x, y)),
            increasing_below(kept@, i as nat),
            forall|a: int, b: int|
                0 <= a < b < kept@.len() && kinds@[kept@[a] as int] == kinds@[kept@[b] as int]
                    ==> close.ensures((#[trigger] kept@[b], #[trigger] kept@[a]), false),
            forall|x: int|
                0 <= x < i && !(#[trigger] kept@.contains(x as usize)) ==> exists|a: int|
                    0 <= a < kept@.len() && kept@[a] < x && kinds@[kept@[a] as int] == kinds@[x]
                        && close.ensures((x as usize, #[trigger] kept@[a]), true),
    {
        let mut suppressed = false;
        let mut a: usize = 0;
        while a < kept.len() && !suppressed
            invariant
                n == kinds@.len(),
                i < n,
                forall|x: usize, y: usize| close.requires((x, y)),
                increasing_below(kept@, i as nat),
                a <= kept@.len(),
                !suppressed ==> forall|a2: int|
                    0 <= a2 < a && kinds@[kept@[a2] as int] == kinds@[i as int]
                        ==> close.ensures((i, #[trigger] kept@[a2]), false),
                suppressed ==> exists|a2: int|
                    0 <= a2 < kept@.len() && kinds@[kept@[a2] as int] == kinds@[i as int]
                        && close.ensures((i, #[trigger] kept@[a2]), true),
            decreases kept@.len() - a,
        {
            let j = kept[a];
            if kinds[j] == kinds[i] {
                let is_close = close(i, j);
                if is_close {
                    suppressed = true;
                }
            }
            a = a + 1;
        }
        let ghost before = kept@;
        if !suppressed {
            kept.push(i);
            assert forall|a1: int, b1: int|
                0 <= a1 < b1 < kept@.len() && kinds@[kept@[a1] as int] == kinds@[kept@[b1] as int]
                    implies close.ensures((#[trigger] kept@[b1], #[trigger] kept@[a1]), false) by {
                if b1 < before.len() {
                    assert(kept@[a1] == before[a1] && kept@[b1] == before[b1]);
                }
            }
        }
        assert forall|x: int|
            0 <= x < i + 1 && !(#[trigger] kept@.contains(x as usize)) implies exists|a2: int|
                0 <= a2 < kept@.len() && kept@[a2] < x && kinds@[kept@[a2] as int] == kinds@[x]
                    && close.ensures((x as usize, #[trigger] kept@[a2]), true) by {
            if x < i {
                if before.contains(x as usize) {
                    let k = choose|k: int| 0 <= k < before.len() && before[k] == x as usize;
                    assert(kept@[k] == x as usize);
                }
                let a2 = choose|a2: int|
                    0 <= a2 < before.len() && before[a2] < x && kinds@[before[a2] as int] == kinds@[x]
                        && close.ensures((x as usize, #[trigger] before[a2]), true);
                assert(kept@[a2] == before[a2]);
            } else {
                if !suppressed {
                    assert(kept@[before.len() as int] == i);
                }
                assert(suppressed);
                let a2 = choose|a2: int|
                    0 <= a2 < before.len() && kinds@[before[a2] as int] == kinds@[i as int]
                        && close.ensures((i, #[trigger] before[a2]), true);
                assert(kept@[a2] == before[a2]);
            }
        }
    }
    kept
}

} // verus!
