use vstd::prelude::*;
use crate::entity::{collides, GameObject};
use crate::geometry::{WindowSize, FIELD_HEIGHT, FIELD_WIDTH};

verus! {

/// Whether enemy `e` was already taken, in the scan, by a bullet before bullet `k`.
pub open spec fn taken_before(owner: Seq<Option<usize>>, e: int, k: int) -> bool {
    match owner[e] {
        Some(j) => j < k,
        None => false,
    }
}

/// The outcome of one bullet-by-enemy scan. Bullets are taken in order; each destroys
/// the first enemy that it overlaps and that no earlier bullet destroyed. `hit[b]` is
/// the enemy that bullet `b` destroyed and `owner[e]` the bullet that destroyed enemy
/// `e`; the two are inverse to each other, so a bullet destroys at most one enemy and an
/// enemy is destroyed by at most one bullet.
pub open spec fn is_scan(
    bullets: Seq<GameObject>,
    enemies: Seq<GameObject>,
    w: WindowSize,
    hit: Seq<Option<usize>>,
    owner: Seq<Option<usize>>,
) -> bool {
    &&& hit.len() == bullets.len()
    &&& owner.len() == enemies.len()
    &&& forall|b: int| #![trigger hit[b]]
        0 <= b < hit.len() ==> match hit[b] {
            Some(e) => {
                &&& e < owner.len()
                &&& owner[e as int] == Some(b as usize)
                &&& collides(bullets[b], enemies[e as int], w)
                &&& forall|f: int|
                    0 <= f < e && collides(bullets[b], #[trigger] enemies[f], w) ==> taken_before(
                        owner,
                        f,
                        b,
                    )
            },
            None => forall|f: int|
                0 <= f < owner.len() && collides(bullets[b], #[trigger] enemies[f], w)
                    ==> taken_before(owner, f, b),
        }
    &&& forall|e: int| #![trigger owner[e]]
        0 <= e < owner.len() ==> match owner[e] {
            Some(b) => b < hit.len() && hit[b as int] == Some(e as usize),
            None => true,
        }
}

/// A bullet destroys at most one enemy and an enemy falls to at most one bullet: no two
/// bullets of a scan share an enemy.
pub proof fn lemma_scan_one_to_one(
    bullets: Seq<GameObject>,
    enemies: Seq<GameObject>,
    w: WindowSize,
    hit: Seq<Option<usize>>,
    owner: Seq<Option<usize>>,
    b1: int,
    b2: int,
)
    requires
        is_scan(bullets, enemies, w, hit, owner),
        hit.len() <= usize::MAX,
        0 <= b1 < hit.len(),
        0 <= b2 < hit.len(),
        hit[b1].is_some(),
        hit[b1] == hit[b2],
    ensures
        b1 == b2,
{
    match hit[b1] {
        Some(e) => {
            assert(owner[e as int] == Some(b1 as usize));
            match hit[b2] {
                Some(e2) => {
                    assert(owner[e2 as int] == Some(b2 as usize));
                },
                None => {},
            }
        },
        None => {},
    }
}

/// Scans every bullet against every enemy, bullets in order, and pairs each bullet with
/// the first overlapping enemy that is still intact.
pub fn scan_collisions(
    bullets: &Vec<GameObject>,
    enemies: &Vec<GameObject>,
    window_size: &WindowSize,
) -> (r: (Vec<Option<usize>>, Vec<Option<usize>>))
    requires
        window_size.wf(),
        forall|i: int| 0 <= i < bullets@.len() ==> (#[trigger] bullets@[i]).wf(),
        forall|i: int| 0 <= i < enemies@.len() ==> (#[trigger] enemies@[i]).wf(),
    ensures
        is_scan(bullets@, enemies@, *window_size, r.0@, r.1@),
{
    let nb = bullets.len();
    let ne = enemies.len();
    let mut hit: Vec<Option<usize>> = Vec::new();
    let mut k: usize = 0;
    while k < nb
        invariant
            nb == bullets@.len(),
            k <= nb,
            hit@.len() == k,
            forall|i: int| 0 <= i < hit@.len() ==> hit@[i].is_none(),
        decreases nb - k,
    {
        hit.push(None);
        k = k + 1;
    }
    let mut owner: Vec<Option<usize>> = Vec::new();
    k = 0;
    while k < ne
        invariant
            ne == enemies@.len(),
            k <= ne,
            owner@.len() == k,
            forall|i: int| 0 <= i < owner@.len() ==> owner@[i].is_none(),
        decreases ne - k,
    {
        owner.push(None);
        k = k + 1;
    }
    let mut b: usize = 0;
    while b < nb
        invariant
            nb == bullets@.len(),
            ne == enemies@.len(),
            b <= nb,
            hit@.len() == nb,
            owner@.len() == ne,
            window_size.wf(),
            forall|i: int| 0 <= i < bullets@.len() ==> (#[trigger] bullets@[i]).wf(),
            forall|i: int| 0 <= i < enemies@.len() ==> (#[trigger] enemies@[i]).wf(),
            forall|i: int| b <= i < nb ==> (#[trigger] hit@[i]).is_none(),
            forall|i: int| #![trigger hit@[i]]
                0 <= i < b ==> match hit@[i] {
                    Some(e) => {
                        &&& e < ne
                        &&& owner@[e as int] == Some(i as usize)
                        &&& collides(bullets@[i], enemies@[e as int], *window_size)
                        &&& forall|f: int|
                            0 <= f < e && collides(bullets@[i], #[trigger] enemies@[f], *window_size)
                                ==> taken_before(owner@, f, i)
                    },
                    None => forall|f: int|
                        0 <= f < ne && collides(bullets@[i], #[trigger] enemies@[f], *window_size)
                            ==> taken_before(owner@, f, i),
                },
            forall|e: int| #![trigger owner@[e]]
                0 <= e < ne ==> match owner@[e] {
                    Some(j) => j < b && hit@[j as int] == Some(e as usize),
                    None => true,
                },
        decreases nb - b,
    {
        let mut e: usize = 0;
        let mut found: bool = false;
        while e < ne && !found
            invariant
                nb == bullets@.len(),
                ne == enemies@.len(),
                b < nb,
                e <= ne,
                hit@.len() == nb,
                owner@.len() == ne,
                window_size.wf(),
                forall|i: int| 0 <= i < bullets@.len() ==> (#[trigger] bullets@[i]).wf(),
                forall|i: int| 0 <= i < enemies@.len() ==> (#[trigger] enemies@[i]).wf(),
                forall|i: int| b < i < nb ==> (#[trigger] hit@[i]).is_none(),
                !found ==> hit@[b as int].is_none(),
                !found ==> forall|f: int|
                    0 <= f < e && collides(bullets@[b as int], #[trigger] enemies@[f], *window_size)
                        ==> taken_before(owner@, f, b as int),
                found ==> match hit@[b as int] {
                    Some(x) => {
                        &&& x < ne
                        &&& owner@[x as int] == Some(b)
                        &&& collides(bullets@[b as int], enemies@[x as int], *window_size)
                        &&& forall|f: int|
                            0 <= f < x && collides(
                                bullets@[b as int],
                                #[trigger] enemies@[f],
                                *window_size,
                            ) ==> taken_before(owner@, f, b as int)
                    },
                    None => false,
                },
                forall|i: int| #![trigger hit@[i]]
                    0 <= i < b ==> match hit@[i] {
                        Some(x) => {
                            &&& x < ne
                            &&& owner@[x as int] == Some(i as usize)
                            &&& collides(bullets@[i], enemies@[x as int], *window_size)
                            &&& forall|f: int|
                                0 <= f < x && collides(
                                    bullets@[i],
                                    #[trigger] enemies@[f],
                                    *window_size,
                                ) ==> taken_before(owner@, f, i)
                        },
                        None => forall|f: int|
                            0 <= f < ne && collides(bullets@[i], #[trigger] enemies@[f], *window_size)
                                ==> taken_before(owner@, f, i),
                    },
                forall|x: int| #![trigger owner@[x]]
                    0 <= x < ne ==> match owner@[x] {
                        Some(j) => (j < b || (j == b && found)) && hit@[j as int] == Some(
                            x as usize,
                        ),
                        None => true,
                    },
            decreases ne - e + (if found { 0int } else { 1int }),
        {
            if owner[e].is_none() && bullets[b].intersects(&enemies[e], window_size) {
                let ghost old_owner = owner@;
                owner.set(e, Some(b));
                hit.set(b, Some(e));
                found = true;
                proof {
                    assert forall|i: int, f: int|
                        0 <= i < b && 0 <= f < ne && taken_before(old_owner, f, i)
                            implies taken_before(owner@, f, i) by {
                        if f == e as int {
                        }
                    }
                }
            } else {
                e = e + 1;
            }
        }
        b = b + 1;
    }
    (hit, owner)
}

/// Which entities a retention pass keeps.
#[derive(Clone, Copy, Debug, PartialEq, Eq, Structural)]
pub enum Retention {
    /// Projectiles: those whose sprite still reaches into the playfield.
    InField,
    /// Enemies and pickups: those that have not passed the bottom edge.
    AboveBottom,
}

/// Whether a projectile's sprite still reaches into the playfield.
pub open spec fn in_field(o: GameObject) -> bool {
    &&& -o.base_size.y < o.pos.y < FIELD_HEIGHT + o.base_size.y
    &&& -o.base_size.x < o.pos.x < FIELD_WIDTH + o.base_size.x
}

pub open spec fn keeps(rule: Retention, o: GameObject) -> bool {
    match rule {
        Retention::InField => in_field(o),
        Retention::AboveBottom => o.pos.y < FIELD_HEIGHT,
    }
}

/// The entities of `v` that `rule` keeps, in their order.
pub fn retain_by(v: &Vec<GameObject>, rule: Retention) -> (r: Vec<GameObject>)
    requires
        forall|i: int| 0 <= i < v@.len() ==> (#[trigger] v@[i]).wf(),
    ensures
        r@ == v@.filter(|o: GameObject| keeps(rule, o)),
        forall|i: int| 0 <= i < r@.len() ==> (#[trigger] r@[i]).wf() && keeps(rule, r@[i]),
{
    let mut kept: Vec<GameObject> = Vec::new();
    let n = v.len();
    let mut i: usize = 0;
    while i < n
        invariant
            n == v@.len(),
            i <= n,
            forall|j: int| 0 <= j < v@.len() ==> (#[trigger] v@[j]).wf(),
            kept@ == v@.take(i as int).filter(|o: GameObject| keeps(rule, o)),
            forall|j: int| 0 <= j < kept@.len() ==> (#[trigger] kept@[j]).wf() && keeps(rule, kept@[j]),
        decreases n - i,
    {
        let o = v[i];
        let keep = match rule {
            Retention::InField => -o.base_size.y < o.pos.y && o.pos.y < FIELD_HEIGHT
                + o.base_size.y && -o.base_size.x < o.pos.x && o.pos.x < FIELD_WIDTH
                + o.base_size.x,
            Retention::AboveBottom => o.pos.y < FIELD_HEIGHT,
        };
        proof {
            let pred = |q: GameObject| keeps(rule, q);
            assert(v@.take(i as int + 1).drop_last() =~= v@.take(i as int));
            reveal(Seq::filter);
            assert(v@.take(i as int + 1).filter(pred) == (if keeps(rule, o) {
                v@.take(i as int).filter(pred).push(o)
            } else {
                v@.take(i as int).filter(pred)
            }));
        }
        if keep {
            kept.push(o);
        }
        i = i + 1;
    }
    assert(v@.take(n as int) =~= v@);
    kept
}

/// The entities of `s` whose flag in `marks` is `None`, in their order.
pub open spec fn unmarked(s: Seq<GameObject>, marks: Seq<Option<usize>>) -> Seq<GameObject>
    decreases s.len(),
{
    if s.len() == 0 || marks.len() < s.len() {
        Seq::empty()
    } else {
        let rest = unmarked(s.drop_last(), marks);
        if marks[s.len() - 1].is_none() {
            rest.push(s.last())
        } else {
            rest
        }
    }
}

/// Removes from `v` every entity whose mark is set, keeping the order of the others.
pub fn remove_marked(v: &Vec<GameObject>, marks: &Vec<Option<usize>>) -> (r: Vec<GameObject>)
    requires
        marks@.len() == v@.len(),
    ensures
        r@ == unmarked(v@, marks@),
{
    let mut kept: Vec<GameObject> = Vec::new();
    let n = v.len();
    let mut i: usize = 0;
    while i < n
        invariant
            n == v@.len(),
            marks@.len() == n,
            i <= n,
            kept@ == unmarked(v@.take(i as int), marks@),
        decreases n - i,
    {
        assert(v@.take(i as int + 1).drop_last() =~= v@.take(i as int));
        if marks[i].is_none() {
            kept.push(v[i]);
        }
        i = i + 1;
    }
    assert(v@.take(n as int) =~= v@);
    kept
}

/// Ids rise strictly along `s`, and all lie below `bound`.
pub open spec fn ids_ordered(s: Seq<GameObject>, bound: u64) -> bool {
    &&& forall|i: int, j: int| 0 <= i < j < s.len() ==> #[trigger] s[i].id < #[trigger] s[j].id
    &&& forall|i: int| 0 <= i < s.len() ==> #[trigger] s[i].id < bound
}

/// Keeping some entities keeps their ids ordered.
pub proof fn lemma_filter_ids_ordered(s: Seq<GameObject>, pred: spec_fn(GameObject) -> bool, bound: u64)
    requires
        ids_ordered(s, bound),
    ensures
        ids_ordered(s.filter(pred), bound),
    decreases s.len(),
{
    reveal(Seq::filter);
    if s.len() > 0 {
        let dl = s.drop_last();
        assert(ids_ordered(dl, s.last().id));
        lemma_filter_ids_ordered(dl, pred, s.last().id);
    }
}

/// Removing marked entities keeps their ids ordered.
pub proof fn lemma_unmarked_ids_ordered(s: Seq<GameObject>, marks: Seq<Option<usize>>, bound: u64)
    requires
        ids_ordered(s, bound),
    ensures
        ids_ordered(unmarked(s, marks), bound),
    decreases s.len(),
{
    if s.len() > 0 && marks.len() >= s.len() {
        let dl = s.drop_last();
        assert(ids_ordered(dl, s.last().id));
        lemma_unmarked_ids_ordered(dl, marks, s.last().id);
    }
}

} // verus!
