//! Frame composition: every live drawable entity is wrapped in a tagged
//! reference, the flat list is stable-sorted by descending world Y (isometric
//! depth), and the result is the frame's exact draw order.

use vstd::prelude::*;
use vstd::multiset::Multiset;
use crate::bullet::Bullets;
use crate::character::CharacterDrawable;
use crate::terrain_object::TerrainObjects;
use crate::zombie::Zombies;

verus! {

/// A tagged reference to one live entity, valid for a single frame: the
/// entity's kind, its index in its owning collection, and its draw-order key
/// (world Y).
#[derive(Clone, Copy, Debug, PartialEq, Eq, Structural)]
pub enum Drawables {
    Bullet { index: usize, y: i64 },
    Zombie { index: usize, y: i64 },
    TerrainAmmo { index: usize, y: i64 },
    TerrainHouse { index: usize, y: i64 },
    TerrainTree { index: usize, y: i64 },
    Character { y: i64 },
}

/// The draw-order key of a drawable: its world Y coordinate.
pub open spec fn y_of(d: Drawables) -> int {
    match d {
        Drawables::Bullet { y, .. } => y as int,
        Drawables::Zombie { y, .. } => y as int,
        Drawables::TerrainAmmo { y, .. } => y as int,
        Drawables::TerrainHouse { y, .. } => y as int,
        Drawables::TerrainTree { y, .. } => y as int,
        Drawables::Character { y } => y as int,
    }
}

impl Drawables {
    /// The draw-order key of this drawable: its world Y coordinate.
    pub fn get_y(&self) -> (r: i64)
        ensures
            r == y_of(*self),
    {
        match *self {
            Drawables::Bullet { y, .. } => y,
            Drawables::Zombie { y, .. } => y,
            Drawables::TerrainAmmo { y, .. } => y,
            Drawables::TerrainHouse { y, .. } => y,
            Drawables::TerrainTree { y, .. } => y,
            Drawables::Character { y } => y,
        }
    }
}

/// Sorted by descending world Y: entities further up the world (larger Y)
/// draw first, so entities lower on screen appear in front.
pub open spec fn sorted_desc(s: Seq<Drawables>) -> bool {
    forall|i: int, j: int| 0 <= i < j < s.len() ==> y_of(s[i]) >= y_of(s[j])
}

/// Stable descending insertion: `d` goes in front of the first element with a
/// strictly smaller key, hence behind every earlier element with an equal key.
pub open spec fn insert_desc(d: Drawables, s: Seq<Drawables>) -> Seq<Drawables>
    decreases s.len(),
{
    if s.len() == 0 {
        seq![d]
    } else if y_of(d) > y_of(s[0]) {
        seq![d] + s
    } else {
        seq![s[0]] + insert_desc(d, s.subrange(1, s.len() as int))
    }
}

/// Stable insertion sort by descending key: elements are inserted in input
/// order, so elements with equal keys keep their relative order.
pub open spec fn sort_desc(s: Seq<Drawables>) -> Seq<Drawables>
    decreases s.len(),
{
    if s.len() == 0 {
        Seq::empty()
    } else {
        insert_desc(s.last(), sort_desc(s.drop_last()))
    }
}

/// Stable descending insertion into a sorted sequence keeps it sorted and
/// adds exactly the inserted element.
pub proof fn lemma_insert_desc_props(d: Drawables, s: Seq<Drawables>)
    requires
        sorted_desc(s),
    ensures
        sorted_desc(insert_desc(d, s)),
        insert_desc(d, s).to_multiset() == s.to_multiset().insert(d),
        insert_desc(d, s).len() == s.len() + 1,
    decreases s.len(),
{
    broadcast use vstd::seq_lib::group_to_multiset_ensures;
    broadcast use vstd::seq_lib::lemma_multiset_commutative;

    if s.len() == 0 {
        assert(seq![d] =~= Seq::empty().push(d));
        assert(seq![d].to_multiset() == s.to_multiset().insert(d));
    } else if y_of(d) > y_of(s[0]) {
        let r = seq![d] + s;
        assert(forall|i: int| 0 <= i < s.len() ==> y_of(d) >= y_of(#[trigger] s[i]));
        assert(sorted_desc(r));
        lemma_to_multiset_of_unit_concat(d, s);
    } else {
        let tail = s.subrange(1, s.len() as int);
        assert(sorted_desc(tail));
        lemma_insert_desc_props(d, tail);
        let r = seq![s[0]] + insert_desc(d, tail);
        assert forall|i: int, j: int| 0 <= i < j < r.len() implies y_of(r[i]) >= y_of(r[j]) by {
            if i == 0 {
                let it = insert_desc(d, tail);
                assert(r[j] == it[j - 1]);
                if it[j - 1] == d {
                    assert(y_of(s[0]) >= y_of(d));
                } else {
                    assert(it.to_multiset() == tail.to_multiset().insert(d));
                    assert(it.to_multiset().count(it[j - 1]) > 0);
                    if it[j - 1] != d {
                        assert(tail.to_multiset().count(it[j - 1]) > 0);
                        assert(tail.contains(it[j - 1]));
                        let k = choose|k: int| 0 <= k < tail.len() && tail[k] == it[j - 1];
                        assert(y_of(s[0]) >= y_of(tail[k]));
                    }
                }
            }
        }
        lemma_to_multiset_of_unit_concat(s[0], insert_desc(d, tail));
        lemma_to_multiset_of_unit_concat(s[0], tail);
        assert(s =~= seq![s[0]] + tail);
        assert(r.to_multiset() =~= s.to_multiset().insert(d));
    }
}

/// The multiset of a one-element sequence prepended to `s` is the multiset of
/// `s` plus that element.
proof fn lemma_to_multiset_of_unit_concat(d: Drawables, s: Seq<Drawables>)
    ensures
        (seq![d] + s).to_multiset() == s.to_multiset().insert(d),
        (seq![d] + s).len() == s.len() + 1,
{
    broadcast use vstd::seq_lib::group_to_multiset_ensures;
    vstd::seq_lib::lemma_multiset_commutative(seq![d], s);
    assert(seq![d] =~= Seq::empty().push(d));
    assert(seq![d].to_multiset() =~= Multiset::empty().insert(d));
    assert(Multiset::empty().insert(d).add(s.to_multiset()) =~= s.to_multiset().insert(d));
}

/// Draw-order determinism: the stable descending sort of any drawable list is
/// sorted by descending world Y and is a permutation of its input — and, as a
/// function of the input alone, repeated composition of unchanged input
/// yields the identical order.
pub proof fn lemma_sort_desc_props(s: Seq<Drawables>)
    ensures
        sorted_desc(sort_desc(s)),
        sort_desc(s).to_multiset() == s.to_multiset(),
        sort_desc(s).len() == s.len(),
    decreases s.len(),
{
    broadcast use vstd::seq_lib::group_to_multiset_ensures;
    if s.len() > 0 {
        lemma_sort_desc_props(s.drop_last());
        lemma_insert_desc_props(s.last(), sort_desc(s.drop_last()));
        assert(s =~= s.drop_last().push(s.last()));
        assert(s.to_multiset() =~= s.drop_last().to_multiset().insert(s.last()));
    }
}

/// The flat, unsorted drawable list of one frame: every bullet, every zombie,
/// every terrain object (index 0 the ammo crate, 1 and 2 houses, the rest
/// trees), and the character, each tagged with its collection index and its
/// world Y.
pub open spec fn drawables_of(
    bullets: Bullets,
    zombies: Zombies,
    objects: TerrainObjects,
    character: CharacterDrawable,
) -> Seq<Drawables> {
    Seq::new(bullets.bullets@.len(), |i: int| Drawables::Bullet {
        index: i as usize,
        y: bullets.bullets@[i].position.y,
    }) + Seq::new(zombies.zombies@.len(), |i: int| Drawables::Zombie {
        index: i as usize,
        y: zombies.zombies@[i].position.y,
    }) + Seq::new(objects.objects@.len(), |i: int| terrain_drawable_at(
        i,
        objects.objects@[i].position.y,
    )) + seq![Drawables::Character { y: character.position.y }]
}

/// The tagged drawable for the terrain object at index `i`: index 0 is the
/// ammo crate, indices 1 and 2 are houses, the remainder are trees.
pub open spec fn terrain_drawable_at(i: int, y: i64) -> Drawables {
    if i == 0 {
        Drawables::TerrainAmmo { index: i as usize, y }
    } else if i == 1 || i == 2 {
        Drawables::TerrainHouse { index: i as usize, y }
    } else {
        Drawables::TerrainTree { index: i as usize, y }
    }
}

/// Insert one drawable into a descending-sorted list, in front of the first
/// element with a strictly smaller key.
fn insert_drawable(v: &mut Vec<Drawables>, d: Drawables)
    requires
        sorted_desc(old(v)@),
    ensures
        final(v)@ == insert_desc(d, old(v)@),
        sorted_desc(final(v)@),
{
    let n: usize = v.len();
    let mut j: usize = 0;
    while j < n && v[j].get_y() >= d.get_y()
        invariant
            j <= n,
            n == v@.len(),
            *v == *old(v),
            forall|k: int| 0 <= k < j ==> y_of(#[trigger] v@[k]) >= y_of(d),
        decreases n - j,
    {
        j += 1;
    }
    proof {
        lemma_insert_desc_at(d, v@, j as int);
        lemma_insert_desc_props(d, v@);
    }
    v.insert(j, d);
}

/// Where stable descending insertion lands: at the first index whose key is
/// strictly smaller than the new element's.
proof fn lemma_insert_desc_at(d: Drawables, s: Seq<Drawables>, j: int)
    requires
        sorted_desc(s),
        0 <= j <= s.len(),
        forall|k: int| 0 <= k < j ==> y_of(#[trigger] s[k]) >= y_of(d),
        j == s.len() || y_of(d) > y_of(s[j]),
    ensures
        insert_desc(d, s) == s.insert(j, d),
    decreases j,
{
    if s.len() == 0 {
        assert(insert_desc(d, s) =~= s.insert(0, d));
    } else if j == 0 {
        assert(insert_desc(d, s) =~= s.insert(0, d));
    } else {
        let tail = s.subrange(1, s.len() as int);
        lemma_insert_desc_at(d, tail, j - 1);
        assert(insert_desc(d, s) == seq![s[0]] + tail.insert(j - 1, d));
        assert(seq![s[0]] + tail.insert(j - 1, d) =~= s.insert(j, d));
    }
}

/// Build the frame's drawable list and stable-sort it by descending world Y:
/// the returned order is exactly the frame's draw order.
pub fn compose(
    bullets: &Bullets,
    zombies: &Zombies,
    objects: &TerrainObjects,
    character: &CharacterDrawable,
) -> (r: Vec<Drawables>)
    ensures
        r@ == sort_desc(drawables_of(*bullets, *zombies, *objects, *character)),
        sorted_desc(r@),
        r@.to_multiset() == drawables_of(*bullets, *zombies, *objects, *character).to_multiset(),
{
    let ghost all = drawables_of(*bullets, *zombies, *objects, *character);
    let mut flat: Vec<Drawables> = Vec::new();

    let nb: usize = bullets.bullets.len();
    let mut i: usize = 0;
    while i < nb
        invariant
            i <= nb,
            nb == bullets.bullets@.len(),
            flat@ =~= all.subrange(0, i as int),
            all == drawables_of(*bullets, *zombies, *objects, *character),
        decreases nb - i,
    {
        let y: i64 = bullets.bullets[i].position.y;
        flat.push(Drawables::Bullet { index: i, y });
        i += 1;
        proof {
            assert(flat@ =~= all.subrange(0, i as int));
        }
    }

    let nz: usize = zombies.zombies.len();
    let mut i: usize = 0;
    while i < nz
        invariant
            i <= nz,
            nb == bullets.bullets@.len(),
            nz == zombies.zombies@.len(),
            flat@ =~= all.subrange(0, nb + i as int),
            all == drawables_of(*bullets, *zombies, *objects, *character),
        decreases nz - i,
    {
        let y: i64 = zombies.zombies[i].position.y;
        flat.push(Drawables::Zombie { index: i, y });
        i += 1;
        proof {
            assert(flat@ =~= all.subrange(0, nb + i as int));
        }
    }

    let no: usize = objects.objects.len();
    let mut i: usize = 0;
    while i < no
        invariant
            i <= no,
            nb == bullets.bullets@.len(),
            nz == zombies.zombies@.len(),
            no == objects.objects@.len(),
            flat@ =~= all.subrange(0, nb + nz + i as int),
            all == drawables_of(*bullets, *zombies, *objects, *character),
        decreases no - i,
    {
        let y: i64 = objects.objects[i].position.y;
        let d = if i == 0 {
            Drawables::TerrainAmmo { index: i, y }
        } else if i == 1 || i == 2 {
            Drawables::TerrainHouse { index: i, y }
        } else {
            Drawables::TerrainTree { index: i, y }
        };
        flat.push(d);
        i += 1;
        proof {
            assert(flat@ =~= all.subrange(0, nb + nz + i as int));
        }
    }

    flat.push(Drawables::Character { y: character.position.y });
    proof {
        assert(flat@ =~= all);
    }

    let mut sorted: Vec<Drawables> = Vec::new();
    let nf: usize = flat.len();
    let mut i: usize = 0;
    while i < nf
        invariant
            i <= nf,
            nf == flat@.len(),
            flat@ == all,
            sorted@ == sort_desc(all.subrange(0, i as int)),
            sorted_desc(sorted@),
        decreases nf - i,
    {
        let ghost prefix = all.subrange(0, i as int);
        insert_drawable(&mut sorted, flat[i]);
        i += 1;
        proof {
            let longer = all.subrange(0, i as int);
            assert(longer.drop_last() =~= prefix);
            assert(longer.last() == all[i - 1]);
        }
    }
    proof {
        assert(all.subrange(0, nf as int) =~= all);
        lemma_sort_desc_props(all);
    }
    sorted
}

} // verus!
