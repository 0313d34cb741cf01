//! Which stored objects of a project's v86 game go when the project drops
//! them: an object that no remaining row references, found by counting the
//! rows that still name it.
use vstd::prelude::*;

verus! {

/// An object store removal: one object, or everything under a prefix.
#[derive(Debug, PartialEq, Eq)]
pub enum ObjectRemoval {
    Object(String),
    Prefix(String),
}

pub open spec fn removal_view(r: ObjectRemoval) -> (bool, Seq<char>) {
    match r {
        ObjectRemoval::Object(k) => (true, k@),
        ObjectRemoval::Prefix(k) => (false, k@),
    }
}

pub open spec fn removals_view(rs: Seq<ObjectRemoval>) -> Seq<(bool, Seq<char>)> {
    rs.map_values(|r: ObjectRemoval| removal_view(r))
}

/// The ISO images, with their references from game rows and from variant
/// rows, that nothing references any more.
pub open spec fn unreferenced_isos(isos: Seq<(String, i64, i64)>) -> Seq<(bool, Seq<char>)>
    decreases isos.len(),
{
    if isos.len() == 0 {
        Seq::empty()
    } else {
        let rest = unreferenced_isos(isos.drop_last());
        let (k, a, v) = isos.last();
        if a + v == 0 {
            rest.push((false, k@))
        } else {
            rest
        }
    }
}

/// What goes, in order: the package zip (one object) when no game row names
/// it, the disk image (a prefix) when none names it, then each ISO image (a
/// prefix), the game's own first and its variants' after, when neither game
/// nor variant rows name it.
pub open spec fn v86_removals(
    zip: Option<(String, i64)>,
    disk: Option<(String, i64)>,
    isos: Seq<(String, i64, i64)>,
) -> Seq<(bool, Seq<char>)> {
    (match zip {
        Some((k, n)) => if n == 0 {
            seq![(true, k@)]
        } else {
            Seq::empty()
        },
        None => Seq::empty(),
    }) + (match disk {
        Some((k, n)) => if n == 0 {
            seq![(false, k@)]
        } else {
            Seq::empty()
        },
        None => Seq::empty(),
    }) + unreferenced_isos(isos)
}

/// The removals for a project's v86 objects, given how many rows still name
/// each key (the caller counts one when it cannot count). `iso` is the game's
/// own ISO image and `variant_isos` those of its variants.
pub fn v86_object_removals(
    zip: Option<(String, i64)>,
    disk: Option<(String, i64)>,
    iso: Option<(String, i64, i64)>,
    variant_isos: Vec<(String, i64, i64)>,
) -> (r: Vec<ObjectRemoval>)
    requires
        iso matches Some((_, a, v)) ==> i64::MIN <= a + v <= i64::MAX,
        forall|i: int|
            0 <= i < variant_isos@.len() ==> i64::MIN <= (#[trigger] variant_isos@[i]).1
                + variant_isos@[i].2 <= i64::MAX,
    ensures
        removals_view(r@) == v86_removals(
            zip,
            disk,
            (match iso {
                Some(t) => seq![t],
                None => Seq::empty(),
            }) + variant_isos@,
        ),
{
    let mut out: Vec<ObjectRemoval> = Vec::new();
    match zip {
        Some((k, n)) => {
            if n == 0 {
                out.push(ObjectRemoval::Object(k));
            }
        },
        None => {},
    }
    match disk {
        Some((k, n)) => {
            if n == 0 {
                out.push(ObjectRemoval::Prefix(k));
            }
        },
        None => {},
    }
    let ghost head = removals_view(out@);
    let mut isos: Vec<(String, i64, i64)> = Vec::new();
    match iso {
        Some(t) => isos.push(t),
        None => {},
    }
    let ghost first = isos@;
    let mut variants = variant_isos;
    isos.append(&mut variants);
    let ghost all = isos@;
    assert(all == first + variant_isos@);
    assert forall|i: int| 0 <= i < all.len() implies i64::MIN <= (#[trigger] all[i]).1 + all[i].2
        <= i64::MAX by {
        if i >= first.len() {
            assert(all[i] == variant_isos@[i - first.len()]);
        }
    }
    let mut i: usize = 0;
    while i < isos.len()
        invariant
            i <= all.len(),
            isos@ == all,
            forall|j: int| 0 <= j < all.len() ==> i64::MIN <= (#[trigger] all[j]).1 + all[j].2
                <= i64::MAX,
            removals_view(out@) == head + unreferenced_isos(all.take(i as int)),
        decreases all.len() - i,
    {
        let (k, a, v) = &isos[i];
        let ghost before = removals_view(out@);
        assert(all.take(i + 1).drop_last() == all.take(i as int));
        assert(all.take(i + 1).last() == all[i as int]);
        if *a + *v == 0 {
            out.push(ObjectRemoval::Prefix(k.clone()));
            assert(removals_view(out@) =~= before.push((false, k@)));
        }
        i = i + 1;
    }
    assert(all.take(all.len() as int) == all);
    out
}

/// No row references an ISO image when both its game-row and variant-row
/// counts add up to nothing.
pub open spec fn iso_unreferenced(t: (String, i64, i64)) -> bool {
    t.1 + t.2 == 0
}

proof fn lemma_unreferenced_isos(isos: Seq<(String, i64, i64)>)
    ensures
        forall|x: (bool, Seq<char>)|
            #[trigger] unreferenced_isos(isos).contains(x) ==> !x.0 && exists|i: int|
                0 <= i < isos.len() && (#[trigger] isos[i]).0@ == x.1 && iso_unreferenced(isos[i]),
        forall|i: int|
            0 <= i < isos.len() && iso_unreferenced(#[trigger] isos[i]) ==> unreferenced_isos(
                isos,
            ).contains((false, isos[i].0@)),
    decreases isos.len(),
{
    if isos.len() > 0 {
        let init = isos.drop_last();
        lemma_unreferenced_isos(init);
        let rest = unreferenced_isos(init);
        let t = isos.last();
        assert forall|i: int| 0 <= i < init.len() implies #[trigger] isos[i] == init[i] by {}
        assert forall|x: (bool, Seq<char>)|
            #[trigger] unreferenced_isos(isos).contains(x) implies !x.0 && exists|i: int|
                0 <= i < isos.len() && (#[trigger] isos[i]).0@ == x.1 && iso_unreferenced(isos[i]) by {
            if rest.contains(x) {
                let i = choose|i: int|
                    0 <= i < init.len() && (#[trigger] init[i]).0@ == x.1 && iso_unreferenced(init[i]);
                assert(isos[i] == init[i]);
            } else {
                let j = choose|j: int| 0 <= j < unreferenced_isos(isos).len() && unreferenced_isos(isos)[j] == x;
                assert(iso_unreferenced(t));
                assert(isos[isos.len() - 1] == t);
            }
        }
        assert forall|i: int|
            0 <= i < isos.len() && iso_unreferenced(#[trigger] isos[i]) implies unreferenced_isos(
                isos,
            ).contains((false, isos[i].0@)) by {
            if i < init.len() {
                assert(isos[i] == init[i]);
                assert(rest.contains((false, init[i].0@)));
                let j = choose|j: int| 0 <= j < rest.len() && rest[j] == (false, init[i].0@);
                assert(unreferenced_isos(isos)[j] == rest[j]);
            } else {
                assert(isos[i] == t);
                assert(unreferenced_isos(isos)[rest.len() as int] == (false, t.0@));
            }
        }
    }
}

/// Only what nothing references goes, and all of it: the package zip (the
/// only single object removed) when no game row names it, the disk image when
/// none names it, and an ISO image exactly when neither game rows nor variant
/// rows name it; an ISO image that some row still names is never removed
/// unless another, unreferenced entry has the same key.
pub proof fn law_only_unreferenced_objects_go(
    zip: Option<(String, i64)>,
    disk: Option<(String, i64)>,
    isos: Seq<(String, i64, i64)>,
)
    ensures
        forall|x: (bool, Seq<char>)|
            #[trigger] v86_removals(zip, disk, isos).contains(x) ==> if x.0 {
                zip is Some && zip->Some_0.0@ == x.1 && zip->Some_0.1 == 0
            } else {
                (disk is Some && disk->Some_0.0@ == x.1 && disk->Some_0.1 == 0) || exists|i: int|
                    0 <= i < isos.len() && (#[trigger] isos[i]).0@ == x.1 && isos[i].1 + isos[i].2 == 0
            },
        zip is Some && zip->Some_0.1 == 0 ==> v86_removals(zip, disk, isos).contains(
            (true, zip->Some_0.0@),
        ),
        disk is Some && disk->Some_0.1 == 0 ==> v86_removals(zip, disk, isos).contains(
            (false, disk->Some_0.0@),
        ),
        forall|i: int|
            0 <= i < isos.len() && (#[trigger] isos[i]).1 + isos[i].2 == 0 ==> v86_removals(
                zip,
                disk,
                isos,
            ).contains((false, isos[i].0@)),
{
    lemma_unreferenced_isos(isos);
    let a: Seq<(bool, Seq<char>)> = match zip {
        Some((k, n)) => if n == 0 {
            seq![(true, k@)]
        } else {
            Seq::empty()
        },
        None => Seq::empty(),
    };
    let b: Seq<(bool, Seq<char>)> = match disk {
        Some((k, n)) => if n == 0 {
            seq![(false, k@)]
        } else {
            Seq::empty()
        },
        None => Seq::empty(),
    };
    let c = unreferenced_isos(isos);
    let all = v86_removals(zip, disk, isos);
    assert(all == a + b + c);
    assert forall|x: (bool, Seq<char>)| #[trigger] all.contains(x) implies if x.0 {
        zip is Some && zip->Some_0.0@ == x.1 && zip->Some_0.1 == 0
    } else {
        (disk is Some && disk->Some_0.0@ == x.1 && disk->Some_0.1 == 0) || exists|i: int|
            0 <= i < isos.len() && (#[trigger] isos[i]).0@ == x.1 && isos[i].1 + isos[i].2 == 0
    } by {
        let j = choose|j: int| 0 <= j < all.len() && all[j] == x;
        if j < a.len() {
            assert(all[j] == a[j]);
        } else if j < a.len() + b.len() {
            assert(all[j] == b[j - a.len()]);
        } else {
            assert(all[j] == c[j - a.len() - b.len()]);
            assert(c.contains(x));
        }
    }
    if zip is Some && zip->Some_0.1 == 0 {
        assert(all[0] == (true, zip->Some_0.0@));
    }
    if disk is Some && disk->Some_0.1 == 0 {
        assert(all[a.len() as int] == (false, disk->Some_0.0@));
    }
    assert forall|i: int| 0 <= i < isos.len() && (#[trigger] isos[i]).1 + isos[i].2 == 0 implies all.contains(
        (false, isos[i].0@),
    ) by {
        assert(iso_unreferenced(isos[i]));
        assert(c.contains((false, isos[i].0@)));
        let j = choose|j: int| 0 <= j < c.len() && c[j] == (false, isos[i].0@);
        assert(all[a.len() + b.len() + j] == c[j]);
    }
}

} // verus!
