//! The dataset consistency sweep: after the renderer's asynchronous
//! export has fully drained, any image file whose base name has no
//! matching label file is an orphan — an episode that failed midway or
//! whose image write outlived the label write — and is removed.
//!
//! The sweep only ever plans image removals; label files are
//! authoritative and are never touched.  `plan_sweep` decides, over the
//! base names handed to it, exactly which images go.

use vstd::prelude::*;
use crate::encode;

verus! {

/// The base names of the orphan images: those with no equal base name
/// among the labels, in directory order.
pub open spec fn orphan_images(images: Seq<Seq<u8>>, labels: Seq<Seq<u8>>) -> Seq<Seq<u8>> {
    images.filter(|n: Seq<u8>| !labels.contains(n))
}

/// The base names of the images the sweep keeps: those with a label.
pub open spec fn surviving_images(images: Seq<Seq<u8>>, labels: Seq<Seq<u8>>) -> Seq<Seq<u8>> {
    images.filter(|n: Seq<u8>| labels.contains(n))
}

/// The byte-level views of a list of names.
pub open spec fn name_views(v: Seq<Vec<u8>>) -> Seq<Seq<u8>> {
    v.map_values(|e: Vec<u8>| e@)
}

/// Whether `name` occurs among `names`.
fn contains_name(names: &Vec<Vec<u8>>, name: &Vec<u8>) -> (r: bool)
    ensures
        r == name_views(names@).contains(name@),
{
    let mut j: usize = 0;
    while j < names.len()
        invariant
            0 <= j <= names.len(),
            forall|t: int| 0 <= t < j ==> name_views(names@)[t] != name@,
        decreases names.len() - j,
    {
        if encode::bytes_eq(&names[j], name) {
            proof {
                assert(name_views(names@)[j as int] == name@);
            }
            return true;
        }
        j = j + 1;
    }
    false
}

/// Plans the sweep: returns, in directory order, the base names of the
/// images that lack a label of the same base name.  Every planned name
/// is one of the images; labels never appear in the plan.
pub fn plan_sweep(images: &Vec<Vec<u8>>, labels: &Vec<Vec<u8>>) -> (r: Vec<Vec<u8>>)
    ensures
        name_views(r@) == orphan_images(name_views(images@), name_views(labels@)),
{
    let ghost all = name_views(images@);
    let ghost label_names = name_views(labels@);
    let mut r: Vec<Vec<u8>> = Vec::new();
    let mut i: usize = 0;
    while i < images.len()
        invariant
            0 <= i <= images.len(),
            all == name_views(images@),
            label_names == name_views(labels@),
            name_views(r@) =~= orphan_images(all.take(i as int), label_names),
        decreases images.len() - i,
    {
        let ghost prev = name_views(r@);
        let labeled = contains_name(labels, &images[i]);
        if !labeled {
            let copy = encode::copy_bytes(&images[i]);
            r.push(copy);
        }
        proof {
            reveal_with_fuel(Seq::filter, 2);
            let s = all.take(i + 1);
            assert(all[i as int] == images@[i as int]@);
            assert(s.drop_last() =~= all.take(i as int));
            assert(s.drop_last() == all.take(i as int));
            assert(s.last() == all[i as int]);
            if !labeled {
                assert(!label_names.contains(s.last()));
                assert(name_views(r@) =~= prev.push(all[i as int]));
                assert(orphan_images(s, label_names) == orphan_images(
                    all.take(i as int),
                    label_names,
                ).push(s.last()));
            } else {
                assert(label_names.contains(s.last()));
                assert(orphan_images(s, label_names) == orphan_images(
                    all.take(i as int),
                    label_names,
                ));
            }
        }
        i = i + 1;
    }
    proof {
        assert(all.take(images@.len() as int) =~= all);
    }
    r
}

/// Sweep idempotence: the images that survive a sweep all have labels,
/// so a second sweep over them plans nothing — and since the plan only
/// ever names images, labels are untouched by any number of sweeps.
pub proof fn lemma_sweep_idempotent(images: Seq<Seq<u8>>, labels: Seq<Seq<u8>>)
    ensures
        orphan_images(surviving_images(images, labels), labels) =~= Seq::<Seq<u8>>::empty(),
    decreases images.len(),
{
    reveal_with_fuel(Seq::filter, 2);
    if images.len() == 0 {
        assert(surviving_images(images, labels) =~= Seq::<Seq<u8>>::empty());
    } else {
        let prefix = images.drop_last();
        lemma_sweep_idempotent(prefix, labels);
        let kept = surviving_images(images, labels);
        let kept_prefix = surviving_images(prefix, labels);
        if labels.contains(images.last()) {
            assert(kept =~= kept_prefix.push(images.last()));
            assert(kept.drop_last() =~= kept_prefix);
        } else {
            assert(kept =~= kept_prefix);
        }
    }
}

/// The sweep plans only images: every orphan name is one of the image
/// names and has no label of the same name.
pub proof fn lemma_sweep_only_images(images: Seq<Seq<u8>>, labels: Seq<Seq<u8>>, k: int)
    requires
        0 <= k < orphan_images(images, labels).len(),
    ensures
        images.contains(orphan_images(images, labels)[k]),
        !labels.contains(orphan_images(images, labels)[k]),
    decreases images.len(),
{
    reveal_with_fuel(Seq::filter, 2);
    if images.len() > 0 {
        let prefix = images.drop_last();
        let orphans = orphan_images(images, labels);
        let orphans_prefix = orphan_images(prefix, labels);
        assert(images.drop_last().push(images.last()) =~= images);
        if !labels.contains(images.last()) && k == orphans.len() - 1 {
            assert(orphans.last() == images.last());
        } else {
            lemma_sweep_only_images(prefix, labels, k);
            let x = orphans_prefix[k];
            let t = choose|t: int| 0 <= t < prefix.len() && prefix[t] == x;
            assert(images[t] == x);
        }
    }
}

} // verus!
