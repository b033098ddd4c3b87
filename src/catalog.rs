//! The catalog of qualifying devices, rebuilt from one enumeration pass.
use vstd::prelude::*;
use vstd::string::*;
use crate::event::{ABS_X, ABS_Y};

verus! {

/// Label of a device that reports no name.
pub const UNNAMED_DEVICE: &'static str = "Unnamed device";

/// One input device as an enumeration pass reports it, in the pass's order.
pub struct DeviceInfo {
    pub name: Option<String>,
    /// Codes of the absolute axes that the device advertises.
    pub abs_axes: Vec<u16>,
}

/// A catalog entry: a device's label and its position in the newest-first
/// order of the pass that built the catalog.
pub struct CatalogEntry {
    pub name: String,
    pub identity: usize,
}

/// The label under which a device is listed.
pub open spec fn label(d: DeviceInfo) -> Seq<char> {
    match d.name {
        Some(n) => n@,
        None => UNNAMED_DEVICE@,
    }
}

/// A device qualifies when it advertises both the X and the Y absolute axis.
pub open spec fn qualifies(d: DeviceInfo) -> bool {
    d.abs_axes@.contains(ABS_X) && d.abs_axes@.contains(ABS_Y)
}

/// The device at position `i` once the pass is reversed (newest first).
pub open spec fn newest_first(devices: Seq<DeviceInfo>, i: int) -> DeviceInfo {
    devices[devices.len() - 1 - i]
}

/// Position `i` (newest first) is the one that a label keeps: it qualifies,
/// and no earlier qualifying position, that is no newer device, carries the
/// same label.
pub open spec fn keeps_label(devices: Seq<DeviceInfo>, i: int) -> bool {
    &&& 0 <= i < devices.len()
    &&& qualifies(newest_first(devices, i))
    &&& forall|j: int|
        0 <= j < i && qualifies(#[trigger] newest_first(devices, j)) ==> label(
            newest_first(devices, j),
        ) != label(newest_first(devices, i))
}

/// `cat` is the catalog of a pass: one entry for each position that keeps its
/// label, under that label, in increasing position.
pub open spec fn is_catalog_of(devices: Seq<DeviceInfo>, cat: Seq<CatalogEntry>) -> bool {
    &&& forall|k: int|
        0 <= k < cat.len() ==> keeps_label(devices, #[trigger] cat[k].identity as int)
            && cat[k].name@ == label(newest_first(devices, cat[k].identity as int))
    &&& forall|k1: int, k2: int|
        0 <= k1 < k2 < cat.len() ==> #[trigger] cat[k1].identity < #[trigger] cat[k2].identity
    &&& forall|i: int|
        #[trigger] keeps_label(devices, i) ==> exists|k: int|
            0 <= k < cat.len() && #[trigger] cat[k].identity == i
}

/// The names that a catalog lists, in its order.
pub open spec fn names_of(cat: Seq<CatalogEntry>) -> Seq<Seq<char>> {
    cat.map_values(|e: CatalogEntry| e.name@)
}

pub open spec fn names_unique(cat: Seq<CatalogEntry>) -> bool {
    forall|k1: int, k2: int|
        0 <= k1 < cat.len() && 0 <= k2 < cat.len() && k1 != k2 ==> #[trigger] cat[k1].name@
            != #[trigger] cat[k2].name@
}

/// `id` is the identity that the catalog gives to `name`.
pub open spec fn identity_of(cat: Seq<CatalogEntry>, name: Seq<char>, id: usize) -> bool {
    exists|k: int| 0 <= k < cat.len() && cat[k].name@ == name && #[trigger] cat[k].identity == id
}

/// A catalog lists each name once.
pub proof fn lemma_catalog_names_unique(devices: Seq<DeviceInfo>, cat: Seq<CatalogEntry>)
    requires
        is_catalog_of(devices, cat),
    ensures
        names_unique(cat),
{
    assert forall|k1: int, k2: int|
        0 <= k1 < cat.len() && 0 <= k2 < cat.len() && k1 != k2 implies #[trigger] cat[k1].name@
        != #[trigger] cat[k2].name@ by {
        let (a, b) = if k1 < k2 {
            (k1, k2)
        } else {
            (k2, k1)
        };
        assert(cat[a].identity < cat[b].identity);
        assert(keeps_label(devices, cat[a].identity as int));
        assert(keeps_label(devices, cat[b].identity as int));
        assert(qualifies(newest_first(devices, cat[b].identity as int)));
    }
}

/// A qualifying position that does not keep its label is preceded by one
/// with the same label that does.
proof fn lemma_label_kept_earlier(devices: Seq<DeviceInfo>, p: int)
    requires
        0 <= p < devices.len(),
        qualifies(newest_first(devices, p)),
    ensures
        exists|q: int|
            0 <= q <= p && #[trigger] keeps_label(devices, q) && label(newest_first(devices, q))
                == label(newest_first(devices, p)),
    decreases p,
{
    if !keeps_label(devices, p) {
        let j = choose|j: int|
            0 <= j < p && qualifies(#[trigger] newest_first(devices, j)) && label(
                newest_first(devices, j),
            ) == label(newest_first(devices, p));
        lemma_label_kept_earlier(devices, j);
    } else {
        assert(keeps_label(devices, p));
    }
}

/// The catalog of a pass lists exactly the labels of the devices that
/// advertise both axes, each once, ordered newest first by the device that
/// keeps the label.
pub proof fn lemma_listing_exact(devices: Seq<DeviceInfo>, cat: Seq<CatalogEntry>)
    requires
        is_catalog_of(devices, cat),
    ensures
        forall|s: Seq<char>|
            names_of(cat).contains(s) <==> exists|i: int|
                0 <= i < devices.len() && qualifies(#[trigger] devices[i]) && label(devices[i])
                    == s,
        names_unique(cat),
        forall|k1: int, k2: int|
            0 <= k1 < k2 < cat.len() ==> #[trigger] cat[k1].identity < #[trigger] cat[k2].identity,
{
    lemma_catalog_names_unique(devices, cat);
    let n = devices.len();
    assert forall|s: Seq<char>|
        names_of(cat).contains(s) <==> exists|i: int|
            0 <= i < devices.len() && qualifies(#[trigger] devices[i]) && label(devices[i])
                == s by {
        if names_of(cat).contains(s) {
            let k = choose|k: int| 0 <= k < names_of(cat).len() && names_of(cat)[k] == s;
            assert(keeps_label(devices, cat[k].identity as int));
            let i = n - 1 - cat[k].identity;
            assert(devices[i] == newest_first(devices, cat[k].identity as int));
        }
        if exists|i: int| 0 <= i < devices.len() && qualifies(#[trigger] devices[i]) && label(devices[i]) == s {
            let i = choose|i: int| 0 <= i < devices.len() && qualifies(#[trigger] devices[i]) && label(devices[i]) == s;
            let p = n - 1 - i;
            assert(newest_first(devices, p) == devices[i]);
            lemma_label_kept_earlier(devices, p);
            let q = choose|q: int|
                0 <= q <= p && #[trigger] keeps_label(devices, q) && label(newest_first(devices, q))
                    == label(newest_first(devices, p));
            let k = choose|k: int| 0 <= k < cat.len() && #[trigger] cat[k].identity == q;
            assert(names_of(cat)[k] == s);
        }
    }
}

/// Among qualifying devices that share a name, the newest one, the last in
/// enumeration order, is the one the catalog gives the name to.
pub proof fn lemma_newest_keeps_name(devices: Seq<DeviceInfo>, cat: Seq<CatalogEntry>, i: int)
    requires
        is_catalog_of(devices, cat),
        0 <= i < devices.len(),
        qualifies(devices[i]),
        forall|j: int|
            i < j < devices.len() && qualifies(#[trigger] devices[j]) ==> label(devices[j])
                != label(devices[i]),
    ensures
        identity_of(cat, label(devices[i]), (devices.len() - 1 - i) as usize),
{
    let n = devices.len();
    let p = n - 1 - i;
    assert(newest_first(devices, p) == devices[i]);
    assert forall|j: int|
        0 <= j < p && qualifies(#[trigger] newest_first(devices, j)) implies label(
        newest_first(devices, j),
    ) != label(newest_first(devices, p)) by {
        assert(newest_first(devices, j) == devices[n - 1 - j]);
    }
    assert(keeps_label(devices, p));
    let k = choose|k: int| 0 <= k < cat.len() && #[trigger] cat[k].identity == p;
    assert(cat[k].name@ == label(devices[i]));
}

fn has_axis(axes: &Vec<u16>, code: u16) -> (r: bool)
    ensures
        r == axes@.contains(code),
{
    let mut i: usize = 0;
    while i < axes.len()
        invariant
            i <= axes.len(),
            forall|k: int| 0 <= k < i ==> axes@[k] != code,
        decreases axes.len() - i,
    {
        if axes[i] == code {
            return true;
        }
        i = i + 1;
    }
    false
}

/// Whether a device advertises both required axes.
pub fn device_qualifies(d: &DeviceInfo) -> (r: bool)
    ensures
        r == qualifies(*d),
{
    has_axis(&d.abs_axes, ABS_X) && has_axis(&d.abs_axes, ABS_Y)
}

/// The label under which a device is listed.
pub fn device_label(d: &DeviceInfo) -> (r: String)
    ensures
        r@ == label(*d),
{
    match &d.name {
        Some(n) => n.clone(),
        None => String::from_str(UNNAMED_DEVICE),
    }
}

/// Builds the catalog of one enumeration pass, given in the order in which
/// the system enumerated the devices.
pub fn build_catalog(devices: &Vec<DeviceInfo>) -> (cat: Vec<CatalogEntry>)
    ensures
        is_catalog_of(devices@, cat@),
        names_unique(cat@),
{
    let n = devices.len();
    let mut labels: Vec<String> = Vec::new();
    let mut quals: Vec<bool> = Vec::new();
    let mut i: usize = 0;
    while i < n
        invariant
            n == devices.len(),
            i <= n,
            labels.len() == i,
            quals.len() == i,
            forall|k: int|
                0 <= k < i ==> #[trigger] labels@[k]@ == label(newest_first(devices@, k)),
            forall|k: int| 0 <= k < i ==> #[trigger] quals@[k] == qualifies(newest_first(devices@, k)),
        decreases n - i,
    {
        let d = &devices[n - 1 - i];
        labels.push(device_label(d));
        quals.push(device_qualifies(d));
        i = i + 1;
    }
    let mut cat: Vec<CatalogEntry> = Vec::new();
    let mut i: usize = 0;
    while i < n
        invariant
            n == devices.len(),
            i <= n,
            labels.len() == n,
            quals.len() == n,
            forall|k: int|
                0 <= k < n ==> #[trigger] labels@[k]@ == label(newest_first(devices@, k)),
            forall|k: int| 0 <= k < n ==> #[trigger] quals@[k] == qualifies(newest_first(devices@, k)),
            forall|k: int|
                0 <= k < cat.len() ==> #[trigger] cat@[k].identity < i && keeps_label(
                    devices@,
                    cat@[k].identity as int,
                ) && cat@[k].name@ == label(newest_first(devices@, cat@[k].identity as int)),
            forall|k1: int, k2: int|
                0 <= k1 < k2 < cat.len() ==> #[trigger] cat@[k1].identity
                    < #[trigger] cat@[k2].identity,
            forall|x: int|
                0 <= x < i && #[trigger] keeps_label(devices@, x) ==> exists|k: int|
                    0 <= k < cat.len() && #[trigger] cat@[k].identity == x,
        decreases n - i,
    {
        if quals[i] {
            let mut kept = true;
            let mut j: usize = 0;
            while j < i
                invariant
                    n == devices.len(),
                    i < n,
                    j <= i,
                    labels.len() == n,
                    quals.len() == n,
                    forall|k: int|
                        0 <= k < n ==> #[trigger] labels@[k]@ == label(newest_first(devices@, k)),
                    forall|k: int|
                        0 <= k < n ==> #[trigger] quals@[k] == qualifies(newest_first(devices@, k)),
                    kept == forall|m: int|
                        0 <= m < j && qualifies(#[trigger] newest_first(devices@, m)) ==> label(
                            newest_first(devices@, m),
                        ) != label(newest_first(devices@, i as int)),
                decreases i - j,
            {
                if quals[j] && labels[j] == labels[i] {
                    kept = false;
                }
                j = j + 1;
            }
            if kept {
                let ghost old_cat = cat@;
                let name = labels[i].clone();
                cat.push(CatalogEntry { name, identity: i });
                proof {
                    assert forall|x: int|
                        0 <= x < i + 1 && #[trigger] keeps_label(devices@, x) implies exists|k: int|
                        0 <= k < cat.len() && #[trigger] cat@[k].identity == x by {
                        if x < i {
                            let k = choose|k: int| 0 <= k < old_cat.len() && #[trigger] old_cat[k].identity == x;
                            assert(cat@[k] == old_cat[k]);
                        } else {
                            assert(cat@[cat.len() - 1].identity == x);
                        }
                    }
                }
            }
        }
        i = i + 1;
    }
    proof {
        lemma_catalog_names_unique(devices@, cat@);
    }
    cat
}

/// The names that a catalog lists, in its order.
pub fn catalog_names(cat: &Vec<CatalogEntry>) -> (r: Vec<String>)
    ensures
        r@.len() == cat@.len(),
        forall|k: int| 0 <= k < r@.len() ==> #[trigger] r@[k]@ == names_of(cat@)[k],
{
    let mut r: Vec<String> = Vec::new();
    let mut i: usize = 0;
    while i < cat.len()
        invariant
            i <= cat.len(),
            r@.len() == i,
            forall|k: int| 0 <= k < i ==> #[trigger] r@[k]@ == cat@[k].name@,
        decreases cat.len() - i,
    {
        r.push(cat[i].name.clone());
        i = i + 1;
    }
    r
}

/// The identity that the catalog gives to `name`, if it lists it.
pub fn lookup(cat: &Vec<CatalogEntry>, name: &String) -> (r: Option<usize>)
    ensures
        r is None <==> !names_of(cat@).contains(name@),
        r matches Some(id) ==> identity_of(cat@, name@, id),
{
    let mut i: usize = 0;
    while i < cat.len()
        invariant
            i <= cat.len(),
            forall|k: int| 0 <= k < i ==> cat@[k].name@ != name@,
        decreases cat.len() - i,
    {
        if cat[i].name == *name {
            proof {
                assert(names_of(cat@)[i as int] == name@);
            }
            return Some(cat[i].identity);
        }
        i = i + 1;
    }
    proof {
        if names_of(cat@).contains(name@) {
            let k = choose|k: int| 0 <= k < names_of(cat@).len() && names_of(cat@)[k] == name@;
            assert(cat@[k].name@ == name@);
        }
    }
    None
}

} // verus!
