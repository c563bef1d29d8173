//! The attribute store ("bind group"): a dense array of shared, immutable
//! attribute buffers, addressable by binding point and exposed read-only to
//! shader stages.
//!
//! Construction validates the entry list: every binding point must lie below
//! the number of entries and may be assigned only once. A violation fails
//! the constructor outright, so no store with silently merged entries can
//! ever be observed.

use vstd::prelude::*;
use std::sync::Arc;

verus! {

/// Why constructing an attribute store failed.
#[derive(Clone, Copy, PartialEq, Eq, Structural, Debug)]
pub enum BindGroupError {
    /// An entry's binding point is not below the number of entries.
    InvalidBindingPoint,
    /// Two entries share a binding point.
    DuplicateBindingPoint,
}

/// One entry handed to construction: a binding point and the shared buffer
/// of fixed-point attribute data to expose there.
pub struct BindGroupEntry {
    pub binding_point: usize,
    pub buffer: Arc<Vec<i64>>,
}

/// The ordered entry list handed to construction.
pub struct BindGroupCreateInfo {
    pub entries: Vec<BindGroupEntry>,
}

impl BindGroupCreateInfo {
    pub fn new() -> (r: BindGroupCreateInfo)
        ensures
            r.entries@.len() == 0,
    {
        BindGroupCreateInfo { entries: Vec::<BindGroupEntry>::new() }
    }
}

/// Relies on `Arc::clone`: the returned handle points to the same
/// allocation as the argument, so as a value it equals the argument.
#[verifier::external_body]
pub(crate) fn share_arc<T>(a: &Arc<T>) -> (r: Arc<T>)
    ensures
        r == *a,
{
    a.clone()
}

/// Every binding point lies below the number of entries, and no two entries
/// share one.
pub open spec fn entries_valid(entries: Seq<BindGroupEntry>) -> bool {
    (forall|i: int|
        0 <= i < entries.len() ==> (#[trigger] entries[i].binding_point) < entries.len())
        && (forall|i: int, j: int|
        0 <= i < j < entries.len() ==> (#[trigger] entries[i].binding_point) != (
        #[trigger] entries[j].binding_point))
}

/// The binding points of the first `i` entries.
pub open spec fn prefix_points(entries: Seq<BindGroupEntry>, i: int) -> Set<usize> {
    Set::new(|b: usize| exists|j: int| 0 <= j < i && entries[j].binding_point == b)
}

/// The failure the construction scan reports, walking the entries in order
/// with the set of binding points already seen: an out-of-range binding
/// point or a repeated one stops the scan at the first entry that shows it.
pub open spec fn scan_from(entries: Seq<BindGroupEntry>, i: int, seen: Set<usize>) -> Option<
    BindGroupError,
>
    decreases entries.len() - i,
{
    if i < 0 || i >= entries.len() {
        None
    } else if entries[i].binding_point >= entries.len() {
        Some(BindGroupError::InvalidBindingPoint)
    } else if seen.contains(entries[i].binding_point) {
        Some(BindGroupError::DuplicateBindingPoint)
    } else {
        scan_from(entries, i + 1, seen.insert(entries[i].binding_point))
    }
}

/// What construction reports for an entry list: nothing when the list is
/// valid, otherwise the kind of the first violation in entry order.
pub open spec fn construct_error(entries: Seq<BindGroupEntry>) -> Option<BindGroupError> {
    scan_from(entries, 0, Set::empty())
}

/// The scan reports nothing from position `i` onward, with `seen` already
/// taken, exactly when the remaining entries stay in range, avoid `seen`,
/// and avoid one another.
proof fn lemma_scan_none(entries: Seq<BindGroupEntry>, i: int, seen: Set<usize>)
    requires
        0 <= i <= entries.len(),
    ensures
        scan_from(entries, i, seen) is None <==> ((forall|j: int|
            i <= j < entries.len() ==> (#[trigger] entries[j].binding_point) < entries.len())
            && (forall|j: int|
            i <= j < entries.len() ==> !seen.contains(#[trigger] entries[j].binding_point)) && (
        forall|j: int, k: int|
            i <= j < k < entries.len() ==> (#[trigger] entries[j].binding_point) != (
            #[trigger] entries[k].binding_point))),
    decreases entries.len() - i,
{
    if i == entries.len() {
    } else {
        let b = entries[i].binding_point;
        if b >= entries.len() {
        } else if seen.contains(b) {
        } else {
            lemma_scan_none(entries, i + 1, seen.insert(b));
        }
    }
}

/// A fixed-size, dense array of shared attribute buffers, indexed by
/// binding point; immutable after construction. Its view is the sequence
/// of buffer contents, in binding-point order.
pub struct BindGroup {
    buffers: Vec<Arc<Vec<i64>>>,
}

impl View for BindGroup {
    type V = Seq<Seq<i64>>;

    closed spec fn view(&self) -> Seq<Seq<i64>> {
        self.buffers@.map_values(|b: Arc<Vec<i64>>| b@)
    }
}

impl BindGroup {
    /// Construct a store from an entry list. Succeeds exactly on valid
    /// lists, and then binding point `b` maps to the buffer supplied for
    /// `b`; otherwise reports the first violation in entry order.
    pub fn new(create_info: &BindGroupCreateInfo) -> (r: Result<BindGroup, BindGroupError>)
        ensures
            (r is Ok) <==> entries_valid(create_info.entries@),
            r matches Ok(bg) ==> bg@.len() == create_info.entries@.len(),
            r matches Ok(bg) ==> forall|i: int|
                0 <= i < create_info.entries@.len() ==> bg@[(
                #[trigger] create_info.entries@[i]).binding_point as int] == create_info.entries@[i].buffer@,
            r matches Err(e) ==> construct_error(create_info.entries@) == Some(e),
    {
        let n = create_info.entries.len();
        let ghost es = create_info.entries@;

        // validation scan: reject an out-of-range or repeated binding point
        let mut flag: Vec<bool> = Vec::new();
        let mut k: usize = 0;
        while k < n
            invariant
                k <= n,
                flag@.len() == k,
                forall|b: int| 0 <= b < k ==> !flag@[b],
            decreases n - k,
        {
            flag.push(false);
            k += 1;
        }

        proof {
            assert(prefix_points(es, 0) =~= Set::<usize>::empty());
        }
        let mut i: usize = 0;
        while i < n
            invariant
                0 <= i <= n,
                n == es.len(),
                es == create_info.entries@,
                flag@.len() == n,
                forall|b: int|
                    0 <= b < n ==> flag@[b] == prefix_points(es, i as int).contains(b as usize),
                scan_from(es, i as int, prefix_points(es, i as int)) == construct_error(es),
                forall|j: int, k: int|
                    0 <= j < k < i ==> (#[trigger] es[j].binding_point) != (
                    #[trigger] es[k].binding_point),
            decreases n - i,
        {
            let bp = create_info.entries[i].binding_point;
            if bp >= n {
                proof {
                    assert(scan_from(es, i as int, prefix_points(es, i as int)) == Some(
                        BindGroupError::InvalidBindingPoint,
                    ));
                }
                return Err(BindGroupError::InvalidBindingPoint);
            }
            if flag[bp] {
                proof {
                    assert(prefix_points(es, i as int).contains(bp));
                    let j = choose|j: int| 0 <= j < i && es[j].binding_point == bp;
                    assert(es[j].binding_point == es[i as int].binding_point);
                    assert(scan_from(es, i as int, prefix_points(es, i as int)) == Some(
                        BindGroupError::DuplicateBindingPoint,
                    ));
                }
                return Err(BindGroupError::DuplicateBindingPoint);
            }
            flag[bp] = true;
            proof {
                assert(prefix_points(es, i as int + 1) =~= prefix_points(es, i as int).insert(bp));
            }
            i += 1;
        }
        proof {
            assert(prefix_points(es, 0) =~= Set::<usize>::empty());
            lemma_scan_none(es, 0, Set::empty());
        }

        // every binding point is in range and unique: place each entry's
        // buffer at its slot; slots no entry names keep an empty buffer
        let mut buffers: Vec<Arc<Vec<i64>>> = Vec::new();
        let mut k: usize = 0;
        while k < n
            invariant
                k <= n,
                buffers@.len() == k,
            decreases n - k,
        {
            buffers.push(Arc::new(Vec::new()));
            k += 1;
        }

        let mut i: usize = 0;
        while i < n
            invariant
                0 <= i <= n,
                n == es.len(),
                es == create_info.entries@,
                entries_valid(es),
                buffers@.len() == n,
                forall|j: int|
                    0 <= j < i ==> buffers@[(#[trigger] es[j]).binding_point as int]@ == es[j].buffer@,
            decreases n - i,
        {
            let bp = create_info.entries[i].binding_point;
            buffers[bp] = share_arc(&create_info.entries[i].buffer);
            i += 1;
        }

        let bg = BindGroup { buffers };
        proof {
            assert(bg@.len() == n);
            assert forall|j: int| 0 <= j < n implies bg@[(
            #[trigger] es[j]).binding_point as int] == es[j].buffer@ by {
                assert(buffers@[es[j].binding_point as int]@ == es[j].buffer@);
            }
        }
        Ok(bg)
    }

    /// The number of binding points of the store.
    pub fn len(&self) -> (n: usize)
        ensures
            n == self@.len(),
    {
        self.buffers.len()
    }

    /// Read-only access to the buffer at a binding point: a shared handle to
    /// exactly the buffer supplied for it at construction. An out-of-range
    /// binding point is a caller contract violation; shader authors agree on
    /// the binding layout with the data producer.
    pub fn get_data_from_location(&self, location: usize) -> (r: Arc<Vec<i64>>)
        requires
            location < self@.len(),
        ensures
            r@ == self@[location as int],
    {
        share_arc(&self.buffers[location])
    }
}

} // verus!
