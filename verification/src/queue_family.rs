use vstd::prelude::*;

verus! {

/// What the driver reports about one queue family for a given
/// (device, surface) pair: whether the family can run graphics commands and
/// whether it can present to the surface.
#[derive(Clone, Copy, PartialEq, Eq, Structural, Debug)]
pub struct QueueFamilyProps {
    pub graphics: bool,
    pub present: bool,
}

/// The queue-family indices resolved for one physical device: the first
/// graphics-capable family and the first present-capable family, each when
/// one exists. The two indices may coincide.
#[derive(Clone, Copy, PartialEq, Eq, Structural, Debug)]
pub struct QueueFamilyIndices {
    pub graphics_family: Option<u32>,
    pub present_family: Option<u32>,
}

impl QueueFamilyIndices {
    /// Both family indices have been resolved.
    pub open spec fn complete(self) -> bool {
        self.graphics_family is Some && self.present_family is Some
    }

    /// The resolved graphics family index; meaningful only when set.
    pub open spec fn graphics_index(self) -> u32
        recommends
            self.graphics_family is Some,
    {
        self.graphics_family->0
    }

    /// The resolved presentation family index; meaningful only when set.
    pub open spec fn present_index(self) -> u32
        recommends
            self.present_family is Some,
    {
        self.present_family->0
    }

    /// Holds iff both family indices are set.
    pub fn is_complete(&self) -> (r: bool)
        ensures
            r == self.complete(),
    {
        self.graphics_family.is_some() && self.present_family.is_some()
    }
}

/// The list has at least one graphics-capable family.
pub open spec fn has_graphics_family(families: Seq<QueueFamilyProps>) -> bool {
    exists|j: int| 0 <= j < families.len() && families[j].graphics
}

/// The list has at least one family that can present to the surface.
pub open spec fn has_present_family(families: Seq<QueueFamilyProps>) -> bool {
    exists|j: int| 0 <= j < families.len() && families[j].present
}

/// What a scan of the queue-family list resolves: each index is set iff a
/// capable family exists, and a set index is the first capable one.
pub open spec fn scan_result(families: Seq<QueueFamilyProps>, r: QueueFamilyIndices) -> bool {
    &&& (r.graphics_family is Some <==> has_graphics_family(families))
    &&& (r.graphics_family matches Some(g) ==> (g as int) < families.len()
        && families[g as int].graphics
        && (forall|j: int| 0 <= j < (g as int) ==> !families[j].graphics))
    &&& (r.present_family is Some <==> has_present_family(families))
    &&& (r.present_family matches Some(p) ==> (p as int) < families.len()
        && families[p as int].present
        && (forall|j: int| 0 <= j < (p as int) ==> !families[j].present))
}

/// Scan the queue-family list once, recording the first index exposing
/// graphics capability and, independently, the first index reporting
/// presentation support; the scan stops as soon as both are found.
pub fn find_queue_families(families: &Vec<QueueFamilyProps>) -> (r: QueueFamilyIndices)
    requires
        families@.len() <= u32::MAX,
    ensures
        scan_result(families@, r),
{
    let mut graphics_family: Option<u32> = None;
    let mut present_family: Option<u32> = None;
    let mut i: usize = 0;
    while i < families.len() && !(graphics_family.is_some() && present_family.is_some())
        invariant
            families@.len() <= u32::MAX,
            i <= families@.len(),
            graphics_family is None ==> forall|j: int| 0 <= j < i ==> !families@[j].graphics,
            (graphics_family matches Some(g) ==> (g as int) < i
                && families@[g as int].graphics
                && (forall|j: int| 0 <= j < (g as int) ==> !families@[j].graphics)),
            present_family is None ==> forall|j: int| 0 <= j < i ==> !families@[j].present,
            (present_family matches Some(p) ==> (p as int) < i
                && families@[p as int].present
                && (forall|j: int| 0 <= j < (p as int) ==> !families@[j].present)),
        decreases families@.len() - i,
    {
        let fam = families[i];
        if graphics_family.is_none() && fam.graphics {
            graphics_family = Some(i as u32);
        }
        if present_family.is_none() && fam.present {
            present_family = Some(i as u32);
        }
        i = i + 1;
    }
    QueueFamilyIndices { graphics_family, present_family }
}

/// Scanning any queue-family list that contains at least one graphics-capable
/// family and at least one present-capable family (possibly the same one)
/// resolves both indices: the result is complete.
pub proof fn lemma_scan_completeness(families: Seq<QueueFamilyProps>, r: QueueFamilyIndices)
    requires
        scan_result(families, r),
        has_graphics_family(families),
        has_present_family(families),
    ensures
        r.complete(),
{
}

/// Once a scan completes, each resolved index lies within the family list and
/// names a family with the corresponding capability — which is what entitles
/// the logical-device builder to request queues from those families.
pub proof fn lemma_complete_scan_indices_capable(
    families: Seq<QueueFamilyProps>,
    r: QueueFamilyIndices,
)
    requires
        scan_result(families, r),
        r.complete(),
    ensures
        (r.graphics_index() as int) < families.len(),
        families[r.graphics_index() as int].graphics,
        (r.present_index() as int) < families.len(),
        families[r.present_index() as int].present,
{
}

} // verus!
