//! The choice of queue families for graphics, memory transfer and compute
//! work, and iteration over the distinct families chosen.

use vstd::prelude::*;
use vstd::string::StringExecFns;
use crate::errors::QueueError;

verus! {

/// The raw Vulkan queue flag for graphics work (`VK_QUEUE_GRAPHICS_BIT`).
pub const QUEUE_GRAPHICS: u32 = 0x1;
/// The raw Vulkan queue flag for compute work (`VK_QUEUE_COMPUTE_BIT`).
pub const QUEUE_COMPUTE: u32 = 0x2;
/// The raw Vulkan queue flag for transfer work (`VK_QUEUE_TRANSFER_BIT`).
pub const QUEUE_TRANSFER: u32 = 0x4;

/// What a device reports of one of its queue families.
#[derive(Clone, Copy, Debug, PartialEq, Eq, Structural)]
pub struct QueueFamilyProperties {
    /// The raw Vulkan queue flags of the family.
    pub queue_flags: u32,
    /// The number of queues in the family.
    pub queue_count: u32,
}

/// Whether the raw queue flags hold the given flag.
pub open spec fn supports(flags: u32, flag: u32) -> bool {
    flags & flag == flag
}

/// How many of graphics, transfer and compute work a family supports.
pub open spec fn n_operations(f: QueueFamilyProperties) -> nat {
    (if supports(f.queue_flags, QUEUE_GRAPHICS) { 1nat } else { 0nat })
        + (if supports(f.queue_flags, QUEUE_TRANSFER) { 1nat } else { 0nat })
        + (if supports(f.queue_flags, QUEUE_COMPUTE) { 1nat } else { 0nat })
}

/// Whether family `i` has queues and supports `flag`.
pub open spec fn eligible(fams: Seq<QueueFamilyProperties>, i: int, flag: u32) -> bool {
    fams[i].queue_count != 0 && supports(fams[i].queue_flags, flag)
}

/// Among the first `n` families, the first of the eligible ones that support
/// the fewest operations.
pub open spec fn best_family(fams: Seq<QueueFamilyProperties>, flag: u32, n: int) -> Option<int>
    decreases n,
{
    if n <= 0 {
        None
    } else {
        let b = best_family(fams, flag, n - 1);
        if eligible(fams, n - 1, flag)
            && (b is None || n_operations(fams[n - 1]) < n_operations(fams[b->0])) {
            Some(n - 1)
        } else {
            b
        }
    }
}

/// Whether family `i` is `a` or `b` (families already given other work).
pub open spec fn taken(i: int, a: Option<u32>, b: Option<u32>) -> bool {
    (a matches Some(x) && x as int == i) || (b matches Some(y) && y as int == i)
}

/// Among the first `n` families, the first eligible one with `ops`
/// operations that is not taken by `a` or `b`.
pub open spec fn first_fresh(fams: Seq<QueueFamilyProperties>, flag: u32, ops: nat, a: Option<u32>, b: Option<u32>, n: int) -> Option<int>
    decreases n,
{
    if n <= 0 {
        None
    } else {
        let f = first_fresh(fams, flag, ops, a, b, n - 1);
        if f is Some {
            f
        } else if eligible(fams, n - 1, flag) && n_operations(fams[n - 1]) == ops && !taken(n - 1, a, b) {
            Some(n - 1)
        } else {
            None
        }
    }
}

/// The family chosen for `flag` where `a` and `b` already have other work:
/// of the eligible families that support the fewest kinds of work, the first
/// one not yet taken, or the first one where all of them are taken.
pub open spec fn chosen_family(fams: Seq<QueueFamilyProperties>, flag: u32, a: Option<u32>, b: Option<u32>) -> Option<int> {
    match best_family(fams, flag, fams.len() as int) {
        None => None,
        Some(f) => match first_fresh(fams, flag, n_operations(fams[f]), a, b, fams.len() as int) {
            Some(g) => Some(g),
            None => Some(f),
        },
    }
}

/// Once the search finds a family among the first `k`, looking further
/// finds the same one.
pub proof fn lemma_first_fresh_stable(fams: Seq<QueueFamilyProperties>, flag: u32, ops: nat, a: Option<u32>, b: Option<u32>, k: int, n: int)
    requires
        k <= n,
        first_fresh(fams, flag, ops, a, b, k) is Some,
    ensures
        first_fresh(fams, flag, ops, a, b, n) == first_fresh(fams, flag, ops, a, b, k),
    decreases n - k,
{
    if k < n {
        lemma_first_fresh_stable(fams, flag, ops, a, b, k, n - 1);
    }
}

/// A chosen family as a family index.
pub open spec fn as_index(o: Option<int>) -> Option<u32> {
    match o {
        Some(x) => Some(x as u32),
        None => None,
    }
}

/// The queue family indices used for each kind of work.
#[derive(Clone, Copy, Debug, PartialEq, Eq, Structural)]
pub struct QueueFamilyInfo {
    /// The family used for graphics work.
    pub graphics: u32,
    /// The family used for memory transfers.
    pub memory: u32,
    /// The family used for compute work.
    pub compute: u32,
}

/// The family at position `i` (graphics, memory, compute).
pub open spec fn family_at(info: QueueFamilyInfo, i: int) -> u32 {
    if i == 0 { info.graphics } else if i == 1 { info.memory } else { info.compute }
}

/// Whether the family at position `i` differs from those before it.
pub open spec fn is_first_occurrence(info: QueueFamilyInfo, i: int) -> bool {
    i == 0
        || (i == 1 && info.memory != info.graphics)
        || (i == 2 && info.compute != info.graphics && info.compute != info.memory)
}

/// The distinct families from position `i` on, in order of position.
pub open spec fn unique_from(info: QueueFamilyInfo, i: int) -> Seq<u32>
    decreases 3 - i,
{
    if i < 0 || i >= 3 {
        Seq::empty()
    } else if is_first_occurrence(info, i) {
        seq![family_at(info, i)] + unique_from(info, i + 1)
    } else {
        unique_from(info, i + 1)
    }
}

/// The distinct families, in order of position.
pub open spec fn unique_families(info: QueueFamilyInfo) -> Seq<u32> {
    unique_from(info, 0)
}

/// The distinct families hold each of the three families exactly once: no
/// family repeats, each chosen family occurs, nothing else does, and the
/// graphics family comes first.
pub proof fn lemma_unique_families(info: QueueFamilyInfo)
    ensures
        unique_families(info).no_duplicates(),
        forall|x: u32| unique_families(info).contains(x)
            <==> (x == info.graphics || x == info.memory || x == info.compute),
        unique_families(info)[0] == info.graphics,
        1 <= unique_families(info).len() <= 3,
{
    reveal_with_fuel(unique_from, 4);
    let u = unique_families(info);
    assert forall|x: u32| u.contains(x) <==> (x == info.graphics || x == info.memory || x == info.compute) by {
        if x == info.graphics { assert(u[0] == x); }
        if x == info.memory && x != info.graphics { assert(u[1] == x); }
        if x == info.compute && x != info.graphics && x != info.memory {
            assert(u[u.len() - 1] == x);
        }
    }
}

impl QueueFamilyInfo {
    /// Chooses a family for each kind of work from the families a device
    /// reports, using as many different families as it can: for graphics,
    /// then transfer, then compute work, of the families with queues that
    /// support that work and support the fewest kinds of work, the first that
    /// no earlier kind of work took, or else the first of them. Fails, naming
    /// the device, with the first kind of work (graphics, then transfer, then
    /// compute) that no family supports.
    pub fn from_families(
        families: &Vec<QueueFamilyProperties>,
        physical_device_index: usize,
        physical_device_name: &str,
    ) -> (r: Result<Self, QueueError>)
        requires families.len() <= u32::MAX,
        ensures
            ({
                let g = chosen_family(families@, QUEUE_GRAPHICS, None, None);
                let m = chosen_family(families@, QUEUE_TRANSFER, as_index(g), None);
                let c = chosen_family(families@, QUEUE_COMPUTE, as_index(g), as_index(m));
                match r {
                    Ok(info) => {
                        &&& g is Some && m is Some && c is Some
                        &&& info.graphics == g->0 && info.memory == m->0 && info.compute == c->0
                    },
                    Err(e) => {
                        let op = if g is None { QUEUE_GRAPHICS } else if m is None { QUEUE_TRANSFER } else { QUEUE_COMPUTE };
                        &&& (g is None || m is None || c is None)
                        &&& e == QueueError::OperationUnsupported {
                            index: physical_device_index,
                            name: e->name,
                            operation: op,
                        }
                        &&& e->name@ == physical_device_name@
                    },
                }
            }),
            r is Ok <==> any_eligible(families@, QUEUE_GRAPHICS, families@.len() as int)
                && any_eligible(families@, QUEUE_TRANSFER, families@.len() as int)
                && any_eligible(families@, QUEUE_COMPUTE, families@.len() as int),
            r matches Ok(info) ==> {
                &&& eligible(families@, info.graphics as int, QUEUE_GRAPHICS)
                &&& eligible(families@, info.memory as int, QUEUE_TRANSFER)
                &&& eligible(families@, info.compute as int, QUEUE_COMPUTE)
                &&& forall|j: int| 0 <= j < families@.len() && #[trigger] eligible(families@, j, QUEUE_GRAPHICS)
                    ==> !supports_more(families@[info.graphics as int], families@[j])
                &&& forall|j: int| 0 <= j < families@.len() && #[trigger] eligible(families@, j, QUEUE_TRANSFER)
                    ==> !supports_more(families@[info.memory as int], families@[j])
                &&& forall|j: int| 0 <= j < families@.len() && #[trigger] eligible(families@, j, QUEUE_COMPUTE)
                    ==> !supports_more(families@[info.compute as int], families@[j])
            },
    {
        proof {
            let gg = chosen_family(families@, QUEUE_GRAPHICS, None, None);
            let mm = chosen_family(families@, QUEUE_TRANSFER, as_index(gg), None);
            lemma_chosen_family_most_specialised(families@, QUEUE_GRAPHICS, None, None);
            lemma_chosen_family_most_specialised(families@, QUEUE_TRANSFER, as_index(gg), None);
            lemma_chosen_family_most_specialised(families@, QUEUE_COMPUTE, as_index(gg), as_index(mm));
        }
        let mut graphics: Option<(u32, u32)> = None;
        let mut memory: Option<(u32, u32)> = None;
        let mut compute: Option<(u32, u32)> = None;
        let n = families.len();
        let mut i: usize = 0;
        while i < n
            invariant
                n == families@.len(),
                n <= u32::MAX,
                0 <= i <= n,
                Self::tracks(families@, graphics, QUEUE_GRAPHICS, i as int),
                Self::tracks(families@, memory, QUEUE_TRANSFER, i as int),
                Self::tracks(families@, compute, QUEUE_COMPUTE, i as int),
            decreases n - i,
        {
            let family = families[i];
            if family.queue_count != 0 {
                let mut n_operations: u32 = 0;
                let supports_graphics = family.queue_flags & QUEUE_GRAPHICS == QUEUE_GRAPHICS;
                if supports_graphics { n_operations = n_operations + 1; }
                let supports_memory = family.queue_flags & QUEUE_TRANSFER == QUEUE_TRANSFER;
                if supports_memory { n_operations = n_operations + 1; }
                let supports_compute = family.queue_flags & QUEUE_COMPUTE == QUEUE_COMPUTE;
                if supports_compute { n_operations = n_operations + 1; }
                if supports_graphics && Self::improves(graphics, n_operations) {
                    graphics = Some((i as u32, n_operations));
                }
                if supports_memory && Self::improves(memory, n_operations) {
                    memory = Some((i as u32, n_operations));
                }
                if supports_compute && Self::improves(compute, n_operations) {
                    compute = Some((i as u32, n_operations));
                }
            }
            i = i + 1;
        }
        match (graphics, memory, compute) {
            (Some(gb), Some(mb), Some(cb)) => {
                let g = match Self::first_fresh_family(families, QUEUE_GRAPHICS, gb.1, None, None) {
                    Some(f) => f,
                    None => gb.0,
                };
                let m = match Self::first_fresh_family(families, QUEUE_TRANSFER, mb.1, Some(g), None) {
                    Some(f) => f,
                    None => mb.0,
                };
                let c = match Self::first_fresh_family(families, QUEUE_COMPUTE, cb.1, Some(g), Some(m)) {
                    Some(f) => f,
                    None => cb.0,
                };
                let info = QueueFamilyInfo { graphics: g, memory: m, compute: c };
                proof { lemma_from_families_specialised(families@, info); }
                Ok(info)
            },
            _ => {
                let operation = if graphics.is_none() {
                    QUEUE_GRAPHICS
                } else if memory.is_none() {
                    QUEUE_TRANSFER
                } else {
                    QUEUE_COMPUTE
                };
                Err(QueueError::OperationUnsupported {
                    index: physical_device_index,
                    name: String::from_str(physical_device_name),
                    operation,
                })
            },
        }
    }

    /// The first family with queues that support `flag` and `ops` kinds of
    /// work, other than `a` and `b`.
    fn first_fresh_family(families: &Vec<QueueFamilyProperties>, flag: u32, ops: u32, a: Option<u32>, b: Option<u32>) -> (r: Option<u32>)
        requires families.len() <= u32::MAX,
        ensures
            match r {
                Some(x) => first_fresh(families@, flag, ops as nat, a, b, families@.len() as int) == Some(x as int),
                None => first_fresh(families@, flag, ops as nat, a, b, families@.len() as int) is None,
            },
    {
        let n = families.len();
        let mut i: usize = 0;
        while i < n
            invariant
                n == families@.len(),
                n <= u32::MAX,
                0 <= i <= n,
                first_fresh(families@, flag, ops as nat, a, b, i as int) is None,
            decreases n - i,
        {
            let family = families[i];
            let fam_ops = Self::operations(family);
            let is_taken = match a { Some(x) => x == i as u32, None => false }
                || match b { Some(y) => y == i as u32, None => false };
            if family.queue_count != 0 && family.queue_flags & flag == flag && fam_ops == ops && !is_taken {
                proof {
                    assert(!taken(i as int, a, b));
                    assert(first_fresh(families@, flag, ops as nat, a, b, i + 1) == Some(i as int));
                    lemma_first_fresh_stable(families@, flag, ops as nat, a, b, i + 1, n as int);
                }
                return Some(i as u32);
            }
            assert(first_fresh(families@, flag, ops as nat, a, b, i + 1) is None);
            i = i + 1;
        }
        None
    }

    /// How many of graphics, transfer and compute work the family supports.
    fn operations(family: QueueFamilyProperties) -> (r: u32)
        ensures r == n_operations(family),
    {
        let mut n: u32 = 0;
        if family.queue_flags & QUEUE_GRAPHICS == QUEUE_GRAPHICS { n = n + 1; }
        if family.queue_flags & QUEUE_TRANSFER == QUEUE_TRANSFER { n = n + 1; }
        if family.queue_flags & QUEUE_COMPUTE == QUEUE_COMPUTE { n = n + 1; }
        n
    }

    /// The choice kept while scanning the first `i` families: the best family so
    /// far and its number of operations.
    spec fn tracks(fams: Seq<QueueFamilyProperties>, chosen: Option<(u32, u32)>, flag: u32, i: int) -> bool {
        match best_family(fams, flag, i) {
            Some(b) => chosen == Some((b as u32, n_operations(fams[b]) as u32)) && 0 <= b < i,
            None => chosen is None,
        }
    }

    /// Whether a family with `n` operations replaces the current choice.
    fn improves(chosen: Option<(u32, u32)>, n: u32) -> (r: bool)
        ensures r == (chosen is None || n < (chosen->0).1),
    {
        match chosen {
            None => true,
            Some(c) => n < c.1,
        }
    }

    /// An iterator over the distinct families, in the order graphics, memory,
    /// compute.
    pub fn unique(&self) -> (r: QueueFamilyInfoUniqueIterator<'_>)
        ensures r.remaining() == unique_families(*self),
    {
        QueueFamilyInfoUniqueIterator::new(self)
    }

    /// The number of distinct families.
    pub fn unique_len(&self) -> (r: usize)
        ensures r == unique_families(*self).len(),
    {
        proof { reveal_with_fuel(unique_from, 4); }
        if self.graphics != self.memory && self.graphics != self.compute && self.memory != self.compute {
            3
        } else if self.graphics != self.memory || self.graphics != self.compute || self.memory != self.compute {
            2
        } else {
            1
        }
    }
}

/// Iterates over the distinct families of a `QueueFamilyInfo`.
pub struct QueueFamilyInfoUniqueIterator<'a> {
    /// The families iterated over.
    family_info: &'a QueueFamilyInfo,
    /// The next position (graphics, memory, compute) to look at.
    index: usize,
}

impl<'a> QueueFamilyInfoUniqueIterator<'a> {
    /// The families this iterator has yet to return.
    pub closed spec fn remaining(&self) -> Seq<u32> {
        unique_from(*self.family_info, self.index as int)
    }

    /// The next position (graphics, memory, compute) to look at.
    pub closed spec fn position(&self) -> int {
        self.index as int
    }

    /// The families iterated over.
    pub closed spec fn info(&self) -> QueueFamilyInfo {
        *self.family_info
    }

    /// An iterator over the distinct families of `family_info`.
    pub fn new(family_info: &'a QueueFamilyInfo) -> (r: Self)
        ensures
            r.remaining() == unique_families(*family_info),
            r.info() == *family_info,
    {
        QueueFamilyInfoUniqueIterator { family_info, index: 0 }
    }

    /// The next distinct family, or `None` when all have been returned.
    pub fn next(&mut self) -> (r: Option<u32>)
        ensures
            final(self).info() == old(self).info(),
            old(self).remaining().len() == 0 ==> r is None && final(self).remaining().len() == 0,
            old(self).remaining().len() > 0 ==> {
                &&& r == Some(old(self).remaining()[0])
                &&& final(self).remaining() == old(self).remaining().drop_first()
            },
        decreases 3 - old(self).position(),
    {
        let info = self.family_info;
        if self.index == 0 {
            self.index = 1;
            Some(info.graphics)
        } else if self.index == 1 {
            self.index = 2;
            if info.memory != info.graphics {
                Some(info.memory)
            } else {
                self.next()
            }
        } else if self.index == 2 {
            self.index = 3;
            if info.compute != info.graphics && info.compute != info.memory {
                Some(info.compute)
            } else {
                self.next()
            }
        } else {
            None
        }
    }
}


/// Whether family `f` supports every kind of work (graphics, transfer,
/// compute) that `g` supports, and some kind that `g` does not: `g` is more
/// specialised than `f`.
pub open spec fn supports_more(f: QueueFamilyProperties, g: QueueFamilyProperties) -> bool {
    &&& (supports(g.queue_flags, QUEUE_GRAPHICS) ==> supports(f.queue_flags, QUEUE_GRAPHICS))
    &&& (supports(g.queue_flags, QUEUE_TRANSFER) ==> supports(f.queue_flags, QUEUE_TRANSFER))
    &&& (supports(g.queue_flags, QUEUE_COMPUTE) ==> supports(f.queue_flags, QUEUE_COMPUTE))
    &&& (supports(f.queue_flags, QUEUE_GRAPHICS) && !supports(g.queue_flags, QUEUE_GRAPHICS)
        || supports(f.queue_flags, QUEUE_TRANSFER) && !supports(g.queue_flags, QUEUE_TRANSFER)
        || supports(f.queue_flags, QUEUE_COMPUTE) && !supports(g.queue_flags, QUEUE_COMPUTE))
}

/// The first `n` families hold one with queues that supports `flag`.
pub open spec fn any_eligible(fams: Seq<QueueFamilyProperties>, flag: u32, n: int) -> bool {
    exists|j: int| 0 <= j < n && #[trigger] eligible(fams, j, flag)
}

/// The most specialised family among the first `n` has the fewest operations.
proof fn lemma_best_family_min(fams: Seq<QueueFamilyProperties>, flag: u32, n: int)
    requires 0 <= n <= fams.len(),
    ensures
        best_family(fams, flag, n) is Some <==> any_eligible(fams, flag, n),
        best_family(fams, flag, n) matches Some(b) ==> {
            &&& 0 <= b < n
            &&& eligible(fams, b, flag)
            &&& forall|j: int| 0 <= j < n && #[trigger] eligible(fams, j, flag) ==> n_operations(fams[b]) <= n_operations(fams[j])
        },
    decreases n,
{
    if n > 0 {
        lemma_best_family_min(fams, flag, n - 1);
        if eligible(fams, n - 1, flag) {
            assert(any_eligible(fams, flag, n));
        }
        if any_eligible(fams, flag, n - 1) {
            let j = choose|j: int| 0 <= j < n - 1 && #[trigger] eligible(fams, j, flag);
            assert(0 <= j < n && eligible(fams, j, flag));
        }
        if any_eligible(fams, flag, n) && !eligible(fams, n - 1, flag) {
            let j = choose|j: int| 0 <= j < n && #[trigger] eligible(fams, j, flag);
            assert(0 <= j < n - 1 && eligible(fams, j, flag));
        }
    }
}

/// What the search for a fresh family finds is a family with queues that
/// supports `flag`, has `ops` operations and is not taken.
proof fn lemma_first_fresh_found(fams: Seq<QueueFamilyProperties>, flag: u32, ops: nat, a: Option<u32>, b: Option<u32>, n: int)
    ensures
        first_fresh(fams, flag, ops, a, b, n) matches Some(f) ==> {
            &&& 0 <= f < n
            &&& eligible(fams, f, flag)
            &&& n_operations(fams[f]) == ops
            &&& !taken(f, a, b)
        },
    decreases n,
{
    if n > 0 {
        lemma_first_fresh_found(fams, flag, ops, a, b, n - 1);
    }
}

/// A family that supports strictly more kinds of work has strictly more
/// operations.
proof fn lemma_more_operations(f: QueueFamilyProperties, g: QueueFamilyProperties)
    requires supports_more(f, g),
    ensures n_operations(f) > n_operations(g),
{
}

/// The family chosen for a kind of work (whatever the families already taken)
/// is one with queues that supports that work, one is chosen exactly where
/// such a family exists, and no family with queues that supports that work is
/// more specialised than the chosen one: none supports only some of the kinds
/// of work (graphics, transfer, compute) that the chosen one supports. So a
/// dedicated transfer family is preferred for transfer work over one that
/// also does compute.
pub proof fn lemma_chosen_family_most_specialised(fams: Seq<QueueFamilyProperties>, flag: u32, a: Option<u32>, b: Option<u32>)
    ensures
        chosen_family(fams, flag, a, b) is Some <==> any_eligible(fams, flag, fams.len() as int),
        chosen_family(fams, flag, a, b) matches Some(c) ==> {
            &&& 0 <= c < fams.len()
            &&& eligible(fams, c, flag)
            &&& forall|j: int| 0 <= j < fams.len() && #[trigger] eligible(fams, j, flag) ==> !supports_more(fams[c], fams[j])
        },
{
    let n = fams.len() as int;
    lemma_best_family_min(fams, flag, n);
    match best_family(fams, flag, n) {
        None => {},
        Some(bf) => {
            let ops = n_operations(fams[bf]);
            lemma_first_fresh_found(fams, flag, ops, a, b, n);
            let c = chosen_family(fams, flag, a, b)->0;
            assert(n_operations(fams[c]) == ops);
            assert forall|j: int| 0 <= j < n && #[trigger] eligible(fams, j, flag) implies !supports_more(fams[c], fams[j]) by {
                if supports_more(fams[c], fams[j]) {
                    lemma_more_operations(fams[c], fams[j]);
                }
            }
        },
    }
}

/// What `from_families` chooses, stated over the families alone: each of the
/// graphics, transfer and compute families has queues and supports its work,
/// and no family with queues that supports that work is more specialised
/// than the one chosen. It fails only where some kind of work has no family.
pub proof fn lemma_from_families_specialised(fams: Seq<QueueFamilyProperties>, info: QueueFamilyInfo)
    requires
        fams.len() <= u32::MAX,
        ({
            let g = chosen_family(fams, QUEUE_GRAPHICS, None, None);
            let m = chosen_family(fams, QUEUE_TRANSFER, as_index(g), None);
            let c = chosen_family(fams, QUEUE_COMPUTE, as_index(g), as_index(m));
            &&& g is Some && m is Some && c is Some
            &&& info.graphics == g->0 && info.memory == m->0 && info.compute == c->0
        }),
    ensures
        eligible(fams, info.graphics as int, QUEUE_GRAPHICS),
        eligible(fams, info.memory as int, QUEUE_TRANSFER),
        eligible(fams, info.compute as int, QUEUE_COMPUTE),
        forall|j: int| 0 <= j < fams.len() && #[trigger] eligible(fams, j, QUEUE_GRAPHICS)
            ==> !supports_more(fams[info.graphics as int], fams[j]),
        forall|j: int| 0 <= j < fams.len() && #[trigger] eligible(fams, j, QUEUE_TRANSFER)
            ==> !supports_more(fams[info.memory as int], fams[j]),
        forall|j: int| 0 <= j < fams.len() && #[trigger] eligible(fams, j, QUEUE_COMPUTE)
            ==> !supports_more(fams[info.compute as int], fams[j]),
{
    let g = chosen_family(fams, QUEUE_GRAPHICS, None, None);
    let m = chosen_family(fams, QUEUE_TRANSFER, as_index(g), None);
    lemma_chosen_family_most_specialised(fams, QUEUE_GRAPHICS, None, None);
    lemma_chosen_family_most_specialised(fams, QUEUE_TRANSFER, as_index(g), None);
    lemma_chosen_family_most_specialised(fams, QUEUE_COMPUTE, as_index(g), as_index(m));
}

} // verus!
