use vstd::prelude::*;

use crate::graphics_device::Feature;
use crate::renderers::{RendererError, RendererResult};

verus! {

/// Represents the Vulkan queue type.
#[derive(Debug, Copy, Clone, PartialEq, Eq, Structural)]
pub enum QueueType {
    Graphics,
    Transfer,
    Compute,
}

/// The capabilities that a queue family reports.
#[derive(Debug, Copy, Clone, PartialEq, Eq, Structural)]
pub struct QueueFlags {
    pub graphics: bool,
    pub compute: bool,
    pub transfer: bool,
    pub video_decode: bool,
    pub video_encode: bool,
    pub optical_flow: bool,
}

/// Represents a Vulkan queue family.
#[derive(Debug, Copy, Clone, PartialEq, Eq, Structural)]
pub struct QueueFamily {
    /// The index of the queue family.
    pub index: u32,
    /// The number of queues available for this family.
    pub queue_count: u32,
    /// The capabilities of the family.
    pub queue_flags: QueueFlags,
    /// Indicates whether this family supports presenting to a device.
    pub present_supported: bool,
}

/// A queue taken from a family for one role.
#[derive(Debug, Copy, Clone, PartialEq, Eq, Structural)]
pub struct QueueAssignment {
    /// The index of the queue family.
    pub family_index: u32,
    /// The index of the queue within its family.
    pub queue_index: u32,
}

/// The number of queues that the logical device creates in a family.
#[derive(Debug, Copy, Clone, PartialEq, Eq, Structural)]
pub struct QueueRequest {
    /// The index of the queue family.
    pub family_index: u32,
    /// The number of queues to create.
    pub queue_count: u32,
}

/// The queues that a logical device is created with.
#[derive(Debug, Clone)]
pub struct QueuePlan {
    /// The position in the family list of the family used for graphics.
    pub graphics_family: usize,
    /// The position of the family used for transfers, if asynchronous transfer is enabled.
    pub transfer_family: Option<usize>,
    /// The position of the family used for compute, if compute shaders are enabled.
    pub compute_family: Option<usize>,
    /// The queue used for graphics.
    pub graphics_queue: QueueAssignment,
    /// The queue used for transfers.
    pub transfer_queue: Option<QueueAssignment>,
    /// The queue used for compute.
    pub compute_queue: Option<QueueAssignment>,
    /// The queue counts per family, each family once, in the order of first use.
    pub requests: Vec<QueueRequest>,
}

/// The selection rules for queue families, by number: `0` graphics and
/// presentation, `1` dedicated transfer, `2` transfer without graphics,
/// `3` compute without graphics.
pub open spec fn matches_rule(rule: u8, f: QueueFamily) -> bool {
    if rule == 0 {
        f.queue_flags.graphics && f.present_supported
    } else if rule == 1 {
        f.queue_flags.transfer && !f.queue_flags.graphics && !f.queue_flags.compute
    } else if rule == 2 {
        f.queue_flags.transfer && !f.queue_flags.graphics
    } else {
        f.queue_flags.compute && !f.queue_flags.graphics
    }
}

/// Whether `i` is the first position of `s` whose family satisfies rule `rule`.
pub open spec fn is_first(s: Seq<QueueFamily>, rule: u8, i: int) -> bool {
    &&& 0 <= i < s.len()
    &&& matches_rule(rule, s[i])
    &&& forall|j: int| 0 <= j < i ==> !matches_rule(rule, #[trigger] s[j])
}

/// The first position of `s` whose family satisfies rule `rule`, or `-1`.
pub open spec fn first_where(s: Seq<QueueFamily>, rule: u8) -> int {
    if exists|i: int| is_first(s, rule, i) {
        choose|i: int| is_first(s, rule, i)
    } else {
        -1
    }
}

/// The position of the family chosen for transfers, given the graphics family.
pub open spec fn transfer_choice(s: Seq<QueueFamily>, graphics: int) -> int {
    if first_where(s, 1) >= 0 {
        first_where(s, 1)
    } else if first_where(s, 2) >= 0 {
        first_where(s, 2)
    } else {
        graphics
    }
}

/// The position of the family chosen for compute, given the graphics family.
pub open spec fn compute_choice(s: Seq<QueueFamily>, graphics: int) -> int {
    if first_where(s, 3) >= 0 {
        first_where(s, 3)
    } else {
        graphics
    }
}

/// The families that serve the roles in order: graphics, then transfer and
/// compute where the features enable them.
pub open spec fn role_families(s: Seq<QueueFamily>, features: Seq<Feature>) -> Seq<QueueFamily> {
    let g = first_where(s, 0);
    let with_transfer = if features.contains(Feature::AsyncTransfer) {
        seq![s[g], s[transfer_choice(s, g)]]
    } else {
        seq![s[g]]
    };
    if features.contains(Feature::ComputeShaders) {
        with_transfer.push(s[compute_choice(s, g)])
    } else {
        with_transfer
    }
}

/// The next queue index handed out in family `k` after the queues taken by
/// `roles`: a cursor per family that wraps around the family's queue count.
pub open spec fn next_queue_index(roles: Seq<QueueFamily>, k: u32) -> int
    decreases roles.len(),
{
    if roles.len() == 0 {
        0
    } else {
        let prev = next_queue_index(roles.drop_last(), k);
        if roles.last().index == k {
            (prev + 1) % (roles.last().queue_count as int)
        } else {
            prev
        }
    }
}

/// The number of queues requested in family `k` by `roles`, a request
/// counting only while the family has queues left.
pub open spec fn requested_count(roles: Seq<QueueFamily>, k: u32) -> int
    decreases roles.len(),
{
    if roles.len() == 0 {
        0
    } else {
        let prev = requested_count(roles.drop_last(), k);
        if roles.last().index == k && prev < roles.last().queue_count {
            prev + 1
        } else {
            prev
        }
    }
}

/// Whether some role is served by family `k`.
pub open spec fn has_role_family(roles: Seq<QueueFamily>, k: u32) -> bool {
    exists|r: int| 0 <= r < roles.len() && roles[r].index == k
}

/// Whether some request names family `k`.
pub open spec fn has_request_family(requests: Seq<QueueRequest>, k: u32) -> bool {
    exists|i: int| 0 <= i < requests.len() && requests[i].family_index == k
}

/// Whether the requests name each family of `roles` exactly once, with its
/// requested count, and nothing else.
pub open spec fn requests_match(requests: Seq<QueueRequest>, roles: Seq<QueueFamily>) -> bool {
    &&& forall|i: int|
        0 <= i < requests.len() ==> (#[trigger] requests[i]).queue_count == requested_count(
            roles,
            requests[i].family_index,
        )
    &&& forall|i: int, j: int|
        0 <= i < j < requests.len() ==> requests[i].family_index != requests[j].family_index
    &&& forall|i: int|
        0 <= i < requests.len() ==> has_role_family(roles, (#[trigger] requests[i]).family_index)
    &&& forall|r: int|
        0 <= r < roles.len() ==> has_request_family(requests, (#[trigger] roles[r]).index)
}

/// Finds the first family satisfying a selection rule.
fn find_first(families: &Vec<QueueFamily>, rule: u8) -> (r: Option<usize>)
    ensures
        r matches Some(i) ==> is_first(families@, rule, i as int) && first_where(families@, rule)
            == i,
        r is None ==> first_where(families@, rule) == -1,
{
    let mut i: usize = 0;
    while i < families.len()
        invariant
            i <= families@.len(),
            forall|j: int| 0 <= j < i ==> !matches_rule(rule, #[trigger] families@[j]),
        decreases families@.len() - i,
    {
        let f = families[i];
        let hit = if rule == 0 {
            f.queue_flags.graphics && f.present_supported
        } else if rule == 1 {
            f.queue_flags.transfer && !f.queue_flags.graphics && !f.queue_flags.compute
        } else if rule == 2 {
            f.queue_flags.transfer && !f.queue_flags.graphics
        } else {
            f.queue_flags.compute && !f.queue_flags.graphics
        };
        if hit {
            proof {
                lemma_first_where_found(families@, rule, i as int);
            }
            return Some(i);
        }
        i = i + 1;
    }
    proof {
        lemma_first_where_none(families@, rule);
    }
    None
}

proof fn lemma_first_where_found(s: Seq<QueueFamily>, rule: u8, i: int)
    requires
        is_first(s, rule, i),
    ensures
        first_where(s, rule) == i,
{
    let c = choose|k: int| is_first(s, rule, k);
    assert(is_first(s, rule, c));
    if c < i {
        assert(!matches_rule(rule, s[c]));
    } else if c > i {
        assert(!matches_rule(rule, s[i]));
    }
}

proof fn lemma_first_where_none(s: Seq<QueueFamily>, rule: u8)
    requires
        forall|j: int| 0 <= j < s.len() ==> !matches_rule(rule, #[trigger] s[j]),
    ensures
        first_where(s, rule) == -1,
{
    if exists|i: int| is_first(s, rule, i) {
        let c = choose|k: int| is_first(s, rule, k);
        assert(!matches_rule(rule, s[c]));
    }
}

/// The families serving the roles, given the graphics family `g`, with the
/// positions chosen for transfer and compute where the features enable them.
fn select_roles(families: &Vec<QueueFamily>, features: &Vec<Feature>, g: usize) -> (r: (
    Vec<QueueFamily>,
    Option<usize>,
    Option<usize>,
))
    requires
        g == first_where(families@, 0),
        0 <= g < families@.len(),
    ensures
        r.0@ == role_families(families@, features@),
        r.1 == if features@.contains(Feature::AsyncTransfer) {
            Some(transfer_choice(families@, g as int) as usize)
        } else {
            None::<usize>
        },
        r.2 == if features@.contains(Feature::ComputeShaders) {
            Some(compute_choice(families@, g as int) as usize)
        } else {
            None::<usize>
        },
{
    let ghost roles_spec = role_families(families@, features@);
    let mut roles: Vec<QueueFamily> = Vec::new();
    roles.push(families[g]);

    let wants_transfer = contains_feature(features, Feature::AsyncTransfer);
    let mut transfer_family: Option<usize> = None;
    if wants_transfer {
        let t = match find_first(families, 1) {
            Some(t) => t,
            None => match find_first(families, 2) {
                Some(t) => t,
                None => g,
            },
        };
        transfer_family = Some(t);
        roles.push(families[t]);
    }

    let wants_compute = contains_feature(features, Feature::ComputeShaders);
    let mut compute_family: Option<usize> = None;
    if wants_compute {
        let c = match find_first(families, 3) {
            Some(c) => c,
            None => g,
        };
        compute_family = Some(c);
        roles.push(families[c]);
    }
    assert(roles@ =~= roles_spec);
    (roles, transfer_family, compute_family)
}

/// Whether every family that `plan_queues` would use has at least one queue
/// (true when no family serves graphics, as planning then fails anyway).
pub fn role_families_have_queues(families: &Vec<QueueFamily>, features: &Vec<Feature>) -> (b: bool)
    ensures
        b == (first_where(families@, 0) >= 0 ==> forall|i: int|
            0 <= i < role_families(families@, features@).len() ==> (#[trigger] role_families(
                families@,
                features@,
            )[i]).queue_count > 0),
{
    let g = match find_first(families, 0) {
        Some(g) => g,
        None => {
            return true;
        },
    };
    let (roles, _, _) = select_roles(families, features, g);
    let mut i: usize = 0;
    while i < roles.len()
        invariant
            i <= roles@.len(),
            first_where(families@, 0) >= 0,
            roles@ == role_families(families@, features@),
            forall|j: int| 0 <= j < i ==> (#[trigger] roles@[j]).queue_count > 0,
        decreases roles@.len() - i,
    {
        if roles[i].queue_count == 0 {
            assert(role_families(families@, features@)[i as int].queue_count == 0);
            return false;
        }
        i = i + 1;
    }
    assert forall|j: int| 0 <= j < role_families(families@, features@).len() implies (
    #[trigger] role_families(families@, features@)[j]).queue_count > 0 by {
        assert(roles@[j] == role_families(families@, features@)[j]);
    }
    true
}

/// Whether `features` holds `feature`.
pub fn contains_feature(features: &Vec<Feature>, feature: Feature) -> (b: bool)
    ensures
        b == features@.contains(feature),
{
    let mut i: usize = 0;
    while i < features.len()
        invariant
            i <= features@.len(),
            forall|j: int| 0 <= j < i ==> features@[j] != feature,
        decreases features@.len() - i,
    {
        if features[i] == feature {
            return true;
        }
        i = i + 1;
    }
    false
}

/// The queue index that family `k` hands out after the first `upto` roles.
fn queue_cursor(roles: &Vec<QueueFamily>, upto: usize, k: u32) -> (c: u32)
    requires
        upto <= roles@.len(),
        forall|i: int| 0 <= i < roles@.len() ==> (#[trigger] roles@[i]).queue_count > 0,
    ensures
        c == next_queue_index(roles@.take(upto as int), k),
{
    let mut c: u32 = 0;
    let mut j: usize = 0;
    while j < upto
        invariant
            j <= upto <= roles@.len(),
            forall|i: int| 0 <= i < roles@.len() ==> (#[trigger] roles@[i]).queue_count > 0,
            c == next_queue_index(roles@.take(j as int), k),
            c < u32::MAX,
        decreases upto - j,
    {
        proof {
            assert(roles@.take(j + 1).drop_last() =~= roles@.take(j as int));
            assert(roles@.take(j + 1).last() == roles@[j as int]);
        }
        let f = roles[j];
        if f.index == k {
            c = (c + 1) % f.queue_count;
        }
        j = j + 1;
    }
    c
}

/// The number of queues that `roles` request in family `k`.
fn count_requests(roles: &Vec<QueueFamily>, k: u32) -> (c: u32)
    ensures
        c == requested_count(roles@, k),
{
    let mut c: u32 = 0;
    let mut j: usize = 0;
    while j < roles.len()
        invariant
            j <= roles@.len(),
            c == requested_count(roles@.take(j as int), k),
        decreases roles@.len() - j,
    {
        proof {
            assert(roles@.take(j + 1).drop_last() =~= roles@.take(j as int));
            assert(roles@.take(j + 1).last() == roles@[j as int]);
        }
        let f = roles[j];
        if f.index == k && c < f.queue_count {
            c = c + 1;
        }
        j = j + 1;
    }
    proof {
        assert(roles@.take(roles@.len() as int) =~= roles@);
    }
    c
}

fn has_request(requests: &Vec<QueueRequest>, k: u32) -> (found: bool)
    ensures
        found <==> has_request_family(requests@, k),
{
    let mut i: usize = 0;
    while i < requests.len()
        invariant
            i <= requests@.len(),
            forall|x: int| 0 <= x < i ==> requests@[x].family_index != k,
        decreases requests@.len() - i,
    {
        if requests[i].family_index == k {
            return true;
        }
        i = i + 1;
    }
    false
}

/// Collects the queue requests of `roles`, one per family.
fn collect_requests(roles: &Vec<QueueFamily>) -> (requests: Vec<QueueRequest>)
    ensures
        requests_match(requests@, roles@),
{
    let mut requests: Vec<QueueRequest> = Vec::new();
    let mut j: usize = 0;
    while j < roles.len()
        invariant
            j <= roles@.len(),
            forall|i: int|
                0 <= i < requests@.len() ==> (#[trigger] requests@[i]).queue_count
                    == requested_count(roles@, requests@[i].family_index),
            forall|a: int, b: int|
                0 <= a < b < requests@.len() ==> requests@[a].family_index
                    != requests@[b].family_index,
            forall|i: int|
                0 <= i < requests@.len() ==> has_role_family(
                    roles@,
                    (#[trigger] requests@[i]).family_index,
                ),
            forall|r: int|
                0 <= r < j ==> has_request_family(requests@, (#[trigger] roles@[r]).index),
        decreases roles@.len() - j,
    {
        let k = roles[j].index;
        let found = has_request(&requests, k);
        if !found {
            let count = count_requests(roles, k);
            let ghost before = requests@;
            requests.push(QueueRequest { family_index: k, queue_count: count });
            proof {
                assert forall|r: int| 0 <= r < j implies has_request_family(
                    requests@,
                    (#[trigger] roles@[r]).index,
                ) by {
                    assert(has_request_family(before, roles@[r].index));
                    let x = choose|x: int|
                        0 <= x < before.len() && before[x].family_index == roles@[r].index;
                    assert(requests@[x] == before[x]);
                }
                assert(requests@[requests@.len() - 1].family_index == roles@[j as int].index);
                assert forall|x: int| 0 <= x < requests@.len() implies has_role_family(
                    roles@,
                    (#[trigger] requests@[x]).family_index,
                ) by {
                    if x < before.len() {
                        assert(requests@[x] == before[x]);
                    } else {
                        assert(roles@[j as int].index == requests@[x].family_index);
                    }
                }
            }
        }
        j = j + 1;
    }
    requests
}

/// Chooses the queue families and queues that a logical device is created
/// with: the first family that runs graphics work and presents; for
/// asynchronous transfers a dedicated transfer family, else one without
/// graphics, else the graphics family; for compute a family without graphics,
/// else the graphics family. Each role takes the next queue of its family.
pub fn plan_queues(families: &Vec<QueueFamily>, features: &Vec<Feature>) -> (r: RendererResult<
    QueuePlan,
>)
    requires
        first_where(families@, 0) >= 0 ==> forall|i: int|
            0 <= i < role_families(families@, features@).len() ==> (#[trigger] role_families(
                families@,
                features@,
            )[i]).queue_count > 0,
    ensures
        r is Err <==> first_where(families@, 0) == -1,
        r is Err ==> (r matches Err(RendererError::InvalidOperation(m)) && m@
            == "No queue family supports both graphics and presentation."@),
        r matches Ok(plan) ==> {
            let g = first_where(families@, 0);
            let roles = role_families(families@, features@);
            &&& plan.graphics_family == g
            &&& plan.graphics_queue == QueueAssignment { family_index: families@[g].index, queue_index: 0 }
            &&& plan.transfer_family == if features@.contains(Feature::AsyncTransfer) {
                Some(transfer_choice(families@, g) as usize)
            } else {
                None::<usize>
            }
            &&& plan.transfer_queue == if features@.contains(Feature::AsyncTransfer) {
                Some(
                    QueueAssignment {
                        family_index: roles[1].index,
                        queue_index: next_queue_index(roles.take(1), roles[1].index) as u32,
                    },
                )
            } else {
                None::<QueueAssignment>
            }
            &&& plan.compute_family == if features@.contains(Feature::ComputeShaders) {
                Some(compute_choice(families@, g) as usize)
            } else {
                None::<usize>
            }
            &&& plan.compute_queue == if features@.contains(Feature::ComputeShaders) {
                Some(
                    QueueAssignment {
                        family_index: roles.last().index,
                        queue_index: next_queue_index(
                            roles.take(roles.len() - 1),
                            roles.last().index,
                        ) as u32,
                    },
                )
            } else {
                None::<QueueAssignment>
            }
            &&& requests_match(plan.requests@, roles)
        },
{
    let g = match find_first(families, 0) {
        Some(g) => g,
        None => {
            return Err(
                RendererError::invalid_operation(
                    "No queue family supports both graphics and presentation.",
                ),
            );
        },
    };
    let (roles, transfer_family, compute_family) = select_roles(families, features, g);
    let wants_transfer = transfer_family.is_some();
    let wants_compute = compute_family.is_some();

    let graphics_queue = QueueAssignment { family_index: families[g].index, queue_index: 0 };
    let transfer_queue = if wants_transfer {
        let f = roles[1].index;
        Some(QueueAssignment { family_index: f, queue_index: queue_cursor(&roles, 1, f) })
    } else {
        None
    };
    let compute_queue = if wants_compute {
        let last = roles.len() - 1;
        let f = roles[last].index;
        Some(QueueAssignment { family_index: f, queue_index: queue_cursor(&roles, last, f) })
    } else {
        None
    };
    let requests = collect_requests(&roles);
    Ok(
        QueuePlan {
            graphics_family: g,
            transfer_family,
            compute_family,
            graphics_queue,
            transfer_queue,
            compute_queue,
            requests,
        },
    )
}

/// Whether a family runs compute work without graphics.
pub open spec fn compute_without_graphics(f: QueueFamily) -> bool {
    f.queue_flags.compute && !f.queue_flags.graphics
}

/// Whether a family transfers without graphics.
pub open spec fn transfer_without_graphics(f: QueueFamily) -> bool {
    f.queue_flags.transfer && !f.queue_flags.graphics
}

/// Whether a family only transfers: no graphics and no compute.
pub open spec fn transfer_only(f: QueueFamily) -> bool {
    f.queue_flags.transfer && !f.queue_flags.graphics && !f.queue_flags.compute
}

/// Each role goes to a family able to do its work. Graphics goes to the
/// first family with graphics and presentation. Compute goes to the first
/// family that computes without graphics, or, when there is none, to the
/// graphics family; so it computes whenever the graphics family does.
/// Transfer goes to the first family that only transfers, else to the first
/// that transfers without graphics, else to the graphics family.
pub proof fn lemma_roles_go_to_capable_families(s: Seq<QueueFamily>, k: int)
    requires
        0 <= k < s.len(),
        s[k].queue_flags.graphics && s[k].present_supported,
    ensures
        0 <= first_where(s, 0) <= k,
        s[first_where(s, 0)].queue_flags.graphics && s[first_where(s, 0)].present_supported,
        forall|j: int|
            0 <= j < first_where(s, 0) ==> !((#[trigger] s[j]).queue_flags.graphics
                && s[j].present_supported),
        0 <= compute_choice(s, first_where(s, 0)) < s.len(),
        (forall|j: int| 0 <= j < s.len() ==> !compute_without_graphics(#[trigger] s[j])) ==> compute_choice(
            s,
            first_where(s, 0),
        ) == first_where(s, 0),
        (exists|j: int| 0 <= j < s.len() && compute_without_graphics(#[trigger] s[j])) ==> {
            let c = compute_choice(s, first_where(s, 0));
            &&& compute_without_graphics(s[c])
            &&& forall|j: int| 0 <= j < c ==> !compute_without_graphics(#[trigger] s[j])
        },
        s[first_where(s, 0)].queue_flags.compute ==> s[compute_choice(
            s,
            first_where(s, 0),
        )].queue_flags.compute,
        0 <= transfer_choice(s, first_where(s, 0)) < s.len(),
        (exists|j: int| 0 <= j < s.len() && transfer_only(#[trigger] s[j])) ==> {
            let t = transfer_choice(s, first_where(s, 0));
            &&& transfer_only(s[t])
            &&& forall|j: int| 0 <= j < t ==> !transfer_only(#[trigger] s[j])
        },
        (forall|j: int| 0 <= j < s.len() ==> !transfer_only(#[trigger] s[j])) && (exists|j: int|
            0 <= j < s.len() && transfer_without_graphics(#[trigger] s[j])) ==> {
            let t = transfer_choice(s, first_where(s, 0));
            &&& transfer_without_graphics(s[t])
            &&& forall|j: int| 0 <= j < t ==> !transfer_without_graphics(#[trigger] s[j])
        },
        (forall|j: int| 0 <= j < s.len() ==> !transfer_without_graphics(#[trigger] s[j]))
            ==> transfer_choice(s, first_where(s, 0)) == first_where(s, 0),
{
    lemma_first_where_spec(s, 0);
    lemma_first_where_spec(s, 1);
    lemma_first_where_spec(s, 2);
    lemma_first_where_spec(s, 3);
    assert(matches_rule(0, s[k]));
    let g = first_where(s, 0);
    if g > k {
        assert(!matches_rule(0, s[k]));
    }
    if first_where(s, 3) < 0 {
        if exists|j: int| 0 <= j < s.len() && compute_without_graphics(#[trigger] s[j]) {
            let j = choose|j: int| 0 <= j < s.len() && compute_without_graphics(#[trigger] s[j]);
            assert(matches_rule(3, s[j]));
        }
    } else {
        let c = first_where(s, 3);
        assert(matches_rule(3, s[c]));
        assert forall|j: int| 0 <= j < c implies !compute_without_graphics(#[trigger] s[j]) by {
            assert(!matches_rule(3, s[j]));
        }
        if forall|j: int| 0 <= j < s.len() ==> !compute_without_graphics(#[trigger] s[j]) {
            assert(!compute_without_graphics(s[c]));
        }
    }
    if first_where(s, 1) < 0 {
        if exists|j: int| 0 <= j < s.len() && transfer_only(#[trigger] s[j]) {
            let j = choose|j: int| 0 <= j < s.len() && transfer_only(#[trigger] s[j]);
            assert(matches_rule(1, s[j]));
        }
    } else {
        let t = first_where(s, 1);
        assert(matches_rule(1, s[t]));
        assert forall|j: int| 0 <= j < t implies !transfer_only(#[trigger] s[j]) by {
            assert(!matches_rule(1, s[j]));
        }
        if forall|j: int| 0 <= j < s.len() ==> !transfer_only(#[trigger] s[j]) {
            assert(!transfer_only(s[t]));
        }
    }
    if first_where(s, 2) < 0 {
        if exists|j: int| 0 <= j < s.len() && transfer_without_graphics(#[trigger] s[j]) {
            let j = choose|j: int| 0 <= j < s.len() && transfer_without_graphics(#[trigger] s[j]);
            assert(matches_rule(2, s[j]));
        }
    } else {
        let t = first_where(s, 2);
        assert(matches_rule(2, s[t]));
        assert forall|j: int| 0 <= j < t implies !transfer_without_graphics(#[trigger] s[j]) by {
            assert(!matches_rule(2, s[j]));
        }
        if forall|j: int| 0 <= j < s.len() ==> !transfer_without_graphics(#[trigger] s[j]) {
            assert(!transfer_without_graphics(s[t]));
        }
        if first_where(s, 1) >= 0 {
            let t1 = first_where(s, 1);
            assert(matches_rule(1, s[t1]));
            assert(transfer_without_graphics(s[t1]));
        }
    }
}

/// `first_where` is the first position whose family meets the rule, or `-1`
/// when none does.
proof fn lemma_first_where_spec(s: Seq<QueueFamily>, rule: u8)
    ensures
        first_where(s, rule) == -1 || is_first(s, rule, first_where(s, rule)),
        first_where(s, rule) == -1 ==> forall|j: int|
            0 <= j < s.len() ==> !matches_rule(rule, #[trigger] s[j]),
{
    if first_where(s, rule) == -1 {
        assert forall|j: int| 0 <= j < s.len() implies !matches_rule(rule, #[trigger] s[j]) by {
            if matches_rule(rule, s[j]) {
                lemma_first_exists(s, rule, j);
            }
        }
    }
}

proof fn lemma_first_exists(s: Seq<QueueFamily>, rule: u8, j: int)
    requires
        0 <= j < s.len(),
        matches_rule(rule, s[j]),
    ensures
        exists|i: int| is_first(s, rule, i),
    decreases j,
{
    if forall|m: int| 0 <= m < j ==> !matches_rule(rule, #[trigger] s[m]) {
        assert(is_first(s, rule, j));
    } else {
        let m = choose|m: int| 0 <= m < j && matches_rule(rule, #[trigger] s[m]);
        lemma_first_exists(s, rule, m);
    }
}

} // verus!
