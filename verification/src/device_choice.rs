//! Choices made while the instance and the device are set up: are the names
//! we need on offer, which physical device, which queue family.

use crate::vk_values::{
    device_type_cpu,
    device_type_cpu_raw,
    device_type_discrete_gpu,
    device_type_discrete_gpu_raw,
    device_type_integrated_gpu,
    device_type_integrated_gpu_raw,
    has_all,
    queue_flags_contain,
    queue_graphics,
    queue_graphics_bits,
};
use vstd::prelude::*;

verus! {

/// `i` is the first position of `wanted` in `values`.
pub open spec fn first_equal(values: Seq<i32>, wanted: i32, i: int) -> bool {
    &&& 0 <= i < values.len()
    &&& values[i] == wanted
    &&& forall|j: int| 0 <= j < i ==> values[j] != wanted
}

/// `wanted` does not occur in `values`.
pub open spec fn none_equal(values: Seq<i32>, wanted: i32) -> bool {
    forall|j: int| 0 <= j < values.len() ==> values[j] != wanted
}

/// The first position of `wanted` in `values`, if it occurs.
pub fn position_of(values: &[i32], wanted: i32) -> (r: Option<usize>)
    ensures
        match r {
            Some(i) => first_equal(values@, wanted, i as int),
            None => none_equal(values@, wanted),
        },
{
    let mut i: usize = 0;
    while i < values.len()
        invariant
            i <= values.len(),
            forall|j: int| 0 <= j < i ==> values@[j] != wanted,
        decreases values.len() - i,
    {
        if values[i] == wanted {
            return Some(i);
        }
        i += 1;
    }
    None
}

/// `choice` is the device that the types call for: the first discrete GPU;
/// without one, the first integrated GPU; without either, the first CPU
/// device; else none.
pub open spec fn device_choice(device_types: Seq<i32>, choice: Option<usize>) -> bool {
    match choice {
        Some(i) => {
            ||| first_equal(device_types, device_type_discrete_gpu(), i as int)
            ||| {
                &&& none_equal(device_types, device_type_discrete_gpu())
                &&& first_equal(device_types, device_type_integrated_gpu(), i as int)
            }
            ||| {
                &&& none_equal(device_types, device_type_discrete_gpu())
                &&& none_equal(device_types, device_type_integrated_gpu())
                &&& first_equal(device_types, device_type_cpu(), i as int)
            }
        },
        None => {
            &&& none_equal(device_types, device_type_discrete_gpu())
            &&& none_equal(device_types, device_type_integrated_gpu())
            &&& none_equal(device_types, device_type_cpu())
        },
    }
}

/// Picks a physical device by the raw device type of each candidate.
pub fn choose_physical_device(device_types: &[i32]) -> (r: Option<usize>)
    ensures
        device_choice(device_types@, r),
{
    match position_of(device_types, device_type_discrete_gpu_raw()) {
        Some(i) => Some(i),
        None => match position_of(device_types, device_type_integrated_gpu_raw()) {
            Some(i) => Some(i),
            None => position_of(device_types, device_type_cpu_raw()),
        },
    }
}

/// The device types decide the device: two choices that both fit the same
/// types are the same choice.
pub proof fn device_choice_is_unique(device_types: Seq<i32>, a: Option<usize>, b: Option<usize>)
    requires
        device_choice(device_types, a),
        device_choice(device_types, b),
    ensures
        a == b,
{
}

/// `family` is the first queue family that accepts graphics work, or none
/// where no family does.
pub open spec fn graphics_family(queue_flags: Seq<u32>, family: Option<usize>) -> bool {
    match family {
        Some(i) => {
            &&& 0 <= i < queue_flags.len()
            &&& has_all(queue_flags[i as int], queue_graphics())
            &&& forall|j: int| 0 <= j < i ==> !has_all(#[trigger] queue_flags[j], queue_graphics())
        },
        None => forall|j: int|
            0 <= j < queue_flags.len() ==> !has_all(#[trigger] queue_flags[j], queue_graphics()),
    }
}

/// Picks the queue family to submit to, by the raw flags of each family.
pub fn choose_graphics_queue_family(queue_flags: &[u32]) -> (r: Option<usize>)
    ensures
        graphics_family(queue_flags@, r),
{
    let graphics = queue_graphics_bits();
    let mut i: usize = 0;
    while i < queue_flags.len()
        invariant
            i <= queue_flags.len(),
            graphics == queue_graphics(),
            forall|j: int| 0 <= j < i ==> !has_all(#[trigger] queue_flags@[j], queue_graphics()),
        decreases queue_flags.len() - i,
    {
        if queue_flags_contain(queue_flags[i], graphics) {
            return Some(i);
        }
        i += 1;
    }
    None
}

/// `name` is one of `available`.
pub open spec fn is_listed(name: Seq<u8>, available: Seq<Vec<u8>>) -> bool {
    exists|j: int| 0 <= j < available.len() && (#[trigger] available[j])@ == name
}

/// Whether two names are the same bytes.
pub fn same_name(a: &Vec<u8>, b: &Vec<u8>) -> (r: bool)
    ensures
        r == (a@ == b@),
{
    if a.len() != b.len() {
        return false;
    }
    let mut i: usize = 0;
    while i < a.len()
        invariant
            i <= a.len(),
            a.len() == b.len(),
            forall|k: int| 0 <= k < i ==> a@[k] == b@[k],
        decreases a.len() - i,
    {
        if a[i] != b[i] {
            return false;
        }
        i += 1;
    }
    assert(a@ =~= b@);
    true
}

/// Whether `name` is one of `available`.
pub fn name_is_listed(name: &Vec<u8>, available: &Vec<Vec<u8>>) -> (r: bool)
    ensures
        r == is_listed(name@, available@),
{
    let mut j: usize = 0;
    while j < available.len()
        invariant
            j <= available.len(),
            forall|k: int| 0 <= k < j ==> (#[trigger] available@[k])@ != name@,
        decreases available.len() - j,
    {
        if same_name(name, &available[j]) {
            return true;
        }
        j += 1;
    }
    false
}

/// The positions among the first `n` of `requested` of the names that
/// `available` lacks, in rising order.
pub open spec fn unsupported_among(requested: Seq<Vec<u8>>, available: Seq<Vec<u8>>, n: int) -> Seq<
    usize,
>
    decreases n,
{
    if n <= 0 {
        Seq::empty()
    } else {
        let before = unsupported_among(requested, available, n - 1);
        if is_listed(requested[n - 1]@, available) {
            before
        } else {
            before.push((n - 1) as usize)
        }
    }
}

/// The positions in `requested` of the names that `available` lacks, in
/// rising order. Extensions and layers are both checked this way; setup may
/// go on only when the result is empty.
pub fn unsupported_names(requested: &Vec<Vec<u8>>, available: &Vec<Vec<u8>>) -> (r: Vec<usize>)
    ensures
        r@ == unsupported_among(requested@, available@, requested@.len() as int),
{
    let mut missing: Vec<usize> = Vec::new();
    let mut i: usize = 0;
    while i < requested.len()
        invariant
            i <= requested.len(),
            missing@ == unsupported_among(requested@, available@, i as int),
        decreases requested.len() - i,
    {
        if !name_is_listed(&requested[i], available) {
            missing.push(i);
        }
        i += 1;
    }
    missing
}

/// The unsupported positions are exactly the positions of the names that are
/// not on offer: each one listed is such a position, each such position is
/// listed, and they rise, so none comes twice.
pub proof fn unsupported_positions_are_exact(
    requested: Seq<Vec<u8>>,
    available: Seq<Vec<u8>>,
    n: int,
)
    requires
        0 <= n <= requested.len(),
        n <= usize::MAX,
    ensures
        ({
            let r = unsupported_among(requested, available, n);
            &&& forall|k: int|
                0 <= k < r.len() ==> (#[trigger] r[k]) < n && !is_listed(
                    requested[r[k] as int]@,
                    available,
                )
            &&& forall|k: int, l: int| 0 <= k < l < r.len() ==> r[k] < r[l]
            &&& forall|i: int|
                0 <= i < n && !is_listed((#[trigger] requested[i])@, available) ==> r.contains(
                    i as usize,
                )
        }),
    decreases n,
{
    if n > 0 {
        unsupported_positions_are_exact(requested, available, n - 1);
        let before = unsupported_among(requested, available, n - 1);
        let r = unsupported_among(requested, available, n);
        if is_listed(requested[n - 1]@, available) {
            assert(r == before);
        } else {
            assert(r == before.push((n - 1) as usize));
            assert(r[before.len() as int] == (n - 1) as usize);
            assert forall|i: int|
                0 <= i < n && !is_listed((#[trigger] requested[i])@, available) implies r.contains(
                i as usize,
            ) by {
                if i < n - 1 {
                    let k = choose|k: int| 0 <= k < before.len() && before[k] == i as usize;
                    assert(r[k] == i as usize);
                }
            }
        }
    }
}

/// Nothing is unsupported exactly when every requested name is on offer.
pub proof fn all_supported_means_all_listed(requested: Seq<Vec<u8>>, available: Seq<Vec<u8>>)
    requires
        requested.len() <= usize::MAX,
    ensures
        unsupported_among(requested, available, requested.len() as int).len() == 0 <==> forall|
            i: int,
        |
            0 <= i < requested.len() ==> is_listed((#[trigger] requested[i])@, available),
{
    let r = unsupported_among(requested, available, requested.len() as int);
    unsupported_positions_are_exact(requested, available, requested.len() as int);
    if r.len() == 0 {
        assert forall|i: int| 0 <= i < requested.len() implies is_listed(
            (#[trigger] requested[i])@,
            available,
        ) by {
            if !is_listed(requested[i]@, available) {
                assert(r.contains(i as usize));
            }
        }
    } else {
        assert(!is_listed(requested[r[0] as int]@, available));
    }
}

} // verus!
