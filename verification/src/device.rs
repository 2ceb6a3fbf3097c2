//! Resolving a capture device's name to its index among the enumerated devices.

use crate::error::{CaptureError, CaptureErrorView};
use vstd::prelude::*;
use vstd::string::*;

verus! {

/// `i` is the first position in `names` that holds `target`.
pub open spec fn is_first_match(names: Seq<String>, target: Seq<char>, i: int) -> bool {
    &&& 0 <= i < names.len()
    &&& names[i]@ == target
    &&& forall|j: int| 0 <= j < i ==> (#[trigger] names[j])@ != target
}

/// No position of `names` that a device index can express holds `target`.
pub open spec fn no_match(names: Seq<String>, target: Seq<char>) -> bool {
    forall|j: int| 0 <= j < names.len() && j <= u32::MAX ==> (#[trigger] names[j])@ != target
}

/// Gets the index of the first enumerated device named `target`, if there
/// is one and the index fits a device identifier.
pub fn get_capture_device_id_by_name(names: &[String], target: &str) -> (id: Option<u32>)
    ensures
        match id {
            Some(i) => is_first_match(names@, target@, i as int),
            None => no_match(names@, target@),
        },
{
    let wanted: String = String::from_str(target);
    let mut i: usize = 0;
    while i < names.len()
        invariant
            0 <= i <= names@.len(),
            i <= u32::MAX + 1,
            wanted@ == target@,
            forall|j: int| 0 <= j < i ==> (#[trigger] names@[j])@ != target@,
        decreases names@.len() - i,
    {
        if i > 0xFFFF_FFFF {
            return None;
        }
        if names[i] == wanted {
            return Some(i as u32);
        }
        i = i + 1;
    }
    None
}

/// Resolves a device name against the enumerated devices. An unknown name
/// is `DeviceNotFound`, and nothing is asked of the hardware for it.
pub fn find_capture_device(names: &[String], target: &str) -> (found: Result<u32, CaptureError>)
    ensures
        match found {
            Ok(i) => is_first_match(names@, target@, i as int),
            Err(e) => no_match(names@, target@) && e@ == CaptureErrorView::DeviceNotFound(target@),
        },
{
    match get_capture_device_id_by_name(names, target) {
        Some(id) => Ok(id),
        None => Err(CaptureError::DeviceNotFound(String::from_str(target))),
    }
}

/// A name is resolved exactly when some expressible position holds it, so
/// the two outcomes of a lookup exclude each other.
pub proof fn lemma_match_excludes_no_match(names: Seq<String>, target: Seq<char>, i: int)
    requires
        is_first_match(names, target, i),
        i <= u32::MAX,
    ensures
        !no_match(names, target),
{
    assert(names[i]@ == target);
}

} // verus!
