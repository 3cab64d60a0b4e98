//! The OpenVR hand skeleton: its bones by index, which finger each bone
//! follows, which OpenXR hand joint each bone is read from, and the
//! parent of each bone in the skeleton's hierarchy.
use vstd::prelude::*;

verus! {

/// The number of bones of the OpenVR hand skeleton.
pub const BONE_COUNT: usize = 31;

/// The OpenXR index of the wrist joint (`XR_HAND_JOINT_WRIST_EXT`), and
/// of the wrist bone.
pub const WRIST: usize = 1;

/// A finger of the hand.
#[derive(Copy, Clone, Debug, PartialEq, Eq, Structural)]
pub enum Finger {
    Thumb,
    Index,
    Middle,
    Ring,
    Pinky,
}

/// The finger a bone (by index) belongs to: the thumb's four bones from
/// index 2, each other finger's five bones after it, and the five
/// auxiliary bones (26 to 30) in the same finger order. The root and the
/// wrist follow no finger.
pub open spec fn spec_finger_of_bone(bone: usize) -> Option<Finger> {
    if 2 <= bone <= 5 || bone == 26 {
        Some(Finger::Thumb)
    } else if 6 <= bone <= 10 || bone == 27 {
        Some(Finger::Index)
    } else if 11 <= bone <= 15 || bone == 28 {
        Some(Finger::Middle)
    } else if 16 <= bone <= 20 || bone == 29 {
        Some(Finger::Ring)
    } else if 21 <= bone <= 25 || bone == 30 {
        Some(Finger::Pinky)
    } else {
        None
    }
}

/// The finger whose curl moves a bone.
pub fn finger_of_bone(bone: usize) -> (r: Option<Finger>)
    ensures
        r == spec_finger_of_bone(bone),
{
    if (2 <= bone && bone <= 5) || bone == 26 {
        Some(Finger::Thumb)
    } else if (6 <= bone && bone <= 10) || bone == 27 {
        Some(Finger::Index)
    } else if (11 <= bone && bone <= 15) || bone == 28 {
        Some(Finger::Middle)
    } else if (16 <= bone && bone <= 20) || bone == 29 {
        Some(Finger::Ring)
    } else if (21 <= bone && bone <= 25) || bone == 30 {
        Some(Finger::Pinky)
    } else {
        None
    }
}

/// The first bone of each finger: its metacarpal.
pub open spec fn is_finger_base(bone: usize) -> bool {
    bone == 2 || bone == 6 || bone == 11 || bone == 16 || bone == 21
}

/// The parent of a bone in the skeleton: a finger's metacarpal hangs from
/// the wrist and every other finger bone from the bone before it; the
/// root, the wrist and the auxiliary bones are not re-parented.
pub open spec fn spec_bone_parent(bone: usize) -> Option<usize> {
    if bone <= WRIST || bone >= 26 {
        None
    } else if is_finger_base(bone) {
        Some(WRIST)
    } else {
        Some((bone - 1) as usize)
    }
}

/// The parent of a bone.
pub fn bone_parent(bone: usize) -> (r: Option<usize>)
    ensures
        r == spec_bone_parent(bone),
{
    if bone <= WRIST || bone >= 26 {
        None
    } else if bone == 2 || bone == 6 || bone == 11 || bone == 16 || bone == 21 {
        Some(WRIST)
    } else {
        Some(bone - 1)
    }
}

/// The OpenXR hand joint a bone is read from: each finger bone and the
/// wrist from the joint of the same index, each auxiliary bone from the
/// distal joint of its finger; the root is not read from a joint.
pub open spec fn spec_joint_of_bone(bone: usize) -> Option<usize> {
    if 1 <= bone <= 25 {
        Some(bone)
    } else if bone == 26 {
        Some(4)
    } else if bone == 27 {
        Some(9)
    } else if bone == 28 {
        Some(14)
    } else if bone == 29 {
        Some(19)
    } else if bone == 30 {
        Some(24)
    } else {
        None
    }
}

/// The hand joint of a bone.
pub fn joint_of_bone(bone: usize) -> (r: Option<usize>)
    ensures
        r == spec_joint_of_bone(bone),
{
    if 1 <= bone && bone <= 25 {
        Some(bone)
    } else if bone == 26 {
        Some(4)
    } else if bone == 27 {
        Some(9)
    } else if bone == 28 {
        Some(14)
    } else if bone == 29 {
        Some(19)
    } else if bone == 30 {
        Some(24)
    } else {
        None
    }
}

/// Every parent comes before its child and belongs to the same finger or
/// is the wrist, so walking the bones in index order meets each parent
/// before its children.
pub proof fn lemma_parents_come_first(bone: usize)
    ensures
        spec_bone_parent(bone) matches Some(p) ==> {
            &&& WRIST <= p < bone
            &&& (p == WRIST || spec_finger_of_bone(p) == spec_finger_of_bone(bone))
        },
{
}

/// An auxiliary bone is read from a joint of its own finger.
pub proof fn lemma_aux_bones_follow_their_finger(bone: usize)
    requires
        26 <= bone < BONE_COUNT,
    ensures
        spec_joint_of_bone(bone) matches Some(j) && spec_finger_of_bone(j) == spec_finger_of_bone(
            bone,
        ),
{
}


/// Each auxiliary bone is read from the distal joint of its finger: the
/// joint just before the fingertip, where the fingertip is the last bone of
/// the same finger (the next bone belongs to another finger or to none)
/// and is read from its own joint. For the thumb to the little finger
/// that is joints 4, 9, 14, 19 and 24.
pub proof fn lemma_aux_bones_read_distal_joints(bone: usize)
    requires
        26 <= bone < BONE_COUNT,
    ensures
        spec_joint_of_bone(bone) matches Some(j) && {
            let tip = (j + 1) as usize;
            &&& spec_finger_of_bone(tip) == spec_finger_of_bone(bone)
            &&& spec_finger_of_bone((j + 2) as usize) != spec_finger_of_bone(bone)
            &&& spec_joint_of_bone(tip) == Some(tip)
            &&& j == 4 + 5 * (bone - 26)
        },
{
}
} // verus!
