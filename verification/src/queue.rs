//! Selection of the physical device and of its queue family.

use vstd::prelude::*;
use crate::error::{ErrorKind, RendererError};

verus! {

/// The capability bit of a queue family that takes graphics commands.
pub const QUEUE_GRAPHICS: u32 = 1;

/// Whether a queue family can present to the surface, as the host found it.
#[derive(Clone, Copy, Debug, PartialEq, Eq, Structural)]
pub enum PresentSupport {
    Supported,
    Unsupported,
    /// The query itself was refused, with this result code.
    QueryFailed(i32),
}

/// One queue family of the physical device.
#[derive(Clone, Copy, Debug, PartialEq, Eq, Structural)]
pub struct QueueFamily {
    /// The capability bits of the family.
    pub queue_flags: u32,
    pub present: PresentSupport,
}

impl QueueFamily {
    /// The family takes graphics commands.
    pub open spec fn has_graphics(self) -> bool {
        self.queue_flags & QUEUE_GRAPHICS == QUEUE_GRAPHICS
    }

    /// The family draws and presents.
    pub open spec fn suitable(self) -> bool {
        self.has_graphics() && self.present == PresentSupport::Supported
    }

    /// The scan stops at this family: it is suitable, or its query failed.
    pub open spec fn decides(self) -> bool {
        self.suitable() || self.present is QueryFailed
    }
}

/// Position of the first family at or after `from` at which the scan stops,
/// or the length of `families` where it runs to the end.
pub open spec fn first_deciding(families: Seq<QueueFamily>, from: int) -> int
    decreases families.len() - from,
{
    if from < 0 || from >= families.len() {
        families.len() as int
    } else if families[from].decides() {
        from
    } else {
        first_deciding(families, from + 1)
    }
}

/// What the scan of `families` gives: the index of the first suitable family,
/// unless a failed query comes first or no index fits in 32 bits.
pub open spec fn queue_family_for(families: Seq<QueueFamily>) -> Result<u32, RendererError> {
    let k = first_deciding(families, 0);
    if k >= families.len() || k > u32::MAX {
        Err(RendererError { kind: ErrorKind::NoSuitableDevice, code: None })
    } else {
        match families[k].present {
            PresentSupport::QueryFailed(code) => Err(
                RendererError { kind: ErrorKind::NoSuitableDevice, code: Some(code) },
            ),
            _ => Ok(k as u32),
        }
    }
}

/// `ash::vk::QueueFlags::contains`, asked of `flags` for the graphics bit:
/// true exactly where that bit is set.
#[verifier::external_body]
fn flags_have_graphics(flags: u32) -> (r: bool)
    ensures
        r == (flags & QUEUE_GRAPHICS == QUEUE_GRAPHICS),
{
    ash::vk::QueueFlags::from_raw(flags).contains(ash::vk::QueueFlags::GRAPHICS)
}

/// Picks the physical device among `count` enumerated ones: always the first.
pub fn select_physical_device(count: usize) -> (r: Result<usize, RendererError>)
    ensures
        count > 0 ==> r == Ok::<usize, RendererError>(0),
        count == 0 ==> r == Err::<usize, RendererError>(
            RendererError { kind: ErrorKind::NoSuitableDevice, code: None },
        ),
{
    if count > 0 {
        Ok(0)
    } else {
        Err(RendererError::own(ErrorKind::NoSuitableDevice))
    }
}

/// Picks the queue family: the first one that both takes graphics commands
/// and presents to the surface. A failed presentation query stops the scan
/// where it stands.
pub fn find_queue_family(families: &Vec<QueueFamily>) -> (r: Result<u32, RendererError>)
    ensures
        r == queue_family_for(families@),
{
    let mut i: usize = 0;
    while i < families.len()
        invariant
            0 <= i <= families@.len(),
            first_deciding(families@, 0) == first_deciding(families@, i as int),
        decreases families@.len() - i,
    {
        if i > 0xFFFF_FFFF {
            proof {
                lemma_first_deciding(families@, i as int);
            }
            return Err(RendererError::own(ErrorKind::NoSuitableDevice));
        }
        let family = families[i];
        let graphics = flags_have_graphics(family.queue_flags);
        match family.present {
            PresentSupport::QueryFailed(code) => {
                return Err(RendererError::of_call(ErrorKind::NoSuitableDevice, code));
            },
            PresentSupport::Supported => {
                if graphics {
                    return Ok(i as u32);
                }
            },
            PresentSupport::Unsupported => {},
        }
        i += 1;
    }
    Err(RendererError::own(ErrorKind::NoSuitableDevice))
}

/// `first_deciding` lands on a deciding family with none before it, or on the
/// end of a list that holds none from `from` on.
pub proof fn lemma_first_deciding(families: Seq<QueueFamily>, from: int)
    requires
        0 <= from <= families.len(),
    ensures
        from <= first_deciding(families, from) <= families.len(),
        first_deciding(families, from) < families.len() ==> families[first_deciding(
            families,
            from,
        )].decides(),
        forall|j: int|
            from <= j < first_deciding(families, from) ==> !(#[trigger] families[j]).decides(),
    decreases families.len() - from,
{
    if from < families.len() && !families[from].decides() {
        lemma_first_deciding(families, from + 1);
    }
}

} // verus!
