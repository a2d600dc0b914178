//! The chain of resources as plain mathematical records. The contracts of the
//! wrappers are stated over these.

use vstd::prelude::*;

use crate::driver::{Handle, Release, NULL};

verus! {

/// A reader context: the handle that the driver's initialisation returned.
pub struct ContextView {
    pub context: Handle,
}

/// An open device: the handle that the driver's open returned, and the
/// context that it was opened on.
pub struct DeviceView {
    pub device: Handle,
    pub context: ContextView,
}

/// A list of tags found on a device: the handle of the list, the handle of
/// the first tag in it, and the device that the list was read from.
pub struct TagView {
    pub tags: Handle,
    pub tag: Handle,
    pub device: DeviceView,
}

impl ContextView {
    /// The handle names a resource.
    pub open spec fn wf(self) -> bool {
        self.context != NULL
    }

    /// The context that comes of an initialisation which returned `returned`:
    /// none where the driver returned `NULL`.
    pub open spec fn created(returned: Handle) -> Option<ContextView> {
        if returned == NULL {
            None
        } else {
            Some(ContextView { context: returned })
        }
    }

    /// The device that comes of an open on this context which returned
    /// `returned`: none where the driver returned `NULL`.
    pub open spec fn opened(self, returned: Handle) -> Option<DeviceView> {
        if returned == NULL {
            None
        } else {
            Some(DeviceView { device: returned, context: self })
        }
    }

    /// The call that gives this context back to the driver.
    pub open spec fn release(self) -> Release {
        Release::Exit { context: self.context }
    }

    /// Every release that is owed once this context exists.
    pub open spec fn owed(self) -> Seq<Release> {
        seq![self.release()]
    }
}

impl DeviceView {
    /// Every handle names a resource.
    pub open spec fn wf(self) -> bool {
        self.device != NULL && self.context.wf()
    }

    /// The list of tags that comes of an enumeration on this device which
    /// returned the list `tags`, whose first entry is `first`: none where the
    /// driver returned no list, and none where the list has no first tag.
    pub open spec fn listed(self, tags: Handle, first: Handle) -> Option<TagView> {
        if tags == NULL || first == NULL {
            None
        } else {
            Some(TagView { tags, tag: first, device: self })
        }
    }

    /// The release that an enumeration leaves to be made at once: that of a
    /// list which the driver did allocate, but which holds no tag and so finds
    /// no owner.
    pub open spec fn unclaimed(tags: Handle, first: Handle) -> Option<Release> {
        if tags != NULL && first == NULL {
            Some(Release::FreeTags { tags })
        } else {
            None
        }
    }

    /// The call that gives this device back to the driver.
    pub open spec fn release(self) -> Release {
        Release::Close { device: self.device }
    }

    /// Every release that is owed once this device exists, in the order in
    /// which they can be made: the device first, then what its context owes.
    pub open spec fn owed(self) -> Seq<Release> {
        seq![self.release()] + self.context.owed()
    }
}

impl TagView {
    /// Every handle names a resource.
    pub open spec fn wf(self) -> bool {
        self.tags != NULL && self.tag != NULL && self.device.wf()
    }

    /// The call that gives the list, and every tag in it, back to the driver.
    pub open spec fn release(self) -> Release {
        Release::FreeTags { tags: self.tags }
    }

    /// Every release that is owed once this list exists, in the order in
    /// which they can be made: the list first, then what its device owes.
    pub open spec fn owed(self) -> Seq<Release> {
        seq![self.release()] + self.device.owed()
    }
}

} // verus!
