//! The three wrappers, one for each level of the driver's resources.
//!
//! Each method that stands for a native call takes what the call returned.
//! Each wrapper is given up by a method that consumes it and returns the
//! release that is owed. A device borrows its context, and a list of tags
//! borrows its device, so the rules of borrowing let a chain be given up
//! innermost first only, and let nothing be read from a wrapper that has been
//! given up.

use vstd::prelude::*;
use vstd::utf8::{decode_utf8, valid_utf8};

use crate::driver::{Handle, Release, NULL};
use crate::error::{InitError, OpenError};
use crate::model::{ContextView, DeviceView, TagView};
use crate::text::{decode_lossy, decode_strict, lossy_text, owed_for, take_owned};

verus! {

/// The address of the reader that a gatekeeper talks to: the name of the
/// driver, a colon, and the path of the serial line.
pub const GATEKEEPER_ADDRESS: &'static str = "pn532_uart:/dev/ttyUSB0";

/// A live reader context. It holds the one handle that the driver's
/// initialisation returned, and that handle is never `NULL`.
#[derive(Debug)]
pub struct Nfc {
    context: Handle,
}

/// An open reader device. It holds the one handle that the driver's open
/// returned, never `NULL`, and a borrow of the context that it was opened on:
/// the context cannot be given up while the device exists.
#[derive(Debug)]
pub struct NfcDevice<'a> {
    device: Handle,
    context: &'a Nfc,
}

/// The tags found on a device. It holds the handle of the list that the
/// driver allocated and the handle of the first tag in it, neither `NULL`,
/// and a borrow of the device: the device cannot be given up while the list
/// exists. The list owns every tag in it, so there is no release of a single
/// tag; the tag is read through the list, and is gone with it.
#[derive(Debug)]
pub struct NfcTag<'a> {
    tags: Handle,
    tag: Handle,
    device: &'a NfcDevice<'a>,
}

impl View for Nfc {
    type V = ContextView;

    closed spec fn view(&self) -> ContextView {
        ContextView { context: self.context }
    }
}

impl<'a> View for NfcDevice<'a> {
    type V = DeviceView;

    closed spec fn view(&self) -> DeviceView {
        DeviceView { device: self.device, context: self.context@ }
    }
}

impl<'a> View for NfcTag<'a> {
    type V = TagView;

    closed spec fn view(&self) -> TagView {
        TagView { tags: self.tags, tag: self.tag, device: self.device@ }
    }
}

impl Nfc {
    #[verifier::type_invariant]
    spec fn live(&self) -> bool {
        self.context != NULL
    }

    /// Takes what the driver's initialisation returned. A handle becomes a
    /// context that owns it; `NULL` is the driver's report that it could not
    /// start, and nothing is made of it.
    pub fn new(returned: Handle) -> (r: Result<Nfc, InitError>)
        ensures
            match ContextView::created(returned) {
                Some(context) => r matches Ok(nfc) && nfc@ == context,
                None => r is Err,
            },
    {
        if returned == NULL {
            Err(InitError)
        } else {
            Ok(Nfc { context: returned })
        }
    }

    /// The handle to pass to the driver for a call on this context.
    pub fn handle(&self) -> (h: Handle)
        ensures
            h == self@.context,
            self@.wf(),
    {
        proof {
            use_type_invariant(self);
        }
        self.context
    }

    /// Takes what the driver's open returned for this context. A handle
    /// becomes a device that borrows the context for as long as it exists;
    /// `NULL` is the driver's report that it could not connect at the address
    /// it was given. Either way the context is as it was, and can be asked
    /// again once the device is gone.
    ///
    /// The address goes to the driver as a C string, which
    /// [`connection_string`](crate::text::connection_string) makes; the
    /// gatekeeper's own reader is at [`GATEKEEPER_ADDRESS`].
    pub fn gatekeeper_device<'a>(&'a mut self, returned: Handle) -> (r: Result<
        NfcDevice<'a>,
        OpenError,
    >)
        ensures
            final(self)@ == old(self)@,
            match old(self)@.opened(returned) {
                Some(device) => r matches Ok(d) && d@ == device,
                None => r is Err,
            },
    {
        if returned == NULL {
            Err(OpenError)
        } else {
            Ok(NfcDevice { device: returned, context: self })
        }
    }

    /// Gives the context up. The result is the one call that the driver is
    /// owed for it.
    pub fn exit(self) -> (r: Release)
        ensures
            r == self@.release(),
    {
        Release::Exit { context: self.context }
    }
}

impl<'a> NfcDevice<'a> {
    #[verifier::type_invariant]
    spec fn live(&self) -> bool {
        self.device != NULL
    }

    /// The handle to pass to the driver for a call on this device.
    pub fn handle(&self) -> (h: Handle)
        ensures
            h == self@.device,
            self@.wf(),
    {
        proof {
            use_type_invariant(self);
            use_type_invariant(self.context);
        }
        self.device
    }

    /// Takes what the driver's enumeration returned for this device: the
    /// list, and the first entry of the list (`NULL` for a list that is empty
    /// or was not returned).
    ///
    /// A list with a first tag becomes an `NfcTag` that borrows the device.
    /// Otherwise there is none: the driver does not say whether no tag was
    /// there or the list could not be allocated, and neither is an error. A
    /// list that was allocated but is empty finds no owner, so the release of
    /// it is returned beside, to be made at once. The device is as it was.
    pub fn first_tag<'b>(&'b mut self, tags: Handle, first: Handle) -> (r: (
        Option<NfcTag<'b>>,
        Option<Release>,
    ))
        ensures
            final(self)@ == old(self)@,
            match old(self)@.listed(tags, first) {
                Some(list) => r.0 matches Some(t) && t@ == list,
                None => r.0 is None,
            },
            r.1 == DeviceView::unclaimed(tags, first),
    {
        if tags == NULL {
            (None, None)
        } else if first == NULL {
            (None, Some(Release::FreeTags { tags }))
        } else {
            (Some(NfcTag { tags, tag: first, device: self }), None)
        }
    }

    /// Gives the device up. The result is the one call that the driver is
    /// owed for it; the borrow of the context ends here.
    pub fn close(self) -> (r: Release)
        ensures
            r == self@.release(),
    {
        Release::Close { device: self.device }
    }
}

impl<'a> NfcTag<'a> {
    #[verifier::type_invariant]
    spec fn live(&self) -> bool {
        self.tags != NULL && self.tag != NULL
    }

    /// The handle of the first tag, to pass to the driver for a call on it.
    pub fn handle(&self) -> (h: Handle)
        ensures
            h == self@.tag,
            self@.wf(),
    {
        proof {
            use_type_invariant(self);
            use_type_invariant(self.device);
            use_type_invariant(self.device.context);
        }
        self.tag
    }

    /// Takes what the driver returned for the identifier of the tag: `text`,
    /// the address of a string that the driver allocated for the caller, or
    /// `NULL` where the tag has no identifier; and `bytes`, the bytes found
    /// there.
    ///
    /// Where there is a string, the result is its text, decoded lossily, and
    /// the release that is owed for the allocation. That release does not
    /// depend on what the bytes are. A string that is not empty gives a text
    /// that is not empty.
    pub fn get_uid(&mut self, text: Handle, bytes: &[u8]) -> (r: (Option<String>, Option<Release>))
        ensures
            final(self)@ == old(self)@,
            match r.0 {
                Some(uid) => {
                    &&& text != NULL
                    &&& uid@ == lossy_text(bytes@)
                    &&& valid_utf8(bytes@) ==> uid@ == decode_utf8(bytes@)
                    &&& bytes@.len() > 0 ==> uid@.len() > 0
                },
                None => text == NULL,
            },
            r.1 == owed_for(text),
    {
        let decoded = decode_lossy(bytes);
        take_owned(text, decoded)
    }

    /// Takes what the driver returned for the name of the tag's family:
    /// `text`, the address of a string in the driver's own storage, or `NULL`
    /// where it returned none; and `bytes`, the bytes that lie there.
    ///
    /// The result is a view of those bytes as text. There is none where the
    /// driver returned no string, and none where the bytes are not UTF-8.
    /// Nothing is copied and nothing is owed: the string stays the driver's,
    /// and the view of it ends with the borrow of the tag.
    pub fn get_friendly_name<'t>(&'t mut self, text: Handle, bytes: &'t [u8]) -> (r: Option<
        &'t str,
    >)
        ensures
            final(self)@ == old(self)@,
            match r {
                Some(name) => text != NULL && valid_utf8(bytes@) && name@ == decode_utf8(bytes@),
                None => text == NULL || !valid_utf8(bytes@),
            },
    {
        if text == NULL {
            None
        } else {
            decode_strict(bytes)
        }
    }

    /// Gives the list up, and with it every tag in it. The result is the one
    /// call that the driver is owed for it; the borrow of the device ends
    /// here.
    pub fn release(self) -> (r: Release)
        ensures
            r == self@.release(),
    {
        Release::FreeTags { tags: self.tags }
    }
}

} // verus!
