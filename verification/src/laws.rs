//! What holds of the chain as a whole: which releases are owed for it, how
//! often, and in what order.

use vstd::prelude::*;

use crate::driver::{Handle, Release, NULL};
use crate::model::{ContextView, DeviceView, TagView};
use crate::text::owed_for;

verus! {

/// Creation makes a context exactly when the driver returned a handle. For a
/// context that was made, one call is owed and no other: the exit of the
/// handle that was returned. A creation that failed made no context, so that
/// nothing can be owed for it.
pub proof fn lemma_context_owes_one_exit(returned: Handle)
    ensures
        ContextView::created(returned) is Some <==> returned != NULL,
        ContextView::created(returned) matches Some(context) ==> {
            &&& context.wf()
            &&& context.owed() == seq![Release::Exit { context: returned }]
        },
{
}

/// A device comes only of an open that returned a handle, and it belongs to
/// the context that was asked. What is owed for it is its own close and then
/// all that is owed for the context: the device is closed before the context
/// exits, and the exit stays owed.
pub proof fn lemma_device_closes_before_context_exits(context: ContextView, returned: Handle)
    ensures
        context.opened(returned) is Some <==> returned != NULL,
        context.opened(returned) matches Some(device) ==> {
            &&& device.context == context
            &&& device.owed() == seq![Release::Close { device: returned }] + context.owed()
            &&& device.owed() == seq![
                Release::Close { device: returned },
                Release::Exit { context: context.context },
            ]
        },
{
}

/// A list of tags comes only of an enumeration that returned a list with a
/// first tag, and it belongs to the device that was asked. What is owed for it
/// is one call that frees the whole list, and then all that is owed for the
/// device: the tags go before the device, and the device before the context.
pub proof fn lemma_tags_are_freed_before_device_closes(
    device: DeviceView,
    tags: Handle,
    first: Handle,
)
    ensures
        device.listed(tags, first) is Some <==> tags != NULL && first != NULL,
        device.listed(tags, first) matches Some(list) ==> {
            &&& list.device == device
            &&& list.tag == first
            &&& list.owed() == seq![Release::FreeTags { tags }] + device.owed()
            &&& list.owed() == seq![
                Release::FreeTags { tags },
                Release::Close { device: device.device },
                Release::Exit { context: device.context.context },
            ]
        },
{
}

/// Every list that the driver allocates is accounted for once. A list with a
/// first tag finds an owner and is freed with it; an empty list finds none
/// and is freed at once; where no list was returned, there is neither an
/// owner nor a release.
pub proof fn lemma_every_list_is_accounted_for(device: DeviceView, tags: Handle, first: Handle)
    ensures
        tags == NULL ==> {
            &&& device.listed(tags, first) is None
            &&& DeviceView::unclaimed(tags, first) is None
        },
        tags != NULL ==> {
            ||| device.listed(tags, first) is Some && DeviceView::unclaimed(tags, first) is None
            ||| device.listed(tags, first) is None && DeviceView::unclaimed(tags, first) is Some
        },
        device.listed(tags, first) matches Some(list) ==> {
            list.release() == (Release::FreeTags { tags })
        },
        DeviceView::unclaimed(tags, first) matches Some(release) ==> {
            release == (Release::FreeTags { tags })
        },
{
}

/// Nothing is owed twice. In what is owed for a list of tags, the release of
/// the list, that of its device and that of its context each stand exactly
/// once, in this order, and nothing else stands there.
pub proof fn lemma_nothing_is_owed_twice(list: TagView)
    ensures
        list.owed().len() == 3,
        list.owed().no_duplicates(),
        list.owed()[0] == list.release(),
        list.owed()[1] == list.device.release(),
        list.owed()[2] == list.device.context.release(),
{
}

/// No release is ever asked for `NULL`: each call that is owed for a chain of
/// live wrappers is made on a handle that the driver returned.
pub proof fn lemma_no_release_of_null(list: TagView)
    requires
        list.wf(),
    ensures
        forall|i: int| 0 <= i < list.owed().len() ==> (#[trigger] list.owed()[i]).handle() != NULL,
{
}

/// The release of a string that the driver handed over is owed exactly when
/// there is such a string, and it is the release of that same allocation.
pub proof fn lemma_owned_text_is_released_once(text: Handle)
    ensures
        owed_for(text) is Some <==> text != NULL,
        owed_for(text) matches Some(release) ==> release == (Release::FreeText { text }),
{
}

} // verus!
