//! Ownership, lifecycle and error discipline for a native multimedia library,
//! as a layer that decides and never performs: each operation says which
//! native call is due next and, from the replies received so far, what the
//! operation has come to.

use vstd::prelude::*;
use crate::native::{Call, Reply, Step};

pub mod codec;
pub mod device;
pub mod filter;
pub mod format;
pub mod native;
pub mod software;
pub mod util;

pub use crate::codec::discard::Discard;
pub use crate::codec::packet::Packet;
pub use crate::codec::{decoder, encoder};
pub use crate::filter::Filter;
pub use crate::format::Format;
pub use crate::util::dictionary::Owned as Dictionary;
pub use crate::util::error::Error;
pub use crate::util::format::ChannelLayout;
pub use crate::util::frame::Frame;
pub use crate::util::media;
pub use crate::util::rational::Rational;

verus! {

/// Getting the native library ready: the devices are registered, and that is
/// all. Formats, filters and codecs register themselves, and the text of an
/// error is looked up when it is shown. Nothing can fail.
pub open spec fn init_spec(replies: Seq<Reply>) -> Step<(), Result<(), Error>> {
    if replies.len() == 0 {
        Step::Call(Call::RegisterDevices, ())
    } else {
        Step::Done(Ok(()))
    }
}

/// The call that gets the devices ready.
fn init_device() -> (call: Call)
    ensures
        call == Call::RegisterDevices,
{
    device::register_all()
}

/// Gets the native library ready for every other operation of this crate.
pub fn init(replies: &[Reply]) -> (step: Step<(), Result<(), Error>>)
    ensures
        step == init_spec(replies@),
{
    if replies.len() == 0 {
        Step::Call(init_device(), ())
    } else {
        Step::Done(Ok(()))
    }
}

} // verus!
