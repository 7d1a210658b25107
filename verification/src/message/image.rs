//! An uploaded image, kept by the host and known here by its handle.

use crate::abi::managed::ManagedCloneable;
use crate::abi::{Handle, RustStr, RustString};
use crate::message::{MessageElement, PushMessage};
use vstd::prelude::*;

verus! {

pub struct Image(pub ManagedCloneable);

impl Image {
    /// The identifier of the image, as `image_get_id` gives it for this image.
    pub fn id<'a, F: Fn(Handle) -> RustStr<'a>>(&self, image_get_id: &F) -> (r: &'a str)
        requires
            call_requires(image_get_id, (self.0.value.pointer,)),
        ensures
            exists|rs: RustStr<'a>| #[trigger]
                call_ensures(image_get_id, (self.0.value.pointer,), rs) && r@ == rs@,
    {
        let rs = image_get_id(self.0.value.pointer);
        rs.as_str()
    }

    /// The address of the image, as `image_get_url` gives it for this image.
    pub fn url<F: Fn(Handle) -> RustString>(&self, image_get_url: &F) -> (r: String)
        requires
            call_requires(image_get_url, (self.0.value.pointer,)),
        ensures
            exists|rs: RustString| #[trigger]
                call_ensures(image_get_url, (self.0.value.pointer,), rs) && r == rs.decoded(),
    {
        let rs = image_get_url(self.0.value.pointer);
        String::from(rs)
    }
}

impl PushMessage for Image {
    open spec fn obeys_push() -> bool {
        true
    }

    open spec fn pushes(self, before: Seq<MessageElement>, after: Seq<MessageElement>) -> bool {
        after == before.push(MessageElement::Image(self))
    }

    fn push_to(self, v: &mut Vec<MessageElement>) {
        v.push(MessageElement::Image(self));
    }
}

} // verus!
