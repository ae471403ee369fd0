//! The adapter's fixed-capacity receive buffer.

use vstd::prelude::*;

use heapless::consts::U256;

verus! {

/// Number of bytes the receive buffer can hold.
pub const RX_CAPACITY: usize = 256;

/// A byte buffer of fixed capacity [`RX_CAPACITY`], kept in a
/// `heapless::Vec<u8, U256>`.
///
/// The verifier cannot take the type-level capacity `U256`, so it does not
/// look inside: what the buffer holds is [`RxBuffer::view`], and every
/// operation below is a contract on one method of `heapless::Vec`, taken
/// from its source.
#[verifier::external_body]
pub struct RxBuffer {
    inner: heapless::Vec<u8, U256>,
}

/// The bytes a receive buffer holds, oldest first.
pub uninterp spec fn rx_bytes(buffer: RxBuffer) -> Seq<u8>;

impl View for RxBuffer {
    type V = Seq<u8>;

    open spec fn view(&self) -> Seq<u8> {
        rx_bytes(*self)
    }
}

impl RxBuffer {
    /// `heapless::Vec::new`: a buffer that holds nothing.
    #[verifier::external_body]
    pub(crate) fn new() -> (buffer: RxBuffer)
        ensures
            rx_bytes(buffer).len() == 0,
    {
        RxBuffer { inner: heapless::Vec::new() }
    }

    /// `heapless::Vec::clear`: drops every byte held.
    #[verifier::external_body]
    pub(crate) fn clear(&mut self)
        ensures
            rx_bytes(*final(self)).len() == 0,
    {
        self.inner.clear()
    }

    /// `heapless::Vec::push`: appends `item` while fewer than
    /// [`RX_CAPACITY`] bytes are held; a full buffer stays as it is and hands
    /// `item` back.
    #[verifier::external_body]
    pub(crate) fn push(&mut self, item: u8) -> (pushed: Result<(), u8>)
        ensures
            pushed is Ok <==> rx_bytes(*old(self)).len() < RX_CAPACITY,
            pushed is Ok ==> rx_bytes(*final(self)) == rx_bytes(*old(self)).push(item),
            pushed matches Err(back) ==> back == item && rx_bytes(*final(self)) == rx_bytes(
                *old(self),
            ),
    {
        self.inner.push(item)
    }

    /// `heapless::Vec`'s `deref_mut`: the bytes held, as a slice through
    /// which they can be changed in place. What the slice holds when the
    /// borrow ends is what the buffer holds then.
    #[verifier::external_body]
    pub(crate) fn as_mut_slice(&mut self) -> (bytes: &mut [u8])
        ensures
            bytes@ == rx_bytes(*old(self)),
            final(bytes)@ == rx_bytes(*final(self)),
    {
        &mut self.inner
    }
}

} // verus!
